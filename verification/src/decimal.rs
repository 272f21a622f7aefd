//! Decimal rendering of surface dimensions.
//!
//! A resize writes the presentation size into the host style as
//! `"{w}px"`. The contract of that operation needs an exact statement
//! of the text written, so the decimal rendering is specified here as a
//! spec function and implemented against it.

use vstd::prelude::*;

verus! {

/// The character for one decimal digit.
pub open spec fn digit_char(d: nat) -> char {
    if d == 0 {
        '0'
    } else if d == 1 {
        '1'
    } else if d == 2 {
        '2'
    } else if d == 3 {
        '3'
    } else if d == 4 {
        '4'
    } else if d == 5 {
        '5'
    } else if d == 6 {
        '6'
    } else if d == 7 {
        '7'
    } else if d == 8 {
        '8'
    } else {
        '9'
    }
}

/// The usual decimal rendering of `n`: no sign, no leading zero except
/// for `n == 0` itself.
pub open spec fn dec_text(n: nat) -> Seq<char>
    decreases n,
{
    if n < 10 {
        seq![digit_char(n)]
    } else {
        dec_text(n / 10).push(digit_char(n % 10))
    }
}

/// The decimal rendering of `n` followed by the unit suffix `px`.
pub open spec fn px_text(n: nat) -> Seq<char> {
    dec_text(n) + seq!['p', 'x']
}

/// The one-character string for a decimal digit.
fn digit_str(d: u32) -> (r: &'static str)
    requires
        d < 10,
    ensures
        r@ =~= seq![digit_char(d as nat)],
{
    proof {
        reveal_strlit("0");
        reveal_strlit("1");
        reveal_strlit("2");
        reveal_strlit("3");
        reveal_strlit("4");
        reveal_strlit("5");
        reveal_strlit("6");
        reveal_strlit("7");
        reveal_strlit("8");
        reveal_strlit("9");
    }
    match d {
        0 => "0",
        1 => "1",
        2 => "2",
        3 => "3",
        4 => "4",
        5 => "5",
        6 => "6",
        7 => "7",
        8 => "8",
        _ => "9",
    }
}

/// Renders `n` in decimal.
pub fn u32_to_string(n: u32) -> (r: String)
    ensures
        r@ =~= dec_text(n as nat),
    decreases n,
{
    if n < 10 {
        String::from_str(digit_str(n))
    } else {
        let mut prefix = u32_to_string(n / 10);
        prefix.append(digit_str(n % 10));
        prefix
    }
}

/// Renders `n` in decimal with the `px` unit suffix, as host style
/// properties expect it.
pub fn px_string(n: u32) -> (r: String)
    ensures
        r@ =~= px_text(n as nat),
{
    let mut text = u32_to_string(n);
    proof {
        reveal_strlit("px");
    }
    text.append("px");
    text
}

} // verus!
