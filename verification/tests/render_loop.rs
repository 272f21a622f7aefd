use gl_lessons::render_loop::RenderLoop;

#[test]
fn new_loop_is_stopped() {
    let render_loop = RenderLoop::new(60);
    assert_eq!(render_loop.on_tick(1000), None);
    assert!(!render_loop.should_reregister());
}

#[test]
fn running_cadence_with_scripted_clock() {
    // A scripted clock that advances 16 ms per tick: after N ticks the
    // callback has seen N monotonically increasing timestamps and the
    // loop asked to re-register N times.
    let mut render_loop = RenderLoop::new(60);
    assert!(render_loop.start());
    let ticks: u32 = 8;
    let mut delivered: Vec<u64> = Vec::new();
    let mut registrations: u32 = 0;
    for i in 0..ticks {
        let now: u64 = 1000 + 16 * u64::from(i);
        if let Some(t) = render_loop.on_tick(now) {
            delivered.push(t);
        }
        if render_loop.should_reregister() {
            registrations += 1;
        }
    }
    let expected: Vec<u64> = (0..ticks).map(|i| 1000 + 16 * u64::from(i)).collect();
    assert_eq!(delivered, expected);
    assert!(delivered.windows(2).all(|w| w[0] < w[1]));
    assert_eq!(registrations, ticks);
}

#[test]
fn stop_halts_cadence() {
    // After N ticks, stopping prevents any further callback invocation
    // even though the scheduler keeps firing.
    let mut render_loop = RenderLoop::new(60);
    render_loop.start();
    let mut invocations: u32 = 0;
    for i in 0..5u64 {
        if render_loop.on_tick(1000 + 16 * i).is_some() {
            invocations += 1;
        }
    }
    assert_eq!(invocations, 5);
    render_loop.stop();
    for i in 5..10u64 {
        assert_eq!(render_loop.on_tick(1000 + 16 * i), None);
        assert!(!render_loop.should_reregister());
    }
}

#[test]
fn restart_resumes_delivery() {
    let mut render_loop = RenderLoop::new(30);
    render_loop.start();
    assert_eq!(render_loop.on_tick(42), Some(42));
    render_loop.stop();
    assert_eq!(render_loop.on_tick(58), None);
    render_loop.start();
    assert_eq!(render_loop.on_tick(74), Some(74));
}
