use dke_sim::driver::SimScheduler;

/// Classic fourth-order Runge-Kutta step for the two-field free-fall state
/// (altitude, vertical speed) under a constant gravitational acceleration.
fn rk4_step(state: [f64; 2], dt: f64, g: f64) -> [f64; 2] {
    let f = |x: [f64; 2]| [x[1], -g];
    let add = |a: [f64; 2], b: [f64; 2], s: f64| [a[0] + b[0] * s, a[1] + b[1] * s];
    let k1 = f(state);
    let k2 = f(add(state, k1, dt / 2.0));
    let k3 = f(add(state, k2, dt / 2.0));
    let k4 = f(add(state, k3, dt));
    [
        state[0] + (k1[0] + 2.0 * k2[0] + 2.0 * k3[0] + k4[0]) * dt / 6.0,
        state[1] + (k1[1] + 2.0 * k2[1] + 2.0 * k3[1] + k4[1]) * dt / 6.0,
    ]
}

#[test]
fn free_fall_exits_at_the_expected_time() {
    // at rest 1000 m above a flat reference body, atmosphere disabled
    let g = 9.80665_f64;
    let h0 = 1000.0_f64;
    let dt = 0.001_f64;
    let t_end = 60.0_f64;
    let n_steps = (t_end / dt) as u64;
    let mut sched = SimScheduler::new(n_steps, 1000, 1000, 1000);
    sched.begin();
    sched.archive_done();
    let mut state = [h0, 0.0];
    while !sched.finished() {
        state = rk4_step(state, dt, g);
        let d = sched.advance(state[0] < 0.0);
        if d.archive {
            sched.archive_done();
        }
    }
    assert!(sched.early_exit);
    let exit_time = sched.step as f64 * dt;
    // free-fall time from 1000 m is sqrt(2 h / g), about 14.28 s
    let expected = (2.0 * h0 / g).sqrt();
    assert!((exit_time - expected).abs() < 0.002);
}
