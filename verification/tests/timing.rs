use bouncing_spheres::animation::num_frames;
use bouncing_spheres::stopwatch::{measure, Stopwatch};

#[test]
fn test_num_frames() {
    assert_eq!(num_frames(), 480);
}

#[test]
fn test_stopwatch_runs() {
    let mut stopwatch = Stopwatch::new();
    let first = stopwatch.elapsed();
    let second = stopwatch.elapsed();
    // The monotonic clock never runs backward.
    assert!(second >= first);
    let before_reset = stopwatch.check_and_reset();
    assert!(before_reset >= second);
}

#[test]
fn test_measure_returns_the_closure_result() {
    let (result, duration) = measure(|| 6 * 7);
    assert_eq!(result, 42);
    assert!(duration.as_nanos() < u128::MAX);
}
