use zero2prod::telemetry::TracingLatch;

#[test]
fn only_the_first_call_sets_the_logging_up() {
    let mut latch = TracingLatch::new();
    assert!(!latch.initialized());
    assert!(latch.ensure_initialized());
    assert!(latch.initialized());
    for _ in 0..10 {
        assert!(!latch.ensure_initialized());
        assert!(latch.initialized());
    }
}
