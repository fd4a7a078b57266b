use uring_rt::error::UringError;

#[test]
fn init_creates_a_checked_ring_or_reports_why_not() {
    match uring_rt::init() {
        Ok(mut plat) => {
            assert!(!plat.registry.is_pending(1));
            assert_eq!(plat.registry.new_io_key(), 1);
            assert!(plat.reset().is_ok());
            assert_eq!(plat.registry.new_io_key(), 1);
        }
        Err(e) => assert!(matches!(
            e,
            UringError::FailedInit(_)
                | UringError::UnsupportedFeature("no_drop")
                | UringError::ProbeFailed(_)
                | UringError::UnsupportedOpcode(_)
        )),
    }
}
