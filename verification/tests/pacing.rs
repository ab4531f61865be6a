use launcher_menu::present::{AcquireDirective, AcquireOutcome, FrameToken, Pipeline};

#[test]
fn second_frame_waits_for_previous_fence() {
    // A mock fence log: the pipeline must order the wait on frame 0's
    // fence before frame 1's submission is allowed.
    let mut p = Pipeline::new(800, 600);
    let mut log: Vec<String> = Vec::new();

    let t0 = p.try_submit().expect("first submission is allowed");
    log.push(format!("submit {}", t0.frame));

    // No second submission before the fence wait.
    assert_eq!(p.try_submit(), None);

    let fence = p.wait_previous().expect("frame 0 is outstanding");
    assert_eq!(fence, t0);
    log.push(format!("wait {}", fence.frame));

    let t1 = p.try_submit().expect("submission after the wait is allowed");
    log.push(format!("submit {}", t1.frame));

    assert_eq!(log, vec![
        "submit 0".to_string(),
        "wait 0".to_string(),
        "submit 1".to_string(),
    ]);
    assert_eq!(p.submitted, 2);
    assert_eq!(p.waited, 1);
}

#[test]
fn at_most_one_frame_outstanding() {
    let mut p = Pipeline::new(100, 100);
    for _ in 0..50 {
        if p.try_submit().is_some() {
            assert_eq!(p.submitted - p.waited, 1);
        }
        assert!(p.submitted - p.waited <= 1);
        p.wait_previous();
        assert_eq!(p.submitted, p.waited);
    }
    assert_eq!(p.submitted, 50);
}

#[test]
fn wait_with_nothing_outstanding_is_a_no_op() {
    let mut p = Pipeline::new(100, 100);
    assert_eq!(p.wait_previous(), None);
    assert_eq!(p.waited, 0);
}

#[test]
fn frame_tokens_count_up() {
    let mut p = Pipeline::new(100, 100);
    for expected in 0..5u64 {
        let t = p.try_submit().unwrap();
        assert_eq!(t, FrameToken { frame: expected });
        p.wait_previous();
    }
}

#[test]
fn resize_to_same_size_recreates_nothing() {
    let mut p = Pipeline::new(800, 600);
    assert_eq!(p.recreations, 1);
    assert!(!p.resize(800, 600));
    assert_eq!(p.recreations, 1);
}

#[test]
fn resize_twice_recreates_at_most_once() {
    let mut p = Pipeline::new(800, 600);
    assert!(p.resize(1024, 768));
    assert_eq!(p.recreations, 2);
    assert!(!p.resize(1024, 768));
    assert_eq!(p.recreations, 2);
    assert_eq!((p.width, p.height), (1024, 768));
}

#[test]
fn out_of_date_acquisition_recreates_and_retries() {
    let mut p = Pipeline::new(800, 600);
    let d = p.on_acquire(AcquireOutcome::OutOfDate, 640, 480);
    assert_eq!(d, AcquireDirective::Retry);
    assert_eq!(p.recreations, 2);
    assert_eq!((p.width, p.height), (640, 480));

    // Even at an unchanged size an out-of-date swapchain is rebuilt.
    let d2 = p.on_acquire(AcquireOutcome::OutOfDate, 640, 480);
    assert_eq!(d2, AcquireDirective::Retry);
    assert_eq!(p.recreations, 3);
}

#[test]
fn successful_acquisition_proceeds_untouched() {
    let mut p = Pipeline::new(800, 600);
    let d = p.on_acquire(AcquireOutcome::Acquired, 800, 600);
    assert_eq!(d, AcquireDirective::Proceed);
    assert_eq!(p.recreations, 1);
}

#[test]
fn fatal_acquisition_fails() {
    let mut p = Pipeline::new(800, 600);
    let d = p.on_acquire(AcquireOutcome::Fatal, 800, 600);
    assert_eq!(d, AcquireDirective::Fail);
    assert_eq!(p.recreations, 1);
}
