use my_server::polling::{accept_action, AcceptOutcome, LoopState, PollAction, PollLoop};

#[test]
fn flag_false_before_first_poll_accepts_nothing() {
    let mut lp = PollLoop::new();
    assert_eq!(lp.current(), LoopState::Created);
    lp.start();
    assert_eq!(lp.current(), LoopState::Running);
    assert!(!lp.poll(false));
    assert_eq!(lp.current(), LoopState::Stopping);
    lp.finish();
    assert_eq!(lp.current(), LoopState::Stopped);
}

#[test]
fn running_loop_keeps_accepting() {
    let mut lp = PollLoop::new();
    lp.start();
    for _ in 0..3 {
        assert!(lp.poll(true));
        assert_eq!(lp.current(), LoopState::Running);
    }
    assert!(!lp.poll(false));
    assert_eq!(lp.current(), LoopState::Stopping);
}

#[test]
fn accept_outcomes_map_to_actions() {
    assert_eq!(accept_action(AcceptOutcome::Connection), PollAction::Dispatch);
    assert_eq!(accept_action(AcceptOutcome::WouldBlock), PollAction::Idle);
    assert_eq!(accept_action(AcceptOutcome::Failed), PollAction::Report);
}
