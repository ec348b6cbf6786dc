use arti_android::listener::{AcceptEvent, AcceptLoop, LoopAction, LoopState};

#[test]
fn a_new_loop_accepts() {
    let accept_loop = AcceptLoop::new();
    assert_eq!(accept_loop.state(), LoopState::Accepting);
}

#[test]
fn every_accepted_connection_is_dispatched() {
    let mut accept_loop = AcceptLoop::new();
    for _ in 0..100 {
        assert_eq!(accept_loop.on_accept(AcceptEvent::Accepted), LoopAction::Dispatch);
        assert_eq!(accept_loop.state(), LoopState::Accepting);
    }
}

#[test]
fn a_failed_accept_ends_the_loop() {
    let mut accept_loop = AcceptLoop::new();
    assert_eq!(accept_loop.on_accept(AcceptEvent::Accepted), LoopAction::Dispatch);
    assert_eq!(accept_loop.on_accept(AcceptEvent::Failed), LoopAction::Exit);
    assert_eq!(accept_loop.state(), LoopState::Exited);
}

#[test]
fn nothing_is_accepted_after_the_loop_has_exited() {
    let mut accept_loop = AcceptLoop::new();
    assert_eq!(accept_loop.on_accept(AcceptEvent::Failed), LoopAction::Exit);
    for _ in 0..10 {
        assert_eq!(accept_loop.on_accept(AcceptEvent::Accepted), LoopAction::Exit);
        assert_eq!(accept_loop.state(), LoopState::Exited);
        assert_eq!(accept_loop.on_accept(AcceptEvent::Failed), LoopAction::Exit);
        assert_eq!(accept_loop.state(), LoopState::Exited);
    }
}

#[test]
fn dispatches_stop_at_the_first_failure() {
    let events = [
        AcceptEvent::Accepted,
        AcceptEvent::Accepted,
        AcceptEvent::Accepted,
        AcceptEvent::Failed,
        AcceptEvent::Accepted,
        AcceptEvent::Failed,
        AcceptEvent::Accepted,
    ];
    let mut accept_loop = AcceptLoop::new();
    let mut dispatched = 0;
    for event in events {
        if accept_loop.on_accept(event) == LoopAction::Dispatch {
            dispatched += 1;
        }
    }
    assert_eq!(dispatched, 3);
    assert_eq!(accept_loop.state(), LoopState::Exited);
}
