use dft::lifecycle::{next_state, LifecycleError, LifecycleEvent, ServerLifecycle, ServerState};

#[test]
fn transitions_follow_the_lifecycle() {
    assert_eq!(next_state(ServerState::Created, LifecycleEvent::Started), Ok(ServerState::Running));
    assert_eq!(
        next_state(ServerState::Running, LifecycleEvent::ShutdownSignalled),
        Ok(ServerState::ShuttingDown)
    );
    assert_eq!(
        next_state(ServerState::ShuttingDown, LifecycleEvent::TaskFinished),
        Ok(ServerState::Stopped)
    );
    assert_eq!(
        next_state(ServerState::Running, LifecycleEvent::TaskFinished),
        Ok(ServerState::Stopped)
    );
}

#[test]
fn stopped_is_terminal() {
    for e in [LifecycleEvent::Started, LifecycleEvent::ShutdownSignalled, LifecycleEvent::TaskFinished] {
        assert_eq!(next_state(ServerState::Stopped, e), Err(LifecycleError::InvalidTransition));
    }
    assert_eq!(
        next_state(ServerState::Created, LifecycleEvent::ShutdownSignalled),
        Err(LifecycleError::InvalidTransition)
    );
}

#[test]
fn signal_and_wait_hands_out_both_resources_once() {
    let mut app: ServerLifecycle<&str, u32> = ServerLifecycle::start("tx", 7);
    assert_eq!(app.state(), ServerState::Running);
    assert_eq!(app.begin_shutdown(), Ok(("tx", 7)));
    assert_eq!(app.state(), ServerState::ShuttingDown);
    assert_eq!(app.begin_shutdown(), Err(LifecycleError::ShutdownAlreadySignalled));
    assert_eq!(app.begin_wait(), Err(LifecycleError::TaskAlreadyAwaited));
    assert_eq!(app.finish(), Ok(()));
    assert_eq!(app.state(), ServerState::Stopped);
    assert_eq!(app.finish(), Err(LifecycleError::InvalidTransition));
}

#[test]
fn natural_exit_takes_the_task_only() {
    let mut app: ServerLifecycle<&str, u32> = ServerLifecycle::start("tx", 9);
    assert_eq!(app.finish(), Err(LifecycleError::InvalidTransition));
    assert_eq!(app.begin_wait(), Ok(9));
    assert_eq!(app.state(), ServerState::Running);
    assert_eq!(app.begin_wait(), Err(LifecycleError::TaskAlreadyAwaited));
    assert_eq!(app.begin_shutdown(), Err(LifecycleError::TaskAlreadyAwaited));
    assert_eq!(app.finish(), Ok(()));
    assert_eq!(app.state(), ServerState::Stopped);
    assert_eq!(app.begin_shutdown(), Err(LifecycleError::ShutdownAlreadySignalled));
}
