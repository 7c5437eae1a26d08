use vstd::prelude::*;

verus! {

/// Seconds a single request may run before the server ends it.
pub const DEFAULT_TIMEOUT_SECONDS: u64 = 60;

/// The phases a served endpoint passes through. `Stopped` is terminal.
#[derive(Clone, Copy, Debug, PartialEq, Eq, Structural)]
pub enum ServerState {
    Created,
    Running,
    ShuttingDown,
    Stopped,
}

/// What moves a server from one phase to the next.
#[derive(Clone, Copy, Debug, PartialEq, Eq, Structural)]
pub enum LifecycleEvent {
    /// The listener is bound and metrics are installed.
    Started,
    /// The single-use shutdown signal was sent.
    ShutdownSignalled,
    /// The background task has finished: the accept loop ceased and in-flight work drained.
    TaskFinished,
}

/// Lifecycle misuse: an operation that the current phase does not allow.
#[derive(Clone, Copy, Debug, PartialEq, Eq, Structural)]
pub enum LifecycleError {
    /// The shutdown signal sender was already consumed.
    ShutdownAlreadySignalled,
    /// The background task handle was already consumed.
    TaskAlreadyAwaited,
    /// The event does not apply to the current phase.
    InvalidTransition,
}

/// The transition relation of the server lifecycle, as a partial function.
pub open spec fn next_state_spec(s: ServerState, e: LifecycleEvent) -> Option<ServerState> {
    match (s, e) {
        (ServerState::Created, LifecycleEvent::Started) => Some(ServerState::Running),
        (ServerState::Running, LifecycleEvent::ShutdownSignalled) => Some(ServerState::ShuttingDown),
        (ServerState::Running, LifecycleEvent::TaskFinished) => Some(ServerState::Stopped),
        (ServerState::ShuttingDown, LifecycleEvent::TaskFinished) => Some(ServerState::Stopped),
        _ => None,
    }
}

/// Applies one event to a phase; an event that does not apply is rejected.
pub fn next_state(s: ServerState, e: LifecycleEvent) -> (r: Result<ServerState, LifecycleError>)
    ensures
        r is Ok <==> next_state_spec(s, e) is Some,
        r is Ok ==> Some(r->Ok_0) == next_state_spec(s, e),
        r is Err ==> r->Err_0 == LifecycleError::InvalidTransition,
{
    match (s, e) {
        (ServerState::Created, LifecycleEvent::Started) => Ok(ServerState::Running),
        (ServerState::Running, LifecycleEvent::ShutdownSignalled) => Ok(ServerState::ShuttingDown),
        (ServerState::Running, LifecycleEvent::TaskFinished) => Ok(ServerState::Stopped),
        (ServerState::ShuttingDown, LifecycleEvent::TaskFinished) => Ok(ServerState::Stopped),
        _ => Err(LifecycleError::InvalidTransition),
    }
}

/// The take-once resources of a running server: the shutdown signal sender `S`
/// and the handle `H` of the background task that serves requests.
///
/// Each resource leaves the handle at most once; a second attempt is reported
/// as a `LifecycleError` instead of being ignored.
pub struct ServerLifecycle<S, H> {
    shutdown: Option<S>,
    handle: Option<H>,
    state: ServerState,
}

impl<S, H> ServerLifecycle<S, H> {
    /// The current phase.
    pub closed spec fn phase(self) -> ServerState {
        self.state
    }

    /// The shutdown sender, while it has not been taken.
    pub closed spec fn signal(self) -> Option<S> {
        self.shutdown
    }

    /// The task handle, while it has not been taken.
    pub closed spec fn task(self) -> Option<H> {
        self.handle
    }

    /// A handle that was started: the sender is held until shutdown is
    /// signalled, and a stopped server holds no task.
    pub open spec fn wf(self) -> bool {
        &&& self.phase() != ServerState::Created
        &&& (self.phase() == ServerState::Running <==> self.signal() is Some)
        &&& self.phase() == ServerState::Stopped ==> self.task() is None
    }

    /// The handle once signal-and-wait has taken both resources.
    pub closed spec fn signalled(self) -> Self {
        ServerLifecycle { shutdown: None, handle: None, state: ServerState::ShuttingDown }
    }

    /// Whether signal-and-wait may begin: both resources are still held.
    pub open spec fn can_shutdown(self) -> bool {
        self.signal() is Some && self.task() is Some
    }

    /// Whether waiting on the task may begin: the task handle is still held.
    pub open spec fn can_wait(self) -> bool {
        self.task() is Some
    }

    /// The error that signal-and-wait reports where it may not begin.
    pub open spec fn shutdown_error(self) -> LifecycleError {
        if self.signal() is None {
            LifecycleError::ShutdownAlreadySignalled
        } else {
            LifecycleError::TaskAlreadyAwaited
        }
    }

    /// Wraps the resources of a server that has just been started.
    pub fn start(shutdown: S, handle: H) -> (r: Self)
        ensures
            r.wf(),
            r.phase() == ServerState::Running,
            r.signal() == Some(shutdown),
            r.task() == Some(handle),
    {
        ServerLifecycle { shutdown: Some(shutdown), handle: Some(handle), state: ServerState::Running }
    }

    /// The current phase.
    pub fn state(&self) -> (r: ServerState)
        ensures
            r == self.phase(),
    {
        self.state
    }

    /// First step of signal-and-wait: takes both the shutdown sender, which
    /// the caller then fires, and the task handle, which the caller then awaits.
    /// Where either was already taken nothing changes and the misuse is reported.
    pub fn begin_shutdown(&mut self) -> (r: Result<(S, H), LifecycleError>)
        requires
            old(self).wf(),
        ensures
            final(self).wf(),
            r is Ok <==> old(self).can_shutdown(),
            r is Ok ==> {
                &&& r->Ok_0 == (old(self).signal()->0, old(self).task()->0)
                &&& *final(self) == old(self).signalled()
                &&& final(self).phase() == ServerState::ShuttingDown
                &&& final(self).signal() is None
                &&& final(self).task() is None
            },
            r is Err ==> {
                &&& r->Err_0 == old(self).shutdown_error()
                &&& *final(self) == *old(self)
            },
    {
        if self.shutdown.is_none() {
            return Err(LifecycleError::ShutdownAlreadySignalled);
        }
        if self.handle.is_none() {
            return Err(LifecycleError::TaskAlreadyAwaited);
        }
        let tx = self.shutdown.take().unwrap();
        let task = self.handle.take().unwrap();
        self.state = ServerState::ShuttingDown;
        Ok((tx, task))
    }

    /// First step of wait-for-natural-exit: takes the task handle, which the
    /// caller then awaits, without signalling shutdown.
    pub fn begin_wait(&mut self) -> (r: Result<H, LifecycleError>)
        requires
            old(self).wf(),
        ensures
            final(self).wf(),
            r is Ok <==> old(self).can_wait(),
            r is Ok ==> {
                &&& r->Ok_0 == old(self).task()->0
                &&& final(self).phase() == old(self).phase()
                &&& final(self).signal() == old(self).signal()
                &&& final(self).task() is None
            },
            r is Err ==> {
                &&& r->Err_0 == LifecycleError::TaskAlreadyAwaited
                &&& *final(self) == *old(self)
            },
    {
        match self.handle.take() {
            Some(task) => Ok(task),
            None => Err(LifecycleError::TaskAlreadyAwaited),
        }
    }

    /// Records that the awaited background task has finished. Allowed once the
    /// task handle was taken, from `Running` or `ShuttingDown`.
    pub fn finish(&mut self) -> (r: Result<(), LifecycleError>)
        requires
            old(self).wf(),
        ensures
            final(self).wf(),
            r is Ok <==> (old(self).task() is None && old(self).phase() != ServerState::Stopped),
            r is Ok ==> {
                &&& final(self).phase() == ServerState::Stopped
                &&& final(self).signal() is None
                &&& final(self).task() is None
            },
            r is Err ==> {
                &&& r->Err_0 == LifecycleError::InvalidTransition
                &&& *final(self) == *old(self)
            },
    {
        if self.handle.is_some() {
            return Err(LifecycleError::InvalidTransition);
        }
        match next_state(self.state, LifecycleEvent::TaskFinished) {
            Ok(s) => {
                self.state = s;
                self.shutdown = None;
                Ok(())
            },
            Err(e) => Err(e),
        }
    }
}

/// Signal-and-wait is single use: once it has begun, a second signal-and-wait
/// and a wait for natural exit are both refused as misuse, and the only step
/// left is to `Stopped`.
pub proof fn lemma_shutdown_single_use<S, H>(before: ServerLifecycle<S, H>)
    requires
        before.wf(),
        before.can_shutdown(),
    ensures
        before.signalled().wf(),
        before.signalled().phase() == ServerState::ShuttingDown,
        !before.signalled().can_shutdown(),
        before.signalled().shutdown_error() == LifecycleError::ShutdownAlreadySignalled,
        !before.signalled().can_wait(),
        next_state_spec(before.signalled().phase(), LifecycleEvent::TaskFinished)
            == Some(ServerState::Stopped),
{
}

/// `Stopped` is terminal: no event leads out of it.
pub proof fn lemma_stopped_is_terminal(e: LifecycleEvent)
    ensures
        next_state_spec(ServerState::Stopped, e) is None,
{
}

} // verus!
