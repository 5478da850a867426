use vstd::prelude::*;
use crate::error::{BindFailure, Shutdown, SyncifyError};

verus! {

/// Seconds a draining router waits for its handler tasks before aborting them.
pub const GRACE_SECS: u64 = 5;

/// Seconds within which a connection has to be established.
pub const CONNECT_DEADLINE_SECS: u64 = 30;

/// Seconds that one attempt to publish to a discovery service may take.
pub const PUBLISH_DEADLINE_SECS: u64 = 10;

/// The three cooperating protocol handlers.
#[derive(Clone, Copy, PartialEq, Eq, Structural, Debug)]
pub enum Protocol {
    Blobs,
    Gossip,
    Docs,
}

/// Life cycle of the router.
#[derive(Clone, Copy, PartialEq, Eq, Structural, Debug)]
pub enum RouterState {
    Building,
    Ready,
    Draining,
    Stopped,
    Failed(SyncifyError),
}

/// What an attempt to bind the endpoint came to.
#[derive(Clone, Copy, PartialEq, Eq, Structural, Debug)]
pub enum BindOutcome {
    /// Bound, both advertisers running.
    Bound,
    /// Bound, but the global rendezvous service could not be reached: it is retried in the
    /// background while the node runs on local discovery.
    DiscoveryUnavailable,
    AddressInUse,
    PermissionDenied,
    Other,
}

/// What the outside world reports to the router.
#[derive(Clone, Copy, PartialEq, Eq, Structural, Debug)]
pub enum Event {
    BindFinished(BindOutcome),
    HandlerStarted(Protocol),
    HandlerFailed(Protocol),
    Spawned,
    /// A handler task ended in a failure on its one stream.
    StreamFailed,
    ShutdownRequested,
    Drained,
    GraceElapsed,
    EndpointLost,
}

/// What the caller has to do after an event.
#[derive(Clone, Copy, PartialEq, Eq, Structural, Debug)]
pub enum Action {
    /// Construct and start this handler on the bound endpoint.
    StartHandler(Protocol),
    /// Register the three handlers and start the accept loop.
    Spawn,
    /// Keep accepting streams.
    Serve,
    /// Stop accepting, cancel the handler tasks and wait at most this many seconds.
    Drain(u64),
    /// Stop whatever was started, drop the endpoint, and report the failure.
    Release(SyncifyError),
    /// Abort what still runs, drop the endpoint, and report how the shutdown ended.
    Finish(Shutdown),
    /// The event does not fit the state: nothing changed, nothing to do.
    Ignored,
}

/// The router's supervision state: where it is in its life cycle and what has been started.
#[derive(Clone, Copy, PartialEq, Eq, Structural, Debug)]
pub struct Machine {
    pub state: RouterState,
    pub bound: bool,
    pub degraded: bool,
    pub blobs: bool,
    pub gossip: bool,
    pub docs: bool,
}

/// The failure that an outcome of binding stands for, if it is one.
pub open spec fn bind_failure(outcome: BindOutcome) -> Option<BindFailure> {
    match outcome {
        BindOutcome::Bound | BindOutcome::DiscoveryUnavailable => None,
        BindOutcome::AddressInUse => Some(BindFailure::AddressInUse),
        BindOutcome::PermissionDenied => Some(BindFailure::PermissionDenied),
        BindOutcome::Other => Some(BindFailure::Other),
    }
}

impl Machine {
    /// Nothing bound, nothing started.
    pub open spec fn idle(state: RouterState) -> Machine {
        Machine { state, bound: false, degraded: false, blobs: false, gossip: false, docs: false }
    }

    /// The endpoint is bound and all three handlers run.
    pub open spec fn all_started(self) -> bool {
        self.bound && self.blobs && self.gossip && self.docs
    }

    /// This state with handler `p` running.
    pub open spec fn with_handler(self, p: Protocol) -> Machine {
        match p {
            Protocol::Blobs => Machine { blobs: true, ..self },
            Protocol::Gossip => Machine { gossip: true, ..self },
            Protocol::Docs => Machine { docs: true, ..self },
        }
    }

    /// Whether handler `p` may be started now: the endpoint is bound, `p` is not yet
    /// running, and the document handler comes after the two it builds on.
    pub open spec fn may_start(self, p: Protocol) -> bool {
        self.state == RouterState::Building && self.bound && match p {
            Protocol::Blobs => !self.blobs,
            Protocol::Gossip => !self.gossip,
            Protocol::Docs => self.blobs && self.gossip && !self.docs,
        }
    }

    /// States that can be reached: a serving or draining router has everything running, a
    /// terminal one holds nothing, and during bring-up the construction order was kept.
    pub open spec fn wf(self) -> bool {
        match self.state {
            RouterState::Building => {
                &&& (self.blobs || self.gossip) ==> self.bound
                &&& self.docs ==> self.blobs && self.gossip
                &&& self.degraded ==> self.bound
            },
            RouterState::Ready | RouterState::Draining => self.all_started(),
            RouterState::Stopped | RouterState::Failed(_) => {
                !self.bound && !self.degraded && !self.blobs && !self.gossip && !self.docs
            },
        }
    }

    /// Whether `e` is an event that this state reacts to.
    pub open spec fn reacts(self, e: Event) -> bool {
        match (self.state, e) {
            (RouterState::Building, Event::BindFinished(_)) => !self.bound,
            (RouterState::Building, Event::HandlerStarted(p)) => self.may_start(p),
            (RouterState::Building, Event::HandlerFailed(_)) => self.bound,
            (RouterState::Building, Event::Spawned) => self.all_started(),
            (RouterState::Building, Event::EndpointLost) => self.bound,
            (RouterState::Ready, Event::StreamFailed) => true,
            (RouterState::Ready, Event::ShutdownRequested) => true,
            (RouterState::Ready, Event::EndpointLost) => true,
            (RouterState::Draining, Event::Drained) => true,
            (RouterState::Draining, Event::GraceElapsed) => true,
            (RouterState::Draining, Event::EndpointLost) => true,
            _ => false,
        }
    }

    /// The handler to start next, or `Spawn` when all three run.
    pub open spec fn next_step(self) -> Action {
        if !self.blobs {
            Action::StartHandler(Protocol::Blobs)
        } else if !self.gossip {
            Action::StartHandler(Protocol::Gossip)
        } else if !self.docs {
            Action::StartHandler(Protocol::Docs)
        } else {
            Action::Spawn
        }
    }

    /// The state after `e`.
    pub open spec fn next(self, e: Event) -> Machine {
        if !self.reacts(e) {
            self
        } else {
            match e {
                Event::BindFinished(outcome) => match bind_failure(outcome) {
                    Some(f) => Machine::idle(RouterState::Failed(SyncifyError::BindFailed(f))),
                    None => Machine {
                        bound: true,
                        degraded: outcome == BindOutcome::DiscoveryUnavailable,
                        ..self
                    },
                },
                Event::HandlerStarted(p) => self.with_handler(p),
                Event::HandlerFailed(_) => Machine::idle(
                    RouterState::Failed(SyncifyError::HandlerStartFailed),
                ),
                Event::Spawned => Machine { state: RouterState::Ready, ..self },
                Event::StreamFailed => self,
                Event::ShutdownRequested => Machine { state: RouterState::Draining, ..self },
                Event::Drained | Event::GraceElapsed => Machine::idle(RouterState::Stopped),
                Event::EndpointLost => Machine::idle(
                    RouterState::Failed(SyncifyError::EndpointLost),
                ),
            }
        }
    }

    /// What the caller is asked to do after `e`.
    pub open spec fn reply(self, e: Event) -> Action {
        if !self.reacts(e) {
            Action::Ignored
        } else {
            match e {
                Event::BindFinished(outcome) => match bind_failure(outcome) {
                    Some(f) => Action::Release(SyncifyError::BindFailed(f)),
                    None => self.next(e).next_step(),
                },
                Event::HandlerStarted(_) => self.next(e).next_step(),
                Event::HandlerFailed(_) => Action::Release(SyncifyError::HandlerStartFailed),
                Event::Spawned | Event::StreamFailed => Action::Serve,
                Event::ShutdownRequested => Action::Drain(GRACE_SECS),
                Event::Drained => Action::Finish(Shutdown::Clean),
                Event::GraceElapsed => Action::Finish(Shutdown::Timeout),
                Event::EndpointLost => Action::Release(SyncifyError::EndpointLost),
            }
        }
    }

    /// A router that has not bound anything yet.
    pub fn new() -> (m: Machine)
        ensures
            m == Machine::idle(RouterState::Building),
            m.wf(),
    {
        Machine {
            state: RouterState::Building,
            bound: false,
            degraded: false,
            blobs: false,
            gossip: false,
            docs: false,
        }
    }

    fn cleared(state: RouterState) -> (m: Machine)
        ensures
            m == Machine::idle(state),
    {
        Machine { state, bound: false, degraded: false, blobs: false, gossip: false, docs: false }
    }

    fn upcoming(&self) -> (a: Action)
        ensures
            a == self.next_step(),
    {
        if !self.blobs {
            Action::StartHandler(Protocol::Blobs)
        } else if !self.gossip {
            Action::StartHandler(Protocol::Gossip)
        } else if !self.docs {
            Action::StartHandler(Protocol::Docs)
        } else {
            Action::Spawn
        }
    }

    fn building(&self) -> (b: bool)
        ensures
            b == (self.state == RouterState::Building),
    {
        match self.state {
            RouterState::Building => true,
            _ => false,
        }
    }

    /// Takes one event: moves to the next state and says what to do. An event that does
    /// not fit the state changes nothing and is answered with `Ignored`.
    pub fn step(&mut self, e: Event) -> (a: Action)
        requires
            old(self).wf(),
        ensures
            *final(self) == old(self).next(e),
            a == old(self).reply(e),
            final(self).wf(),
    {
        match e {
            Event::BindFinished(outcome) => {
                if !self.building() || self.bound {
                    return Action::Ignored;
                }
                let failure = match outcome {
                    BindOutcome::Bound => None,
                    BindOutcome::DiscoveryUnavailable => None,
                    BindOutcome::AddressInUse => Some(BindFailure::AddressInUse),
                    BindOutcome::PermissionDenied => Some(BindFailure::PermissionDenied),
                    BindOutcome::Other => Some(BindFailure::Other),
                };
                match failure {
                    Some(f) => {
                        *self = Machine::cleared(RouterState::Failed(SyncifyError::BindFailed(f)));
                        Action::Release(SyncifyError::BindFailed(f))
                    },
                    None => {
                        self.bound = true;
                        self.degraded = match outcome {
                            BindOutcome::DiscoveryUnavailable => true,
                            _ => false,
                        };
                        self.upcoming()
                    },
                }
            },
            Event::HandlerStarted(p) => {
                if !self.building() || !self.bound {
                    return Action::Ignored;
                }
                match p {
                    Protocol::Blobs => {
                        if self.blobs {
                            return Action::Ignored;
                        }
                        self.blobs = true;
                    },
                    Protocol::Gossip => {
                        if self.gossip {
                            return Action::Ignored;
                        }
                        self.gossip = true;
                    },
                    Protocol::Docs => {
                        if !self.blobs || !self.gossip || self.docs {
                            return Action::Ignored;
                        }
                        self.docs = true;
                    },
                }
                self.upcoming()
            },
            Event::HandlerFailed(_) => {
                if !self.building() || !self.bound {
                    return Action::Ignored;
                }
                *self = Machine::cleared(RouterState::Failed(SyncifyError::HandlerStartFailed));
                Action::Release(SyncifyError::HandlerStartFailed)
            },
            Event::Spawned => {
                if !self.building() || !(self.bound && self.blobs && self.gossip && self.docs) {
                    return Action::Ignored;
                }
                self.state = RouterState::Ready;
                Action::Serve
            },
            Event::StreamFailed => {
                match self.state {
                    RouterState::Ready => Action::Serve,
                    _ => Action::Ignored,
                }
            },
            Event::ShutdownRequested => {
                match self.state {
                    RouterState::Ready => {
                        self.state = RouterState::Draining;
                        Action::Drain(GRACE_SECS)
                    },
                    _ => Action::Ignored,
                }
            },
            Event::Drained => {
                match self.state {
                    RouterState::Draining => {
                        *self = Machine::cleared(RouterState::Stopped);
                        Action::Finish(Shutdown::Clean)
                    },
                    _ => Action::Ignored,
                }
            },
            Event::GraceElapsed => {
                match self.state {
                    RouterState::Draining => {
                        *self = Machine::cleared(RouterState::Stopped);
                        Action::Finish(Shutdown::Timeout)
                    },
                    _ => Action::Ignored,
                }
            },
            Event::EndpointLost => {
                let live = match self.state {
                    RouterState::Building => self.bound,
                    RouterState::Ready => true,
                    RouterState::Draining => true,
                    _ => false,
                };
                if !live {
                    return Action::Ignored;
                }
                *self = Machine::cleared(RouterState::Failed(SyncifyError::EndpointLost));
                Action::Release(SyncifyError::EndpointLost)
            },
        }
    }
}

/// Every event keeps a reachable state reachable.
pub proof fn step_keeps_wf(m: Machine, e: Event)
    requires
        m.wf(),
    ensures
        m.next(e).wf(),
{
}

/// The router becomes `Ready` only from a state in which the endpoint is bound and all
/// three handlers have reported their start, and it stays so while it is `Ready`.
pub proof fn ready_only_after_all_handlers(m: Machine, e: Event)
    requires
        m.wf(),
        m.next(e).state == RouterState::Ready,
    ensures
        m.all_started(),
        m.next(e).all_started(),
{
}

/// A handler that fails to start ends bring-up: the router is `Failed`, nothing that was
/// started is kept, the endpoint is no longer bound, and the caller is told to release it.
pub proof fn failed_start_releases_everything(m: Machine, p: Protocol)
    requires
        m.wf(),
        m.state == RouterState::Building,
        m.bound,
    ensures
        m.next(Event::HandlerFailed(p)) == Machine::idle(
            RouterState::Failed(SyncifyError::HandlerStartFailed),
        ),
        m.reply(Event::HandlerFailed(p)) == Action::Release(SyncifyError::HandlerStartFailed),
{
}

/// The document handler is never started before the two it depends on.
pub proof fn docs_start_last(m: Machine)
    requires
        m.wf(),
        m.may_start(Protocol::Docs),
    ensures
        m.blobs && m.gossip,
        m.next(Event::HandlerStarted(Protocol::Docs)).next_step() == Action::Spawn,
{
}

/// A draining router stops when the grace timer fires, whatever its handlers do, and the
/// wait it asked for is the grace period.
pub proof fn grace_ends_draining(m: Machine)
    requires
        m.wf(),
        m.state == RouterState::Ready,
    ensures
        m.reply(Event::ShutdownRequested) == Action::Drain(GRACE_SECS),
        m.next(Event::ShutdownRequested).next(Event::GraceElapsed) == Machine::idle(
            RouterState::Stopped,
        ),
        m.next(Event::ShutdownRequested).reply(Event::GraceElapsed) == Action::Finish(
            Shutdown::Timeout,
        ),
{
}

/// An endpoint that is bound is not bound a second time, and a router that has left
/// bring-up binds nothing.
pub proof fn endpoint_binds_once(m: Machine, outcome: BindOutcome)
    requires
        m.bound || m.state != RouterState::Building,
    ensures
        m.next(Event::BindFinished(outcome)) == m,
        m.reply(Event::BindFinished(outcome)) == Action::Ignored,
{
}

/// A failure on one stream leaves a serving router as it is.
pub proof fn stream_failure_is_not_fatal(m: Machine)
    requires
        m.state == RouterState::Ready,
    ensures
        m.next(Event::StreamFailed) == m,
        m.reply(Event::StreamFailed) == Action::Serve,
{
}

/// Terminal states react to nothing.
pub proof fn terminal_states_are_final(m: Machine, e: Event)
    requires
        m.state == RouterState::Stopped || m.state is Failed,
    ensures
        m.next(e) == m,
        m.reply(e) == Action::Ignored,
{
}

/// An unreachable rendezvous service is no failure: the endpoint counts as bound,
/// bring-up goes on with the handlers, and the state records that discovery is degraded.
pub proof fn degraded_discovery_still_binds(m: Machine)
    requires
        m.wf(),
        m.state == RouterState::Building,
        !m.bound,
    ensures
        m.next(Event::BindFinished(BindOutcome::DiscoveryUnavailable)) == (Machine {
            bound: true,
            degraded: true,
            ..m
        }),
        m.reply(Event::BindFinished(BindOutcome::DiscoveryUnavailable)) == Action::StartHandler(
            Protocol::Blobs,
        ),
{
}

} // verus!
