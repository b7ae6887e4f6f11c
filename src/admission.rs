use vstd::prelude::*;

use crate::request::TaskKind;

verus! {

/// The execution pool an admitted task is started on.
#[derive(Clone, Copy, Debug, PartialEq, Eq, Structural)]
pub enum Pool {
    /// The single pool bound to the context that owns the dispatcher.
    ContextBound,
    /// The general pool of worker threads.
    Worker,
}

pub open spec fn pool_of(kind: TaskKind) -> Pool {
    match kind {
        TaskKind::Local => Pool::ContextBound,
        TaskKind::NonLocal => Pool::Worker,
    }
}

/// Where the dispatch loop stands.
#[derive(Clone, Copy, Debug, PartialEq, Eq, Structural)]
pub enum Phase {
    /// Blocked on the inbound queue.
    WaitingForRequest,
    /// Holding a received item while every slot is taken.
    WaitingForSlot { kind: TaskKind },
    /// Holding a received item that has a free slot.
    Admitting { kind: TaskKind },
    /// The inbound queue is closed; tasks are still in flight.
    Draining,
    /// Every admitted task has finished and no more will come.
    Stopped,
    /// The host of a task failed; the loop gives up.
    Failed,
}

/// What the driver of the loop observed.
#[derive(Clone, Copy, Debug, PartialEq, Eq, Structural)]
pub enum Event {
    /// An item of this kind came off the inbound queue.
    Received { kind: TaskKind },
    /// The inbound queue is closed and empty.
    InboundClosed,
    /// The held item was started on its pool.
    Started,
    /// One in-flight task ran to completion.
    Completed,
    /// The context hosting an in-flight task failed.
    HostFailed,
}

/// What the driver of the loop must do next.
#[derive(Clone, Copy, Debug, PartialEq, Eq, Structural)]
pub enum Action {
    /// Wait for the next inbound item, or for the queue to close.
    Receive,
    /// Wait for any one in-flight task to finish.
    AwaitCompletion,
    /// Start the held item on this pool.
    Start { pool: Pool },
    /// Shut down: all work is done.
    Stop,
    /// Shut down and report the failure of a task's host.
    Fail,
}

/// A concurrency limit of zero would block the loop for ever.
#[derive(Clone, Copy, Debug, PartialEq, Eq, Structural)]
pub enum ConfigError {
    ZeroConcurrency,
}

/// The abstract state of the dispatch loop.
pub struct DispatchState {
    pub limit: nat,
    pub in_flight: nat,
    pub phase: Phase,
}

impl DispatchState {
    /// The loop's invariant: the limit is positive and never exceeded, a
    /// held item waits only while the loop is saturated, draining lasts
    /// only while some task is in flight, and the loop stops with none.
    pub open spec fn inv(self) -> bool {
        &&& self.limit > 0
        &&& self.in_flight <= self.limit
        &&& (self.phase is WaitingForSlot ==> self.in_flight == self.limit)
        &&& (self.phase is Admitting ==> self.in_flight < self.limit)
        &&& (self.phase is Draining ==> self.in_flight > 0)
        &&& (self.phase is Stopped ==> self.in_flight == 0)
    }
}

pub open spec fn initial(limit: nat) -> DispatchState {
    DispatchState { limit, in_flight: 0, phase: Phase::WaitingForRequest }
}

/// The one action each phase calls for.
pub open spec fn action_of(s: DispatchState) -> Action {
    match s.phase {
        Phase::WaitingForRequest => Action::Receive,
        Phase::WaitingForSlot { .. } => Action::AwaitCompletion,
        Phase::Admitting { kind } => Action::Start { pool: pool_of(kind) },
        Phase::Draining => Action::AwaitCompletion,
        Phase::Stopped => Action::Stop,
        Phase::Failed => Action::Fail,
    }
}

/// Whether an event answers the action the state calls for.
pub open spec fn accepts(s: DispatchState, e: Event) -> bool {
    match action_of(s) {
        Action::Receive => e is Received || e is InboundClosed,
        Action::AwaitCompletion => e is Completed || e is HostFailed,
        Action::Start { .. } => e is Started,
        _ => false,
    }
}

/// The transition of the loop on one event; an event that does not answer
/// the pending action leaves the state as it is.
pub open spec fn next(s: DispatchState, e: Event) -> DispatchState {
    if !accepts(s, e) {
        s
    } else {
        match e {
            Event::Received { kind } => DispatchState {
                phase: if s.in_flight < s.limit {
                    Phase::Admitting { kind }
                } else {
                    Phase::WaitingForSlot { kind }
                },
                ..s
            },
            Event::InboundClosed => DispatchState {
                phase: if s.in_flight == 0 { Phase::Stopped } else { Phase::Draining },
                ..s
            },
            Event::Started => DispatchState {
                in_flight: s.in_flight + 1,
                phase: Phase::WaitingForRequest,
                ..s
            },
            Event::Completed => DispatchState {
                in_flight: (s.in_flight - 1) as nat,
                phase: match s.phase {
                    Phase::WaitingForSlot { kind } => Phase::Admitting { kind },
                    _ => if s.in_flight == 1 { Phase::Stopped } else { Phase::Draining },
                },
                ..s
            },
            Event::HostFailed => DispatchState { phase: Phase::Failed, ..s },
        }
    }
}

/// The admission control of one dispatcher: counts the tasks in flight
/// against a fixed limit and tells its driver what to wait for next.
pub struct Admission {
    limit: usize,
    in_flight: usize,
    phase: Phase,
}

impl View for Admission {
    type V = DispatchState;

    closed spec fn view(&self) -> DispatchState {
        DispatchState { limit: self.limit as nat, in_flight: self.in_flight as nat, phase: self.phase }
    }
}

impl Admission {
    #[verifier::type_invariant]
    spec fn well_formed(self) -> bool {
        self@.inv()
    }

    /// Sets up the loop with a fixed concurrency limit, which must be positive.
    pub fn new(concurrency: usize) -> (r: Result<Admission, ConfigError>)
        ensures
            concurrency == 0 <==> r == Err::<Admission, ConfigError>(ConfigError::ZeroConcurrency),
            r matches Ok(a) ==> a@ == initial(concurrency as nat),
    {
        if concurrency == 0 {
            Err(ConfigError::ZeroConcurrency)
        } else {
            Ok(Admission { limit: concurrency, in_flight: 0, phase: Phase::WaitingForRequest })
        }
    }

    pub fn limit(&self) -> (n: usize)
        ensures
            n == self@.limit,
    {
        self.limit
    }

    pub fn in_flight(&self) -> (n: usize)
        ensures
            n == self@.in_flight,
            n <= self@.limit,
    {
        proof { use_type_invariant(self); }
        self.in_flight
    }

    pub fn phase(&self) -> (p: Phase)
        ensures
            p == self@.phase,
    {
        self.phase
    }

    /// The action the current phase calls for.
    pub fn action(&self) -> (a: Action)
        ensures
            a == action_of(self@),
    {
        match self.phase {
            Phase::WaitingForRequest => Action::Receive,
            Phase::WaitingForSlot { .. } => Action::AwaitCompletion,
            Phase::Admitting { kind } => Action::Start { pool: route(kind) },
            Phase::Draining => Action::AwaitCompletion,
            Phase::Stopped => Action::Stop,
            Phase::Failed => Action::Fail,
        }
    }

    /// Whether `e` answers the action the current phase calls for.
    pub fn accepts(&self, e: Event) -> (b: bool)
        ensures
            b == accepts(self@, e),
    {
        match (self.action(), e) {
            (Action::Receive, Event::Received { .. }) => true,
            (Action::Receive, Event::InboundClosed) => true,
            (Action::AwaitCompletion, Event::Completed) => true,
            (Action::AwaitCompletion, Event::HostFailed) => true,
            (Action::Start { .. }, Event::Started) => true,
            _ => false,
        }
    }

    /// Feeds one observed event to the loop and returns what to do next.
    pub fn step(&mut self, e: Event) -> (a: Action)
        ensures
            final(self)@ == next(old(self)@, e),
            a == action_of(final(self)@),
    {
        proof { use_type_invariant(&*self); }
        if self.accepts(e) {
            let limit = self.limit;
            let in_flight = self.in_flight;
            *self = match e {
                Event::Received { kind } => Admission {
                    limit,
                    in_flight,
                    phase: if in_flight < limit {
                        Phase::Admitting { kind }
                    } else {
                        Phase::WaitingForSlot { kind }
                    },
                },
                Event::InboundClosed => Admission {
                    limit,
                    in_flight,
                    phase: if in_flight == 0 { Phase::Stopped } else { Phase::Draining },
                },
                Event::Started => Admission {
                    limit,
                    in_flight: in_flight + 1,
                    phase: Phase::WaitingForRequest,
                },
                Event::Completed => Admission {
                    limit,
                    in_flight: in_flight - 1,
                    phase: match self.phase {
                        Phase::WaitingForSlot { kind } => Phase::Admitting { kind },
                        _ => if in_flight == 1 { Phase::Stopped } else { Phase::Draining },
                    },
                },
                Event::HostFailed => Admission { limit, in_flight, phase: Phase::Failed },
            };
        }
        self.action()
    }
}

/// Picks the pool for a task item by its tag: local work goes to the
/// context-bound pool, everything else to the workers.
pub fn route(kind: TaskKind) -> (p: Pool)
    ensures
        p == pool_of(kind),
        kind == TaskKind::Local <==> p == Pool::ContextBound,
{
    match kind {
        TaskKind::Local => Pool::ContextBound,
        TaskKind::NonLocal => Pool::Worker,
    }
}

} // verus!
