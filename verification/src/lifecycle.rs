//! The course of a controller's run, from starting the workers to their
//! exit.
//!
//! The run is a state machine. Its surroundings do the work: they bind the
//! listener, start the processes, accept the connections, make the calls
//! and wait. After each piece of work they report what happened, and are
//! told what comes next.

use vstd::prelude::*;
use crate::error::{ErrorKind, UpmError};
use crate::host::{roles_for, Role, Roles, Slot};

verus! {

/// Where a run stands.
#[derive(Debug, Clone, Copy, PartialEq, Eq, Structural)]
pub enum Phase {
    /// The listener is bound and the two workers are started.
    Spawning,
    /// The two workers connect back.
    AwaitingConnections,
    /// Both workers are asked for their privilege.
    Handshaking,
    /// One worker is root and the other is normal.
    RoleAssigned,
    /// The operations are sent to the workers.
    Dispatching,
    /// Both connections are closed and both workers are waited for.
    ShuttingDown,
    /// The run is over.
    Done,
    /// The run was given up. Nothing more is done.
    Aborted,
}

/// What the surroundings report.
#[derive(Debug, Clone, Copy, PartialEq, Eq, Structural)]
pub enum Event {
    /// The listener is bound on this port.
    Bound { port: u16 },
    /// A worker process was started.
    Spawned,
    /// A connection was accepted.
    Accepted,
    /// A worker answered the handshake.
    Answered { privilige: bool },
    /// The two connections are bound to their roles.
    Assigned,
    /// The job is done, whatever became of its operations.
    Dispatched,
    /// A connection was closed.
    Closed,
    /// A worker process has exited.
    Exited,
    /// What was ordered could not be done.
    Failed,
}

/// Why a run was given up.
#[derive(Debug, Clone, Copy, PartialEq, Eq, Structural)]
pub enum Cause {
    /// A piece of work failed.
    WorkFailed,
    /// Both workers, or neither, reported privilege.
    SamePrivilege,
    /// A report came that fits no order given.
    OutOfTurn,
}

/// What the surroundings are to do next.
#[derive(Debug, Clone, Copy, PartialEq, Eq, Structural)]
pub enum Order {
    /// Bind a loopback listener on a port of the system's choice.
    Bind,
    /// Start a worker for the port: through the privilege elevation if
    /// `elevated`, else directly.
    Spawn { elevated: bool, port: u16 },
    /// Accept one connection.
    Accept,
    /// Ask the worker on this connection for its privilege.
    Handshake { slot: Slot },
    /// Bind the connections to these roles.
    Assign { roles: Roles },
    /// Carry out the job.
    Dispatch,
    /// Close the connection of the worker in this role.
    Shutdown { role: Role },
    /// Wait for a worker process to exit: the elevated one if `elevated`.
    Wait { elevated: bool },
    /// Hand the result to the caller.
    Finish,
    /// Stop: the run was given up.
    Abort { cause: Cause },
}

/// A run of the controller: its phase, how far it is within the phase, and
/// what it has learned.
#[derive(Debug, Clone, Copy, PartialEq, Eq, Structural)]
pub struct Lifecycle {
    /// Where the run stands.
    pub phase: Phase,
    /// How many pieces of the phase's work are done.
    pub done: u8,
    /// The port of the listener, once bound.
    pub port: Option<u16>,
    /// What the first connection's worker answered.
    pub first: Option<bool>,
    /// The roles, once assigned.
    pub roles: Option<Roles>,
    /// Why the run was given up, if it was.
    pub cause: Option<Cause>,
}

impl Cause {
    /// The kind of error that the cause is reported as.
    pub open spec fn kind(self) -> ErrorKind {
        match self {
            Cause::WorkFailed => ErrorKind::Transport,
            Cause::SamePrivilege => ErrorKind::Invariant,
            Cause::OutOfTurn => ErrorKind::Protocol,
        }
    }

    /// The text that the cause is reported with.
    pub open spec fn text(self) -> Seq<char> {
        match self {
            Cause::WorkFailed => "the run could not go on."@,
            Cause::SamePrivilege => "exactly one worker must be privileged."@,
            Cause::OutOfTurn => "report out of turn."@,
        }
    }

    pub fn to_error(self) -> (e: UpmError)
        ensures
            e.says(self.kind(), self.text()),
    {
        match self {
            Cause::WorkFailed => UpmError::new(ErrorKind::Transport, "the run could not go on."),
            Cause::SamePrivilege => UpmError::new(
                ErrorKind::Invariant,
                "exactly one worker must be privileged.",
            ),
            Cause::OutOfTurn => UpmError::new(ErrorKind::Protocol, "report out of turn."),
        }
    }
}

impl Lifecycle {
    /// The run before anything is done.
    pub open spec fn initial() -> Lifecycle {
        Lifecycle {
            phase: Phase::Spawning,
            done: 0,
            port: None,
            first: None,
            roles: None,
            cause: None,
        }
    }

    /// The run, given up for `cause`.
    pub open spec fn aborted(self, cause: Cause) -> Lifecycle {
        Lifecycle { phase: Phase::Aborted, done: 0, cause: Some(cause), ..self }
    }

    /// The run in `phase`, with none of the phase's work done.
    pub open spec fn entering(self, phase: Phase) -> Lifecycle {
        Lifecycle { phase, done: 0, ..self }
    }

    /// The run with one more piece of the phase's work done.
    pub open spec fn advanced(self) -> Lifecycle {
        Lifecycle { done: (self.done + 1) as u8, ..self }
    }

    /// The run after `event`, and what is to be done next.
    ///
    /// A failure gives the run up, and so does a report that does not
    /// answer the last order. A run that is over or given up stays so.
    pub open spec fn next(self, event: Event) -> (Lifecycle, Order) {
        match (self.phase, self.done, event) {
            (Phase::Done, _, _) => (self, Order::Finish),
            (Phase::Aborted, _, _) => (
                self,
                Order::Abort {
                    cause: match self.cause {
                        Some(cause) => cause,
                        None => Cause::OutOfTurn,
                    },
                },
            ),
            (_, _, Event::Failed) => (
                self.aborted(Cause::WorkFailed),
                Order::Abort { cause: Cause::WorkFailed },
            ),
            (Phase::Spawning, 0, Event::Bound { port }) => (
                Lifecycle { port: Some(port), ..self.advanced() },
                Order::Spawn { elevated: true, port },
            ),
            (Phase::Spawning, 1, Event::Spawned) => match self.port {
                Some(port) => (self.advanced(), Order::Spawn { elevated: false, port }),
                None => (self.aborted(Cause::OutOfTurn), Order::Abort { cause: Cause::OutOfTurn }),
            },
            (Phase::Spawning, 2, Event::Spawned) => (
                self.entering(Phase::AwaitingConnections),
                Order::Accept,
            ),
            (Phase::AwaitingConnections, 0, Event::Accepted) => (self.advanced(), Order::Accept),
            (Phase::AwaitingConnections, 1, Event::Accepted) => (
                self.entering(Phase::Handshaking),
                Order::Handshake { slot: Slot::First },
            ),
            (Phase::Handshaking, 0, Event::Answered { privilige }) => (
                Lifecycle { first: Some(privilige), ..self.advanced() },
                Order::Handshake { slot: Slot::Second },
            ),
            (Phase::Handshaking, 1, Event::Answered { privilige }) => match self.first {
                Some(first) => match roles_for(first, privilige) {
                    Some(roles) => (
                        Lifecycle { roles: Some(roles), ..self.entering(Phase::RoleAssigned) },
                        Order::Assign { roles },
                    ),
                    None => (
                        self.aborted(Cause::SamePrivilege),
                        Order::Abort { cause: Cause::SamePrivilege },
                    ),
                },
                None => (self.aborted(Cause::OutOfTurn), Order::Abort { cause: Cause::OutOfTurn }),
            },
            (Phase::RoleAssigned, 0, Event::Assigned) => (
                self.entering(Phase::Dispatching),
                Order::Dispatch,
            ),
            (Phase::Dispatching, 0, Event::Dispatched) => (
                self.entering(Phase::ShuttingDown),
                Order::Shutdown { role: Role::Normal },
            ),
            (Phase::ShuttingDown, 0, Event::Closed) => (
                self.advanced(),
                Order::Shutdown { role: Role::Root },
            ),
            (Phase::ShuttingDown, 1, Event::Closed) => (
                self.advanced(),
                Order::Wait { elevated: true },
            ),
            (Phase::ShuttingDown, 2, Event::Exited) => (
                self.advanced(),
                Order::Wait { elevated: false },
            ),
            (Phase::ShuttingDown, 3, Event::Exited) => (self.entering(Phase::Done), Order::Finish),
            _ => (self.aborted(Cause::OutOfTurn), Order::Abort { cause: Cause::OutOfTurn }),
        }
    }

    /// What holds of every run that began with `begin` and went on by
    /// `advance`: the work of a phase is counted within the phase's bounds;
    /// the port is known once the listener is bound; the roles are known
    /// from their assignment on, and not before; no worker has answered
    /// before the handshake; a run is given up for a cause.
    pub open spec fn inv(self) -> bool {
        &&& match self.phase {
            Phase::Spawning => self.done <= 2 && (self.done >= 1 ==> self.port is Some)
                && self.first is None,
            Phase::AwaitingConnections => self.done <= 1 && self.port is Some
                && self.first is None,
            Phase::Handshaking => self.done <= 1 && (self.done == 1 <==> self.first is Some),
            Phase::RoleAssigned => self.done == 0,
            Phase::Dispatching => self.done == 0,
            Phase::ShuttingDown => self.done <= 3,
            Phase::Done => self.done == 0,
            Phase::Aborted => self.cause is Some,
        }
        &&& self.has_roles() <==> self.roles is Some
        &&& self.roles matches Some(roles) ==> roles.normal == roles.root.other()
        &&& self.cause is Some ==> self.phase == Phase::Aborted
    }

    /// Whether the run is in a phase that comes after the assignment of the
    /// roles.
    pub open spec fn has_roles(self) -> bool {
        self.phase == Phase::RoleAssigned || self.phase == Phase::Dispatching || self.phase
            == Phase::ShuttingDown || self.phase == Phase::Done || (self.phase == Phase::Aborted
            && self.roles is Some)
    }

    /// Starts a run. The first thing to do is to bind the listener.
    pub fn begin() -> (r: (Lifecycle, Order))
        ensures
            r.0 == Lifecycle::initial(),
            r.1 == Order::Bind,
            r.0.inv(),
    {
        (
            Lifecycle {
                phase: Phase::Spawning,
                done: 0,
                port: None,
                first: None,
                roles: None,
                cause: None,
            },
            Order::Bind,
        )
    }

    fn abort(&mut self, cause: Cause) -> (order: Order)
        ensures
            *final(self) == old(self).aborted(cause),
            order == (Order::Abort { cause }),
    {
        self.phase = Phase::Aborted;
        self.done = 0;
        self.cause = Some(cause);
        Order::Abort { cause }
    }

    fn enter(&mut self, phase: Phase)
        ensures
            *final(self) == old(self).entering(phase),
    {
        self.phase = phase;
        self.done = 0;
    }

    /// Takes in a report and says what is to be done next.
    pub fn advance(&mut self, event: Event) -> (order: Order)
        ensures
            (*final(self), order) == old(self).next(event),
            old(self).inv() ==> final(self).inv(),
    {
        match (self.phase, event) {
            (Phase::Done, _) => {
                return Order::Finish;
            },
            (Phase::Aborted, _) => {
                return Order::Abort {
                    cause: match self.cause {
                        Some(cause) => cause,
                        None => Cause::OutOfTurn,
                    },
                };
            },
            (_, Event::Failed) => {
                return self.abort(Cause::WorkFailed);
            },
            _ => {},
        }
        match (self.phase, self.done, event) {
            (Phase::Spawning, 0, Event::Bound { port }) => {
                self.port = Some(port);
                self.done = 1;
                Order::Spawn { elevated: true, port }
            },
            (Phase::Spawning, 1, Event::Spawned) => match self.port {
                Some(port) => {
                    self.done = 2;
                    Order::Spawn { elevated: false, port }
                },
                None => self.abort(Cause::OutOfTurn),
            },
            (Phase::Spawning, 2, Event::Spawned) => {
                self.enter(Phase::AwaitingConnections);
                Order::Accept
            },
            (Phase::AwaitingConnections, 0, Event::Accepted) => {
                self.done = 1;
                Order::Accept
            },
            (Phase::AwaitingConnections, 1, Event::Accepted) => {
                self.enter(Phase::Handshaking);
                Order::Handshake { slot: Slot::First }
            },
            (Phase::Handshaking, 0, Event::Answered { privilige }) => {
                self.first = Some(privilige);
                self.done = 1;
                Order::Handshake { slot: Slot::Second }
            },
            (Phase::Handshaking, 1, Event::Answered { privilige }) => match self.first {
                Some(first) => match crate::host::assign_roles(
                    crate::rpc::HandeshakeResult { privilige: first },
                    crate::rpc::HandeshakeResult { privilige },
                ) {
                    Ok(roles) => {
                        self.roles = Some(roles);
                        self.enter(Phase::RoleAssigned);
                        Order::Assign { roles }
                    },
                    Err(_) => self.abort(Cause::SamePrivilege),
                },
                None => self.abort(Cause::OutOfTurn),
            },
            (Phase::RoleAssigned, 0, Event::Assigned) => {
                self.enter(Phase::Dispatching);
                Order::Dispatch
            },
            (Phase::Dispatching, 0, Event::Dispatched) => {
                self.enter(Phase::ShuttingDown);
                Order::Shutdown { role: Role::Normal }
            },
            (Phase::ShuttingDown, 0, Event::Closed) => {
                self.done = 1;
                Order::Shutdown { role: Role::Root }
            },
            (Phase::ShuttingDown, 1, Event::Closed) => {
                self.done = 2;
                Order::Wait { elevated: true }
            },
            (Phase::ShuttingDown, 2, Event::Exited) => {
                self.done = 3;
                Order::Wait { elevated: false }
            },
            (Phase::ShuttingDown, 3, Event::Exited) => {
                self.enter(Phase::Done);
                Order::Finish
            },
            _ => self.abort(Cause::OutOfTurn),
        }
    }
}

/// A run that goes well: the listener is bound on `port`, both workers
/// start and connect, their answers differ, the job is done, and both
/// workers close and exit. It is ordered to start exactly two workers, the
/// elevated one first, then to accept exactly two connections, to ask both
/// for their privilege, to assign the roles that the answers give, to
/// dispatch, to close the normal worker's connection and then the root
/// worker's, to wait for both processes, and to finish.
pub proof fn lemma_nominal_run(port: u16, first: bool, second: bool)
    requires
        first != second,
    ensures
        ({
            let s0 = Lifecycle::initial();
            let (s1, o1) = s0.next(Event::Bound { port });
            let (s2, o2) = s1.next(Event::Spawned);
            let (s3, o3) = s2.next(Event::Spawned);
            let (s4, o4) = s3.next(Event::Accepted);
            let (s5, o5) = s4.next(Event::Accepted);
            let (s6, o6) = s5.next(Event::Answered { privilige: first });
            let (s7, o7) = s6.next(Event::Answered { privilige: second });
            let (s8, o8) = s7.next(Event::Assigned);
            let (s9, o9) = s8.next(Event::Dispatched);
            let (s10, o10) = s9.next(Event::Closed);
            let (s11, o11) = s10.next(Event::Closed);
            let (s12, o12) = s11.next(Event::Exited);
            let (s13, o13) = s12.next(Event::Exited);
            &&& o1 == (Order::Spawn { elevated: true, port })
            &&& o2 == (Order::Spawn { elevated: false, port })
            &&& s2.phase == Phase::Spawning
            &&& o3 == Order::Accept
            &&& s3.phase == Phase::AwaitingConnections
            &&& o4 == Order::Accept
            &&& o5 == (Order::Handshake { slot: Slot::First })
            &&& s5.phase == Phase::Handshaking
            &&& o6 == (Order::Handshake { slot: Slot::Second })
            &&& Some(s7.roles->0) == roles_for(first, second)
            &&& o7 == (Order::Assign { roles: s7.roles->0 })
            &&& s7.phase == Phase::RoleAssigned
            &&& o8 == Order::Dispatch
            &&& s8.phase == Phase::Dispatching
            &&& o9 == (Order::Shutdown { role: Role::Normal })
            &&& s9.phase == Phase::ShuttingDown
            &&& o10 == (Order::Shutdown { role: Role::Root })
            &&& o11 == (Order::Wait { elevated: true })
            &&& o12 == (Order::Wait { elevated: false })
            &&& o13 == Order::Finish
            &&& s13.phase == Phase::Done
        }),
{
}

/// Roles are assigned only on the second answer of the handshake, only if
/// it differs from the first, and they are the roles that the two answers
/// give.
pub proof fn lemma_roles_come_from_differing_answers(s: Lifecycle, event: Event)
    requires
        s.next(event).1 is Assign,
    ensures
        s.phase == Phase::Handshaking,
        s.first is Some,
        event is Answered,
        s.first->0 != event->privilige,
        Some(s.next(event).1->roles) == roles_for(s.first->0, event->privilige),
        s.next(event).0.roles == Some(s.next(event).1->roles),
{
}

/// Two workers that answer alike end the run: it is given up for that
/// cause, whatever they answered.
pub proof fn lemma_same_answers_abort(s: Lifecycle, answer: bool)
    requires
        s.phase == Phase::Handshaking,
        s.done == 1,
        s.first == Some(answer),
    ensures
        s.next(Event::Answered { privilige: answer }).0.phase == Phase::Aborted,
        s.next(Event::Answered { privilige: answer }).1 == (Order::Abort {
            cause: Cause::SamePrivilege,
        }),
{
}

/// The order to dispatch is given only to a run whose roles are assigned.
pub proof fn lemma_dispatch_follows_roles(s: Lifecycle, event: Event)
    requires
        s.inv(),
        s.next(event).1 == Order::Dispatch,
    ensures
        s.phase == Phase::RoleAssigned,
        s.roles is Some,
        s.next(event).0.phase == Phase::Dispatching,
{
}

/// A run that was given up stays given up: whatever is reported, it orders
/// nothing but to stop. So does a run that any failure is reported to.
pub proof fn lemma_given_up_for_good(s: Lifecycle, event: Event)
    ensures
        s.phase == Phase::Aborted ==> s.next(event).0 == s && s.next(event).1 is Abort,
        s.phase != Phase::Done && event == Event::Failed ==> s.next(event).0.phase
            == Phase::Aborted && s.next(event).1 is Abort,
        s.phase == Phase::Done ==> s.next(event) == (s, Order::Finish),
{
}

/// What holds of a run at its start holds after every report.
pub proof fn lemma_inv_is_kept(s: Lifecycle, event: Event)
    requires
        s.inv(),
    ensures
        Lifecycle::initial().inv(),
        s.next(event).0.inv(),
{
}

} // verus!
