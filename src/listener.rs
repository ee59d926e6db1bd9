use vstd::prelude::*;
use crate::cell::PidCell;
use crate::reply::{control_reply, reply_line};

verus! {

/// The port the control endpoint listens on.
pub const CONTROL_PORT: u16 = 5000;

/// The port the worker endpoint listens on.
pub const WORKER_PORT: u16 = 5001;

/// The identifier the worker records for every connection it handles.
pub const WORKER_PID: i32 = 1000;

/// Which of the two endpoints a listener serves.
#[derive(Clone, Copy, Debug, PartialEq, Eq, Structural)]
pub enum Role {
    /// Reports the recorded identifier to each client.
    Control,
    /// Launches the command and records an identifier for each client.
    Worker,
}

/// Where a listener is in its life.
#[derive(Clone, Copy, Debug, PartialEq, Eq, Structural)]
pub enum Phase {
    /// Binding its endpoint.
    Starting,
    /// Accepting connections, with no way out but a failed launch.
    Serving,
    /// Stopped for good.
    Failed,
}

/// What the driving program observed.
#[derive(Clone, Copy, Debug, PartialEq, Eq, Structural)]
pub enum Event {
    /// The endpoint was bound.
    BindSucceeded,
    /// The endpoint could not be bound.
    BindFailed,
    /// A client connected.
    Accepted,
    /// Accepting a client failed; that client is skipped.
    AcceptFailed,
    /// The worker's command was launched.
    SpawnSucceeded,
    /// The worker's command could not be launched.
    SpawnFailed,
    /// Sending a control reply failed, for instance because the client left.
    ReplyFailed,
}

/// What the driving program must do next.
#[derive(Debug)]
pub enum Action {
    /// Nothing: go on waiting for the next event.
    Idle,
    /// Launch the worker's command, without waiting for it.
    Spawn,
    /// Send these bytes to the client just accepted, then let it go.
    Reply(Vec<u8>),
    /// Report that the endpoint could not be bound; the listener is done.
    ReportBindFailure,
    /// The command could not be launched: stop this listener loudly.
    Abort,
}

/// The mathematical value of an [`Action`].
pub enum ActionModel {
    Idle,
    Spawn,
    Reply(Seq<u8>),
    ReportBindFailure,
    Abort,
}

impl View for Action {
    type V = ActionModel;

    open spec fn view(&self) -> ActionModel {
        match self {
            Action::Idle => ActionModel::Idle,
            Action::Spawn => ActionModel::Spawn,
            Action::Reply(bytes) => ActionModel::Reply(bytes@),
            Action::ReportBindFailure => ActionModel::ReportBindFailure,
            Action::Abort => ActionModel::Abort,
        }
    }
}

/// The phase after `event`.
pub open spec fn next_phase(role: Role, phase: Phase, event: Event) -> Phase {
    match phase {
        Phase::Starting => match event {
            Event::BindSucceeded => Phase::Serving,
            Event::BindFailed => Phase::Failed,
            _ => Phase::Starting,
        },
        Phase::Serving => if role == Role::Worker && event == Event::SpawnFailed {
            Phase::Failed
        } else {
            Phase::Serving
        },
        Phase::Failed => Phase::Failed,
    }
}

/// The identifier that handling `event` writes into the shared cell, if any:
/// only a serving worker writes, once its command has been launched.
pub open spec fn step_write(role: Role, phase: Phase, event: Event) -> Option<i32> {
    if role == Role::Worker && phase == Phase::Serving && event == Event::SpawnSucceeded {
        Some(WORKER_PID)
    } else {
        None
    }
}

/// The shared identifier after `event`, when it was `pid` before.
pub open spec fn next_pid(role: Role, phase: Phase, pid: i32, event: Event) -> i32 {
    match step_write(role, phase, event) {
        Some(written) => written,
        None => pid,
    }
}

/// What the driving program is told to do about `event`.
pub open spec fn next_action(role: Role, phase: Phase, pid: i32, event: Event) -> ActionModel {
    match phase {
        Phase::Starting => match event {
            Event::BindFailed => ActionModel::ReportBindFailure,
            _ => ActionModel::Idle,
        },
        Phase::Serving => match (role, event) {
            (Role::Worker, Event::Accepted) => ActionModel::Spawn,
            (Role::Worker, Event::SpawnFailed) => ActionModel::Abort,
            (Role::Control, Event::Accepted) => ActionModel::Reply(reply_line(pid as int)),
            _ => ActionModel::Idle,
        },
        Phase::Failed => ActionModel::Idle,
    }
}

/// One endpoint's decisions. The driving program binds, accepts, launches
/// and sends; it reports each outcome to [`Listener::step`] and does what
/// comes back.
pub struct Listener {
    pub role: Role,
    pub phase: Phase,
}

impl Listener {
    /// A listener for `role` that has yet to bind its endpoint.
    pub fn new(role: Role) -> (r: Listener)
        ensures
            r.role == role,
            r.phase == Phase::Starting,
    {
        Listener { role, phase: Phase::Starting }
    }

    /// The endpoint's port.
    pub fn port(&self) -> (r: u16)
        ensures
            r == (if self.role == Role::Control { CONTROL_PORT } else { WORKER_PORT }),
    {
        match self.role {
            Role::Control => CONTROL_PORT,
            Role::Worker => WORKER_PORT,
        }
    }

    /// Handles `event`: moves to the next phase, records the worker's
    /// identifier in `cell` once its command has been launched, and says what
    /// the driving program must do. A control listener only reads `cell`.
    pub fn step(&mut self, cell: &mut PidCell, event: Event) -> (r: Action)
        ensures
            final(self).role == old(self).role,
            final(self).phase == next_phase(old(self).role, old(self).phase, event),
            final(cell)@ == next_pid(old(self).role, old(self).phase, old(cell)@, event),
            r@ == next_action(old(self).role, old(self).phase, old(cell)@, event),
    {
        match self.phase {
            Phase::Starting => match event {
                Event::BindSucceeded => {
                    self.phase = Phase::Serving;
                    Action::Idle
                },
                Event::BindFailed => {
                    self.phase = Phase::Failed;
                    Action::ReportBindFailure
                },
                _ => Action::Idle,
            },
            Phase::Serving => match (self.role, event) {
                (Role::Worker, Event::Accepted) => Action::Spawn,
                (Role::Worker, Event::SpawnSucceeded) => {
                    cell.write(WORKER_PID);
                    Action::Idle
                },
                (Role::Worker, Event::SpawnFailed) => {
                    self.phase = Phase::Failed;
                    Action::Abort
                },
                (Role::Control, Event::Accepted) => Action::Reply(control_reply(cell.read())),
                _ => Action::Idle,
            },
            Phase::Failed => Action::Idle,
        }
    }
}

} // verus!
