//! The service as a state machine.
//!
//! The machine never touches a socket, a clock or a process. In each
//! [`Phase`] it names one [`Action`] for the surrounding process to perform,
//! and it moves on when it is told, as an [`Event`], how that action ended.
//! Since one action is outstanding at any time, connections are handled
//! strictly one after another.

use vstd::prelude::*;
use crate::command::{invocation_for, CommandOutput, Invocation, InvocationView, Operation};
use crate::config::{Config, ConfigView};
use crate::outcome::Outcome;

verus! {

/// The address to bind the listening socket to: all interfaces.
pub const LISTEN_ADDRESS: &'static str = "0.0.0.0";

/// Seconds to pause between detaching and attaching, so that the host can let go of the device.
pub const SETTLE_SECONDS: u64 = 5;

/// Seconds to pause after a connection was closed, before the next one is taken.
pub const COOLDOWN_SECONDS: u64 = 60;

/// Why the service gave up.
#[derive(Clone, Copy, Debug, PartialEq, Eq, Structural)]
pub enum Fatal {
    /// The listening socket could not be bound.
    Bind,
    /// Taking the next connection failed.
    Accept,
    /// The hypervisor tool could not be launched for this operation.
    Launch(Operation),
}

/// Where the service stands. Each phase waits for one action to end.
#[derive(Clone, Copy, Debug, PartialEq, Eq, Structural)]
pub enum Phase {
    /// Binding the listening socket.
    Binding,
    /// Waiting for the next connection.
    Accepting,
    /// The detach command is running.
    Detaching,
    /// Pausing between detach and attach.
    Settling,
    /// The attach command is running.
    Attaching,
    /// Writing the token for this outcome to the peer.
    Replying(Outcome),
    /// Shutting the connection down.
    Closing,
    /// Pausing before the next connection is taken.
    Cooling,
    /// Given up; nothing more will be done.
    Stopped(Fatal),
}

/// How the outstanding action ended.
#[derive(Clone, Debug, PartialEq, Eq)]
pub enum Event {
    /// The listening socket is bound.
    Bound,
    /// The listening socket could not be bound.
    BindFailed,
    /// A peer connected.
    Connected,
    /// Taking a connection failed.
    AcceptFailed,
    /// The command ran to its end and left this output.
    Finished(CommandOutput),
    /// The command could not be launched at all.
    LaunchFailed,
    /// The pause is over.
    Elapsed,
    /// The token was written to the peer.
    Written,
    /// The token could not be written, for instance because the peer is gone.
    WriteFailed,
    /// The connection is shut down.
    Closed,
    /// Shutting the connection down failed.
    CloseFailed,
}

/// What the surrounding process is to do next.
#[derive(Clone, Debug, PartialEq, Eq)]
pub enum Action {
    /// Bind a listening socket on all interfaces, on this port.
    Bind(u16),
    /// Take the next connection.
    Accept,
    /// Launch this command and wait for it to end, capturing its output.
    Run(Invocation),
    /// Pause for this many seconds.
    Wait(u64),
    /// Write the token of this outcome to the connection.
    Reply(Outcome),
    /// Shut the connection down in both directions.
    Close,
    /// Give up for this reason.
    Stop(Fatal),
}

/// An [`Action`] as plain values.
pub enum ActionView {
    Bind(u16),
    Accept,
    Run(InvocationView),
    Wait(u64),
    Reply(Outcome),
    Close,
    Stop(Fatal),
}

impl View for Action {
    type V = ActionView;

    open spec fn view(&self) -> ActionView {
        match *self {
            Action::Bind(port) => ActionView::Bind(port),
            Action::Accept => ActionView::Accept,
            Action::Run(invocation) => ActionView::Run(invocation@),
            Action::Wait(seconds) => ActionView::Wait(seconds),
            Action::Reply(outcome) => ActionView::Reply(outcome),
            Action::Close => ActionView::Close,
            Action::Stop(fatal) => ActionView::Stop(fatal),
        }
    }
}

/// The outcome that a finished command stands for.
pub open spec fn verdict(output: CommandOutput) -> Outcome {
    if output.has_error_output() {
        Outcome::Failure
    } else {
        Outcome::Success
    }
}

/// The phase that follows `phase` when `event` comes in, or `None` where
/// `phase` does not wait for such an event.
pub open spec fn next_phase(phase: Phase, event: Event) -> Option<Phase> {
    match (phase, event) {
        (Phase::Binding, Event::Bound) => Some(Phase::Accepting),
        (Phase::Binding, Event::BindFailed) => Some(Phase::Stopped(Fatal::Bind)),
        (Phase::Accepting, Event::Connected) => Some(Phase::Detaching),
        (Phase::Accepting, Event::AcceptFailed) => Some(Phase::Stopped(Fatal::Accept)),
        (Phase::Detaching, Event::Finished(output)) => Some(
            if output.has_error_output() {
                Phase::Replying(Outcome::Failure)
            } else {
                Phase::Settling
            },
        ),
        (Phase::Detaching, Event::LaunchFailed) => Some(
            Phase::Stopped(Fatal::Launch(Operation::Detach)),
        ),
        (Phase::Settling, Event::Elapsed) => Some(Phase::Attaching),
        (Phase::Attaching, Event::Finished(output)) => Some(Phase::Replying(verdict(output))),
        (Phase::Attaching, Event::LaunchFailed) => Some(
            Phase::Stopped(Fatal::Launch(Operation::Attach)),
        ),
        (Phase::Replying(_), Event::Written) => Some(Phase::Closing),
        (Phase::Replying(_), Event::WriteFailed) => Some(Phase::Closing),
        (Phase::Closing, Event::Closed) => Some(Phase::Cooling),
        (Phase::Closing, Event::CloseFailed) => Some(Phase::Cooling),
        (Phase::Cooling, Event::Elapsed) => Some(Phase::Accepting),
        _ => None,
    }
}

/// The action that is outstanding in `phase`.
pub open spec fn pending(config: ConfigView, phase: Phase) -> ActionView {
    match phase {
        Phase::Binding => ActionView::Bind(config.port),
        Phase::Accepting => ActionView::Accept,
        Phase::Detaching => ActionView::Run(
            invocation_for(Operation::Detach, config.machine, config.usb_file),
        ),
        Phase::Settling => ActionView::Wait(SETTLE_SECONDS),
        Phase::Attaching => ActionView::Run(
            invocation_for(Operation::Attach, config.machine, config.usb_file),
        ),
        Phase::Replying(outcome) => ActionView::Reply(outcome),
        Phase::Closing => ActionView::Close,
        Phase::Cooling => ActionView::Wait(COOLDOWN_SECONDS),
        Phase::Stopped(fatal) => ActionView::Stop(fatal),
    }
}

/// The service: its settings and the phase it is in.
#[derive(Debug)]
pub struct Server {
    config: Config,
    phase: Phase,
}

/// A [`Server`] as plain values.
pub struct ServerView {
    pub config: ConfigView,
    pub phase: Phase,
}

impl View for Server {
    type V = ServerView;

    closed spec fn view(&self) -> ServerView {
        ServerView { config: self.config@, phase: self.phase }
    }
}

impl Server {
    /// A server with these settings, about to bind its socket.
    pub fn new(config: Config) -> (server: Server)
        ensures
            server@ == (ServerView { config: config@, phase: Phase::Binding }),
    {
        Server { config, phase: Phase::Binding }
    }

    /// The settings the server was made with.
    pub fn config(&self) -> (config: &Config)
        ensures
            config@ == self@.config,
    {
        &self.config
    }

    /// The phase the server is in.
    pub fn phase(&self) -> (phase: Phase)
        ensures
            phase == self@.phase,
    {
        self.phase
    }

    /// Whether the server has given up.
    pub fn is_stopped(&self) -> (stopped: bool)
        ensures
            stopped == (self@.phase is Stopped),
    {
        match self.phase {
            Phase::Stopped(_) => true,
            _ => false,
        }
    }

    /// The action that is outstanding now.
    pub fn action(&self) -> (action: Action)
        ensures
            action@ == pending(self@.config, self@.phase),
    {
        match self.phase {
            Phase::Binding => Action::Bind(self.config.port()),
            Phase::Accepting => Action::Accept,
            Phase::Detaching => Action::Run(
                Invocation::new(Operation::Detach, self.config.machine(), self.config.usb_file()),
            ),
            Phase::Settling => Action::Wait(SETTLE_SECONDS),
            Phase::Attaching => Action::Run(
                Invocation::new(Operation::Attach, self.config.machine(), self.config.usb_file()),
            ),
            Phase::Replying(outcome) => Action::Reply(outcome),
            Phase::Closing => Action::Close,
            Phase::Cooling => Action::Wait(COOLDOWN_SECONDS),
            Phase::Stopped(fatal) => Action::Stop(fatal),
        }
    }

    /// Takes in how the outstanding action ended, and says what to do next.
    ///
    /// Where the server does not wait for `event` in its phase, it stays as it
    /// is and answers `None`. Otherwise it moves to the phase that
    /// [`next_phase`] names and answers with the action of that phase. The
    /// settings never change.
    pub fn step(&mut self, event: &Event) -> (action: Option<Action>)
        ensures
            final(self)@.config == old(self)@.config,
            match next_phase(old(self)@.phase, *event) {
                Some(phase) => {
                    &&& final(self)@.phase == phase
                    &&& action matches Some(a)
                    &&& a@ == pending(old(self)@.config, phase)
                },
                None => {
                    &&& final(self)@.phase == old(self)@.phase
                    &&& action is None
                },
            },
    {
        let next = match (self.phase, event) {
            (Phase::Binding, Event::Bound) => Some(Phase::Accepting),
            (Phase::Binding, Event::BindFailed) => Some(Phase::Stopped(Fatal::Bind)),
            (Phase::Accepting, Event::Connected) => Some(Phase::Detaching),
            (Phase::Accepting, Event::AcceptFailed) => Some(Phase::Stopped(Fatal::Accept)),
            (Phase::Detaching, Event::Finished(output)) => {
                if output.reports_error() {
                    Some(Phase::Replying(Outcome::Failure))
                } else {
                    Some(Phase::Settling)
                }
            },
            (Phase::Detaching, Event::LaunchFailed) => Some(
                Phase::Stopped(Fatal::Launch(Operation::Detach)),
            ),
            (Phase::Settling, Event::Elapsed) => Some(Phase::Attaching),
            (Phase::Attaching, Event::Finished(output)) => {
                if output.reports_error() {
                    Some(Phase::Replying(Outcome::Failure))
                } else {
                    Some(Phase::Replying(Outcome::Success))
                }
            },
            (Phase::Attaching, Event::LaunchFailed) => Some(
                Phase::Stopped(Fatal::Launch(Operation::Attach)),
            ),
            (Phase::Replying(_), Event::Written) => Some(Phase::Closing),
            (Phase::Replying(_), Event::WriteFailed) => Some(Phase::Closing),
            (Phase::Closing, Event::Closed) => Some(Phase::Cooling),
            (Phase::Closing, Event::CloseFailed) => Some(Phase::Cooling),
            (Phase::Cooling, Event::Elapsed) => Some(Phase::Accepting),
            _ => None,
        };
        match next {
            Some(phase) => {
                self.phase = phase;
                Some(self.action())
            },
            None => None,
        }
    }
}

} // verus!
