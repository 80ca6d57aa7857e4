//! The two hypervisor commands of a cycle, and what a finished command hands back.

use vstd::prelude::*;

verus! {

/// Which of the two hypervisor commands is meant.
#[derive(Clone, Copy, Debug, PartialEq, Eq, Structural)]
pub enum Operation {
    /// Take the device away from the machine.
    Detach,
    /// Give the device to the machine.
    Attach,
}

/// What to say when the hypervisor tool cannot be launched for an operation.
pub open spec fn launch_failure_text(operation: Operation) -> Seq<char> {
    match operation {
        Operation::Detach => "failed to detach usb"@,
        Operation::Attach => "failed to attach usb"@,
    }
}

impl Operation {
    /// What to say when the hypervisor tool cannot be launched for this operation.
    pub fn launch_failure(self) -> (text: &'static str)
        ensures
            text@ == launch_failure_text(self),
    {
        match self {
            Operation::Detach => "failed to detach usb",
            Operation::Attach => "failed to attach usb",
        }
    }
}

/// A program and its ordered arguments, ready to be launched.
#[derive(Clone, Debug, PartialEq, Eq)]
pub struct Invocation {
    pub program: String,
    pub args: Vec<String>,
}

/// An [`Invocation`] as plain text.
pub struct InvocationView {
    pub program: Seq<char>,
    pub args: Seq<Seq<char>>,
}

impl View for Invocation {
    type V = InvocationView;

    open spec fn view(&self) -> InvocationView {
        InvocationView {
            program: self.program@,
            args: Seq::new(self.args@.len(), |i: int| self.args@[i]@),
        }
    }
}

/// The subcommand of the hypervisor tool for an operation.
pub open spec fn subcommand(operation: Operation) -> Seq<char> {
    match operation {
        Operation::Detach => "detach-device"@,
        Operation::Attach => "attach-device"@,
    }
}

/// The command line for an operation on a machine with a device descriptor file:
/// `virsh <subcommand> <machine> --file <descriptor>`.
pub open spec fn invocation_for(
    operation: Operation,
    machine: Seq<char>,
    usb_file: Seq<char>,
) -> InvocationView {
    InvocationView {
        program: "virsh"@,
        args: seq![subcommand(operation), machine, "--file"@, usb_file],
    }
}

impl Invocation {
    /// Builds the command line for `operation` on `machine` with the descriptor `usb_file`.
    pub fn new(operation: Operation, machine: &str, usb_file: &str) -> (invocation: Invocation)
        ensures
            invocation@ == invocation_for(operation, machine@, usb_file@),
    {
        let verb = match operation {
            Operation::Detach => "detach-device",
            Operation::Attach => "attach-device",
        };
        let mut args: Vec<String> = Vec::new();
        args.push(verb.to_owned());
        args.push(machine.to_owned());
        args.push("--file".to_owned());
        args.push(usb_file.to_owned());
        let invocation = Invocation { program: "virsh".to_owned(), args };
        assert(invocation@.args =~= invocation_for(operation, machine@, usb_file@).args);
        invocation
    }
}

/// What a finished command left behind: its exit status, if it has one, and
/// its two captured streams.
#[derive(Clone, Debug, PartialEq, Eq)]
pub struct CommandOutput {
    pub status: Option<i32>,
    pub stdout: Vec<u8>,
    pub stderr: Vec<u8>,
}

impl CommandOutput {
    /// A command counts as failed exactly when it wrote anything to its error
    /// stream. Neither the exit status nor the standard output is consulted.
    pub open spec fn has_error_output(&self) -> bool {
        self.stderr@.len() > 0
    }

    /// Whether the command reported an error.
    pub fn reports_error(&self) -> (failed: bool)
        ensures
            failed == self.has_error_output(),
    {
        self.stderr.len() > 0
    }
}

/// Two outputs with the same error stream are judged alike, whatever their
/// exit status and standard output.
pub proof fn verdict_depends_on_error_stream_only(a: CommandOutput, b: CommandOutput)
    requires
        a.stderr@ == b.stderr@,
    ensures
        a.has_error_output() == b.has_error_output(),
{
}

} // verus!
