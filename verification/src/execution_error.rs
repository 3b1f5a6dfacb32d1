use vstd::prelude::*;
use vstd::string::*;
use crate::adb::texts;

verus! {

/// A command line that was run: the program and its arguments.
#[derive(Clone, Debug, PartialEq, Eq)]
pub struct Cmd {
    pub command: String,
    pub args: Vec<String>,
}

impl Cmd {
    pub fn new(command: &str, args: Vec<String>) -> (cmd: Cmd)
        ensures
            cmd.command@ == command@,
            cmd.args@ == args@,
    {
        Cmd { command: String::from_str(command), args }
    }
}

/// A process ran but did not exit successfully.
#[derive(Clone, Debug, PartialEq, Eq)]
pub struct ProcessStatusError {
    pub cmd: Cmd,
    /// The exit code; `None` when the process was ended by a signal.
    pub code: Option<i32>,
}

/// A process could not be run.
#[derive(Clone, Debug, PartialEq, Eq)]
pub struct ProcessIoError {
    pub cmd: Cmd,
    /// What the system reported.
    pub message: String,
}

/// Why a command could not be carried out.
#[derive(Clone, Debug, PartialEq, Eq)]
pub enum CommandExecutionError {
    ProcessStatus(ProcessStatusError),
    ProcessIo(ProcessIoError),
}

/// The content of a `CommandExecutionError`, as texts.
pub enum ErrorView {
    ProcessStatus { command: Seq<char>, args: Seq<Seq<char>>, code: Option<i32> },
    ProcessIo { command: Seq<char>, args: Seq<Seq<char>>, message: Seq<char> },
}

impl View for CommandExecutionError {
    type V = ErrorView;

    open spec fn view(&self) -> ErrorView {
        match self {
            CommandExecutionError::ProcessStatus(e) => ErrorView::ProcessStatus {
                command: e.cmd.command@,
                args: texts(e.cmd.args@),
                code: e.code,
            },
            CommandExecutionError::ProcessIo(e) => ErrorView::ProcessIo {
                command: e.cmd.command@,
                args: texts(e.cmd.args@),
                message: e.message@,
            },
        }
    }
}

} // verus!
