//! Helper programs: what to start, and what came of it.

use vstd::prelude::*;
use vstd::string::*;

verus! {

/// How a program is started and what is done about it afterwards.
#[derive(Clone, Copy, Debug, PartialEq, Eq, Structural)]
pub enum Launch {
    /// Run it to its end and collect what it prints.
    Wait,
    /// Leave it running: its input is piped, its output dropped and its
    /// error stream kept. After `settle_millis` milliseconds it is looked at
    /// once, and never waited for.
    Background { settle_millis: u64 },
    /// Leave it running and never look at it again: its input is piped,
    /// its output and error stream dropped.
    Detached,
}

/// A program to start: its name, its arguments, the variables added to its
/// environment, the text written to its input before that is closed, and how
/// it is started.
#[derive(Debug)]
pub struct Command {
    pub program: String,
    pub args: Vec<String>,
    pub env: Vec<(String, String)>,
    pub input: Option<String>,
    pub launch: Launch,
}

/// The mathematical value of a `Command`.
pub struct CommandView {
    pub program: Seq<char>,
    pub args: Seq<Seq<char>>,
    pub env: Seq<(Seq<char>, Seq<char>)>,
    pub input: Option<Seq<char>>,
    pub launch: Launch,
}

impl View for Command {
    type V = CommandView;

    open spec fn view(&self) -> CommandView {
        CommandView {
            program: self.program@,
            args: self.args.deep_view(),
            env: self.env.deep_view(),
            input: match self.input {
                Some(text) => Some(text@),
                None => None,
            },
            launch: self.launch,
        }
    }
}

/// What became of a helper that was left running.
#[derive(Debug)]
pub enum HelperStatus {
    /// It could not be started.
    SpawnFailed(String),
    /// Its input could not be written.
    WriteFailed(String),
    /// It was started and, where it was looked at, was still alive.
    Running,
    /// It had exited when it was looked at; `stderr` is what it wrote to its
    /// error stream, where that could be collected.
    Exited { success: bool, stderr: Option<String> },
    /// It could not be looked at.
    CheckFailed(String),
}

/// The mathematical value of a `HelperStatus`.
pub enum HelperStatusView {
    SpawnFailed(Seq<char>),
    WriteFailed(Seq<char>),
    Running,
    Exited { success: bool, stderr: Option<Seq<char>> },
    CheckFailed(Seq<char>),
}

impl View for HelperStatus {
    type V = HelperStatusView;

    open spec fn view(&self) -> HelperStatusView {
        match *self {
            HelperStatus::SpawnFailed(detail) => HelperStatusView::SpawnFailed(detail@),
            HelperStatus::WriteFailed(detail) => HelperStatusView::WriteFailed(detail@),
            HelperStatus::Running => HelperStatusView::Running,
            HelperStatus::Exited { success, stderr } => HelperStatusView::Exited {
                success,
                stderr: match stderr {
                    Some(text) => Some(text@),
                    None => None,
                },
            },
            HelperStatus::CheckFailed(detail) => HelperStatusView::CheckFailed(detail@),
        }
    }
}

/// What a program that ran to its end left behind.
#[derive(Debug)]
pub struct Output {
    /// Whether it exited with status zero.
    pub success: bool,
    pub stdout: String,
    pub stderr: String,
}

/// The mathematical value of an `Output`.
pub struct OutputView {
    pub success: bool,
    pub stdout: Seq<char>,
    pub stderr: Seq<char>,
}

impl View for Output {
    type V = OutputView;

    open spec fn view(&self) -> OutputView {
        OutputView { success: self.success, stdout: self.stdout@, stderr: self.stderr@ }
    }
}

/// The outcome of running a program to its end: what it left behind, or why
/// it could not be started.
pub open spec fn completed(outcome: Result<Output, String>) -> Result<OutputView, Seq<char>> {
    match outcome {
        Ok(output) => Ok(output@),
        Err(detail) => Err(detail@),
    }
}

/// A list of arguments from string slices.
pub fn arguments(words: &[&str]) -> (args: Vec<String>)
    ensures
        args.deep_view() == Seq::new(words@.len(), |i: int| words@[i]@),
{
    let mut args: Vec<String> = Vec::new();
    let mut i: usize = 0;
    while i < words.len()
        invariant
            i <= words@.len(),
            args@.len() == i,
            forall|j: int| 0 <= j < i ==> args@[j]@ == words@[j]@,
        decreases words@.len() - i,
    {
        args.push(String::from_str(words[i]));
        i = i + 1;
    }
    assert(args.deep_view() =~= Seq::new(words@.len(), |i: int| words@[i]@));
    args
}

} // verus!
