//! The window-targeted strategy: `xdotool` is asked which window has the
//! focus and then told to send the paste combination to that very window,
//! which holds up where a window manager guards against focus stealing.

use vstd::prelude::*;
use vstd::string::*;
use crate::error::{ErrorKind, PasteError, PasteErrorView};
use crate::subprocess::{arguments, completed, Command, CommandView, Launch, Output, OutputView};
use crate::text::{trim, trimmed};

verus! {

/// `xdotool getwindowfocus`: prints the identifier of the focused window.
pub open spec fn focus_command() -> CommandView {
    CommandView {
        program: "xdotool"@,
        args: seq!["getwindowfocus"@],
        env: Seq::empty(),
        input: None,
        launch: Launch::Wait,
    }
}

/// `xdotool key --window <window> --clearmodifiers ctrl+v`.
pub open spec fn key_command(window: Seq<char>) -> CommandView {
    CommandView {
        program: "xdotool"@,
        args: seq!["key"@, "--window"@, window, "--clearmodifiers"@, "ctrl+v"@],
        env: Seq::empty(),
        input: None,
        launch: Launch::Wait,
    }
}

/// Where a run of the strategy stands.
pub enum XdotoolView {
    /// The focused window is to be asked for.
    AskFocus,
    /// The keys are to be sent to this window.
    SendKeys(Seq<char>),
    /// The run is over.
    Done(Result<(), PasteErrorView>),
}

/// What the caller has to do next.
pub enum XdotoolDirectiveView {
    /// Run this command to its end and report what it left behind.
    Run(CommandView),
    Finished(Result<(), PasteErrorView>),
}

impl XdotoolView {
    pub open spec fn directive(self) -> XdotoolDirectiveView {
        match self {
            XdotoolView::AskFocus => XdotoolDirectiveView::Run(focus_command()),
            XdotoolView::SendKeys(window) => XdotoolDirectiveView::Run(key_command(window)),
            XdotoolView::Done(result) => XdotoolDirectiveView::Finished(result),
        }
    }

    /// The run after the outcome of its command was reported. The window is
    /// what the first command printed, without the white space around it.
    pub open spec fn report(self, outcome: Result<OutputView, Seq<char>>) -> XdotoolView {
        match self {
            XdotoolView::AskFocus => match outcome {
                Err(detail) => XdotoolView::Done(
                    Err(
                        PasteErrorView {
                            kind: ErrorKind::SubprocessSpawnFailed,
                            message: "Failed to run xdotool getwindowfocus: "@ + detail,
                        },
                    ),
                ),
                Ok(output) => if output.success {
                    XdotoolView::SendKeys(trimmed(output.stdout))
                } else {
                    XdotoolView::Done(
                        Err(
                            PasteErrorView {
                                kind: ErrorKind::SubprocessExitedWithError,
                                message: "xdotool getwindowfocus failed"@,
                            },
                        ),
                    )
                },
            },
            XdotoolView::SendKeys(_) => match outcome {
                Err(detail) => XdotoolView::Done(
                    Err(
                        PasteErrorView {
                            kind: ErrorKind::SubprocessSpawnFailed,
                            message: "Failed to run xdotool key: "@ + detail,
                        },
                    ),
                ),
                Ok(output) => if output.success {
                    XdotoolView::Done(Ok(()))
                } else {
                    XdotoolView::Done(
                        Err(
                            PasteErrorView {
                                kind: ErrorKind::SubprocessExitedWithError,
                                message: "xdotool key failed: "@ + output.stderr,
                            },
                        ),
                    )
                },
            },
            XdotoolView::Done(_) => self,
        }
    }

    /// The number of commands that may still be run.
    pub open spec fn remaining(self) -> nat {
        match self {
            XdotoolView::AskFocus => 2,
            XdotoolView::SendKeys(_) => 1,
            XdotoolView::Done(_) => 0,
        }
    }
}

/// What the caller has to do next.
#[derive(Debug)]
pub enum XdotoolDirective {
    Run(Command),
    Finished(Result<(), PasteError>),
}

impl View for XdotoolDirective {
    type V = XdotoolDirectiveView;

    open spec fn view(&self) -> XdotoolDirectiveView {
        match *self {
            XdotoolDirective::Run(command) => XdotoolDirectiveView::Run(command@),
            XdotoolDirective::Finished(Ok(())) => XdotoolDirectiveView::Finished(Ok(())),
            XdotoolDirective::Finished(Err(e)) => XdotoolDirectiveView::Finished(Err(e@)),
        }
    }
}

#[derive(Debug)]
enum Stage {
    AskFocus,
    SendKeys(String),
    Done(Result<(), PasteError>),
}

/// A run of the strategy.
#[derive(Debug)]
pub struct XdotoolRun {
    stage: Stage,
}

impl View for XdotoolRun {
    type V = XdotoolView;

    closed spec fn view(&self) -> XdotoolView {
        match self.stage {
            Stage::AskFocus => XdotoolView::AskFocus,
            Stage::SendKeys(window) => XdotoolView::SendKeys(window@),
            Stage::Done(Ok(())) => XdotoolView::Done(Ok(())),
            Stage::Done(Err(e)) => XdotoolView::Done(Err(e@)),
        }
    }
}

fn xdotool(args: Vec<String>) -> (command: Command)
    ensures
        command@ == (CommandView {
            program: "xdotool"@,
            args: args.deep_view(),
            env: Seq::empty(),
            input: None,
            launch: Launch::Wait,
        }),
{
    let command = Command {
        program: String::from_str("xdotool"),
        args,
        env: Vec::new(),
        input: None,
        launch: Launch::Wait,
    };
    assert(command.env.deep_view() =~= Seq::empty());
    command
}

impl XdotoolRun {
    /// What to do now.
    pub fn directive(&self) -> (d: XdotoolDirective)
        ensures
            d@ == self@.directive(),
    {
        match &self.stage {
            Stage::AskFocus => {
                let words = ["getwindowfocus"];
                let args = arguments(&words);
                assert(args.deep_view() =~= seq!["getwindowfocus"@]);
                XdotoolDirective::Run(xdotool(args))
            },
            Stage::SendKeys(window) => {
                let words = ["key", "--window", window.as_str(), "--clearmodifiers", "ctrl+v"];
                let args = arguments(&words);
                assert(args.deep_view() =~= seq![
                    "key"@,
                    "--window"@,
                    window@,
                    "--clearmodifiers"@,
                    "ctrl+v"@,
                ]);
                XdotoolDirective::Run(xdotool(args))
            },
            Stage::Done(Ok(())) => XdotoolDirective::Finished(Ok(())),
            Stage::Done(Err(e)) => XdotoolDirective::Finished(Err(e.duplicate())),
        }
    }

    /// Takes the outcome of the command that `directive` asked for: what the
    /// program left behind, or why it could not be started.
    pub fn report(&mut self, outcome: Result<Output, String>)
        ensures
            final(self)@ == old(self)@.report(completed(outcome)),
    {
        let next = match &self.stage {
            Stage::AskFocus => match outcome {
                Err(detail) => Stage::Done(
                    Err(
                        PasteError::prefixed(
                            ErrorKind::SubprocessSpawnFailed,
                            "Failed to run xdotool getwindowfocus: ",
                            detail.as_str(),
                        ),
                    ),
                ),
                Ok(output) => if output.success {
                    Stage::SendKeys(trim(output.stdout.as_str()))
                } else {
                    Stage::Done(
                        Err(
                            PasteError::fixed(
                                ErrorKind::SubprocessExitedWithError,
                                "xdotool getwindowfocus failed",
                            ),
                        ),
                    )
                },
            },
            Stage::SendKeys(_) => match outcome {
                Err(detail) => Stage::Done(
                    Err(
                        PasteError::prefixed(
                            ErrorKind::SubprocessSpawnFailed,
                            "Failed to run xdotool key: ",
                            detail.as_str(),
                        ),
                    ),
                ),
                Ok(output) => if output.success {
                    Stage::Done(Ok(()))
                } else {
                    Stage::Done(
                        Err(
                            PasteError::prefixed(
                                ErrorKind::SubprocessExitedWithError,
                                "xdotool key failed: ",
                                output.stderr.as_str(),
                            ),
                        ),
                    )
                },
            },
            Stage::Done(_) => {
                return ;
            },
        };
        self.stage = next;
    }
}

/// Plans the window-targeted strategy: its run starts by asking for the
/// focused window.
pub fn simulate_paste_xdotool() -> (run: XdotoolRun)
    ensures
        run@ == XdotoolView::AskFocus,
{
    XdotoolRun { stage: Stage::AskFocus }
}

/// A run is over after two commands at the latest.
pub proof fn lemma_xdotool_terminates(run: XdotoolView, outcome: Result<OutputView, Seq<char>>)
    requires
        !(run is Done),
    ensures
        run.report(outcome).remaining() < run.remaining(),
{
}

} // verus!
