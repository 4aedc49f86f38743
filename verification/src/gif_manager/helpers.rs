//! The clipboard helpers: `wl-copy` under Wayland, `xclip` under X11, and the
//! plain text clipboard as the last resort. A helper is handed the location
//! of the image as a list of file addresses and stays alive to serve those
//! who paste.

use vstd::prelude::*;
use vstd::string::*;
use crate::error::{ErrorKind, PasteError, PasteErrorView};
use crate::subprocess::{arguments, Command, CommandView, HelperStatus, HelperStatusView, Launch};

verus! {

/// Milliseconds the Wayland helper is given before it is looked at.
pub const WAYLAND_SETTLE_MILLIS: u64 = 150;

/// The variables of the environment that the helpers are started with, as
/// they stood when they were read: each is the value of the variable where
/// it is set and is text.
#[derive(Debug)]
pub struct ClipboardEnv {
    /// `WAYLAND_DISPLAY`
    pub wayland_display: Option<String>,
    /// `XDG_RUNTIME_DIR`
    pub xdg_runtime_dir: Option<String>,
    /// `DISPLAY`
    pub display: Option<String>,
}

/// The mathematical value of a `ClipboardEnv`.
pub struct ClipboardEnvView {
    pub wayland_display: Option<Seq<char>>,
    pub xdg_runtime_dir: Option<Seq<char>>,
    pub display: Option<Seq<char>>,
}

pub open spec fn text_of(value: Option<String>) -> Option<Seq<char>> {
    match value {
        Some(text) => Some(text@),
        None => None,
    }
}

impl View for ClipboardEnv {
    type V = ClipboardEnvView;

    open spec fn view(&self) -> ClipboardEnvView {
        ClipboardEnvView {
            wayland_display: text_of(self.wayland_display),
            xdg_runtime_dir: text_of(self.xdg_runtime_dir),
            display: text_of(self.display),
        }
    }
}

/// The mathematical value of a planned command, or of the reason there is none.
pub open spec fn planned(plan: Result<Command, PasteError>) -> Result<CommandView, PasteErrorView> {
    match plan {
        Ok(command) => Ok(command@),
        Err(e) => Err(e@),
    }
}

/// The mathematical value of a result without a payload.
pub open spec fn settled(result: Result<(), PasteError>) -> Result<(), PasteErrorView> {
    match result {
        Ok(()) => Ok(()),
        Err(e) => Err(e@),
    }
}

/// The address of a local file.
pub open spec fn file_uri_spec(path: Seq<char>) -> Seq<char> {
    "file://"@ + path
}

pub fn file_uri(path: &str) -> (uri: String)
    ensures
        uri@ == file_uri_spec(path@),
{
    let mut uri = String::from_str("file://");
    uri.append(path);
    uri
}

/// The Wayland helper for the file at `path`: `wl-copy --type text/uri-list`
/// with the display and the runtime directory put into its environment, fed
/// the address of the file and a line end, left running and looked at once.
pub open spec fn wayland_command(path: Seq<char>, display: Seq<char>, runtime: Seq<char>) -> CommandView {
    CommandView {
        program: "wl-copy"@,
        args: seq!["--type"@, "text/uri-list"@],
        env: seq![("WAYLAND_DISPLAY"@, display), ("XDG_RUNTIME_DIR"@, runtime)],
        input: Some(file_uri_spec(path) + "\n"@),
        launch: Launch::Background { settle_millis: WAYLAND_SETTLE_MILLIS },
    }
}

/// The Wayland helper where the environment names a compositor to talk to,
/// and the reason where it does not.
pub open spec fn wayland_plan(path: Seq<char>, env: ClipboardEnvView) -> Result<
    CommandView,
    PasteErrorView,
> {
    match env.wayland_display {
        None => Err(
            PasteErrorView {
                kind: ErrorKind::EnvironmentUnavailable,
                message: "WAYLAND_DISPLAY not set; Wayland clipboard not available"@,
            },
        ),
        Some(display) => match env.xdg_runtime_dir {
            None => Err(
                PasteErrorView {
                    kind: ErrorKind::EnvironmentUnavailable,
                    message: "XDG_RUNTIME_DIR not set; Wayland clipboard not available"@,
                },
            ),
            Some(runtime) => Ok(wayland_command(path, display, runtime)),
        },
    }
}

/// Plans the Wayland helper for the file at `gif_path`. The display and the
/// runtime directory are handed on as they are, whatever backend the caller
/// draws its own windows with.
pub fn copy_gif_to_clipboard_wayland(gif_path: &str, env: &ClipboardEnv) -> (plan: Result<
    Command,
    PasteError,
>)
    ensures
        planned(plan) == wayland_plan(gif_path@, env@),
{
    let display = match &env.wayland_display {
        Some(display) => display,
        None => {
            return Err(
                PasteError::fixed(
                    ErrorKind::EnvironmentUnavailable,
                    "WAYLAND_DISPLAY not set; Wayland clipboard not available",
                ),
            );
        },
    };
    let runtime = match &env.xdg_runtime_dir {
        Some(runtime) => runtime,
        None => {
            return Err(
                PasteError::fixed(
                    ErrorKind::EnvironmentUnavailable,
                    "XDG_RUNTIME_DIR not set; Wayland clipboard not available",
                ),
            );
        },
    };
    let mut input = file_uri(gif_path);
    input.append("\n");
    let words = ["--type", "text/uri-list"];
    let args = arguments(&words);
    assert(args.deep_view() =~= seq!["--type"@, "text/uri-list"@]);
    let mut vars: Vec<(String, String)> = Vec::new();
    vars.push((String::from_str("WAYLAND_DISPLAY"), display.clone()));
    vars.push((String::from_str("XDG_RUNTIME_DIR"), runtime.clone()));
    assert(vars.deep_view() =~= seq![
        ("WAYLAND_DISPLAY"@, display@),
        ("XDG_RUNTIME_DIR"@, runtime@),
    ]);
    Ok(
        Command {
            program: String::from_str("wl-copy"),
            args,
            env: vars,
            input: Some(input),
            launch: Launch::Background { settle_millis: WAYLAND_SETTLE_MILLIS },
        },
    )
}

/// What the state of the Wayland helper means: a helper that is still
/// running is what is hoped for, one that has exited cleanly will do, and
/// anything else is a failure.
pub open spec fn wayland_result(status: HelperStatusView) -> Result<(), PasteErrorView> {
    match status {
        HelperStatusView::SpawnFailed(detail) => Err(
            PasteErrorView {
                kind: ErrorKind::SubprocessSpawnFailed,
                message: "Failed to spawn wl-copy: "@ + detail
                    + ". Make sure wl-clipboard is installed."@,
            },
        ),
        HelperStatusView::WriteFailed(detail) => Err(
            PasteErrorView {
                kind: ErrorKind::SubprocessSpawnFailed,
                message: "Failed to write to wl-copy: "@ + detail,
            },
        ),
        HelperStatusView::Running => Ok(()),
        HelperStatusView::Exited { success: true, .. } => Ok(()),
        HelperStatusView::Exited { success: false, stderr: Some(text) } => Err(
            PasteErrorView {
                kind: ErrorKind::SubprocessExitedWithError,
                message: "wl-copy failed: "@ + text,
            },
        ),
        HelperStatusView::Exited { success: false, stderr: None } => Err(
            PasteErrorView {
                kind: ErrorKind::SubprocessExitedWithError,
                message: "wl-copy failed with unknown error"@,
            },
        ),
        HelperStatusView::CheckFailed(detail) => Err(
            PasteErrorView {
                kind: ErrorKind::SubprocessExitedWithError,
                message: "Failed to check wl-copy status: "@ + detail,
            },
        ),
    }
}

/// Judges the state the Wayland helper was found in.
pub fn check_wayland_helper(status: &HelperStatus) -> (result: Result<(), PasteError>)
    ensures
        settled(result) == wayland_result(status@),
{
    match status {
        HelperStatus::SpawnFailed(detail) => Err(
            PasteError::framed(
                ErrorKind::SubprocessSpawnFailed,
                "Failed to spawn wl-copy: ",
                detail.as_str(),
                ". Make sure wl-clipboard is installed.",
            ),
        ),
        HelperStatus::WriteFailed(detail) => Err(
            PasteError::prefixed(
                ErrorKind::SubprocessSpawnFailed,
                "Failed to write to wl-copy: ",
                detail.as_str(),
            ),
        ),
        HelperStatus::Running => Ok(()),
        HelperStatus::Exited { success: true, .. } => Ok(()),
        HelperStatus::Exited { success: false, stderr: Some(text) } => Err(
            PasteError::prefixed(
                ErrorKind::SubprocessExitedWithError,
                "wl-copy failed: ",
                text.as_str(),
            ),
        ),
        HelperStatus::Exited { success: false, stderr: None } => Err(
            PasteError::fixed(
                ErrorKind::SubprocessExitedWithError,
                "wl-copy failed with unknown error",
            ),
        ),
        HelperStatus::CheckFailed(detail) => Err(
            PasteError::prefixed(
                ErrorKind::SubprocessExitedWithError,
                "Failed to check wl-copy status: ",
                detail.as_str(),
            ),
        ),
    }
}

/// The X11 helper for the file at `path`:
/// `xclip -selection clipboard -t text/uri-list -loops 0` with the display
/// put into its environment, fed the address of the file, and left alone.
pub open spec fn x11_command(path: Seq<char>, display: Seq<char>) -> CommandView {
    CommandView {
        program: "xclip"@,
        args: seq!["-selection"@, "clipboard"@, "-t"@, "text/uri-list"@, "-loops"@, "0"@],
        env: seq![("DISPLAY"@, display)],
        input: Some(file_uri_spec(path)),
        launch: Launch::Detached,
    }
}

/// The X11 helper where the environment names a display, and the reason
/// where it does not.
pub open spec fn x11_plan(path: Seq<char>, env: ClipboardEnvView) -> Result<
    CommandView,
    PasteErrorView,
> {
    match env.display {
        None => Err(
            PasteErrorView {
                kind: ErrorKind::EnvironmentUnavailable,
                message: "DISPLAY not set; X11 clipboard not available"@,
            },
        ),
        Some(display) => Ok(x11_command(path, display)),
    }
}

/// Plans the X11 helper for the file at `gif_path`.
pub fn copy_gif_to_clipboard_x11(gif_path: &str, env: &ClipboardEnv) -> (plan: Result<
    Command,
    PasteError,
>)
    ensures
        planned(plan) == x11_plan(gif_path@, env@),
{
    let display = match &env.display {
        Some(display) => display,
        None => {
            return Err(
                PasteError::fixed(
                    ErrorKind::EnvironmentUnavailable,
                    "DISPLAY not set; X11 clipboard not available",
                ),
            );
        },
    };
    let words = ["-selection", "clipboard", "-t", "text/uri-list", "-loops", "0"];
    let args = arguments(&words);
    assert(args.deep_view() =~= seq![
        "-selection"@,
        "clipboard"@,
        "-t"@,
        "text/uri-list"@,
        "-loops"@,
        "0"@,
    ]);
    let mut vars: Vec<(String, String)> = Vec::new();
    vars.push((String::from_str("DISPLAY"), display.clone()));
    assert(vars.deep_view() =~= seq![("DISPLAY"@, display@)]);
    Ok(
        Command {
            program: String::from_str("xclip"),
            args,
            env: vars,
            input: Some(file_uri(gif_path)),
            launch: Launch::Detached,
        },
    )
}

/// What the state of the X11 helper means: it has failed where it could not
/// be started or fed; once it has its input it is never looked at again, so
/// whatever else is reported of it counts as success.
pub open spec fn x11_result(status: HelperStatusView) -> Result<(), PasteErrorView> {
    match status {
        HelperStatusView::SpawnFailed(detail) => Err(
            PasteErrorView {
                kind: ErrorKind::SubprocessSpawnFailed,
                message: "Failed to spawn xclip: "@ + detail + ". Make sure xclip is installed."@,
            },
        ),
        HelperStatusView::WriteFailed(detail) => Err(
            PasteErrorView {
                kind: ErrorKind::SubprocessSpawnFailed,
                message: "Failed to write to xclip: "@ + detail,
            },
        ),
        _ => Ok(()),
    }
}

/// Judges the state the X11 helper was left in.
pub fn check_x11_helper(status: &HelperStatus) -> (result: Result<(), PasteError>)
    ensures
        settled(result) == x11_result(status@),
{
    match status {
        HelperStatus::SpawnFailed(detail) => Err(
            PasteError::framed(
                ErrorKind::SubprocessSpawnFailed,
                "Failed to spawn xclip: ",
                detail.as_str(),
                ". Make sure xclip is installed.",
            ),
        ),
        HelperStatus::WriteFailed(detail) => Err(
            PasteError::prefixed(
                ErrorKind::SubprocessSpawnFailed,
                "Failed to write to xclip: ",
                detail.as_str(),
            ),
        ),
        _ => Ok(()),
    }
}

/// How putting plain text on the clipboard went.
#[derive(Debug)]
pub enum TextOutcome {
    /// The clipboard could not be opened.
    OpenFailed(String),
    /// The text could not be set.
    SetFailed(String),
    /// The text is on the clipboard.
    Done,
}

/// The mathematical value of a `TextOutcome`.
pub enum TextOutcomeView {
    OpenFailed(Seq<char>),
    SetFailed(Seq<char>),
    Done,
}

impl View for TextOutcome {
    type V = TextOutcomeView;

    open spec fn view(&self) -> TextOutcomeView {
        match *self {
            TextOutcome::OpenFailed(detail) => TextOutcomeView::OpenFailed(detail@),
            TextOutcome::SetFailed(detail) => TextOutcomeView::SetFailed(detail@),
            TextOutcome::Done => TextOutcomeView::Done,
        }
    }
}

pub open spec fn text_result(outcome: TextOutcomeView) -> Result<(), PasteErrorView> {
    match outcome {
        TextOutcomeView::OpenFailed(detail) => Err(
            PasteErrorView {
                kind: ErrorKind::PublishFailed,
                message: "Failed to open clipboard: "@ + detail,
            },
        ),
        TextOutcomeView::SetFailed(detail) => Err(
            PasteErrorView {
                kind: ErrorKind::PublishFailed,
                message: "Failed to set clipboard: "@ + detail,
            },
        ),
        TextOutcomeView::Done => Ok(()),
    }
}

/// Judges how putting the address on the clipboard as plain text went.
pub fn copy_url_to_clipboard(outcome: &TextOutcome) -> (result: Result<(), PasteError>)
    ensures
        settled(result) == text_result(outcome@),
{
    match outcome {
        TextOutcome::OpenFailed(detail) => Err(
            PasteError::prefixed(
                ErrorKind::PublishFailed,
                "Failed to open clipboard: ",
                detail.as_str(),
            ),
        ),
        TextOutcome::SetFailed(detail) => Err(
            PasteError::prefixed(
                ErrorKind::PublishFailed,
                "Failed to set clipboard: ",
                detail.as_str(),
            ),
        ),
        TextOutcome::Done => Ok(()),
    }
}

} // verus!
