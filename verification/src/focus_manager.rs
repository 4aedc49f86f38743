//! Focus tracking under X11: the window that has the focus is remembered
//! before the overlay shows, and given the focus back before the paste
//! keystroke is sent.

use vstd::prelude::*;
use vstd::string::*;
use crate::error::{ErrorKind, PasteError, PasteErrorView};
use crate::script::{lemma_replay_bounded, DirectiveView, Report, RunView, Step};

verus! {

/// Milliseconds the window manager is given to act on a focus change before
/// keystrokes may follow.
pub const FOCUS_RESTORE_DELAY_MILLIS: u64 = 100;

/// The window identifier that stands for "no window saved".
pub const NO_WINDOW: u32 = 0;

/// The timestamp that stands for "now" in the X11 protocol.
pub const CURRENT_TIME: u32 = 0;

/// Where the focus goes when the focused window can no longer have it.
#[derive(Clone, Copy, Debug, PartialEq, Eq, Structural)]
pub enum RevertTo {
    /// To no window at all.
    Nowhere,
    /// To the window under the pointer.
    PointerRoot,
    /// To the closest ancestor of the window that can have it.
    Parent,
}

/// What asking the X11 server for the focused window gave.
#[derive(Debug)]
pub enum FocusQuery {
    Focused(u32),
    ConnectFailed(String),
    RequestFailed(String),
    ReplyFailed(String),
}

impl FocusQuery {
    /// The window the query found, if it found one.
    pub open spec fn window(self) -> Option<u32> {
        match self {
            FocusQuery::Focused(window) => Some(window),
            _ => None,
        }
    }
}

/// The window that has the focus, as a query found it: a diagnostic that
/// neither reads nor changes what a tracker remembers.
pub fn get_focused_window(query: &FocusQuery) -> (window: Option<u32>)
    ensures
        window == query.window(),
{
    match query {
        FocusQuery::Focused(window) => Some(*window),
        _ => None,
    }
}

/// One step of giving the focus back.
#[derive(Clone, Copy, Debug, PartialEq, Eq, Structural)]
pub enum FocusStep {
    /// Connect to the default display.
    Connect,
    /// Ask for the focus to be set on `window`.
    SetInputFocus { window: u32, revert_to: RevertTo, time: u32 },
    /// Flush the connection, so that the request leaves now.
    Flush,
    /// Wait.
    Sleep { millis: u64 },
}

impl Step for FocusStep {
    open spec fn failure_spec(self, detail: Seq<char>) -> Option<PasteErrorView> {
        match self {
            FocusStep::Connect => Some(
                PasteErrorView {
                    kind: ErrorKind::ConnectionFailed,
                    message: "X11 connect failed: "@ + detail,
                },
            ),
            FocusStep::SetInputFocus { .. } => Some(
                PasteErrorView {
                    kind: ErrorKind::ConnectionFailed,
                    message: "Set focus failed: "@ + detail,
                },
            ),
            FocusStep::Flush => Some(
                PasteErrorView {
                    kind: ErrorKind::ConnectionFailed,
                    message: "Flush failed: "@ + detail,
                },
            ),
            FocusStep::Sleep { .. } => None,
        }
    }

    fn failure(&self, detail: &str) -> (r: Option<PasteError>) {
        match self {
            FocusStep::Connect => Some(
                PasteError::prefixed(ErrorKind::ConnectionFailed, "X11 connect failed: ", detail),
            ),
            FocusStep::SetInputFocus { .. } => Some(
                PasteError::prefixed(ErrorKind::ConnectionFailed, "Set focus failed: ", detail),
            ),
            FocusStep::Flush => Some(
                PasteError::prefixed(ErrorKind::ConnectionFailed, "Flush failed: ", detail),
            ),
            FocusStep::Sleep { .. } => None,
        }
    }
}

/// Giving the focus back to `window`: connect, ask for the focus with the
/// parent as the fallback and "now" as the time, flush, and wait for the
/// window manager.
pub open spec fn restore_script(window: u32) -> Seq<FocusStep> {
    seq![
        FocusStep::Connect,
        FocusStep::SetInputFocus { window, revert_to: RevertTo::Parent, time: CURRENT_TIME },
        FocusStep::Flush,
        FocusStep::Sleep { millis: FOCUS_RESTORE_DELAY_MILLIS },
    ]
}

/// The error of a restore that has nothing to restore.
pub open spec fn no_previous_focus() -> PasteErrorView {
    PasteErrorView { kind: ErrorKind::NoPreviousFocus, message: "No previous window saved"@ }
}

/// What a restore does for a tracker that remembers `slot`.
pub open spec fn restore_spec(slot: u32) -> Result<Seq<FocusStep>, PasteErrorView> {
    if slot == NO_WINDOW {
        Err(no_previous_focus())
    } else {
        Ok(restore_script(slot))
    }
}

/// What a tracker that remembers `slot` remembers after a save that saw `seen`.
pub open spec fn saved(slot: u32, seen: Option<u32>) -> u32 {
    match seen {
        Some(window) => window,
        None => slot,
    }
}

/// What a tracker remembers after a sequence of saves.
pub open spec fn after_saves(slot: u32, seen: Seq<Option<u32>>) -> u32
    decreases seen.len(),
{
    if seen.len() == 0 {
        slot
    } else {
        after_saves(saved(slot, seen[0]), seen.drop_first())
    }
}

/// The one place where the window that had the focus is remembered.
#[derive(Debug)]
pub struct FocusTracker {
    last_focused: u32,
}

impl View for FocusTracker {
    type V = u32;

    closed spec fn view(&self) -> u32 {
        self.last_focused
    }
}

impl FocusTracker {
    /// A tracker that remembers no window.
    pub fn new() -> (tracker: FocusTracker)
        ensures
            tracker@ == NO_WINDOW,
    {
        FocusTracker { last_focused: NO_WINDOW }
    }

    /// The window that is remembered; `NO_WINDOW` where none is.
    pub fn last_focused(&self) -> (window: u32)
        ensures
            window == self@,
    {
        self.last_focused
    }
}

/// Remembers the window that `query` found, in place of whatever was
/// remembered before. A query that failed changes nothing.
pub fn save_focused_window(tracker: &mut FocusTracker, query: &FocusQuery)
    ensures
        final(tracker)@ == saved(old(tracker)@, query.window()),
{
    if let Some(window) = get_focused_window(query) {
        tracker.last_focused = window;
    }
}

/// Plans giving the focus back to the remembered window. Where none is
/// remembered there is nothing to do and nothing to talk to the server
/// about: the answer is `NoPreviousFocus`. What is remembered stays.
pub fn restore_focused_window(tracker: &FocusTracker) -> (plan: Result<Vec<FocusStep>, PasteError>)
    ensures
        match plan {
            Ok(script) => restore_spec(tracker@) == Ok::<Seq<FocusStep>, PasteErrorView>(script@),
            Err(e) => restore_spec(tracker@) == Err::<Seq<FocusStep>, PasteErrorView>(e@),
        },
{
    let window = tracker.last_focused;
    if window == NO_WINDOW {
        return Err(PasteError::fixed(ErrorKind::NoPreviousFocus, "No previous window saved"));
    }
    let mut script: Vec<FocusStep> = Vec::new();
    script.push(FocusStep::Connect);
    script.push(
        FocusStep::SetInputFocus { window, revert_to: RevertTo::Parent, time: CURRENT_TIME },
    );
    script.push(FocusStep::Flush);
    script.push(FocusStep::Sleep { millis: FOCUS_RESTORE_DELAY_MILLIS });
    assert(script@ =~= restore_script(window));
    Ok(script)
}

/// Without a save that found a window, a restore has no step to perform and
/// answers `NoPreviousFocus`: so it is for a new tracker, and so it stays
/// through any number of saves that failed.
pub proof fn lemma_restore_without_save(seen: Seq<Option<u32>>)
    requires
        forall|i: int| 0 <= i < seen.len() ==> seen[i] is None,
    ensures
        after_saves(NO_WINDOW, seen) == NO_WINDOW,
        restore_spec(after_saves(NO_WINDOW, seen)) == Err::<Seq<FocusStep>, PasteErrorView>(
            no_previous_focus(),
        ),
    decreases seen.len(),
{
    if seen.len() > 0 {
        lemma_restore_without_save(seen.drop_first());
    }
}

/// A restore asks for the focus on the window of the last save that found
/// one, and reports success only after the request was flushed and the full
/// delay was waited for: four reports at least.
pub proof fn lemma_restore_waits(slot: u32, window: u32, outcomes: Seq<Report>)
    requires
        window != NO_WINDOW,
        RunView::fresh(restore_script(window)).replay(outcomes).directive() == DirectiveView::<
            FocusStep,
        >::Finished(Ok(())),
    ensures
        restore_spec(saved(slot, Some(window))) == Ok::<Seq<FocusStep>, PasteErrorView>(
            restore_script(window),
        ),
        restore_script(window)[1] == (FocusStep::SetInputFocus {
            window,
            revert_to: RevertTo::Parent,
            time: CURRENT_TIME,
        }),
        restore_script(window).last() == (FocusStep::Sleep { millis: FOCUS_RESTORE_DELAY_MILLIS }),
        outcomes.len() >= 4,
{
    lemma_replay_bounded(RunView::fresh(restore_script(window)), outcomes);
}

} // verus!
