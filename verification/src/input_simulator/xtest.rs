//! The protocol extension strategy: key events are synthesised through the
//! XTest extension of an X11 server, with no other program involved.

use vstd::prelude::*;
use vstd::string::*;
use crate::error::{ErrorKind, PasteError, PasteErrorView};
use crate::input_simulator::PasteKey;
use crate::script::Step;

verus! {

/// The version of the extension that is asked for.
pub const XTEST_MAJOR: u8 = 2;

pub const XTEST_MINOR: u16 = 1;

/// Milliseconds after a key press before the next event.
pub const PRESS_GAP_MILLIS: u64 = 10;

/// Milliseconds after the release of V before Ctrl is released.
pub const RELEASE_GAP_MILLIS: u64 = 5;

/// Whether a key goes down or up.
#[derive(Clone, Copy, Debug, PartialEq, Eq, Structural)]
pub enum KeyMotion {
    Press,
    Release,
}

impl KeyMotion {
    /// The event type of the X11 protocol: 2 for a key press, 3 for a key release.
    pub open spec fn event_type_spec(self) -> u8 {
        match self {
            KeyMotion::Press => 2,
            KeyMotion::Release => 3,
        }
    }

    pub fn event_type(self) -> (t: u8)
        ensures
            t == self.event_type_spec(),
    {
        match self {
            KeyMotion::Press => 2,
            KeyMotion::Release => 3,
        }
    }
}

/// The two places where the strategy waits for the server to catch up.
#[derive(Clone, Copy, Debug, PartialEq, Eq, Structural)]
pub enum SyncPoint {
    AfterSetup,
    AtEnd,
}

/// One step of the strategy.
#[derive(Clone, Copy, Debug, PartialEq, Eq, Structural)]
pub enum XtestStep {
    /// Connect to the default display and take the root window of its screen.
    Connect,
    /// Send the request for the version of the extension.
    RequestVersion { major: u8, minor: u16 },
    /// Wait for the reply to that request.
    AwaitVersion,
    /// Wait until the server has processed everything sent so far.
    Sync(SyncPoint),
    /// Fake a key event on the root window: event type and key code as the
    /// two fields give them; time, coordinates and device all zero.
    FakeInput { motion: KeyMotion, key: PasteKey },
    /// Flush the connection, so that the event leaves now.
    Flush,
    /// Wait.
    Sleep { millis: u64 },
}

impl XtestStep {
    /// What a failure of this step is called; `None` for a step that cannot fail.
    pub open spec fn context_spec(self) -> Option<Seq<char>> {
        match self {
            XtestStep::Connect => Some("X11 connect failed"@),
            XtestStep::RequestVersion { .. } => Some("XTest error"@),
            XtestStep::AwaitVersion => Some("XTest version query failed"@),
            XtestStep::Sync(SyncPoint::AfterSetup) => Some("Sync setup failed"@),
            XtestStep::Sync(SyncPoint::AtEnd) => Some("Sync failed"@),
            XtestStep::FakeInput { motion: KeyMotion::Press, key: PasteKey::LeftCtrl } => Some(
                "Failed to press Ctrl"@,
            ),
            XtestStep::FakeInput { motion: KeyMotion::Press, key: PasteKey::V } => Some(
                "Failed to press V"@,
            ),
            XtestStep::FakeInput { motion: KeyMotion::Release, key: PasteKey::V } => Some(
                "Failed to release V"@,
            ),
            XtestStep::FakeInput { motion: KeyMotion::Release, key: PasteKey::LeftCtrl } => Some(
                "Failed to release Ctrl"@,
            ),
            XtestStep::Flush => Some("Flush failed"@),
            XtestStep::Sleep { .. } => None,
        }
    }

    pub fn context(&self) -> (ctx: Option<&'static str>)
        ensures
            match ctx {
                Some(text) => self.context_spec() == Some(text@),
                None => self.context_spec() is None,
            },
    {
        match self {
            XtestStep::Connect => Some("X11 connect failed"),
            XtestStep::RequestVersion { .. } => Some("XTest error"),
            XtestStep::AwaitVersion => Some("XTest version query failed"),
            XtestStep::Sync(SyncPoint::AfterSetup) => Some("Sync setup failed"),
            XtestStep::Sync(SyncPoint::AtEnd) => Some("Sync failed"),
            XtestStep::FakeInput { motion: KeyMotion::Press, key: PasteKey::LeftCtrl } => Some(
                "Failed to press Ctrl",
            ),
            XtestStep::FakeInput { motion: KeyMotion::Press, key: PasteKey::V } => Some(
                "Failed to press V",
            ),
            XtestStep::FakeInput { motion: KeyMotion::Release, key: PasteKey::V } => Some(
                "Failed to release V",
            ),
            XtestStep::FakeInput { motion: KeyMotion::Release, key: PasteKey::LeftCtrl } => Some(
                "Failed to release Ctrl",
            ),
            XtestStep::Flush => Some("Flush failed"),
            XtestStep::Sleep { .. } => None,
        }
    }

    /// The kind of error a failure of this step is: a missing or unusable
    /// extension where the version cannot be had, a broken connection otherwise.
    pub open spec fn kind_spec(self) -> ErrorKind {
        match self {
            XtestStep::RequestVersion { .. } | XtestStep::AwaitVersion => ErrorKind::ProtocolUnsupported,
            _ => ErrorKind::ConnectionFailed,
        }
    }

    pub fn kind(&self) -> (kind: ErrorKind)
        ensures
            kind == self.kind_spec(),
    {
        match self {
            XtestStep::RequestVersion { .. } | XtestStep::AwaitVersion => ErrorKind::ProtocolUnsupported,
            _ => ErrorKind::ConnectionFailed,
        }
    }
}

/// The text of a failure: what failed, a colon, and the detail.
pub open spec fn in_context(ctx: Seq<char>, detail: Seq<char>) -> Seq<char> {
    ctx + ": "@ + detail
}

/// Puts the error of `res`, if it is one, into the context `ctx`.
pub fn map_xtest_err<T>(ctx: &str, res: Result<T, String>) -> (mapped: Result<T, String>)
    ensures
        match res {
            Ok(value) => mapped == Ok::<T, String>(value),
            Err(detail) => mapped is Err && mapped->Err_0@ == in_context(ctx@, detail@),
        },
{
    match res {
        Ok(value) => Ok(value),
        Err(detail) => {
            let mut text = String::from_str(ctx);
            text.append(": ");
            text.append(detail.as_str());
            Err(text)
        },
    }
}

impl Step for XtestStep {
    open spec fn failure_spec(self, detail: Seq<char>) -> Option<PasteErrorView> {
        match self.context_spec() {
            Some(ctx) => Some(
                PasteErrorView { kind: self.kind_spec(), message: in_context(ctx, detail) },
            ),
            None => None,
        }
    }

    fn failure(&self, detail: &str) -> (r: Option<PasteError>) {
        match self.context() {
            Some(ctx) => {
                match map_xtest_err::<()>(ctx, Err(String::from_str(detail))) {
                    Err(message) => Some(PasteError { kind: self.kind(), message }),
                    Ok(_) => None,
                }
            },
            None => None,
        }
    }
}

/// A key event and the flush that makes it leave.
pub open spec fn key_event_spec(motion: KeyMotion, key: PasteKey) -> Seq<XtestStep> {
    seq![XtestStep::FakeInput { motion, key }, XtestStep::Flush]
}

/// The whole strategy: connect, ask for the version of the extension,
/// synchronise, then press Ctrl, press V, release V and release Ctrl, each
/// event flushed at once and kept apart from the next by a pause, and
/// synchronise again.
pub open spec fn xtest_script() -> Seq<XtestStep> {
    seq![
        XtestStep::Connect,
        XtestStep::RequestVersion { major: XTEST_MAJOR, minor: XTEST_MINOR },
        XtestStep::AwaitVersion,
        XtestStep::Sync(SyncPoint::AfterSetup),
    ] + key_event_spec(KeyMotion::Press, PasteKey::LeftCtrl) + seq![
        XtestStep::Sleep { millis: PRESS_GAP_MILLIS },
    ] + key_event_spec(KeyMotion::Press, PasteKey::V) + seq![
        XtestStep::Sleep { millis: PRESS_GAP_MILLIS },
    ] + key_event_spec(KeyMotion::Release, PasteKey::V) + seq![
        XtestStep::Sleep { millis: RELEASE_GAP_MILLIS },
    ] + key_event_spec(KeyMotion::Release, PasteKey::LeftCtrl) + seq![
        XtestStep::Sync(SyncPoint::AtEnd),
    ]
}

/// Adds one key event and its flush to a script.
pub fn send_xtest_key(script: &mut Vec<XtestStep>, motion: KeyMotion, key: PasteKey)
    ensures
        final(script)@ == old(script)@ + key_event_spec(motion, key),
{
    script.push(XtestStep::FakeInput { motion, key });
    script.push(XtestStep::Flush);
    assert(script@ =~= old(script)@ + key_event_spec(motion, key));
}

/// Plans the protocol extension strategy.
pub fn simulate_paste_xtest() -> (script: Vec<XtestStep>)
    ensures
        script@ == xtest_script(),
{
    let mut script: Vec<XtestStep> = Vec::new();
    script.push(XtestStep::Connect);
    script.push(XtestStep::RequestVersion { major: XTEST_MAJOR, minor: XTEST_MINOR });
    script.push(XtestStep::AwaitVersion);
    script.push(XtestStep::Sync(SyncPoint::AfterSetup));
    assert(script@ =~= seq![
        XtestStep::Connect,
        XtestStep::RequestVersion { major: XTEST_MAJOR, minor: XTEST_MINOR },
        XtestStep::AwaitVersion,
        XtestStep::Sync(SyncPoint::AfterSetup),
    ]);
    send_xtest_key(&mut script, KeyMotion::Press, PasteKey::LeftCtrl);
    script.push(XtestStep::Sleep { millis: PRESS_GAP_MILLIS });
    send_xtest_key(&mut script, KeyMotion::Press, PasteKey::V);
    script.push(XtestStep::Sleep { millis: PRESS_GAP_MILLIS });
    send_xtest_key(&mut script, KeyMotion::Release, PasteKey::V);
    script.push(XtestStep::Sleep { millis: RELEASE_GAP_MILLIS });
    send_xtest_key(&mut script, KeyMotion::Release, PasteKey::LeftCtrl);
    script.push(XtestStep::Sync(SyncPoint::AtEnd));
    assert(script@ =~= xtest_script());
    script
}

} // verus!
