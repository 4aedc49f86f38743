//! The synthetic input library strategy: the paste combination is typed
//! through a library that picks its own way into the running session.

use vstd::prelude::*;
use vstd::string::*;
use crate::error::{ErrorKind, PasteError, PasteErrorView};
use crate::script::Step;

verus! {

/// A key as the library names it.
#[derive(Clone, Copy, Debug, PartialEq, Eq, Structural)]
pub enum Key {
    Control,
    Unicode(char),
}

/// What to do with a key.
#[derive(Clone, Copy, Debug, PartialEq, Eq, Structural)]
pub enum Direction {
    Press,
    Release,
    /// Press, then release.
    Click,
}

/// One step of the strategy.
#[derive(Clone, Copy, Debug, PartialEq, Eq, Structural)]
pub enum EnigoStep {
    /// Set the library up with its default settings.
    Connect,
    /// Send a key.
    Key { key: Key, direction: Direction },
}

impl Step for EnigoStep {
    /// Every failure ends the run, with the text the library gave.
    open spec fn failure_spec(self, detail: Seq<char>) -> Option<PasteErrorView> {
        Some(PasteErrorView { kind: ErrorKind::ConnectionFailed, message: detail })
    }

    fn failure(&self, detail: &str) -> (r: Option<PasteError>) {
        Some(PasteError::fixed(ErrorKind::ConnectionFailed, detail))
    }
}

/// The whole strategy: set up, hold Control, click `v`, let Control go.
pub open spec fn enigo_script() -> Seq<EnigoStep> {
    seq![
        EnigoStep::Connect,
        EnigoStep::Key { key: Key::Control, direction: Direction::Press },
        EnigoStep::Key { key: Key::Unicode('v'), direction: Direction::Click },
        EnigoStep::Key { key: Key::Control, direction: Direction::Release },
    ]
}

/// Plans the synthetic input library strategy.
pub fn simulate_paste_enigo() -> (script: Vec<EnigoStep>)
    ensures
        script@ == enigo_script(),
{
    let mut script: Vec<EnigoStep> = Vec::new();
    script.push(EnigoStep::Connect);
    script.push(EnigoStep::Key { key: Key::Control, direction: Direction::Press });
    script.push(EnigoStep::Key { key: Key::Unicode('v'), direction: Direction::Click });
    script.push(EnigoStep::Key { key: Key::Control, direction: Direction::Release });
    assert(script@ =~= enigo_script());
    script
}

} // verus!
