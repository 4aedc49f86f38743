//! Sending the paste keystroke: the strategies, the order they are tried in,
//! and the chain that stops at the first one that works.

pub mod enigo;
pub mod uinput;
pub mod xdotool;
pub mod xtest;

use vstd::prelude::*;
use vstd::string::*;
use crate::error::{ErrorKind, PasteError, PasteErrorView};
use crate::session::SessionType;

verus! {

/// Milliseconds to wait before the first strategy is tried.
pub const PRE_PASTE_DELAY_MILLIS: u64 = 10;

/// The two keys of the paste combination.
#[derive(Clone, Copy, Debug, PartialEq, Eq, Structural)]
pub enum PasteKey {
    LeftCtrl,
    V,
}

impl PasteKey {
    /// The key code of the kernel's input layer.
    pub open spec fn code_spec(self) -> u16 {
        match self {
            PasteKey::LeftCtrl => 29,
            PasteKey::V => 47,
        }
    }

    pub fn code(self) -> (c: u16)
        ensures
            c == self.code_spec(),
    {
        match self {
            PasteKey::LeftCtrl => 29,
            PasteKey::V => 47,
        }
    }

    /// The key code of an X11 server: the kernel's code, moved up by eight.
    pub open spec fn x11_keycode_spec(self) -> u8 {
        (self.code_spec() + 8) as u8
    }

    pub fn x11_keycode(self) -> (c: u8)
        ensures
            c == self.x11_keycode_spec(),
    {
        match self {
            PasteKey::LeftCtrl => 37,
            PasteKey::V => 55,
        }
    }
}

/// A way to send the paste keystroke.
#[derive(Clone, Copy, Debug, PartialEq, Eq, Structural)]
pub enum PasteStrategy {
    /// Key synthesis through the XTest extension of the X11 protocol.
    XTest,
    /// The `xdotool` program, told which window to send the keys to.
    Xdotool,
    /// A synthetic input library that works under either display server.
    Enigo,
    /// A virtual keyboard created through the kernel's uinput node.
    Uinput,
}

impl PasteStrategy {
    pub open spec fn name_spec(self) -> Seq<char> {
        match self {
            PasteStrategy::XTest => "XTest"@,
            PasteStrategy::Xdotool => "xdotool"@,
            PasteStrategy::Enigo => "enigo"@,
            PasteStrategy::Uinput => "uinput"@,
        }
    }

    /// The name the strategy goes by in messages.
    pub fn name(self) -> (name: &'static str)
        ensures
            name@ == self.name_spec(),
    {
        match self {
            PasteStrategy::XTest => "XTest",
            PasteStrategy::Xdotool => "xdotool",
            PasteStrategy::Enigo => "enigo",
            PasteStrategy::Uinput => "uinput",
        }
    }
}

/// The strategies for a session, in the order they are tried: under X11 the
/// two that need an X11 server come first; the two that work anywhere follow
/// in every session.
pub open spec fn strategies_spec(session: SessionType) -> Seq<PasteStrategy> {
    if session == SessionType::X11 {
        seq![
            PasteStrategy::XTest,
            PasteStrategy::Xdotool,
            PasteStrategy::Enigo,
            PasteStrategy::Uinput,
        ]
    } else {
        seq![PasteStrategy::Enigo, PasteStrategy::Uinput]
    }
}

pub fn strategies(session: SessionType) -> (list: Vec<PasteStrategy>)
    ensures
        list@ == strategies_spec(session),
{
    let mut list: Vec<PasteStrategy> = Vec::new();
    if session == SessionType::X11 {
        list.push(PasteStrategy::XTest);
        list.push(PasteStrategy::Xdotool);
    }
    list.push(PasteStrategy::Enigo);
    list.push(PasteStrategy::Uinput);
    assert(list@ =~= strategies_spec(session));
    list
}

/// What the caller of a chain has to do next.
#[derive(Debug)]
pub enum ChainDirective {
    /// Wait this many milliseconds, then report.
    Pause { millis: u64 },
    /// Run this strategy to its end, then report whether it worked.
    Attempt(PasteStrategy),
    /// The chain is over, with this result.
    Finished(Result<(), PasteError>),
}

/// The mathematical value of a `ChainDirective`.
pub enum ChainDirectiveView {
    Pause { millis: u64 },
    Attempt(PasteStrategy),
    Finished(Result<(), PasteErrorView>),
}

impl View for ChainDirective {
    type V = ChainDirectiveView;

    open spec fn view(&self) -> ChainDirectiveView {
        match *self {
            ChainDirective::Pause { millis } => ChainDirectiveView::Pause { millis },
            ChainDirective::Attempt(s) => ChainDirectiveView::Attempt(s),
            ChainDirective::Finished(Ok(())) => ChainDirectiveView::Finished(Ok(())),
            ChainDirective::Finished(Err(e)) => ChainDirectiveView::Finished(Err(e@)),
        }
    }
}

/// The error of a chain in which no strategy worked.
pub open spec fn exhausted() -> PasteErrorView {
    PasteErrorView { kind: ErrorKind::AllStrategiesExhausted, message: "All paste methods failed"@ }
}

/// The mathematical value of a chain: its strategies, whether the pause
/// before the first of them is over, how many of them have failed, and
/// whether one has worked.
pub struct ChainView {
    pub strategies: Seq<PasteStrategy>,
    pub settled: bool,
    pub failed: nat,
    pub succeeded: bool,
}

impl ChainView {
    pub open spec fn fresh(strategies: Seq<PasteStrategy>) -> ChainView {
        ChainView { strategies, settled: false, failed: 0, succeeded: false }
    }

    pub open spec fn directive(self) -> ChainDirectiveView {
        if !self.settled {
            ChainDirectiveView::Pause { millis: PRE_PASTE_DELAY_MILLIS }
        } else if self.succeeded {
            ChainDirectiveView::Finished(Ok(()))
        } else if self.failed < self.strategies.len() {
            ChainDirectiveView::Attempt(self.strategies[self.failed as int])
        } else {
            ChainDirectiveView::Finished(Err(exhausted()))
        }
    }

    pub open spec fn finished(self) -> bool {
        self.directive() is Finished
    }

    /// The chain after the caller reported on what `directive` asked for:
    /// `succeeded` says whether the strategy worked (it is not looked at
    /// after the pause). A finished chain stays as it is.
    pub open spec fn report(self, succeeded: bool) -> ChainView {
        if !self.settled {
            ChainView { settled: true, ..self }
        } else if self.succeeded || self.failed >= self.strategies.len() {
            self
        } else if succeeded {
            ChainView { succeeded: true, ..self }
        } else {
            ChainView { failed: self.failed + 1, ..self }
        }
    }

    /// The number of reports after which the chain is over at the latest.
    pub open spec fn remaining(self) -> nat {
        let pause: nat = if self.settled {
            0
        } else {
            1
        };
        if self.succeeded || self.failed >= self.strategies.len() {
            pause
        } else {
            pause + (self.strategies.len() - self.failed) as nat
        }
    }

    /// The strategies that are attempted from here on, in order, where
    /// `works` tells of each strategy whether it works.
    pub open spec fn attempts(self, works: spec_fn(PasteStrategy) -> bool) -> Seq<PasteStrategy>
        decreases self.remaining(),
    {
        match self.directive() {
            ChainDirectiveView::Pause { .. } => self.report(true).attempts(works),
            ChainDirectiveView::Attempt(s) => seq![s] + self.report(works(s)).attempts(works),
            ChainDirectiveView::Finished(_) => Seq::empty(),
        }
    }

    /// The result the chain ends with, where `works` tells of each strategy
    /// whether it works.
    pub open spec fn result(self, works: spec_fn(PasteStrategy) -> bool) -> Result<
        (),
        PasteErrorView,
    >
        decreases self.remaining(),
    {
        match self.directive() {
            ChainDirectiveView::Pause { .. } => self.report(true).result(works),
            ChainDirectiveView::Attempt(s) => self.report(works(s)).result(works),
            ChainDirectiveView::Finished(r) => r,
        }
    }
}

/// A run through the strategies of a session.
#[derive(Debug)]
pub struct PasteChain {
    strategies: Vec<PasteStrategy>,
    settled: bool,
    failed: usize,
    succeeded: bool,
}

impl View for PasteChain {
    type V = ChainView;

    closed spec fn view(&self) -> ChainView {
        ChainView {
            strategies: self.strategies@,
            settled: self.settled,
            failed: self.failed as nat,
            succeeded: self.succeeded,
        }
    }
}

impl PasteChain {
    /// What to do now.
    pub fn directive(&self) -> (d: ChainDirective)
        ensures
            d@ == self@.directive(),
    {
        if !self.settled {
            ChainDirective::Pause { millis: PRE_PASTE_DELAY_MILLIS }
        } else if self.succeeded {
            ChainDirective::Finished(Ok(()))
        } else if self.failed < self.strategies.len() {
            ChainDirective::Attempt(self.strategies[self.failed])
        } else {
            ChainDirective::Finished(
                Err(PasteError::fixed(ErrorKind::AllStrategiesExhausted, "All paste methods failed")),
            )
        }
    }

    /// Takes the report on what `directive` asked for.
    pub fn report(&mut self, succeeded: bool)
        ensures
            final(self)@ == old(self)@.report(succeeded),
    {
        if !self.settled {
            self.settled = true;
        } else if self.succeeded || self.failed >= self.strategies.len() {
        } else if succeeded {
            self.succeeded = true;
        } else {
            self.failed = self.failed + 1;
        }
    }
}

/// Plans the paste keystroke for a session: a short pause, then the
/// strategies of the session in order, up to the first that works.
pub fn simulate_paste_keystroke(session: SessionType) -> (chain: PasteChain)
    ensures
        chain@ == ChainView::fresh(strategies_spec(session)),
{
    PasteChain { strategies: strategies(session), settled: false, failed: 0, succeeded: false }
}

/// Every report on an unfinished chain brings its end nearer, so a chain
/// never hangs: it is over after at most one report more than it has
/// strategies.
pub proof fn lemma_chain_terminates(chain: ChainView, succeeded: bool)
    requires
        !chain.finished(),
    ensures
        chain.report(succeeded).remaining() < chain.remaining(),
        chain.remaining() <= chain.strategies.len() + 1,
{
}

/// The strategies of `list` from index `from` on, up to and with the first
/// that works.
pub open spec fn up_to_first_working(
    list: Seq<PasteStrategy>,
    works: spec_fn(PasteStrategy) -> bool,
    from: int,
) -> Seq<PasteStrategy>
    decreases list.len() - from,
{
    if from < 0 || from >= list.len() {
        Seq::empty()
    } else if works(list[from]) {
        seq![list[from]]
    } else {
        seq![list[from]] + up_to_first_working(list, works, from + 1)
    }
}

/// Whether a strategy of `list` from index `from` on works.
pub open spec fn some_works(
    list: Seq<PasteStrategy>,
    works: spec_fn(PasteStrategy) -> bool,
    from: int,
) -> bool {
    exists|i: int| from <= i < list.len() && works(#[trigger] list[i])
}

proof fn lemma_trying(chain: ChainView, works: spec_fn(PasteStrategy) -> bool)
    requires
        chain.settled,
        !chain.succeeded,
    ensures
        chain.attempts(works) == up_to_first_working(chain.strategies, works, chain.failed as int),
        chain.result(works) == if some_works(chain.strategies, works, chain.failed as int) {
            Ok::<(), PasteErrorView>(())
        } else {
            Err(exhausted())
        },
    decreases chain.strategies.len() - chain.failed,
{
    let list = chain.strategies;
    let failed = chain.failed as int;
    if failed < list.len() {
        let s = list[failed];
        if works(s) {
            let next = chain.report(true);
            assert(next.directive() == ChainDirectiveView::Finished(Ok(())));
            assert(next.attempts(works) =~= Seq::empty());
            assert(chain.attempts(works) =~= seq![s]);
            assert(next.result(works) == Ok::<(), PasteErrorView>(()));
            assert(works(list[failed]));
            assert(some_works(list, works, failed));
        } else {
            let next = chain.report(false);
            lemma_trying(next, works);
            if some_works(list, works, failed) {
                let i = choose|i: int| failed <= i < list.len() && works(#[trigger] list[i]);
                assert(failed + 1 <= i < list.len() && works(list[i]));
                assert(some_works(list, works, failed + 1));
            }
            if some_works(list, works, failed + 1) {
                let i = choose|i: int| failed + 1 <= i < list.len() && works(#[trigger] list[i]);
                assert(failed <= i < list.len() && works(list[i]));
            }
        }
    } else {
        assert(!some_works(list, works, failed));
    }
}

/// The chain tries the strategies of the session in their order and stops at
/// the first that works: it succeeds exactly if one of them works, ends with
/// `AllStrategiesExhausted` if none does, and never attempts a strategy
/// behind the first that works.
pub proof fn lemma_chain_stops_at_first_success(
    session: SessionType,
    works: spec_fn(PasteStrategy) -> bool,
)
    ensures
        ChainView::fresh(strategies_spec(session)).attempts(works) == up_to_first_working(
            strategies_spec(session),
            works,
            0,
        ),
        ChainView::fresh(strategies_spec(session)).result(works) == if some_works(
            strategies_spec(session),
            works,
            0,
        ) {
            Ok::<(), PasteErrorView>(())
        } else {
            Err(exhausted())
        },
{
    let chain = ChainView::fresh(strategies_spec(session));
    lemma_trying(chain.report(true), works);
}

/// Under X11 the order is XTest, xdotool, enigo, uinput; where only the last
/// of them works, all four are attempted in that order and the keystroke
/// still succeeds.
pub proof fn lemma_x11_falls_through_to_uinput(works: spec_fn(PasteStrategy) -> bool)
    requires
        !works(PasteStrategy::XTest),
        !works(PasteStrategy::Xdotool),
        !works(PasteStrategy::Enigo),
        works(PasteStrategy::Uinput),
    ensures
        ChainView::fresh(strategies_spec(SessionType::X11)).attempts(works) == seq![
            PasteStrategy::XTest,
            PasteStrategy::Xdotool,
            PasteStrategy::Enigo,
            PasteStrategy::Uinput,
        ],
        ChainView::fresh(strategies_spec(SessionType::X11)).result(works) == Ok::<
            (),
            PasteErrorView,
        >(()),
{
    let list = strategies_spec(SessionType::X11);
    lemma_chain_stops_at_first_success(SessionType::X11, works);
    assert(works(list[3]));
    assert(some_works(list, works, 0));
    reveal_with_fuel(up_to_first_working, 5);
    assert(up_to_first_working(list, works, 0) =~= list);
}

/// Outside X11 only the two strategies that need no X11 server are
/// attempted: the keystroke succeeds if either works and ends with
/// `AllStrategiesExhausted` if neither does.
pub proof fn lemma_fallbacks_without_x11(session: SessionType, works: spec_fn(PasteStrategy) -> bool)
    requires
        session != SessionType::X11,
    ensures
        ChainView::fresh(strategies_spec(session)).result(works) == if works(PasteStrategy::Enigo)
            || works(PasteStrategy::Uinput) {
            Ok::<(), PasteErrorView>(())
        } else {
            Err(exhausted())
        },
        ChainView::fresh(strategies_spec(session)).attempts(works) == if works(
            PasteStrategy::Enigo,
        ) {
            seq![PasteStrategy::Enigo]
        } else {
            seq![PasteStrategy::Enigo, PasteStrategy::Uinput]
        },
{
    let list = strategies_spec(session);
    lemma_chain_stops_at_first_success(session, works);
    reveal_with_fuel(up_to_first_working, 3);
    if works(PasteStrategy::Enigo) {
        assert(works(list[0]));
    } else if works(PasteStrategy::Uinput) {
        assert(works(list[1]));
    }
    if some_works(list, works, 0) {
        let i = choose|i: int| 0 <= i < list.len() && works(#[trigger] list[i]);
        assert(i == 0 || i == 1);
    }
    assert(up_to_first_working(list, works, 0) =~= if works(PasteStrategy::Enigo) {
        seq![PasteStrategy::Enigo]
    } else {
        seq![PasteStrategy::Enigo, PasteStrategy::Uinput]
    });
}

} // verus!
