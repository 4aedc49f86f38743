//! Session detection: whether the desktop runs under Wayland or X11, decided
//! once from the signals of the environment and remembered from then on.

use vstd::prelude::*;
use vstd::string::*;
use crate::text::{lowered, matches_ignoring_case, trim, trimmed};

verus! {

/// The display server that manages the session.
#[derive(Clone, Copy, Debug, PartialEq, Eq, Structural)]
pub enum SessionType {
    Wayland,
    X11,
    Unknown,
}

/// The signals of the environment, as they stood when they were read.
#[derive(Debug)]
pub struct SessionEnv {
    /// The value of `XDG_SESSION_TYPE`, where it is set and is text.
    pub session_type: Option<String>,
    /// Whether `WAYLAND_DISPLAY` is set, to whatever value.
    pub wayland_display: bool,
    /// Whether `DISPLAY` is set, to whatever value.
    pub display: bool,
}

/// The mathematical value of a `SessionEnv`.
pub struct SessionEnvView {
    pub session_type: Option<Seq<char>>,
    pub wayland_display: bool,
    pub display: bool,
}

impl View for SessionEnv {
    type V = SessionEnvView;

    open spec fn view(&self) -> SessionEnvView {
        SessionEnvView {
            session_type: match self.session_type {
                Some(s) => Some(s@),
                None => None,
            },
            wayland_display: self.wayland_display,
            display: self.display,
        }
    }
}

/// The session that a value of the session-type signal names: white space
/// around it and the case of its letters do not count.
pub open spec fn named_session(value: Seq<char>) -> Option<SessionType> {
    let word = lowered(trimmed(value));
    if word == "wayland"@ {
        Some(SessionType::Wayland)
    } else if word == "x11"@ {
        Some(SessionType::X11)
    } else {
        None
    }
}

/// Whether the session-type signal is set to a value that decides.
pub open spec fn signal_decides(env: SessionEnvView) -> bool {
    env.session_type is Some && named_session(env.session_type->0) is Some
}

/// The session that the signals tell: the session-type signal where it names
/// one, else Wayland where a Wayland display is announced, else X11 where an
/// X11 display is announced, else unknown.
pub open spec fn detect_spec(env: SessionEnvView) -> SessionType {
    if signal_decides(env) {
        named_session(env.session_type->0)->0
    } else if env.wayland_display {
        SessionType::Wayland
    } else if env.display {
        SessionType::X11
    } else {
        SessionType::Unknown
    }
}

/// The name of the signal that decided.
pub open spec fn source_spec(env: SessionEnvView) -> Seq<char> {
    if signal_decides(env) {
        "XDG_SESSION_TYPE"@
    } else if env.wayland_display {
        "WAYLAND_DISPLAY"@
    } else if env.display {
        "DISPLAY"@
    } else {
        "None"@
    }
}

/// Reads a value of the session-type signal.
pub fn parse_session_type(value: &str) -> (named: Option<SessionType>)
    ensures
        named == named_session(value@),
{
    let word = trim(value);
    if matches_ignoring_case(word.as_str(), "wayland") {
        Some(SessionType::Wayland)
    } else if matches_ignoring_case(word.as_str(), "x11") {
        Some(SessionType::X11)
    } else {
        None
    }
}

impl SessionType {
    /// Tells the session from the signals, and names the signal that decided.
    pub fn detect(env: &SessionEnv) -> (found: (SessionType, &'static str))
        ensures
            found.0 == detect_spec(env@),
            found.1@ == source_spec(env@),
    {
        if let Some(value) = &env.session_type {
            if let Some(session) = parse_session_type(value.as_str()) {
                return (session, "XDG_SESSION_TYPE");
            }
        }
        if env.wayland_display {
            return (SessionType::Wayland, "WAYLAND_DISPLAY");
        }
        if env.display {
            return (SessionType::X11, "DISPLAY");
        }
        (SessionType::Unknown, "None")
    }
}

/// The session type once it is known. It starts empty, is filled by the
/// first question and never changes after that.
#[derive(Debug)]
pub struct SessionCache {
    known: Option<SessionType>,
}

impl View for SessionCache {
    type V = Option<SessionType>;

    closed spec fn view(&self) -> Option<SessionType> {
        self.known
    }
}

/// The answer to a question asked of a cache in state `known` while the
/// signals stand as `env`.
pub open spec fn answer(known: Option<SessionType>, env: SessionEnvView) -> SessionType {
    match known {
        Some(session) => session,
        None => detect_spec(env),
    }
}

/// The state of a cache after questions were asked while the signals stood
/// as `envs`, one after the other.
pub open spec fn after_questions(known: Option<SessionType>, envs: Seq<SessionEnvView>) -> Option<
    SessionType,
>
    decreases envs.len(),
{
    if envs.len() == 0 {
        known
    } else {
        after_questions(Some(answer(known, envs[0])), envs.drop_first())
    }
}

impl SessionCache {
    /// A cache that knows nothing yet.
    pub fn new() -> (cache: SessionCache)
        ensures
            cache@ is None,
    {
        SessionCache { known: None }
    }

    /// The session type, if a question was asked before.
    pub fn known(&self) -> (known: Option<SessionType>)
        ensures
            known == self@,
    {
        self.known
    }
}

/// The session type: detected from `env` by the first question asked of
/// `cache`, and repeated by every later one, whatever `env` then holds.
pub fn get_session_type(cache: &mut SessionCache, env: &SessionEnv) -> (session: SessionType)
    ensures
        session == answer(old(cache)@, env@),
        final(cache)@ == Some(session),
{
    match cache.known {
        Some(session) => session,
        None => {
            let (session, _) = SessionType::detect(env);
            cache.known = Some(session);
            session
        },
    }
}

/// Whether the session runs under Wayland.
pub fn is_wayland(cache: &mut SessionCache, env: &SessionEnv) -> (b: bool)
    ensures
        b == (answer(old(cache)@, env@) == SessionType::Wayland),
        final(cache)@ == Some(answer(old(cache)@, env@)),
{
    get_session_type(cache, env) == SessionType::Wayland
}

/// Whether the session runs under X11.
pub fn is_x11(cache: &mut SessionCache, env: &SessionEnv) -> (b: bool)
    ensures
        b == (answer(old(cache)@, env@) == SessionType::X11),
        final(cache)@ == Some(answer(old(cache)@, env@)),
{
    get_session_type(cache, env) == SessionType::X11
}

/// Detects the session now, so that later questions need not.
pub fn init(cache: &mut SessionCache, env: &SessionEnv)
    ensures
        final(cache)@ == Some(answer(old(cache)@, env@)),
{
    let _ = get_session_type(cache, env);
}

/// The session type is a function of the signals as they stood at the first
/// question: whatever they hold at later questions, every answer is the one
/// that the first snapshot gives.
pub proof fn lemma_first_snapshot_decides(
    first: SessionEnvView,
    later: Seq<SessionEnvView>,
    now: SessionEnvView,
)
    ensures
        after_questions(None, seq![first] + later) == Some(detect_spec(first)),
        answer(after_questions(None, seq![first] + later), now) == detect_spec(first),
{
    let envs = seq![first] + later;
    assert(envs[0] == first);
    assert(envs.drop_first() =~= later);
    lemma_known_stays(detect_spec(first), later);
}

/// A cache that knows the session type keeps it through every question.
pub proof fn lemma_known_stays(session: SessionType, envs: Seq<SessionEnvView>)
    ensures
        after_questions(Some(session), envs) == Some(session),
    decreases envs.len(),
{
    if envs.len() > 0 {
        lemma_known_stays(session, envs.drop_first());
    }
}

} // verus!
