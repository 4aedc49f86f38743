//! Publishing a remote image on the clipboard: fetch it into the cache, hand
//! its location to the clipboard helper of the session, and fall back to the
//! plain address where that fails.

pub mod cache;
pub mod fetch;
pub mod helpers;

use vstd::prelude::*;
use vstd::string::*;
use crate::error::{PasteError, PasteErrorView};
use crate::gif_manager::helpers::{
    check_wayland_helper,
    check_x11_helper,
    copy_gif_to_clipboard_wayland,
    copy_gif_to_clipboard_x11,
    copy_url_to_clipboard,
    file_uri,
    file_uri_spec,
    text_result,
    wayland_plan,
    wayland_result,
    x11_plan,
    x11_result,
    ClipboardEnv,
    ClipboardEnvView,
    TextOutcome,
    TextOutcomeView,
};
use crate::subprocess::{Command, CommandView, HelperStatus, HelperStatusView};

verus! {

/// What the caller reports to a publishing job.
#[derive(Debug)]
pub enum PublishEvent {
    /// The fetch is over: the local file, or the failure.
    Fetched(Result<String, PasteError>),
    /// What became of the helper that was started.
    Launched(HelperStatus),
    /// How putting plain text on the clipboard went.
    TextSet(TextOutcome),
}

/// The mathematical value of a `PublishEvent`.
pub enum PublishEventView {
    Fetched(Result<Seq<char>, PasteErrorView>),
    Launched(HelperStatusView),
    TextSet(TextOutcomeView),
}

impl View for PublishEvent {
    type V = PublishEventView;

    open spec fn view(&self) -> PublishEventView {
        match *self {
            PublishEvent::Fetched(Ok(path)) => PublishEventView::Fetched(Ok(path@)),
            PublishEvent::Fetched(Err(e)) => PublishEventView::Fetched(Err(e@)),
            PublishEvent::Launched(status) => PublishEventView::Launched(status@),
            PublishEvent::TextSet(outcome) => PublishEventView::TextSet(outcome@),
        }
    }
}

/// What the caller of a publishing job has to do next.
#[derive(Debug)]
pub enum PublishDirective {
    /// Fetch this address into the cache.
    Fetch(String),
    /// Start this helper as its `launch` says, and report what became of it.
    Launch(Command),
    /// Put this text on the clipboard.
    SetText(String),
    /// The job is over: what now stands for the image on the clipboard, or
    /// the failure.
    Finished(Result<Option<String>, PasteError>),
}

/// The mathematical value of a `PublishDirective`.
pub enum PublishDirectiveView {
    Fetch(Seq<char>),
    Launch(CommandView),
    SetText(Seq<char>),
    Finished(Result<Option<Seq<char>>, PasteErrorView>),
}

impl View for PublishDirective {
    type V = PublishDirectiveView;

    open spec fn view(&self) -> PublishDirectiveView {
        match *self {
            PublishDirective::Fetch(url) => PublishDirectiveView::Fetch(url@),
            PublishDirective::Launch(command) => PublishDirectiveView::Launch(command@),
            PublishDirective::SetText(text) => PublishDirectiveView::SetText(text@),
            PublishDirective::Finished(Ok(Some(text))) => PublishDirectiveView::Finished(
                Ok(Some(text@)),
            ),
            PublishDirective::Finished(Ok(None)) => PublishDirectiveView::Finished(Ok(None)),
            PublishDirective::Finished(Err(e)) => PublishDirectiveView::Finished(Err(e@)),
        }
    }
}

/// Where a publishing job stands.
pub enum PublishStage {
    /// The image is to be fetched.
    Fetching,
    /// The Wayland helper is to be started for this file.
    Wayland(Seq<char>),
    /// The X11 helper is to be started for this file.
    X11(Seq<char>),
    /// The address is to be put on the clipboard as plain text.
    Text,
    /// The job is over.
    Done(Result<Option<Seq<char>>, PasteErrorView>),
}

/// The mathematical value of a publishing job: the address, whether the
/// session runs under Wayland, the environment of the helpers, and the stage.
pub struct PublishView {
    pub url: Seq<char>,
    pub wayland: bool,
    pub env: ClipboardEnvView,
    pub stage: PublishStage,
}

impl PublishView {
    pub open spec fn fresh(url: Seq<char>, wayland: bool, env: ClipboardEnvView) -> PublishView {
        PublishView { url, wayland, env, stage: PublishStage::Fetching }
    }

    /// The stage that turns to X11: its helper where one can be planned,
    /// plain text where none can.
    pub open spec fn toward_x11(self, path: Seq<char>) -> PublishStage {
        if x11_plan(path, self.env) is Ok {
            PublishStage::X11(path)
        } else {
            PublishStage::Text
        }
    }

    /// The stage that publishes a fetched file: under Wayland its helper
    /// comes first where one can be planned; in every other case X11 is
    /// turned to.
    pub open spec fn toward_helpers(self, path: Seq<char>) -> PublishStage {
        if self.wayland && wayland_plan(path, self.env) is Ok {
            PublishStage::Wayland(path)
        } else {
            self.toward_x11(path)
        }
    }

    pub open spec fn directive(self) -> PublishDirectiveView {
        match self.stage {
            PublishStage::Fetching => PublishDirectiveView::Fetch(self.url),
            PublishStage::Wayland(path) => match wayland_plan(path, self.env) {
                Ok(command) => PublishDirectiveView::Launch(command),
                Err(e) => PublishDirectiveView::Finished(Err(e)),
            },
            PublishStage::X11(path) => match x11_plan(path, self.env) {
                Ok(command) => PublishDirectiveView::Launch(command),
                Err(e) => PublishDirectiveView::Finished(Err(e)),
            },
            PublishStage::Text => PublishDirectiveView::SetText(self.url),
            PublishStage::Done(result) => PublishDirectiveView::Finished(result),
        }
    }

    /// The stage after `event` was reported. A helper that worked ends the
    /// job with the address of the file; one that failed hands over to the
    /// next resort; a failed fetch goes straight to plain text. An event
    /// that does not answer the directive of the stage changes nothing.
    pub open spec fn next_stage(self, event: PublishEventView) -> PublishStage {
        match (self.stage, event) {
            (PublishStage::Fetching, PublishEventView::Fetched(Ok(path))) => self.toward_helpers(
                path,
            ),
            (PublishStage::Fetching, PublishEventView::Fetched(Err(_))) => PublishStage::Text,
            (PublishStage::Wayland(path), PublishEventView::Launched(status)) => if wayland_result(
                status,
            ) is Ok {
                PublishStage::Done(Ok(Some(file_uri_spec(path))))
            } else {
                self.toward_x11(path)
            },
            (PublishStage::X11(path), PublishEventView::Launched(status)) => if x11_result(
                status,
            ) is Ok {
                PublishStage::Done(Ok(Some(file_uri_spec(path))))
            } else {
                PublishStage::Text
            },
            (PublishStage::Text, PublishEventView::TextSet(outcome)) => match text_result(outcome) {
                Ok(()) => PublishStage::Done(Ok(Some(self.url))),
                Err(e) => PublishStage::Done(Err(e)),
            },
            (stage, _) => stage,
        }
    }

    pub open spec fn report(self, event: PublishEventView) -> PublishView {
        PublishView { stage: self.next_stage(event), ..self }
    }

    /// The number of directives that may still be answered.
    pub open spec fn remaining(self) -> nat {
        match self.stage {
            PublishStage::Fetching => 4,
            PublishStage::Wayland(_) => 3,
            PublishStage::X11(_) => 2,
            PublishStage::Text => 1,
            PublishStage::Done(_) => 0,
        }
    }
}

#[derive(Debug)]
enum Stage {
    Fetching,
    Wayland(String),
    X11(String),
    Text,
    Done(Result<Option<String>, PasteError>),
}

/// A job that publishes one remote image.
#[derive(Debug)]
pub struct PublishJob {
    url: String,
    wayland: bool,
    env: ClipboardEnv,
    stage: Stage,
}

impl View for PublishJob {
    type V = PublishView;

    closed spec fn view(&self) -> PublishView {
        PublishView {
            url: self.url@,
            wayland: self.wayland,
            env: self.env@,
            stage: match self.stage {
                Stage::Fetching => PublishStage::Fetching,
                Stage::Wayland(path) => PublishStage::Wayland(path@),
                Stage::X11(path) => PublishStage::X11(path@),
                Stage::Text => PublishStage::Text,
                Stage::Done(Ok(Some(text))) => PublishStage::Done(Ok(Some(text@))),
                Stage::Done(Ok(None)) => PublishStage::Done(Ok(None)),
                Stage::Done(Err(e)) => PublishStage::Done(Err(e@)),
            },
        }
    }
}

fn turn_to_x11(path: String, env: &ClipboardEnv) -> (stage: Stage)
    ensures
        stage matches Stage::X11(p) ==> p@ == path@ && x11_plan(path@, env@) is Ok,
        stage is Text ==> x11_plan(path@, env@) is Err,
        stage is X11 || stage is Text,
{
    if copy_gif_to_clipboard_x11(path.as_str(), env).is_ok() {
        Stage::X11(path)
    } else {
        Stage::Text
    }
}

/// Picks the helper for a fetched file: the one of Wayland first where the
/// session runs under Wayland, the one of X11 otherwise or instead.
fn set_gif_clipboard_from_file(path: String, is_wayland: bool, env: &ClipboardEnv) -> (stage: Stage)
    ensures
        stage matches Stage::Wayland(p) ==> p@ == path@ && is_wayland && wayland_plan(
            path@,
            env@,
        ) is Ok,
        stage matches Stage::X11(p) ==> p@ == path@ && x11_plan(path@, env@) is Ok && !(is_wayland
            && wayland_plan(path@, env@) is Ok),
        stage is Text ==> x11_plan(path@, env@) is Err && !(is_wayland && wayland_plan(
            path@,
            env@,
        ) is Ok),
        stage is Wayland || stage is X11 || stage is Text,
{
    if is_wayland && copy_gif_to_clipboard_wayland(path.as_str(), env).is_ok() {
        Stage::Wayland(path)
    } else {
        turn_to_x11(path, env)
    }
}

impl PublishJob {
    /// What to do now.
    pub fn directive(&self) -> (d: PublishDirective)
        ensures
            d@ == self@.directive(),
    {
        match &self.stage {
            Stage::Fetching => PublishDirective::Fetch(self.url.clone()),
            Stage::Wayland(path) => match copy_gif_to_clipboard_wayland(path.as_str(), &self.env) {
                Ok(command) => PublishDirective::Launch(command),
                Err(e) => PublishDirective::Finished(Err(e)),
            },
            Stage::X11(path) => match copy_gif_to_clipboard_x11(path.as_str(), &self.env) {
                Ok(command) => PublishDirective::Launch(command),
                Err(e) => PublishDirective::Finished(Err(e)),
            },
            Stage::Text => PublishDirective::SetText(self.url.clone()),
            Stage::Done(Ok(Some(text))) => PublishDirective::Finished(Ok(Some(text.clone()))),
            Stage::Done(Ok(None)) => PublishDirective::Finished(Ok(None)),
            Stage::Done(Err(e)) => PublishDirective::Finished(Err(e.duplicate())),
        }
    }

    /// Takes the answer to the directive.
    pub fn report(&mut self, event: PublishEvent)
        ensures
            final(self)@ == old(self)@.report(event@),
    {
        let next = match (&self.stage, event) {
            (Stage::Fetching, PublishEvent::Fetched(Ok(path))) => set_gif_clipboard_from_file(
                path,
                self.wayland,
                &self.env,
            ),
            (Stage::Fetching, PublishEvent::Fetched(Err(_))) => Stage::Text,
            (Stage::Wayland(path), PublishEvent::Launched(status)) => {
                if check_wayland_helper(&status).is_ok() {
                    Stage::Done(Ok(Some(file_uri(path.as_str()))))
                } else {
                    turn_to_x11(path.clone(), &self.env)
                }
            },
            (Stage::X11(path), PublishEvent::Launched(status)) => {
                if check_x11_helper(&status).is_ok() {
                    Stage::Done(Ok(Some(file_uri(path.as_str()))))
                } else {
                    Stage::Text
                }
            },
            (Stage::Text, PublishEvent::TextSet(outcome)) => match copy_url_to_clipboard(&outcome) {
                Ok(()) => Stage::Done(Ok(Some(self.url.clone()))),
                Err(e) => Stage::Done(Err(e)),
            },
            (_, _) => {
                return ;
            },
        };
        self.stage = next;
    }
}

/// Plans the publishing of the image at `url`: fetch it, hand the file to
/// the helper of the session, and fall back to the address as plain text.
/// The job ends with what then stands for the image on the clipboard.
pub fn paste_gif_to_clipboard_with_uri(url: &str, is_wayland: bool, env: ClipboardEnv) -> (job:
    PublishJob)
    ensures
        job@ == PublishView::fresh(url@, is_wayland, env@),
{
    PublishJob { url: String::from_str(url), wayland: is_wayland, env, stage: Stage::Fetching }
}

/// The result of a publishing job for a caller that does not care what
/// stands on the clipboard: success stays success, a failure stays as it is.
pub fn paste_gif_to_clipboard(published: Result<Option<String>, PasteError>) -> (result: Result<
    (),
    PasteError,
>)
    ensures
        match published {
            Ok(_) => result is Ok,
            Err(e) => result is Err && result->Err_0 == e,
        },
{
    match published {
        Ok(_) => Ok(()),
        Err(e) => Err(e),
    }
}

/// Every answer to a directive brings the job nearer to its end: a job asks
/// at most four things.
pub proof fn lemma_publish_terminates(job: PublishView, event: PublishEventView)
    requires
        job.report(event).stage != job.stage,
    ensures
        job.report(event).remaining() < job.remaining(),
{
}

/// A job fails only in its last resort: where plain text could not be put
/// on the clipboard. No failure of the fetch or of a helper ends it.
pub proof fn lemma_only_text_fails(job: PublishView, event: PublishEventView)
    requires
        !(job.stage is Done),
        job.report(event).stage matches PublishStage::Done(Err(_)),
    ensures
        job.stage is Text,
        event matches PublishEventView::TextSet(outcome) && text_result(outcome) is Err,
{
}

/// What the collaborators of a job answer: the fetch, the two helpers and
/// the plain text clipboard.
pub struct Collaborators {
    pub fetch: Result<Seq<char>, PasteErrorView>,
    pub wayland: HelperStatusView,
    pub x11: HelperStatusView,
    pub text: TextOutcomeView,
}

/// The answer of the collaborators to the directive of a stage.
pub open spec fn answer(stage: PublishStage, with: Collaborators) -> PublishEventView {
    match stage {
        PublishStage::Fetching => PublishEventView::Fetched(with.fetch),
        PublishStage::Wayland(_) => PublishEventView::Launched(with.wayland),
        PublishStage::X11(_) => PublishEventView::Launched(with.x11),
        _ => PublishEventView::TextSet(with.text),
    }
}

/// The job after it has run to its end with these collaborators.
pub open spec fn run(job: PublishView, with: Collaborators) -> PublishView
    decreases job.remaining(),
{
    if job.stage is Done {
        job
    } else {
        run(job.report(answer(job.stage, with)), with)
    }
}

/// Under Wayland, with a Wayland helper that fails, the job falls through to
/// the X11 helper; where that fails too it degrades to plain text; and as
/// long as plain text can be put on the clipboard the job ends with
/// something on it: the address of the file where a helper took it, the
/// address of the source otherwise.
pub proof fn lemma_publish_degrades(
    url: Seq<char>,
    env: ClipboardEnvView,
    path: Seq<char>,
    with: Collaborators,
)
    requires
        with.fetch == Ok::<Seq<char>, PasteErrorView>(path),
        wayland_plan(path, env) is Ok,
        wayland_result(with.wayland) is Err,
    ensures
        ({
            let fetched = PublishView::fresh(url, true, env).report(answer(PublishStage::Fetching, with));
            let after_wayland = fetched.report(answer(fetched.stage, with));
            let end = run(PublishView::fresh(url, true, env), with);
            &&& fetched.stage == PublishStage::Wayland(path)
            &&& x11_plan(path, env) is Ok ==> after_wayland.stage == PublishStage::X11(path)
            &&& x11_plan(path, env) is Ok && x11_result(with.x11) is Ok ==> end.stage
                == PublishStage::Done(Ok(Some(file_uri_spec(path))))
            &&& (x11_plan(path, env) is Err || x11_result(with.x11) is Err) && text_result(
                with.text,
            ) is Ok ==> end.stage == PublishStage::Done(Ok(Some(url)))
        }),
{
    reveal_with_fuel(run, 6);
}

/// Whatever the fetch and the helpers do, a job whose plain text resort
/// works ends with something on the clipboard.
pub proof fn lemma_publish_leaves_something(
    url: Seq<char>,
    wayland: bool,
    env: ClipboardEnvView,
    with: Collaborators,
)
    requires
        text_result(with.text) is Ok,
    ensures
        run(PublishView::fresh(url, wayland, env), with).stage matches PublishStage::Done(
            Ok(Some(_)),
        ),
{
    reveal_with_fuel(run, 6);
}

} // verus!
