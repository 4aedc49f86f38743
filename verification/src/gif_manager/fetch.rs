//! Fetching a remote image into the cache. The file for an address is looked
//! for first; only where it is missing is the address downloaded, once and
//! with a time limit, and the file written.

use vstd::prelude::*;
use vstd::string::*;
use crate::error::{ErrorKind, PasteError, PasteErrorView};
use crate::gif_manager::cache::{
    cache_file_spec,
    get_gif_cache_dir,
    gif_cache_dir_spec,
    gif_cache_file,
    no_cache_dir,
    url_hash,
};

verus! {

/// Seconds after which a download is given up.
pub const DOWNLOAD_TIMEOUT_SECS: u64 = 10;

/// Whether an HTTP status stands for success: 200 to 299.
pub open spec fn is_success_spec(status: u16) -> bool {
    200 <= status < 300
}

pub fn is_success(status: u16) -> (b: bool)
    ensures
        b == is_success_spec(status),
{
    200 <= status && status < 300
}

/// How a download went.
#[derive(Debug)]
pub enum DownloadOutcome {
    /// The HTTP client could not be set up.
    ClientFailed(String),
    /// The request could not be sent or was not answered in time.
    SendFailed(String),
    /// The server answered with this status, shown as `status_text`; where
    /// the body could not be read, `body_error` says why.
    Responded { status: u16, status_text: String, body_error: Option<String> },
}

/// How writing the cache file went.
#[derive(Debug)]
pub enum StoreOutcome {
    CreateFailed(String),
    WriteFailed(String),
    Written,
}

/// What the caller reports to a fetch.
#[derive(Debug)]
pub enum FetchEvent {
    /// The cache directory exists now, or could not be made.
    DirectoryReady(Result<(), String>),
    /// Whether the cache file exists.
    Cached(bool),
    Downloaded(DownloadOutcome),
    Stored(StoreOutcome),
}

/// The mathematical value of a `FetchEvent`.
pub enum FetchEventView {
    DirectoryReady(Result<(), Seq<char>>),
    Cached(bool),
    ClientFailed(Seq<char>),
    SendFailed(Seq<char>),
    Responded { status: u16, status_text: Seq<char>, body_error: Option<Seq<char>> },
    CreateFailed(Seq<char>),
    WriteFailed(Seq<char>),
    Written,
}

impl View for FetchEvent {
    type V = FetchEventView;

    open spec fn view(&self) -> FetchEventView {
        match *self {
            FetchEvent::DirectoryReady(Ok(())) => FetchEventView::DirectoryReady(Ok(())),
            FetchEvent::DirectoryReady(Err(detail)) => FetchEventView::DirectoryReady(Err(detail@)),
            FetchEvent::Cached(hit) => FetchEventView::Cached(hit),
            FetchEvent::Downloaded(DownloadOutcome::ClientFailed(detail)) => FetchEventView::ClientFailed(
                detail@,
            ),
            FetchEvent::Downloaded(DownloadOutcome::SendFailed(detail)) => FetchEventView::SendFailed(
                detail@,
            ),
            FetchEvent::Downloaded(
                DownloadOutcome::Responded { status, status_text, body_error },
            ) => FetchEventView::Responded {
                status,
                status_text: status_text@,
                body_error: match body_error {
                    Some(detail) => Some(detail@),
                    None => None,
                },
            },
            FetchEvent::Stored(StoreOutcome::CreateFailed(detail)) => FetchEventView::CreateFailed(
                detail@,
            ),
            FetchEvent::Stored(StoreOutcome::WriteFailed(detail)) => FetchEventView::WriteFailed(
                detail@,
            ),
            FetchEvent::Stored(StoreOutcome::Written) => FetchEventView::Written,
        }
    }
}

/// What the caller of a fetch has to do next.
#[derive(Debug)]
pub enum FetchDirective {
    /// Make sure this directory exists, with its parents.
    EnsureDirectory(String),
    /// Say whether this file exists.
    CheckCached(String),
    /// Download this address, giving up after `timeout_secs` seconds.
    Download { url: String, timeout_secs: u64 },
    /// Write what was downloaded to this file.
    Store(String),
    /// The fetch is over: the local file, or the failure.
    Finished(Result<String, PasteError>),
}

/// The mathematical value of a `FetchDirective`.
pub enum FetchDirectiveView {
    EnsureDirectory(Seq<char>),
    CheckCached(Seq<char>),
    Download { url: Seq<char>, timeout_secs: u64 },
    Store(Seq<char>),
    Finished(Result<Seq<char>, PasteErrorView>),
}

impl View for FetchDirective {
    type V = FetchDirectiveView;

    open spec fn view(&self) -> FetchDirectiveView {
        match *self {
            FetchDirective::EnsureDirectory(dir) => FetchDirectiveView::EnsureDirectory(dir@),
            FetchDirective::CheckCached(path) => FetchDirectiveView::CheckCached(path@),
            FetchDirective::Download { url, timeout_secs } => FetchDirectiveView::Download {
                url: url@,
                timeout_secs,
            },
            FetchDirective::Store(path) => FetchDirectiveView::Store(path@),
            FetchDirective::Finished(Ok(path)) => FetchDirectiveView::Finished(Ok(path@)),
            FetchDirective::Finished(Err(e)) => FetchDirectiveView::Finished(Err(e@)),
        }
    }
}

/// Where a fetch stands.
pub enum FetchStage {
    /// The cache directory is to be made sure of.
    Directory,
    /// The cache file is to be looked for.
    Lookup,
    /// The address is to be downloaded.
    Network,
    /// The cache file is to be written.
    Disk,
    /// The fetch is over.
    Done(Result<Seq<char>, PasteErrorView>),
}

/// A fetch failure with the text `message`.
pub open spec fn fetch_failed(message: Seq<char>) -> FetchStage {
    FetchStage::Done(Err(PasteErrorView { kind: ErrorKind::FetchFailed, message }))
}

/// The mathematical value of a fetch: the cache directory, the address, the
/// cache file of the address, and the stage.
pub struct FetchView {
    pub dir: Seq<char>,
    pub url: Seq<char>,
    pub path: Seq<char>,
    pub stage: FetchStage,
}

impl FetchView {
    /// A fetch of `url` into the cache directory `dir` that has done nothing yet.
    pub open spec fn fresh(dir: Seq<char>, url: Seq<char>) -> FetchView {
        FetchView { dir, url, path: cache_file_spec(dir, url_hash(url)), stage: FetchStage::Directory }
    }

    pub open spec fn directive(self) -> FetchDirectiveView {
        match self.stage {
            FetchStage::Directory => FetchDirectiveView::EnsureDirectory(self.dir),
            FetchStage::Lookup => FetchDirectiveView::CheckCached(self.path),
            FetchStage::Network => FetchDirectiveView::Download {
                url: self.url,
                timeout_secs: DOWNLOAD_TIMEOUT_SECS,
            },
            FetchStage::Disk => FetchDirectiveView::Store(self.path),
            FetchStage::Done(result) => FetchDirectiveView::Finished(result),
        }
    }

    /// The stage after `event` was reported. An event that does not answer
    /// the directive of the stage changes nothing. A failure ends the fetch:
    /// nothing is tried twice.
    pub open spec fn next_stage(self, event: FetchEventView) -> FetchStage {
        match (self.stage, event) {
            (FetchStage::Directory, FetchEventView::DirectoryReady(Ok(()))) => FetchStage::Lookup,
            (FetchStage::Directory, FetchEventView::DirectoryReady(Err(detail))) => fetch_failed(
                "Failed to create cache directory: "@ + detail,
            ),
            (FetchStage::Lookup, FetchEventView::Cached(true)) => FetchStage::Done(Ok(self.path)),
            (FetchStage::Lookup, FetchEventView::Cached(false)) => FetchStage::Network,
            (FetchStage::Network, FetchEventView::ClientFailed(detail)) => fetch_failed(
                "Failed to create HTTP client: "@ + detail,
            ),
            (FetchStage::Network, FetchEventView::SendFailed(detail)) => fetch_failed(
                "Failed to download GIF: "@ + detail,
            ),
            (FetchStage::Network, FetchEventView::Responded { status, status_text, body_error }) => {
                if !is_success_spec(status) {
                    fetch_failed("HTTP error: "@ + status_text)
                } else {
                    match body_error {
                        Some(detail) => fetch_failed("Failed to read response: "@ + detail),
                        None => FetchStage::Disk,
                    }
                }
            },
            (FetchStage::Disk, FetchEventView::CreateFailed(detail)) => fetch_failed(
                "Failed to create GIF file: "@ + detail,
            ),
            (FetchStage::Disk, FetchEventView::WriteFailed(detail)) => fetch_failed(
                "Failed to write GIF file: "@ + detail,
            ),
            (FetchStage::Disk, FetchEventView::Written) => FetchStage::Done(Ok(self.path)),
            (stage, _) => stage,
        }
    }

    pub open spec fn report(self, event: FetchEventView) -> FetchView {
        FetchView { stage: self.next_stage(event), ..self }
    }

    /// The number of directives that may still be answered.
    pub open spec fn remaining(self) -> nat {
        match self.stage {
            FetchStage::Directory => 4,
            FetchStage::Lookup => 3,
            FetchStage::Network => 2,
            FetchStage::Disk => 1,
            FetchStage::Done(_) => 0,
        }
    }
}

#[derive(Debug)]
enum Stage {
    Directory,
    Lookup,
    Network,
    Disk,
    Done(Result<String, PasteError>),
}

/// A fetch of one address.
#[derive(Debug)]
pub struct FetchJob {
    dir: String,
    url: String,
    path: String,
    stage: Stage,
}

impl View for FetchJob {
    type V = FetchView;

    closed spec fn view(&self) -> FetchView {
        FetchView {
            dir: self.dir@,
            url: self.url@,
            path: self.path@,
            stage: match self.stage {
                Stage::Directory => FetchStage::Directory,
                Stage::Lookup => FetchStage::Lookup,
                Stage::Network => FetchStage::Network,
                Stage::Disk => FetchStage::Disk,
                Stage::Done(Ok(path)) => FetchStage::Done(Ok(path@)),
                Stage::Done(Err(e)) => FetchStage::Done(Err(e@)),
            },
        }
    }
}

fn failed(prefix: &str, detail: &str) -> (stage: Stage)
    ensures
        stage matches Stage::Done(Err(e)) && e@ == (PasteErrorView {
            kind: ErrorKind::FetchFailed,
            message: prefix@ + detail@,
        }),
{
    Stage::Done(Err(PasteError::prefixed(ErrorKind::FetchFailed, prefix, detail)))
}

impl FetchJob {
    /// A fetch of `url` into the cache directory `dir`.
    pub fn new(dir: &str, url: &str) -> (job: FetchJob)
        ensures
            job@ == FetchView::fresh(dir@, url@),
    {
        FetchJob {
            dir: String::from_str(dir),
            url: String::from_str(url),
            path: gif_cache_file(dir, url),
            stage: Stage::Directory,
        }
    }

    /// What to do now.
    pub fn directive(&self) -> (d: FetchDirective)
        ensures
            d@ == self@.directive(),
    {
        match &self.stage {
            Stage::Directory => FetchDirective::EnsureDirectory(self.dir.clone()),
            Stage::Lookup => FetchDirective::CheckCached(self.path.clone()),
            Stage::Network => FetchDirective::Download {
                url: self.url.clone(),
                timeout_secs: DOWNLOAD_TIMEOUT_SECS,
            },
            Stage::Disk => FetchDirective::Store(self.path.clone()),
            Stage::Done(Ok(path)) => FetchDirective::Finished(Ok(path.clone())),
            Stage::Done(Err(e)) => FetchDirective::Finished(Err(e.duplicate())),
        }
    }

    /// Takes the answer to the directive.
    pub fn report(&mut self, event: FetchEvent)
        ensures
            final(self)@ == old(self)@.report(event@),
    {
        let next = match (&self.stage, event) {
            (Stage::Directory, FetchEvent::DirectoryReady(Ok(()))) => Stage::Lookup,
            (Stage::Directory, FetchEvent::DirectoryReady(Err(detail))) => failed(
                "Failed to create cache directory: ",
                detail.as_str(),
            ),
            (Stage::Lookup, FetchEvent::Cached(true)) => Stage::Done(Ok(self.path.clone())),
            (Stage::Lookup, FetchEvent::Cached(false)) => Stage::Network,
            (Stage::Network, FetchEvent::Downloaded(DownloadOutcome::ClientFailed(detail))) => failed(
                "Failed to create HTTP client: ",
                detail.as_str(),
            ),
            (Stage::Network, FetchEvent::Downloaded(DownloadOutcome::SendFailed(detail))) => failed(
                "Failed to download GIF: ",
                detail.as_str(),
            ),
            (
                Stage::Network,
                FetchEvent::Downloaded(DownloadOutcome::Responded { status, status_text, body_error }),
            ) => {
                if !is_success(status) {
                    failed("HTTP error: ", status_text.as_str())
                } else {
                    match body_error {
                        Some(detail) => failed("Failed to read response: ", detail.as_str()),
                        None => Stage::Disk,
                    }
                }
            },
            (Stage::Disk, FetchEvent::Stored(StoreOutcome::CreateFailed(detail))) => failed(
                "Failed to create GIF file: ",
                detail.as_str(),
            ),
            (Stage::Disk, FetchEvent::Stored(StoreOutcome::WriteFailed(detail))) => failed(
                "Failed to write GIF file: ",
                detail.as_str(),
            ),
            (Stage::Disk, FetchEvent::Stored(StoreOutcome::Written)) => Stage::Done(
                Ok(self.path.clone()),
            ),
            (_, _) => {
                return ;
            },
        };
        self.stage = next;
    }
}

/// Plans the fetch of `url` into the image cache of the user. Where the user
/// has no cache directory the fetch is over before it starts, and nothing is
/// downloaded.
pub fn download_gif_to_file(url: &str) -> (job: FetchJob)
    ensures
        job@.stage is Done ==> job@.stage == FetchStage::Done(Err(no_cache_dir())),
        !(job@.stage is Done) ==> exists|base: Seq<char>|
            job@ == FetchView::fresh(gif_cache_dir_spec(base), url@),
{
    match get_gif_cache_dir() {
        Ok(dir) => FetchJob::new(dir.as_str(), url),
        Err(e) => FetchJob {
            dir: String::new(),
            url: String::from_str(url),
            path: String::new(),
            stage: Stage::Done(Err(e)),
        },
    }
}

/// Every answer to a directive brings the fetch nearer to its end: a fetch
/// asks at most four things, and downloads at most once.
pub proof fn lemma_fetch_terminates(job: FetchView, event: FetchEventView)
    requires
        job.report(event).stage != job.stage,
    ensures
        job.report(event).remaining() < job.remaining(),
{
}

/// What a fetch can see and change: the files that exist, and the number of
/// downloads made so far.
pub struct World {
    pub files: Set<Seq<char>>,
    pub downloads: nat,
}

/// How a world in which everything works answers a directive: directories
/// can be made, the server answers with success, and a stored file exists
/// from then on.
pub open spec fn answer(world: World, directive: FetchDirectiveView) -> (World, FetchEventView) {
    match directive {
        FetchDirectiveView::EnsureDirectory(_) => (world, FetchEventView::DirectoryReady(Ok(()))),
        FetchDirectiveView::CheckCached(path) => (
            world,
            FetchEventView::Cached(world.files.contains(path)),
        ),
        FetchDirectiveView::Download { .. } => (
            World { downloads: world.downloads + 1, ..world },
            FetchEventView::Responded { status: 200, status_text: "200 OK"@, body_error: None },
        ),
        FetchDirectiveView::Store(path) => (
            World { files: world.files.insert(path), ..world },
            FetchEventView::Written,
        ),
        FetchDirectiveView::Finished(_) => (world, FetchEventView::Written),
    }
}

/// The world and the fetch after the fetch has run to its end in `world`.
pub open spec fn run(job: FetchView, world: World) -> (World, FetchView)
    decreases job.remaining(),
{
    if job.stage is Done {
        (world, job)
    } else {
        let (next_world, event) = answer(world, job.directive());
        if job.report(event).remaining() < job.remaining() {
            run(job.report(event), next_world)
        } else {
            (world, job)
        }
    }
}

/// Fetching is idempotent: in a world where everything works, two fetches of
/// one address end with the same local file, the second one finds that file
/// in the cache, and both together download at most once.
pub proof fn lemma_fetch_idempotent(dir: Seq<char>, url: Seq<char>, world: World)
    ensures
        ({
            let path = cache_file_spec(dir, url_hash(url));
            let (first_world, first) = run(FetchView::fresh(dir, url), world);
            let (second_world, second) = run(FetchView::fresh(dir, url), first_world);
            &&& first.stage == FetchStage::Done(Ok(path))
            &&& second.stage == FetchStage::Done(Ok(path))
            &&& first_world.files.contains(path)
            &&& second_world.downloads == first_world.downloads
            &&& first_world.downloads <= world.downloads + 1
            &&& world.files.contains(path) ==> first_world.downloads == world.downloads
        }),
{
    reveal_with_fuel(run, 6);
}

} // verus!
