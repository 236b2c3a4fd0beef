//! The artifact resolver: ensures the language-server jar is present
//! locally, downloading and unpacking it from the release feed on first use.
//!
//! The resolver is a state machine.  It owns the decisions — which file to
//! check, when to query the release feed, which asset to download, where to
//! move the extracted file — while an unverified shell performs each
//! requested [`Action`] (a filesystem check, a network call) and hands the
//! observed [`Event`] back to [`Resolver::step`].  Every transition is
//! pinned down by the [`transition`] relation, so the order of steps, the
//! caching discipline and every error case are verified; only the raw I/O
//! stays outside.

use vstd::prelude::*;
use vstd::string::StringExecFns;

verus! {

/// The fixed local file name under which the artifact is installed.
pub open spec fn spec_jar_name() -> Seq<char> {
    "language-server-all.jar"@
}

/// The staging directory the archive is downloaded and unpacked into.
pub open spec fn spec_staging_dir() -> Seq<char> {
    "jar-download"@
}

/// The upstream repository whose releases carry the artifact.
pub open spec fn spec_repo() -> Seq<char> {
    "nextflow-io/language-server"@
}

/// The fixed local file name under which the artifact is installed.
pub fn jar_file_name() -> (s: &'static str)
    ensures
        s@ == spec_jar_name(),
{
    "language-server-all.jar"
}

/// The staging directory the archive is downloaded and unpacked into.
pub fn staging_dir_name() -> (s: &'static str)
    ensures
        s@ == spec_staging_dir(),
{
    "jar-download"
}

/// The upstream repository whose releases carry the artifact.
pub fn repo_name() -> (s: &'static str)
    ensures
        s@ == spec_repo(),
{
    "nextflow-io/language-server"
}

/// One downloadable asset of a release: its file name and download URL.
#[derive(Clone, Debug, PartialEq)]
pub struct ReleaseAsset {
    pub name: String,
    pub download_url: String,
}

/// A release of the upstream project: its name and its assets.
#[derive(Clone, Debug, PartialEq)]
pub struct Release {
    pub name: String,
    pub assets: Vec<ReleaseAsset>,
}

/// Why a resolution attempt failed.  Every error is terminal for the
/// attempt; the next call starts over from the fast path.
#[derive(Debug, PartialEq)]
pub enum ResolveError {
    /// The release feed could not be queried, or no qualifying release
    /// exists.
    ReleaseLookup(String),
    /// The latest release lacks an asset with the expected file name.
    AssetNotFound,
    /// The transfer or decompression of the archive failed.
    Download(String),
    /// The unpacked archive contained no regular file.
    ExtractedFileNotFound,
    /// The final move of the extracted file failed.
    Install(String),
}

/// An I/O action the shell must perform for the resolver.
#[derive(Debug, PartialEq)]
pub enum Action {
    /// Check whether `path` names an existing regular file.
    CheckFile { path: String },
    /// Signal the advisory "checking for update" status to the host.
    SignalChecking,
    /// Query the release feed for the latest release of `repo`, requiring
    /// attached assets and excluding pre-releases as given.
    FetchLatestRelease { repo: String, require_assets: bool, pre_release: bool },
    /// Signal the advisory "downloading" status to the host.
    SignalDownloading,
    /// Create the staging directory, ignoring an "already exists" error.
    CreateStagingDir { path: String },
    /// Download the archive at `url` into `dest`, unpacking it as a zip.
    DownloadZip { url: String, dest: String },
    /// Report the first regular file found in `dir`, in any order.
    FindFirstFile { dir: String },
    /// Atomically move the file `from` to `to`.
    RenameFile { from: String, to: String },
    /// Best-effort removal of the staging directory; failure is ignored.
    RemoveStagingDir { path: String },
}

/// What the shell observed while performing the requested action.
#[derive(Debug, PartialEq)]
pub enum Event {
    /// Whether the checked path is an existing regular file.
    FileStatus { is_file: bool },
    /// The action was performed; any failure of it is ignored by design
    /// (status signals, staging-directory creation and removal).
    Ack,
    /// The release feed's answer.
    ReleaseResult { result: Result<Release, String> },
    /// The outcome of the download and unpack.
    DownloadResult { result: Result<(), String> },
    /// The first regular file found in the staging directory, if any.
    FirstFile { file: Option<String> },
    /// The outcome of the final move.
    RenameResult { result: Result<(), String> },
}

/// Where the resolver stands within a resolution attempt: which action it
/// is waiting on, with the values it needs to carry across.
#[derive(Debug, PartialEq)]
pub enum Phase {
    /// No attempt is under way.
    Idle,
    /// Waiting for the file check of the cached path.
    AwaitCacheCheck { path: String },
    /// Waiting for the file check of the fixed local file name.
    AwaitLocalCheck,
    /// Waiting for the "checking for update" signal to be delivered.
    AwaitCheckingSignal,
    /// Waiting for the release feed's answer.
    AwaitRelease,
    /// Waiting for the "downloading" signal to be delivered.
    AwaitDownloadingSignal { url: String },
    /// Waiting for the staging directory to be created.
    AwaitStagingDir { url: String },
    /// Waiting for the download and unpack to finish.
    AwaitDownload,
    /// Waiting for the scan of the staging directory.
    AwaitFirstFile,
    /// Waiting for the final move of the extracted file.
    AwaitRename,
    /// Waiting for the best-effort removal of the staging directory.
    AwaitCleanup,
}

/// What a step produced: either the next action to perform, or the end of
/// the attempt with the resolved path or the error.
#[derive(Debug, PartialEq)]
pub enum Outcome {
    Next(Action),
    Done(Result<String, ResolveError>),
}

/// The resolver's process-wide state: the path cached by an earlier
/// successful resolution, and the phase of the attempt under way.
#[derive(Debug, PartialEq)]
pub struct Resolver {
    pub cached_jar_path: Option<String>,
    pub phase: Phase,
}

/// Holds at `i` when the asset list carries the wanted name exactly at `i`
/// and nowhere earlier.
pub open spec fn asset_matches_at(assets: Seq<ReleaseAsset>, name: Seq<char>, i: int) -> bool {
    &&& 0 <= i < assets.len()
    &&& assets[i].name@ == name
    &&& forall|j: int| 0 <= j < i ==> (#[trigger] assets[j]).name@ != name
}

/// Holds when some asset's name equals the wanted name exactly.
pub open spec fn has_asset(assets: Seq<ReleaseAsset>, name: Seq<char>) -> bool {
    exists|i: int| 0 <= i < assets.len() && (#[trigger] assets[i]).name@ == name
}

/// Finds the first asset whose name equals `name` exactly — a name that
/// merely contains or extends the wanted one does not match.
pub fn find_asset_index(assets: &Vec<ReleaseAsset>, name: &String) -> (r: Option<usize>)
    ensures
        match r {
            Some(i) => asset_matches_at(assets@, name@, i as int),
            None => !has_asset(assets@, name@),
        },
{
    let mut i: usize = 0;
    while i < assets.len()
        invariant
            i <= assets@.len(),
            forall|j: int| 0 <= j < i ==> (#[trigger] assets@[j]).name@ != name@,
        decreases assets@.len() - i,
    {
        if assets[i].name == *name {
            return Some(i);
        }
        i = i + 1;
    }
    None
}

/// Which event answers the action the given phase is waiting on.
pub open spec fn event_fits(p: Phase, ev: Event) -> bool {
    match p {
        Phase::Idle => false,
        Phase::AwaitCacheCheck { .. } => ev is FileStatus,
        Phase::AwaitLocalCheck => ev is FileStatus,
        Phase::AwaitCheckingSignal => ev is Ack,
        Phase::AwaitRelease => ev is ReleaseResult,
        Phase::AwaitDownloadingSignal { .. } => ev is Ack,
        Phase::AwaitStagingDir { .. } => ev is Ack,
        Phase::AwaitDownload => ev is DownloadResult,
        Phase::AwaitFirstFile => ev is FirstFile,
        Phase::AwaitRename => ev is RenameResult,
        Phase::AwaitCleanup => ev is Ack,
    }
}

/// How a resolution attempt begins: the fast path checks the cached path
/// if there is one, else the fixed local file name is checked.  The cache
/// itself is left untouched.
pub open spec fn start_spec(pre: Resolver, post: Resolver, a: Action) -> bool {
    &&& post.cached_jar_path == pre.cached_jar_path
    &&& match pre.cached_jar_path {
        Some(p) => {
            &&& a matches Action::CheckFile { path } && path == p
            &&& post.phase matches Phase::AwaitCacheCheck { path: q } && q == p
        },
        None => {
            &&& a matches Action::CheckFile { path } && path@ == spec_jar_name()
            &&& post.phase is AwaitLocalCheck
        },
    }
}

/// The resolver's transition relation: given the phase before the step and
/// the event observed, it pins down the phase after the step, the cache,
/// and the outcome — the next action, or the end of the attempt.
pub open spec fn transition(pre: Resolver, ev: Event, post: Resolver, o: Outcome) -> bool {
    match pre.phase {
        Phase::Idle => false,
        Phase::AwaitCacheCheck { path } => ev matches Event::FileStatus { is_file } && (if is_file {
            // The cached path is still a regular file: done, no network.
            &&& post.phase is Idle
            &&& post.cached_jar_path == pre.cached_jar_path
            &&& o matches Outcome::Done(Ok(p)) && p == path
        } else {
            // Stale cache: fall back to the on-disk check.
            &&& post.phase is AwaitLocalCheck
            &&& post.cached_jar_path == pre.cached_jar_path
            &&& o matches Outcome::Next(Action::CheckFile { path: q }) && q@ == spec_jar_name()
        }),
        Phase::AwaitLocalCheck => ev matches Event::FileStatus { is_file } && (if is_file {
            // Left over from an earlier process: cache it and return it.
            &&& post.phase is Idle
            &&& post.cached_jar_path matches Some(c) && c@ == spec_jar_name()
            &&& o matches Outcome::Done(Ok(p)) && p@ == spec_jar_name()
        } else {
            // First-time installation begins.
            &&& post.phase is AwaitCheckingSignal
            &&& post.cached_jar_path == pre.cached_jar_path
            &&& o == Outcome::Next(Action::SignalChecking)
        }),
        Phase::AwaitCheckingSignal => ev is Ack && {
            &&& post.phase is AwaitRelease
            &&& post.cached_jar_path == pre.cached_jar_path
            &&& o matches Outcome::Next(
                Action::FetchLatestRelease { repo, require_assets, pre_release },
            ) && repo@ == spec_repo() && require_assets && !pre_release
        },
        Phase::AwaitRelease => ev matches Event::ReleaseResult { result } && match result {
            Err(e) => {
                &&& post.phase is Idle
                &&& post.cached_jar_path == pre.cached_jar_path
                &&& o matches Outcome::Done(Err(ResolveError::ReleaseLookup(m))) && m == e
            },
            Ok(release) => if has_asset(release.assets@, spec_jar_name()) {
                &&& post.phase matches Phase::AwaitDownloadingSignal { url } && (exists|i: int|
                    asset_matches_at(release.assets@, spec_jar_name(), i) && url
                        == release.assets@[i].download_url)
                &&& post.cached_jar_path == pre.cached_jar_path
                &&& o == Outcome::Next(Action::SignalDownloading)
            } else {
                &&& post.phase is Idle
                &&& post.cached_jar_path == pre.cached_jar_path
                &&& o matches Outcome::Done(Err(e2)) && e2 is AssetNotFound
            },
        },
        Phase::AwaitDownloadingSignal { url } => ev is Ack && {
            &&& post.phase matches Phase::AwaitStagingDir { url: u } && u == url
            &&& post.cached_jar_path == pre.cached_jar_path
            &&& o matches Outcome::Next(Action::CreateStagingDir { path }) && path@
                == spec_staging_dir()
        },
        Phase::AwaitStagingDir { url } => ev is Ack && {
            &&& post.phase is AwaitDownload
            &&& post.cached_jar_path == pre.cached_jar_path
            &&& o matches Outcome::Next(Action::DownloadZip { url: u, dest }) && u == url && dest@
                == spec_staging_dir()
        },
        Phase::AwaitDownload => ev matches Event::DownloadResult { result } && match result {
            Err(e) => {
                &&& post.phase is Idle
                &&& post.cached_jar_path == pre.cached_jar_path
                &&& o matches Outcome::Done(Err(ResolveError::Download(m))) && m == e
            },
            Ok(_) => {
                &&& post.phase is AwaitFirstFile
                &&& post.cached_jar_path == pre.cached_jar_path
                &&& o matches Outcome::Next(Action::FindFirstFile { dir }) && dir@
                    == spec_staging_dir()
            },
        },
        Phase::AwaitFirstFile => ev matches Event::FirstFile { file } && match file {
            None => {
                &&& post.phase is Idle
                &&& post.cached_jar_path == pre.cached_jar_path
                &&& o matches Outcome::Done(Err(e2)) && e2 is ExtractedFileNotFound
            },
            Some(f) => {
                &&& post.phase is AwaitRename
                &&& post.cached_jar_path == pre.cached_jar_path
                &&& o matches Outcome::Next(Action::RenameFile { from, to }) && from == f && to@
                    == spec_jar_name()
            },
        },
        Phase::AwaitRename => ev matches Event::RenameResult { result } && match result {
            Err(e) => {
                &&& post.phase is Idle
                &&& post.cached_jar_path == pre.cached_jar_path
                &&& o matches Outcome::Done(Err(ResolveError::Install(m))) && m == e
            },
            Ok(_) => {
                &&& post.phase is AwaitCleanup
                &&& post.cached_jar_path == pre.cached_jar_path
                &&& o matches Outcome::Next(Action::RemoveStagingDir { path }) && path@
                    == spec_staging_dir()
            },
        },
        Phase::AwaitCleanup => ev is Ack && {
            // Installation succeeded; cleanup failures were ignored.
            &&& post.phase is Idle
            &&& post.cached_jar_path matches Some(c) && c@ == spec_jar_name()
            &&& o matches Outcome::Done(Ok(p)) && p@ == spec_jar_name()
        },
    }
}

/// Idempotence of resolution.  When the artifact already exists on disk —
/// every file check is answered positively — a resolution attempt consists
/// of the opening file check and nothing else: no status signal, no release
/// lookup, no download.  Two consecutive attempts both finish at once with
/// the same path.
pub proof fn lemma_resolve_idempotent(
    r0: Resolver,
    r1: Resolver,
    a1: Action,
    r2: Resolver,
    o1: Outcome,
    r3: Resolver,
    a2: Action,
    r4: Resolver,
    o2: Outcome,
)
    requires
        r0.phase is Idle,
        start_spec(r0, r1, a1),
        transition(r1, Event::FileStatus { is_file: true }, r2, o1),
        start_spec(r2, r3, a2),
        transition(r3, Event::FileStatus { is_file: true }, r4, o2),
    ensures
        a1 is CheckFile,
        a2 is CheckFile,
        o1 matches Outcome::Done(Ok(p1)) && (o2 matches Outcome::Done(Ok(p2)) && p1@ == p2@),
        r2.phase is Idle,
        r4.phase is Idle,
{
}

/// The discipline every step obeys.  The cached path is either left
/// untouched or — only when the attempt ends successfully — set to the
/// path that is returned; and a finished attempt, successful or not,
/// leaves the machine idle, so the next resolution can start over.
pub proof fn lemma_step_discipline(pre: Resolver, ev: Event, post: Resolver, o: Outcome)
    requires
        transition(pre, ev, post, o),
    ensures
        post.cached_jar_path == pre.cached_jar_path || (o matches Outcome::Done(Ok(p)) && (
        post.cached_jar_path matches Some(c) && c@ == p@)),
        o is Done ==> post.phase is Idle,
{
}

/// Crash recovery at the staging step.  The staging directory may already
/// exist, full of leftover files from a run that crashed before its
/// cleanup: its creation is acknowledged all the same, and the machine
/// proceeds straight to the download — a stale staging directory never
/// fails a fresh attempt.
pub proof fn lemma_stale_staging_dir_harmless(r0: Resolver, r1: Resolver, o: Outcome)
    requires
        r0.phase is AwaitStagingDir,
        transition(r0, Event::Ack, r1, o),
    ensures
        o matches Outcome::Next(a) && a is DownloadZip,
        r1.phase is AwaitDownload,
{
}

impl ResolveError {
    /// The failure message surfaced to the host for this error.
    pub fn message(&self) -> (m: String)
        ensures
            match *self {
                ResolveError::ReleaseLookup(e) => m@ == e@,
                ResolveError::AssetNotFound => m@ == "No language-server-all.jar asset found"@,
                ResolveError::Download(e) => m@ == "failed to download jar: "@ + e@,
                ResolveError::ExtractedFileNotFound => m@ == "downloaded jar not found"@,
                ResolveError::Install(e) => m@ == "failed to move jar: "@ + e@,
            },
    {
        match self {
            ResolveError::ReleaseLookup(e) => e.clone(),
            ResolveError::AssetNotFound => "No language-server-all.jar asset found".to_owned(),
            ResolveError::Download(e) => {
                let mut m: String = "failed to download jar: ".to_owned();
                m.append(e.as_str());
                m
            },
            ResolveError::ExtractedFileNotFound => "downloaded jar not found".to_owned(),
            ResolveError::Install(e) => {
                let mut m: String = "failed to move jar: ".to_owned();
                m.append(e.as_str());
                m
            },
        }
    }
}

impl Resolver {
    /// A fresh resolver: nothing cached, no attempt under way.
    pub fn new() -> (r: Resolver)
        ensures
            r.cached_jar_path is None,
            r.phase is Idle,
    {
        Resolver { cached_jar_path: None, phase: Phase::Idle }
    }

    /// Begins a resolution attempt and returns the first action to
    /// perform: a file check of the cached path if one is held, else of
    /// the fixed local file name.
    pub fn start(&mut self) -> (a: Action)
        requires
            old(self).phase is Idle,
        ensures
            start_spec(*old(self), *final(self), a),
    {
        let cached: Option<String> = match &self.cached_jar_path {
            Some(p) => Some(p.clone()),
            None => None,
        };
        match cached {
            Some(p) => {
                let path = p.clone();
                self.phase = Phase::AwaitCacheCheck { path: p };
                Action::CheckFile { path }
            },
            None => {
                self.phase = Phase::AwaitLocalCheck;
                Action::CheckFile { path: jar_file_name().to_owned() }
            },
        }
    }

    /// Whether `event` answers the action this resolver is waiting on.
    pub fn expects(&self, event: &Event) -> (b: bool)
        ensures
            b == event_fits(self.phase, *event),
    {
        match (&self.phase, event) {
            (Phase::Idle, _) => false,
            (Phase::AwaitCacheCheck { .. }, Event::FileStatus { .. }) => true,
            (Phase::AwaitLocalCheck, Event::FileStatus { .. }) => true,
            (Phase::AwaitCheckingSignal, Event::Ack) => true,
            (Phase::AwaitRelease, Event::ReleaseResult { .. }) => true,
            (Phase::AwaitDownloadingSignal { .. }, Event::Ack) => true,
            (Phase::AwaitStagingDir { .. }, Event::Ack) => true,
            (Phase::AwaitDownload, Event::DownloadResult { .. }) => true,
            (Phase::AwaitFirstFile, Event::FirstFile { .. }) => true,
            (Phase::AwaitRename, Event::RenameResult { .. }) => true,
            (Phase::AwaitCleanup, Event::Ack) => true,
            _ => false,
        }
    }

    /// Consumes the event observed for the pending action and moves the
    /// machine one step: either the next action to perform, or the end of
    /// the attempt with the resolved path or the error.
    pub fn step(&mut self, event: Event) -> (o: Outcome)
        requires
            event_fits(old(self).phase, event),
        ensures
            transition(*old(self), event, *final(self), o),
    {
        let mut phase = Phase::Idle;
        core::mem::swap(&mut phase, &mut self.phase);
        match (phase, event) {
            (Phase::AwaitCacheCheck { path }, Event::FileStatus { is_file }) => {
                if is_file {
                    Outcome::Done(Ok(path))
                } else {
                    self.phase = Phase::AwaitLocalCheck;
                    Outcome::Next(Action::CheckFile { path: jar_file_name().to_owned() })
                }
            },
            (Phase::AwaitLocalCheck, Event::FileStatus { is_file }) => {
                if is_file {
                    let path: String = jar_file_name().to_owned();
                    self.cached_jar_path = Some(path.clone());
                    Outcome::Done(Ok(path))
                } else {
                    self.phase = Phase::AwaitCheckingSignal;
                    Outcome::Next(Action::SignalChecking)
                }
            },
            (Phase::AwaitCheckingSignal, Event::Ack) => {
                self.phase = Phase::AwaitRelease;
                Outcome::Next(
                    Action::FetchLatestRelease {
                        repo: repo_name().to_owned(),
                        require_assets: true,
                        pre_release: false,
                    },
                )
            },
            (Phase::AwaitRelease, Event::ReleaseResult { result }) => match result {
                Err(e) => Outcome::Done(Err(ResolveError::ReleaseLookup(e))),
                Ok(release) => {
                    let expected: String = jar_file_name().to_owned();
                    match find_asset_index(&release.assets, &expected) {
                        Some(i) => {
                            let url = release.assets[i].download_url.clone();
                            self.phase = Phase::AwaitDownloadingSignal { url };
                            Outcome::Next(Action::SignalDownloading)
                        },
                        None => Outcome::Done(Err(ResolveError::AssetNotFound)),
                    }
                },
            },
            (Phase::AwaitDownloadingSignal { url }, Event::Ack) => {
                self.phase = Phase::AwaitStagingDir { url };
                Outcome::Next(Action::CreateStagingDir { path: staging_dir_name().to_owned() })
            },
            (Phase::AwaitStagingDir { url }, Event::Ack) => {
                self.phase = Phase::AwaitDownload;
                Outcome::Next(
                    Action::DownloadZip { url, dest: staging_dir_name().to_owned() },
                )
            },
            (Phase::AwaitDownload, Event::DownloadResult { result }) => match result {
                Err(e) => Outcome::Done(Err(ResolveError::Download(e))),
                Ok(_) => {
                    self.phase = Phase::AwaitFirstFile;
                    Outcome::Next(Action::FindFirstFile { dir: staging_dir_name().to_owned() })
                },
            },
            (Phase::AwaitFirstFile, Event::FirstFile { file }) => match file {
                None => Outcome::Done(Err(ResolveError::ExtractedFileNotFound)),
                Some(f) => {
                    self.phase = Phase::AwaitRename;
                    Outcome::Next(
                        Action::RenameFile { from: f, to: jar_file_name().to_owned() },
                    )
                },
            },
            (Phase::AwaitRename, Event::RenameResult { result }) => match result {
                Err(e) => Outcome::Done(Err(ResolveError::Install(e))),
                Ok(_) => {
                    self.phase = Phase::AwaitCleanup;
                    Outcome::Next(
                        Action::RemoveStagingDir { path: staging_dir_name().to_owned() },
                    )
                },
            },
            (Phase::AwaitCleanup, Event::Ack) => {
                let path: String = jar_file_name().to_owned();
                self.cached_jar_path = Some(path.clone());
                Outcome::Done(Ok(path))
            },
            _ => {
                proof {
                    assert(false);
                }
                Outcome::Done(Err(ResolveError::AssetNotFound))
            },
        }
    }
}

} // verus!
