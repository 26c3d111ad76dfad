//! The binary provisioner: a session that turns the latest release into a
//! runnable binary path, caching the path for the rest of the session.
//!
//! The session itself performs no I/O.  Each transition consumes what the
//! host observed and answers with the next [`Step`] the host must perform:
//! query the release feed, download and unpack an archive, or set the
//! executable bit.  The host loops until the session hands it a final
//! outcome.  Locating the resolved asset needs no outside work, so it
//! completes inside the transition that receives the release.

use vstd::prelude::*;
use vstd::string::StringExecFns;

use crate::release::Release;
use crate::resolver::{
    supported, rejection_reason, spec_asset_name, platform_supported, reject, resolve, ArchKind,
    OsKind, RejectReason, UnsupportedPlatform,
};

verus! {

/// Why a provisioning session failed.  Every step's failure aborts the
/// remaining sequence and is surfaced verbatim; none is retried here.
#[derive(Debug)]
pub enum ProvisionError {
    /// No build is published for the host platform.
    UnsupportedPlatform { platform: UnsupportedPlatform },
    /// The resolved name is absent from the release's assets: a packaging
    /// or version mismatch, carried with the names that were available.
    AssetNotFound { name: String, available: Vec<String> },
    /// The release feed could not be queried.
    FeedError { message: String },
    /// The archive could not be downloaded or unpacked whole.
    FetchError { message: String },
    /// The filesystem refused the permission change.
    IoError { message: String },
}

/// The message a failure carries, worded as the host receives it.
pub open spec fn spec_message(e: ProvisionError) -> Seq<char> {
    match e {
        ProvisionError::UnsupportedPlatform { platform } => match platform.reason {
            RejectReason::Os => "shebe does not support Windows"@,
            RejectReason::Arch => "shebe does not support 32-bit x86"@,
            RejectReason::ArchOsCombo => "shebe does not support Linux ARM"@,
        },
        ProvisionError::AssetNotFound { name, available: _ } => "no release asset matching '"@
            + name@ + "'"@,
        ProvisionError::FeedError { message } => message@,
        ProvisionError::FetchError { message } => message@,
        ProvisionError::IoError { message } => message@,
    }
}

impl ProvisionError {
    /// The failure as one line of text for the host.
    pub fn message(&self) -> (r: String)
        ensures
            r@ == spec_message(*self),
    {
        match self {
            ProvisionError::UnsupportedPlatform { platform } => match platform.reason {
                RejectReason::Os => "shebe does not support Windows".to_owned(),
                RejectReason::Arch => "shebe does not support 32-bit x86".to_owned(),
                RejectReason::ArchOsCombo => "shebe does not support Linux ARM".to_owned(),
            },
            ProvisionError::AssetNotFound { name, available: _ } => {
                let mut m: String = "no release asset matching '".to_owned();
                m.append(name.as_str());
                m.append("'");
                m
            },
            ProvisionError::FeedError { message } => message.clone(),
            ProvisionError::FetchError { message } => message.clone(),
            ProvisionError::IoError { message } => message.clone(),
        }
    }
}

/// The next piece of outside work a session asks its host for, or the
/// final outcome.
#[derive(Debug)]
pub enum Step {
    /// Ask the release feed for the latest release.
    FetchRelease,
    /// Download the archive at `url` and unpack it into `dest_dir`.
    DownloadAndUnpack { url: String, dest_dir: String },
    /// Ensure the owner-execute bit is set on `path`.
    MakeExecutable { path: String },
    /// The session is over, successfully or not.
    Done { outcome: Result<String, ProvisionError> },
}

/// Where a provisioning session stands.
#[derive(Debug)]
pub enum SessionState {
    /// No path known yet, no session under way.
    Uncached,
    /// The release feed has been asked for the latest release.
    Resolving { os: OsKind, arch: ArchKind },
    /// The located asset's archive is being downloaded and unpacked.
    Fetching { download_url: String, dest_dir: String, binary_path: String },
    /// The unpacked binary is being marked executable.
    Finalizing { binary_path: String },
    /// A path has been cached; every further request answers with it.
    Cached,
    /// The session failed; the next request starts over from scratch.
    Failed,
}

/// The coarse phase of a session, for the host to inspect.
#[derive(Clone, Copy, PartialEq, Eq, Structural, Debug)]
pub enum Phase {
    Uncached,
    Resolving,
    Fetching,
    Finalizing,
    Cached,
    Failed,
}

/// The extraction directory is scoped by the release version, so sessions
/// for different versions never collide.
pub open spec fn spec_extract_dir(version: Seq<char>) -> Seq<char> {
    "shebe-"@ + version
}

/// The archive places the binary at the root of the extraction directory.
pub open spec fn spec_binary_in(dir: Seq<char>) -> Seq<char> {
    dir + "/shebe-mcp"@
}

/// Whether `s` ends with `suffix`.
pub open spec fn has_suffix(s: Seq<char>, suffix: Seq<char>) -> bool {
    suffix.len() <= s.len() && s.subrange(s.len() - suffix.len(), s.len() as int) == suffix
}

proof fn lemma_concat_has_suffix(a: Seq<char>, b: Seq<char>)
    ensures
        has_suffix(a + b, b),
{
    assert((a + b).subrange((a + b).len() - b.len(), (a + b).len() as int) =~= b);
}

/// A provisioning session and its cache slot.  The slot is written exactly
/// once per session, on success, and answered from then on; no failure
/// ever writes it.
pub struct Provisioner {
    pub cached: Option<String>,
    pub state: SessionState,
}

impl Provisioner {
    /// A path is cached exactly in the cached state, a mid-flight session
    /// remembers a supported platform, and every path the session carries
    /// points at the binary inside its extraction directory.
    pub open spec fn wf(self) -> bool {
        &&& (self.cached is Some <==> self.state is Cached)
        &&& match self.state {
            SessionState::Resolving { os, arch } => supported(os, arch),
            SessionState::Fetching { download_url: _, dest_dir, binary_path } => binary_path@
                == spec_binary_in(dest_dir@),
            SessionState::Finalizing { binary_path } => has_suffix(binary_path@, "/shebe-mcp"@),
            _ => true,
        }
        &&& match self.cached {
            Some(p) => has_suffix(p@, "/shebe-mcp"@),
            None => true,
        }
    }

    /// The phase of `self.state`.
    pub open spec fn spec_phase(self) -> Phase {
        match self.state {
            SessionState::Uncached => Phase::Uncached,
            SessionState::Resolving { .. } => Phase::Resolving,
            SessionState::Fetching { .. } => Phase::Fetching,
            SessionState::Finalizing { .. } => Phase::Finalizing,
            SessionState::Cached => Phase::Cached,
            SessionState::Failed => Phase::Failed,
        }
    }

    /// A session is idle when no step is outstanding: before any session,
    /// after a success, or after a failure.
    pub open spec fn idle(self) -> bool {
        self.state is Uncached || self.state is Cached || self.state is Failed
    }

    /// A fresh provisioner: nothing cached, no session under way.
    pub fn new() -> (p: Provisioner)
        ensures
            p.wf(),
            p.cached is None,
            p.state is Uncached,
    {
        Provisioner { cached: None, state: SessionState::Uncached }
    }

    /// The coarse phase, for the host to test before each transition.
    pub fn phase(&self) -> (ph: Phase)
        ensures
            ph == self.spec_phase(),
    {
        match &self.state {
            SessionState::Uncached => Phase::Uncached,
            SessionState::Resolving { .. } => Phase::Resolving,
            SessionState::Fetching { .. } => Phase::Fetching,
            SessionState::Finalizing { .. } => Phase::Finalizing,
            SessionState::Cached => Phase::Cached,
            SessionState::Failed => Phase::Failed,
        }
    }

    /// The path cached by an earlier successful session, if any.
    pub fn cached_path(&self) -> (r: Option<String>)
        ensures
            match (r, self.cached) {
                (Some(p), Some(q)) => p@ == q@,
                (None, None) => true,
                _ => false,
            },
    {
        match &self.cached {
            Some(p) => Some(p.clone()),
            None => None,
        }
    }

    /// Begin (or resume) a session for the given host platform: answer
    /// from the cache, reject an unsupported platform before any network
    /// step, or start resolving.
    pub fn begin(&mut self, os: OsKind, arch: ArchKind) -> (step: Step)
        requires
            old(self).wf(),
            old(self).idle(),
        ensures
            final(self).wf(),
            begin_post(*old(self), os, arch, *final(self), step),
    {
        match &self.cached {
            Some(path) => Step::Done { outcome: Ok(path.clone()) },
            None => {
                if !platform_supported(os, arch) {
                    self.state = SessionState::Failed;
                    Step::Done {
                        outcome: Err(
                            ProvisionError::UnsupportedPlatform { platform: reject(os, arch) },
                        ),
                    }
                } else {
                    self.state = SessionState::Resolving { os, arch };
                    Step::FetchRelease
                }
            },
        }
    }

    /// Consume what the feed returned: resolve the asset name for the
    /// session's platform, locate it in the release, and ask for the
    /// download; or surface the feed's failure.
    pub fn provide_release(&mut self, fetched: Result<Release, String>) -> (step: Step)
        requires
            old(self).wf(),
            old(self).state is Resolving,
        ensures
            final(self).wf(),
            release_post(*old(self), fetched, *final(self), step),
    {
        let (os, arch): (OsKind, ArchKind) = match &self.state {
            SessionState::Resolving { os, arch } => (*os, *arch),
            _ => vstd::pervasive::unreached(),
        };
        match fetched {
            Err(message) => {
                self.state = SessionState::Failed;
                Step::Done { outcome: Err(ProvisionError::FeedError { message }) }
            },
            Ok(release) => {
                let name: String = match resolve(release.version.as_str(), os, arch) {
                    Ok(n) => n,
                    Err(_) => vstd::pervasive::unreached(),
                };
                match release.find_asset(&name) {
                    Some(i) => {
                        let url = release.assets[i].download_url.clone();
                        let mut dest_dir: String = "shebe-".to_owned();
                        dest_dir.append(release.version.as_str());
                        let mut binary_path: String = dest_dir.clone();
                        binary_path.append("/shebe-mcp");
                        self.state = SessionState::Fetching {
                            download_url: url.clone(),
                            dest_dir: dest_dir.clone(),
                            binary_path,
                        };
                        Step::DownloadAndUnpack { url, dest_dir }
                    },
                    None => {
                        let available = release.asset_names();
                        self.state = SessionState::Failed;
                        Step::Done {
                            outcome: Err(ProvisionError::AssetNotFound { name, available }),
                        }
                    },
                }
            },
        }
    }

    /// Consume the outcome of downloading and unpacking the archive: ask
    /// for the executable bit, or surface the fetch failure.
    pub fn provide_unpack(&mut self, outcome: Result<(), String>) -> (step: Step)
        requires
            old(self).wf(),
            old(self).state is Fetching,
        ensures
            final(self).wf(),
            unpack_post(*old(self), outcome, *final(self), step),
    {
        match outcome {
            Ok(_) => {
                let bp: String = match &self.state {
                    SessionState::Fetching { binary_path, .. } => binary_path.clone(),
                    _ => vstd::pervasive::unreached(),
                };
                proof {
                    match old(self).state {
                        SessionState::Fetching { download_url: _, dest_dir, binary_path } => {
                            lemma_concat_has_suffix(dest_dir@, "/shebe-mcp"@);
                        },
                        _ => {},
                    }
                }
                self.state = SessionState::Finalizing { binary_path: bp.clone() };
                Step::MakeExecutable { path: bp }
            },
            Err(message) => {
                self.state = SessionState::Failed;
                Step::Done { outcome: Err(ProvisionError::FetchError { message }) }
            },
        }
    }

    /// Consume the outcome of setting the executable bit: on success the
    /// path is cached and returned; on failure nothing is cached.
    pub fn provide_permissions(&mut self, outcome: Result<(), String>) -> (step: Step)
        requires
            old(self).wf(),
            old(self).state is Finalizing,
        ensures
            final(self).wf(),
            permissions_post(*old(self), outcome, *final(self), step),
    {
        match outcome {
            Ok(_) => {
                let bp: String = match &self.state {
                    SessionState::Finalizing { binary_path } => binary_path.clone(),
                    _ => vstd::pervasive::unreached(),
                };
                self.cached = Some(bp.clone());
                self.state = SessionState::Cached;
                Step::Done { outcome: Ok(bp) }
            },
            Err(message) => {
                self.state = SessionState::Failed;
                Step::Done { outcome: Err(ProvisionError::IoError { message }) }
            },
        }
    }
}

/// How the host should invoke the provisioned binary: the program alone,
/// with no arguments and no extra environment.
pub struct LaunchCommand {
    pub program: String,
    pub args: Vec<String>,
    pub env: Vec<(String, String)>,
}

/// The command that launches the provisioned binary at `program`.
pub fn launch_command(program: String) -> (c: LaunchCommand)
    ensures
        c.program@ == program@,
        c.args@.len() == 0,
        c.env@.len() == 0,
{
    LaunchCommand { program, args: Vec::new(), env: Vec::new() }
}

/// What beginning a session does: a cached path is answered unchanged; an
/// unsupported platform is rejected before anything else; otherwise the
/// feed is queried.
pub open spec fn begin_post(
    pre: Provisioner,
    os: OsKind,
    arch: ArchKind,
    post: Provisioner,
    step: Step,
) -> bool {
    match pre.cached {
        Some(cached) => {
            &&& post == pre
            &&& (step matches Step::Done { outcome: Ok(p) } && p@ == cached@)
        },
        None => if !supported(os, arch) {
            &&& post.cached is None
            &&& post.state is Failed
            &&& (step matches Step::Done { outcome: Err(e) } && (
            e matches ProvisionError::UnsupportedPlatform { platform } && platform
                == (UnsupportedPlatform { os, arch, reason: rejection_reason(os, arch) })))
        } else {
            &&& post.cached is None
            &&& post.state == (SessionState::Resolving { os, arch })
            &&& step is FetchRelease
        },
    }
}

/// What receiving the feed's answer does: a feed failure is surfaced; a
/// release either yields the located asset's download into the
/// version-scoped directory, or the exact missing name with the names
/// that were available.
pub open spec fn release_post(
    pre: Provisioner,
    fetched: Result<Release, String>,
    post: Provisioner,
    step: Step,
) -> bool {
    match pre.state {
        SessionState::Resolving { os, arch } => match fetched {
            Err(msg) => {
                &&& post.cached is None
                &&& post.state is Failed
                &&& (step matches Step::Done { outcome: Err(e) } && (
                e matches ProvisionError::FeedError { message } && message@ == msg@))
            },
            Ok(release) => {
                let name = spec_asset_name(release.version@, os, arch);
                if release.has_asset(name) {
                    &&& post.cached is None
                    &&& match post.state {
                        SessionState::Fetching { download_url, dest_dir, binary_path } => {
                            &&& (exists|i: int|
                                0 <= i < release.assets@.len() && release.assets@[i].name@ == name
                                    && download_url@ == release.assets@[i].download_url@)
                            &&& dest_dir@ == spec_extract_dir(release.version@)
                            &&& binary_path@ == spec_binary_in(dest_dir@)
                        },
                        _ => false,
                    }
                    &&& match (post.state, step) {
                        (
                            SessionState::Fetching { download_url, dest_dir, binary_path: _ },
                            Step::DownloadAndUnpack { url, dest_dir: d },
                        ) => url@ == download_url@ && d@ == dest_dir@,
                        _ => false,
                    }
                } else {
                    &&& post.cached is None
                    &&& post.state is Failed
                    &&& (step matches Step::Done { outcome: Err(e) } && (
                    e matches ProvisionError::AssetNotFound { name: n, available } && n@ == name
                        && available@.len() == release.assets@.len() && (forall|i: int|
                        0 <= i < available@.len() ==> available@[i]@ == release.assets@[i].name@)))
                }
            },
        },
        _ => false,
    }
}

/// What the download's outcome does: a whole, unpacked archive moves the
/// session to finalizing the very path the plan named; a fetch failure is
/// surfaced and nothing is cached.
pub open spec fn unpack_post(
    pre: Provisioner,
    outcome: Result<(), String>,
    post: Provisioner,
    step: Step,
) -> bool {
    match pre.state {
        SessionState::Fetching { download_url: _, dest_dir: _, binary_path } => match outcome {
            Ok(_) => {
                &&& post.cached is None
                &&& match post.state {
                    SessionState::Finalizing { binary_path: bp } => bp@ == binary_path@,
                    _ => false,
                }
                &&& (step matches Step::MakeExecutable { path } && path@ == binary_path@)
            },
            Err(msg) => {
                &&& post.cached is None
                &&& post.state is Failed
                &&& (step matches Step::Done { outcome: Err(e) } && (
                e matches ProvisionError::FetchError { message } && message@ == msg@))
            },
        },
        _ => false,
    }
}

/// What the permission change's outcome does: success caches the binary
/// path and returns it; failure is surfaced and nothing is cached.
pub open spec fn permissions_post(
    pre: Provisioner,
    outcome: Result<(), String>,
    post: Provisioner,
    step: Step,
) -> bool {
    match pre.state {
        SessionState::Finalizing { binary_path } => match outcome {
            Ok(_) => {
                &&& match post.cached {
                    Some(p) => p@ == binary_path@,
                    None => false,
                }
                &&& post.state is Cached
                &&& (step matches Step::Done { outcome: Ok(p) } && p@ == binary_path@)
            },
            Err(msg) => {
                &&& post.cached is None
                &&& post.state is Failed
                &&& (step matches Step::Done { outcome: Err(e) } && (
                e matches ProvisionError::IoError { message } && message@ == msg@))
            },
        },
        _ => false,
    }
}

/// Provisioning is idempotent by cache: once a path is cached, beginning
/// again changes nothing and answers with that very path — in particular
/// it never asks for another fetch, so a session performs at most one.
pub proof fn lemma_cached_begin_answers_from_cache(
    pre: Provisioner,
    os: OsKind,
    arch: ArchKind,
    post: Provisioner,
    step: Step,
)
    requires
        pre.wf(),
        pre.cached is Some,
        begin_post(pre, os, arch, post, step),
    ensures
        post == pre,
        match (step, pre.cached) {
            (Step::Done { outcome: Ok(p) }, Some(cached)) => p@ == cached@,
            _ => false,
        },
        !(step is FetchRelease),
{
}

/// A fetch is asked for only while nothing is cached: a host that runs
/// one session at a time therefore runs at most one fetch and extract
/// sequence per version, and every caller observes the one cached path.
pub proof fn lemma_fetch_only_while_uncached(
    pre: Provisioner,
    os: OsKind,
    arch: ArchKind,
    post: Provisioner,
    step: Step,
)
    requires
        pre.wf(),
        begin_post(pre, os, arch, post, step),
        step is FetchRelease,
    ensures
        pre.cached is None,
        supported(os, arch),
        post.state == (SessionState::Resolving { os, arch }),
{
}

/// Failure isolation: a failed download or unpack caches nothing and
/// leaves the session failed, and a session begun afterwards on a
/// supported platform starts the whole sequence over with a fresh fetch.
pub proof fn lemma_failed_unpack_leaves_uncached(
    pre: Provisioner,
    outcome: Result<(), String>,
    post: Provisioner,
    step: Step,
    os: OsKind,
    arch: ArchKind,
    retry: Provisioner,
    retry_step: Step,
)
    requires
        pre.wf(),
        pre.state is Fetching,
        outcome is Err,
        unpack_post(pre, outcome, post, step),
        supported(os, arch),
        begin_post(post, os, arch, retry, retry_step),
    ensures
        post.cached is None,
        post.state is Failed,
        retry_step is FetchRelease,
        retry.state == (SessionState::Resolving { os, arch }),
{
}

} // verus!
