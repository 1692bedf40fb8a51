use vstd::prelude::*;
use crate::cache::{CacheError, CachedPath};
use crate::platform::{resolve_target, target_of, Architecture, Os, PlatformError};
use crate::release::{url_for, ReleaseInfo};

verus! {

/// Why a resolution failed.
#[derive(Clone, Copy, Debug, PartialEq, Eq, Structural)]
pub enum LocateError {
    UnsupportedPlatform,
    UnsupportedArchitecture,
    RegistryUnreachable,
    MalformedRegistryResponse,
    NoDownloadForTarget,
    DownloadFailed,
    InstallFailed,
    CacheWriteConflict,
}

pub open spec fn from_platform(e: PlatformError) -> LocateError {
    match e {
        PlatformError::UnsupportedPlatform => LocateError::UnsupportedPlatform,
        PlatformError::UnsupportedArchitecture => LocateError::UnsupportedArchitecture,
    }
}

/// What the registry query produced.
pub enum FetchOutcome {
    /// The request could not be made or answered.
    Unreachable,
    /// The answer was not a release document.
    Malformed,
    Fetched(ReleaseInfo),
}

/// What the host has to do next on behalf of the locator.
#[derive(Debug)]
pub enum Step {
    /// Resolution is over: hand this path to the caller.
    Done(String),
    /// Resolution is over and failed.
    Failed(LocateError),
    /// Report whether a file exists at this path.
    Probe(String),
    /// Query the registry for the latest release.
    FetchRelease,
    /// Download and unpack the archive at `url` into `staging`.
    Download { url: String, staging: String },
    /// Move the directory `from` to `to`, creating the parent of `to`.
    Install { from: String, to: String },
    /// Remove the directory tree at this path.
    Cleanup(String),
}

/// Where resolution stands.
#[derive(Clone, Copy, Debug, PartialEq, Eq, Structural)]
pub enum Phase {
    Idle,
    Probing,
    Fetching,
    Downloading,
    Installing,
    CleaningUp,
}

pub open spec fn staging_dir() -> Seq<char> {
    "./temp"@
}

/// Directory inside the unpacked archive that holds the binary.
pub open spec fn extracted_dir() -> Seq<char> {
    "./temp/extension/extension/bin/DebuggerMono"@
}

/// Per-target install directory, relative to the working directory.
pub open spec fn install_dir(key: Seq<char>) -> Seq<char> {
    "./bin/"@ + key
}

/// The binary's path relative to the working directory.
pub open spec fn binary_rel_path(key: Seq<char>) -> Seq<char> {
    install_dir(key) + "/monodbg.exe"@
}

/// `rel` appended to `dir`, with one separator between them.
pub open spec fn joined(dir: Seq<char>, rel: Seq<char>) -> Seq<char> {
    if dir.len() == 0 || dir.last() == '/' {
        dir + rel
    } else {
        dir + seq!['/'] + rel
    }
}

/// Where the binary for `key` is looked for.
pub open spec fn probe_path(cwd: Seq<char>, key: Seq<char>) -> Seq<char> {
    joined(cwd, binary_rel_path(key))
}

/// `p` without a leading path separator.
pub open spec fn without_leading_separator(p: Seq<char>) -> Seq<char> {
    if p.len() > 0 && (p[0] == '/' || p[0] == '\\') {
        p.drop_first()
    } else {
        p
    }
}

pub fn strip_leading_separator(p: &String) -> (r: String)
    ensures
        r@ == without_leading_separator(p@),
{
    let n = p.as_str().unicode_len();
    if n > 0 {
        let c = p.as_str().get_char(0);
        if c == '/' || c == '\\' {
            let rest = p.as_str().substring_char(1, n);
            proof {
                assert(rest@ =~= p@.drop_first());
            }
            return String::from_str(rest);
        }
    }
    p.clone()
}

/// The path at which the binary for `key` is expected.
pub fn binary_path(cwd: &String, key: &String) -> (r: String)
    ensures
        r@ == probe_path(cwd@, key@),
{
    let rel = String::from_str("./bin/").concat(key.as_str()).concat("/monodbg.exe");
    let n = cwd.as_str().unicode_len();
    let r = if n == 0 || cwd.as_str().get_char(n - 1) == '/' {
        cwd.clone().concat(rel.as_str())
    } else {
        cwd.clone().concat("/").concat(rel.as_str())
    };
    proof {
        reveal_strlit("/");
        if n > 0 && cwd@.last() != '/' {
            assert(r@ =~= cwd@ + seq!['/'] + rel@);
        }
    }
    r
}

/// Resolves the backend binary's path, fetching it at most once per process.
///
/// The host calls `resolve`, performs each step it is handed, and reports the
/// result back through the matching `on_*` method until it is handed `Done` or
/// `Failed`.
pub struct Locator {
    pub cache: CachedPath,
    pub phase: Phase,
    /// Target key of the resolution in progress.
    pub key: String,
    /// Probe path of the resolution in progress.
    pub path: String,
    /// Whether the artifact was installed during the resolution in progress.
    pub installed: bool,
    /// Whether removing the staging directory failed; a warning only.
    pub cleanup_failed: bool,
}

impl Locator {
    pub fn new() -> (r: Locator)
        ensures
            r.cache@ is None,
            r.phase == Phase::Idle,
            !r.cleanup_failed,
    {
        Locator {
            cache: CachedPath::new(),
            phase: Phase::Idle,
            key: String::new(),
            path: String::new(),
            installed: false,
            cleanup_failed: false,
        }
    }

    /// Starts a resolution for a host. A cached path is returned at once; otherwise
    /// the target key is derived and the expected location probed.
    pub fn resolve(&mut self, os: Os, arch: Architecture, cwd: &String) -> (r: Step)
        requires
            old(self).phase == Phase::Idle,
        ensures
            final(self).cache@ == old(self).cache@,
            final(self).cleanup_failed == old(self).cleanup_failed,
            match old(self).cache@ {
                Some(p) => r is Done && r->Done_0@ == p && final(self).phase == Phase::Idle,
                None => match target_of(os, arch) {
                    Err(e) => r == Step::Failed(from_platform(e)) && final(self).phase
                        == Phase::Idle,
                    Ok(k) => r is Probe && r->Probe_0@ == probe_path(cwd@, k) && final(self).phase
                        == Phase::Probing && final(self).key@ == k && final(self).path@
                        == probe_path(cwd@, k) && !final(self).installed,
                },
            },
    {
        if let Some(p) = self.cache.get() {
            return Step::Done(p);
        }
        match resolve_target(os, arch) {
            Err(PlatformError::UnsupportedPlatform) => Step::Failed(
                LocateError::UnsupportedPlatform,
            ),
            Err(PlatformError::UnsupportedArchitecture) => Step::Failed(
                LocateError::UnsupportedArchitecture,
            ),
            Ok(key) => {
                let path = binary_path(cwd, &key);
                self.key = key;
                self.path = path.clone();
                self.installed = false;
                self.phase = Phase::Probing;
                Step::Probe(path)
            },
        }
    }

    /// Takes the result of a probe. A file found is recorded, without its leading
    /// separator, and returned; a missing file is fetched, unless it was just
    /// installed, which then failed.
    pub fn on_probe(&mut self, exists: bool) -> (r: Step)
        requires
            old(self).phase == Phase::Probing,
        ensures
            final(self).cleanup_failed == old(self).cleanup_failed,
            final(self).key == old(self).key,
            final(self).path == old(self).path,
            exists ==> final(self).phase == Phase::Idle && (final(self).cache@, r is Done)
                == crate::cache::after_set(
                old(self).cache@,
                without_leading_separator(old(self).path@),
            ) && (r is Done ==> r->Done_0@ == without_leading_separator(old(self).path@)) && (
            r is Failed ==> r == Step::Failed(LocateError::CacheWriteConflict)),
            !exists ==> final(self).cache@ == old(self).cache@,
            !exists && !old(self).installed ==> r == Step::FetchRelease && final(self).phase
                == Phase::Fetching,
            !exists && old(self).installed ==> r == Step::Failed(LocateError::InstallFailed)
                && final(self).phase == Phase::Idle,
    {
        if exists {
            self.phase = Phase::Idle;
            let p = strip_leading_separator(&self.path);
            match self.cache.set(p.clone()) {
                Ok(()) => Step::Done(p),
                Err(CacheError::CacheWriteConflict) => Step::Failed(LocateError::CacheWriteConflict),
            }
        } else if self.installed {
            self.phase = Phase::Idle;
            Step::Failed(LocateError::InstallFailed)
        } else {
            self.phase = Phase::Fetching;
            Step::FetchRelease
        }
    }

    /// Takes the registry's answer. A release that lists the target key has its
    /// archive downloaded into the staging directory; anything else fails with
    /// nothing on disk touched.
    pub fn on_release(&mut self, outcome: FetchOutcome) -> (r: Step)
        requires
            old(self).phase == Phase::Fetching,
        ensures
            final(self).cache@ == old(self).cache@,
            final(self).cleanup_failed == old(self).cleanup_failed,
            final(self).key == old(self).key,
            final(self).path == old(self).path,
            final(self).installed == old(self).installed,
            match outcome {
                FetchOutcome::Unreachable => r == Step::Failed(LocateError::RegistryUnreachable)
                    && final(self).phase == Phase::Idle,
                FetchOutcome::Malformed => r == Step::Failed(
                    LocateError::MalformedRegistryResponse,
                ) && final(self).phase == Phase::Idle,
                FetchOutcome::Fetched(info) => match url_for(info.downloads@, old(self).key@) {
                    None => r == Step::Failed(LocateError::NoDownloadForTarget) && final(self).phase
                        == Phase::Idle,
                    Some(u) => r is Download && r->url@ == u && r->staging@ == staging_dir()
                        && final(self).phase == Phase::Downloading,
                },
            },
    {
        match outcome {
            FetchOutcome::Unreachable => {
                self.phase = Phase::Idle;
                Step::Failed(LocateError::RegistryUnreachable)
            },
            FetchOutcome::Malformed => {
                self.phase = Phase::Idle;
                Step::Failed(LocateError::MalformedRegistryResponse)
            },
            FetchOutcome::Fetched(info) => match info.download_url(&self.key) {
                None => {
                    self.phase = Phase::Idle;
                    Step::Failed(LocateError::NoDownloadForTarget)
                },
                Some(url) => {
                    self.phase = Phase::Downloading;
                    Step::Download { url, staging: String::from_str("./temp") }
                },
            },
        }
    }

    /// Takes the result of the download. The unpacked binary directory is then
    /// moved to the target's install directory.
    pub fn on_download(&mut self, ok: bool) -> (r: Step)
        requires
            old(self).phase == Phase::Downloading,
        ensures
            final(self).cache@ == old(self).cache@,
            final(self).cleanup_failed == old(self).cleanup_failed,
            final(self).key == old(self).key,
            final(self).path == old(self).path,
            final(self).installed == old(self).installed,
            !ok ==> r == Step::Failed(LocateError::DownloadFailed) && final(self).phase
                == Phase::Idle,
            ok ==> r is Install && r->from@ == extracted_dir() && r->to@ == install_dir(
                old(self).key@,
            ) && final(self).phase == Phase::Installing,
    {
        if !ok {
            self.phase = Phase::Idle;
            return Step::Failed(LocateError::DownloadFailed);
        }
        self.phase = Phase::Installing;
        let to = String::from_str("./bin/").concat(self.key.as_str());
        Step::Install { from: String::from_str("./temp/extension/extension/bin/DebuggerMono"), to }
    }

    /// Takes the result of the install step. The staging directory is removed
    /// whatever that result was.
    pub fn on_install(&mut self, ok: bool) -> (r: Step)
        requires
            old(self).phase == Phase::Installing,
        ensures
            final(self).cache@ == old(self).cache@,
            final(self).cleanup_failed == old(self).cleanup_failed,
            final(self).key == old(self).key,
            final(self).path == old(self).path,
            final(self).installed == ok,
            r is Cleanup && r->Cleanup_0@ == staging_dir(),
            final(self).phase == Phase::CleaningUp,
    {
        self.installed = ok;
        self.phase = Phase::CleaningUp;
        Step::Cleanup(String::from_str("./temp"))
    }

    /// Takes the result of removing the staging directory. A failure there is kept
    /// as a warning only; an installed binary is probed for once more.
    pub fn on_cleanup(&mut self, ok: bool) -> (r: Step)
        requires
            old(self).phase == Phase::CleaningUp,
        ensures
            final(self).cache@ == old(self).cache@,
            final(self).cleanup_failed == !ok,
            final(self).key == old(self).key,
            final(self).path == old(self).path,
            final(self).installed == old(self).installed,
            old(self).installed ==> r is Probe && r->Probe_0 == old(self).path && final(self).phase
                == Phase::Probing,
            !old(self).installed ==> r == Step::Failed(LocateError::InstallFailed)
                && final(self).phase == Phase::Idle,
    {
        self.cleanup_failed = !ok;
        if self.installed {
            self.phase = Phase::Probing;
            Step::Probe(self.path.clone())
        } else {
            self.phase = Phase::Idle;
            Step::Failed(LocateError::InstallFailed)
        }
    }
}

} // verus!
