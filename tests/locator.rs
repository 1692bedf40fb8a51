use mono_debug::locator::{binary_path, strip_leading_separator, FetchOutcome, LocateError, Locator, Phase, Step};
use mono_debug::platform::{Architecture, Os};
use mono_debug::release::ReleaseInfo;
use std::collections::BTreeSet;

/// What the registry mock answers.
#[derive(Clone)]
enum Registry {
    Down,
    Garbage,
    Lists(Vec<(String, String)>),
}

/// A simulated host: a set of existing paths and a registry, with a log of what was done.
struct Host {
    files: BTreeSet<String>,
    registry: Registry,
    download_ok: bool,
    install_ok: bool,
    cleanup_ok: bool,
    probes: usize,
    requests: usize,
    mutations: Vec<String>,
}

impl Host {
    fn new(registry: Registry) -> Host {
        Host {
            files: BTreeSet::new(),
            registry,
            download_ok: true,
            install_ok: true,
            cleanup_ok: true,
            probes: 0,
            requests: 0,
            mutations: vec![],
        }
    }

    fn run(&mut self, loc: &mut Locator, os: Os, arch: Architecture, cwd: &str) -> Result<String, LocateError> {
        let mut step = loc.resolve(os, arch, &cwd.to_string());
        loop {
            step = match step {
                Step::Done(p) => return Ok(p),
                Step::Failed(e) => return Err(e),
                Step::Probe(p) => {
                    self.probes += 1;
                    loc.on_probe(self.files.contains(&p))
                }
                Step::FetchRelease => {
                    self.requests += 1;
                    let outcome = match self.registry.clone() {
                        Registry::Down => FetchOutcome::Unreachable,
                        Registry::Garbage => FetchOutcome::Malformed,
                        Registry::Lists(d) => FetchOutcome::Fetched(ReleaseInfo {
                            version: "1.0.0".to_string(),
                            downloads: d,
                        }),
                    };
                    loc.on_release(outcome)
                }
                Step::Download { url, staging } => {
                    self.requests += 1;
                    self.mutations.push(format!("download {} {}", url, staging));
                    if self.download_ok {
                        self.files.insert(format!("{}/extension/extension/bin/DebuggerMono/monodbg.exe", staging));
                    }
                    loc.on_download(self.download_ok)
                }
                Step::Install { from, to } => {
                    self.mutations.push(format!("install {} {}", from, to));
                    if self.install_ok {
                        self.files.remove(&format!("{}/monodbg.exe", from));
                        self.files.insert(format!("{}/{}/monodbg.exe", cwd, to));
                    }
                    loc.on_install(self.install_ok)
                }
                Step::Cleanup(dir) => {
                    self.mutations.push(format!("cleanup {}", dir));
                    if self.cleanup_ok {
                        let prefix = format!("{}/", dir);
                        self.files.retain(|f| !f.starts_with(&prefix));
                    }
                    loc.on_cleanup(self.cleanup_ok)
                }
            };
        }
    }
}

fn x64_listing() -> Registry {
    Registry::Lists(vec![
        ("win32-x64".to_string(), "https://example.org/x64.zip".to_string()),
        ("win32-arm64".to_string(), "https://example.org/arm64.zip".to_string()),
    ])
}

#[test]
fn probe_path_template() {
    assert_eq!(binary_path(&"/C:/work".to_string(), &"win32-x64".to_string()), "/C:/work/./bin/win32-x64/monodbg.exe");
    assert_eq!(binary_path(&"/C:/work/".to_string(), &"win32-arm64".to_string()), "/C:/work/./bin/win32-arm64/monodbg.exe");
    assert_eq!(binary_path(&String::new(), &"k".to_string()), "./bin/k/monodbg.exe");
}

#[test]
fn leading_separator_is_stripped() {
    assert_eq!(strip_leading_separator(&"/C:/work/x.exe".to_string()), "C:/work/x.exe");
    assert_eq!(strip_leading_separator(&"\\C:\\x.exe".to_string()), "C:\\x.exe");
    assert_eq!(strip_leading_separator(&"C:/x.exe".to_string()), "C:/x.exe");
    assert_eq!(strip_leading_separator(&String::new()), "");
}

#[test]
fn existing_binary_needs_no_network() {
    let mut host = Host::new(Registry::Down);
    host.files.insert("/C:/work/./bin/win32-x64/monodbg.exe".to_string());
    let mut loc = Locator::new();
    let r = host.run(&mut loc, Os::Windows, Architecture::X8664, "/C:/work");
    assert_eq!(r, Ok("C:/work/./bin/win32-x64/monodbg.exe".to_string()));
    assert_eq!(host.requests, 0);
    assert!(host.mutations.is_empty());
    assert_eq!(loc.cache.get(), Some("C:/work/./bin/win32-x64/monodbg.exe".to_string()));
}

#[test]
fn second_resolve_is_cached() {
    let mut host = Host::new(Registry::Down);
    host.files.insert("/C:/work/./bin/win32-arm64/monodbg.exe".to_string());
    let mut loc = Locator::new();
    let first = host.run(&mut loc, Os::Windows, Architecture::Aarch64, "/C:/work");
    let probes = host.probes;
    let second = host.run(&mut loc, Os::Windows, Architecture::Aarch64, "/C:/work");
    assert!(first.is_ok());
    assert_eq!(first, second);
    assert_eq!(host.probes, probes);
    assert_eq!(host.requests, 0);
}

#[test]
fn cached_path_wins_over_platform() {
    let mut host = Host::new(Registry::Down);
    host.files.insert("/w/./bin/win32-x64/monodbg.exe".to_string());
    let mut loc = Locator::new();
    let first = host.run(&mut loc, Os::Windows, Architecture::X8664, "/w").unwrap();
    assert!(matches!(loc.resolve(Os::Linux, Architecture::X86, &"/elsewhere".to_string()), Step::Done(p) if p == first));
}

#[test]
fn missing_binary_is_fetched_and_installed() {
    let mut host = Host::new(x64_listing());
    let mut loc = Locator::new();
    let r = host.run(&mut loc, Os::Windows, Architecture::X8664, "/C:/work");
    assert_eq!(r, Ok("C:/work/./bin/win32-x64/monodbg.exe".to_string()));
    assert!(host.files.contains("/C:/work/./bin/win32-x64/monodbg.exe"));
    assert!(host.files.iter().all(|f| !f.starts_with("./temp/")));
    assert_eq!(
        host.mutations,
        vec![
            "download https://example.org/x64.zip ./temp".to_string(),
            "install ./temp/extension/extension/bin/DebuggerMono ./bin/win32-x64".to_string(),
            "cleanup ./temp".to_string(),
        ]
    );
    assert!(!loc.cleanup_failed);
    assert_eq!(loc.phase, Phase::Idle);
}

#[test]
fn missing_target_key_touches_nothing() {
    let mut host = Host::new(Registry::Lists(vec![(
        "win32-x64".to_string(),
        "https://example.org/x64.zip".to_string(),
    )]));
    let mut loc = Locator::new();
    let r = host.run(&mut loc, Os::Windows, Architecture::Aarch64, "/C:/work");
    assert_eq!(r, Err(LocateError::NoDownloadForTarget));
    assert!(host.mutations.is_empty());
    assert!(host.files.is_empty());
    assert_eq!(loc.cache.get(), None);
}

#[test]
fn release_without_downloads_touches_nothing() {
    let mut host = Host::new(Registry::Lists(vec![]));
    let mut loc = Locator::new();
    assert_eq!(host.run(&mut loc, Os::Windows, Architecture::X8664, "/w"), Err(LocateError::NoDownloadForTarget));
    assert!(host.mutations.is_empty());
}

#[test]
fn unsupported_hosts_fail_without_io() {
    let mut host = Host::new(x64_listing());
    let mut loc = Locator::new();
    assert_eq!(host.run(&mut loc, Os::Linux, Architecture::X8664, "/w"), Err(LocateError::UnsupportedPlatform));
    assert_eq!(host.run(&mut loc, Os::Windows, Architecture::X86, "/w"), Err(LocateError::UnsupportedArchitecture));
    assert_eq!(host.probes, 0);
    assert_eq!(host.requests, 0);
}

#[test]
fn unreachable_registry() {
    let mut host = Host::new(Registry::Down);
    let mut loc = Locator::new();
    assert_eq!(host.run(&mut loc, Os::Windows, Architecture::X8664, "/w"), Err(LocateError::RegistryUnreachable));
    assert!(host.mutations.is_empty());
}

#[test]
fn malformed_registry_answer() {
    let mut host = Host::new(Registry::Garbage);
    let mut loc = Locator::new();
    assert_eq!(host.run(&mut loc, Os::Windows, Architecture::X8664, "/w"), Err(LocateError::MalformedRegistryResponse));
    assert!(host.mutations.is_empty());
}

#[test]
fn failed_download() {
    let mut host = Host::new(x64_listing());
    host.download_ok = false;
    let mut loc = Locator::new();
    assert_eq!(host.run(&mut loc, Os::Windows, Architecture::X8664, "/w"), Err(LocateError::DownloadFailed));
    assert_eq!(host.mutations.len(), 1);
}

#[test]
fn failed_install_still_cleans_up() {
    let mut host = Host::new(x64_listing());
    host.install_ok = false;
    let mut loc = Locator::new();
    assert_eq!(host.run(&mut loc, Os::Windows, Architecture::X8664, "/w"), Err(LocateError::InstallFailed));
    assert_eq!(host.mutations.last(), Some(&"cleanup ./temp".to_string()));
    assert!(host.files.is_empty());
    assert_eq!(loc.cache.get(), None);
}

#[test]
fn errors_are_not_cached_and_retry_succeeds() {
    let mut host = Host::new(Registry::Down);
    let mut loc = Locator::new();
    assert_eq!(host.run(&mut loc, Os::Windows, Architecture::X8664, "/w"), Err(LocateError::RegistryUnreachable));
    host.registry = x64_listing();
    assert_eq!(host.run(&mut loc, Os::Windows, Architecture::X8664, "/w"), Ok("w/./bin/win32-x64/monodbg.exe".to_string()));
}

#[test]
fn cleanup_failure_is_only_a_warning() {
    let mut host = Host::new(x64_listing());
    host.cleanup_ok = false;
    let mut loc = Locator::new();
    let r = host.run(&mut loc, Os::Windows, Architecture::X8664, "/w");
    assert_eq!(r, Ok("w/./bin/win32-x64/monodbg.exe".to_string()));
    assert!(loc.cleanup_failed);
}

#[test]
fn binary_missing_after_install() {
    let mut loc = Locator::new();
    assert!(matches!(loc.resolve(Os::Windows, Architecture::X8664, &"/w".to_string()), Step::Probe(_)));
    assert!(matches!(loc.on_probe(false), Step::FetchRelease));
    let info = ReleaseInfo { version: "1".to_string(), downloads: vec![("win32-x64".to_string(), "u".to_string())] };
    assert!(matches!(loc.on_release(FetchOutcome::Fetched(info)), Step::Download { .. }));
    assert!(matches!(loc.on_download(true), Step::Install { .. }));
    assert!(matches!(loc.on_install(true), Step::Cleanup(_)));
    assert!(matches!(loc.on_cleanup(true), Step::Probe(p) if p == "/w/./bin/win32-x64/monodbg.exe"));
    assert!(matches!(loc.on_probe(false), Step::Failed(LocateError::InstallFailed)));
    assert_eq!(loc.phase, Phase::Idle);
}
