use mono_debug::platform::{resolve_target, Architecture, Os, PlatformError};

#[test]
fn windows_x64_key() {
    assert_eq!(resolve_target(Os::Windows, Architecture::X8664), Ok("win32-x64".to_string()));
}

#[test]
fn windows_arm64_key() {
    assert_eq!(resolve_target(Os::Windows, Architecture::Aarch64), Ok("win32-arm64".to_string()));
}

#[test]
fn windows_x86_is_unsupported_architecture() {
    assert_eq!(
        resolve_target(Os::Windows, Architecture::X86),
        Err(PlatformError::UnsupportedArchitecture)
    );
}

#[test]
fn other_systems_are_unsupported_platforms() {
    for os in [Os::Mac, Os::Linux] {
        for arch in [Architecture::Aarch64, Architecture::X86, Architecture::X8664] {
            assert_eq!(resolve_target(os, arch), Err(PlatformError::UnsupportedPlatform));
        }
    }
}

#[test]
fn supported_keys_are_distinct() {
    let a = resolve_target(Os::Windows, Architecture::X8664).unwrap();
    let b = resolve_target(Os::Windows, Architecture::Aarch64).unwrap();
    assert_ne!(a, b);
}
