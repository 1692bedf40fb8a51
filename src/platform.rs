use vstd::prelude::*;

verus! {

/// Operating system reported by the host.
#[derive(Clone, Copy, Debug, PartialEq, Eq, Structural)]
pub enum Os {
    Mac,
    Linux,
    Windows,
}

/// Processor architecture reported by the host.
#[derive(Clone, Copy, Debug, PartialEq, Eq, Structural)]
pub enum Architecture {
    Aarch64,
    X86,
    X8664,
}

/// Why no target key exists for a host.
#[derive(Clone, Copy, Debug, PartialEq, Eq, Structural)]
pub enum PlatformError {
    UnsupportedPlatform,
    UnsupportedArchitecture,
}

/// Registry key of the 64-bit x86 build.
pub open spec fn x64_key() -> Seq<char> {
    seq!['w', 'i', 'n', '3', '2', '-', 'x', '6', '4']
}

/// Registry key of the 64-bit ARM build.
pub open spec fn arm64_key() -> Seq<char> {
    seq!['w', 'i', 'n', '3', '2', '-', 'a', 'r', 'm', '6', '4']
}

/// Every key the resolver can produce.
pub open spec fn supported_keys() -> Set<Seq<char>> {
    set![x64_key(), arm64_key()]
}

/// The target key for a host, or why there is none.
pub open spec fn target_of(os: Os, arch: Architecture) -> Result<Seq<char>, PlatformError> {
    if os != Os::Windows {
        Err(PlatformError::UnsupportedPlatform)
    } else {
        match arch {
            Architecture::X8664 => Ok(x64_key()),
            Architecture::Aarch64 => Ok(arm64_key()),
            Architecture::X86 => Err(PlatformError::UnsupportedArchitecture),
        }
    }
}

/// Maps the host's operating system and architecture to the registry's target key.
pub fn resolve_target(os: Os, arch: Architecture) -> (r: Result<String, PlatformError>)
    ensures
        match (r, target_of(os, arch)) {
            (Ok(k), Ok(t)) => k@ == t,
            (Err(e), Err(f)) => e == f,
            _ => false,
        },
{
    if os != Os::Windows {
        return Err(PlatformError::UnsupportedPlatform);
    }
    match arch {
        Architecture::X8664 => {
            let k = String::from_str("win32-x64");
            proof {
                reveal_strlit("win32-x64");
                assert(k@ =~= x64_key());
            }
            Ok(k)
        },
        Architecture::Aarch64 => {
            let k = String::from_str("win32-arm64");
            proof {
                reveal_strlit("win32-arm64");
                assert(k@ =~= arm64_key());
            }
            Ok(k)
        },
        Architecture::X86 => Err(PlatformError::UnsupportedArchitecture),
    }
}

/// A supported host always gets one of the known keys, distinct architectures get
/// distinct keys, and every other host gets the matching unsupported error.
pub proof fn lemma_target_keys(os: Os, arch: Architecture)
    ensures
        target_of(os, arch) is Ok <==> (os == Os::Windows && (arch == Architecture::X8664 || arch
            == Architecture::Aarch64)),
        target_of(os, arch) is Ok ==> supported_keys().contains(target_of(os, arch)->Ok_0),
        os != Os::Windows ==> target_of(os, arch) == Err::<Seq<char>, PlatformError>(
            PlatformError::UnsupportedPlatform,
        ),
        os == Os::Windows && arch == Architecture::X86 ==> target_of(os, arch) == Err::<
            Seq<char>,
            PlatformError,
        >(PlatformError::UnsupportedArchitecture),
        x64_key() != arm64_key(),
        supported_keys().len() == 2,
{
    assert(x64_key().len() != arm64_key().len());
    assert(supported_keys() =~= set![x64_key()].insert(arm64_key()));
}

} // verus!
