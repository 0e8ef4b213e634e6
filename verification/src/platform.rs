use vstd::prelude::*;

use crate::error::Error;
use crate::languages::Language;

verus! {

/// The operating system an invocation runs on, as far as the manager
/// distinguishes targets.
#[derive(Debug, Clone, Copy, PartialEq, Eq, Structural)]
pub enum Os {
    Linux,
    Macos,
    Windows,
    Other,
}

/// The processor architecture an invocation runs on.
#[derive(Debug, Clone, Copy, PartialEq, Eq, Structural)]
pub enum Arch {
    X86,
    X86_64,
    Aarch64,
    Other,
}

/// Whether a binary install of `language` is offered for the given target.
pub open spec fn spec_install_supported(language: Language, arch: Arch, os: Os) -> bool {
    match language {
        Language::Erlang => match (arch, os) {
            (Arch::X86, Os::Windows) => true,
            (Arch::X86_64, Os::Windows) => true,
            (Arch::X86_64, Os::Macos) => true,
            (Arch::Aarch64, Os::Macos) => true,
            (Arch::X86_64, Os::Linux) => true,
            (Arch::Aarch64, Os::Linux) => true,
            _ => false,
        },
        _ => true,
    }
}

/// Decides whether the `install` command may proceed for `language` on the
/// given target. Installing Elixir additionally needs a resolvable default
/// Erlang install, which the caller reports in `erlang_available`.
pub fn check_if_install_supported(
    language: &Language,
    arch: Arch,
    os: Os,
    erlang_available: bool,
) -> (r: Result<(), Error>)
    ensures
        r is Ok <==> (spec_install_supported(*language, arch, os) && (*language == Language::Elixir
            ==> erlang_available)),
        r is Err ==> (r matches Err(e) && (e == Error::UnsupportedPlatform || e
            == Error::NoDefault)),
        !spec_install_supported(*language, arch, os) ==> r == Err::<(), Error>(
            Error::UnsupportedPlatform,
        ),
        spec_install_supported(*language, arch, os) && *language == Language::Elixir
            && !erlang_available ==> r == Err::<(), Error>(Error::NoDefault),
{
    if !install_supported(language, arch, os) {
        return Err(Error::UnsupportedPlatform);
    }
    if *language == Language::Elixir && !erlang_available {
        return Err(Error::NoDefault);
    }
    Ok(())
}

/// Executable form of `spec_install_supported`.
pub fn install_supported(language: &Language, arch: Arch, os: Os) -> (r: bool)
    ensures
        r == spec_install_supported(*language, arch, os),
{
    match language {
        Language::Erlang => match (arch, os) {
            (Arch::X86, Os::Windows) => true,
            (Arch::X86_64, Os::Windows) => true,
            (Arch::X86_64, Os::Macos) => true,
            (Arch::Aarch64, Os::Macos) => true,
            (Arch::X86_64, Os::Linux) => true,
            (Arch::Aarch64, Os::Linux) => true,
            _ => false,
        },
        _ => true,
    }
}

/// Decides whether the `component install` command may proceed on `os`:
/// the managed components publish no Windows binaries.
pub fn check_if_component_install_supported(os: Os) -> (r: Result<(), Error>)
    ensures
        r is Ok <==> os != Os::Windows,
        os == Os::Windows ==> r == Err::<(), Error>(Error::UnsupportedPlatform),
{
    if os == Os::Windows {
        Err(Error::UnsupportedPlatform)
    } else {
        Ok(())
    }
}

} // verus!
