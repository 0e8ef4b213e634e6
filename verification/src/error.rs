use vstd::prelude::*;

verus! {

/// The failure taxonomy of the manager's core: resolution, lifecycle,
/// build-pipeline and link-synchronizer failures.
#[derive(Debug, PartialEq, Eq, Clone)]
pub enum Error {
    /// A shimmed command name is absent from the static dispatch table.
    UnknownCommand,
    /// Neither a local override nor a global default names an install id.
    NoDefault,
    /// An id was referenced but is absent from the scope's installs table.
    NoInstallForId,
    /// An install entry is neither a legacy bare directory string nor a
    /// structured record with a directory.
    MalformedInstallEntry,
    /// A release directory was allocated without force while it already
    /// exists; carries the path so the caller can point at it.
    DirectoryAlreadyExists(String),
    /// An external build step exited non-zero; recorded, not immediately fatal.
    StepExecFailure,
    /// The build pipeline's safety gate refused to continue.
    SafetyAbort,
    /// One or more shim links could not be created; carries the names that failed.
    LinkFailure(Vec<String>),
    /// The requested operation is not offered for this architecture or
    /// operating system.
    UnsupportedPlatform,
    /// A build-option string holds an unmatched quote and cannot be split
    /// into words.
    InvalidBuildOptions,
}

impl Error {
    /// A short human-readable description of the failure.
    pub fn message(&self) -> (r: String)
        ensures
            r@.len() > 0,
    {
        let m: &str = match self {
            Error::UnknownCommand => "no such command is managed",
            Error::NoDefault => "no default install is configured",
            Error::NoInstallForId => "no install found for id",
            Error::MalformedInstallEntry => "install entry is neither a directory string nor a record",
            Error::DirectoryAlreadyExists(_) => "release directory already exists; pass force to overwrite",
            Error::StepExecFailure => "a build step exited non-zero",
            Error::SafetyAbort => "build failed; aborting to preserve the existing installation",
            Error::LinkFailure(_) => "some links failed to be created",
            Error::UnsupportedPlatform => "not supported on this architecture or operating system",
            Error::InvalidBuildOptions => "missing closing quote in build options",
        };
        proof {
            reveal_strlit("no such command is managed");
            reveal_strlit("no default install is configured");
            reveal_strlit("no install found for id");
            reveal_strlit("install entry is neither a directory string nor a record");
            reveal_strlit("release directory already exists; pass force to overwrite");
            reveal_strlit("a build step exited non-zero");
            reveal_strlit("build failed; aborting to preserve the existing installation");
            reveal_strlit("some links failed to be created");
            reveal_strlit("not supported on this architecture or operating system");
            reveal_strlit("missing closing quote in build options");
        }
        String::from_str(m)
    }
}

} // verus!
