use vstd::prelude::*;

use crate::acquire::AcquireMode;
use crate::strmap::StringMap;
use crate::VcsCommand;

verus! {

/// Every failure this crate surfaces. Each variant carries what a caller
/// needs to diagnose it; payloads taken from the operating system or from an
/// outside tool are carried as plain text.
#[derive(Debug, Clone, PartialEq)]
pub enum DerpyError {
    InvalidArguments { reason: String },
    AlreadyInitialised,
    DependencyAlreadyExists { name: String },
    /// No backend descriptor is installed under this name.
    UnknownVcs { name: String },
    /// A backend command ran and exited with a non-zero status.
    VcsCommandFailed { cmd: VcsCommand, return_code: String, stdout: String, stderr: String },
    /// Pinning or upgrading was requested, but no working copy exists.
    NonsenseAcquireMode { dependency: String, acquire_mode: AcquireMode },
    /// A command token referenced a macro absent from the table.
    MacroExpansionFailure { source_text: String, macros: StringMap, detail: String },
    /// A backend command could not be launched or communicated with.
    SubprocessError { cmd: VcsCommand, message: String },
    UnableToDetermineCurrentDir { message: String },
    UnableToChangeDir { message: String },
    UnableToDetermineCurrentExePath { message: String },
    FailedToCreateDirectory { message: String },
    UnableToOpenVcsInfo { message: String },
    UnableToReadVcsInfo { message: String },
    UnableToDecodeVcsInfo { message: String },
    UnableToOpenConfig { message: String },
    UnableToReadConfig { message: String },
    UnableToDecodeConfig { message: String },
    UnableToCreateConfig { message: String },
    UnableToEncodeConfig { message: String },
    UnableToWriteConfig { message: String },
}

} // verus!
