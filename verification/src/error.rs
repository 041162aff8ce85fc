//! Failure taxonomy for one composition run.

use vstd::prelude::*;

verus! {

/// Why a composition run was aborted.  Every failure is fatal: the inputs
/// are static, so retrying the same transformation cannot help.
#[derive(Clone, Copy, Debug, PartialEq, Eq, Structural)]
pub enum ComposeError {
    /// An expected build artifact does not exist at its resolved path.
    MissingArtifact,
    /// The bootloader artifact fails the ELF sanity checks or lacks the
    /// required boot-code section.
    FormatError,
    /// The kernel payload does not fit the header's 32-bit length field.
    SizeOverflow,
    /// Writing or flushing the output failed.
    IoError,
}

impl ComposeError {
    /// A short diagnostic naming the failed stage.
    pub fn describe(&self) -> (r: &'static str)
        ensures
            r@ =~= match self {
                ComposeError::MissingArtifact => "missing build artifact"@,
                ComposeError::FormatError => "malformed bootloader artifact"@,
                ComposeError::SizeOverflow => "kernel payload exceeds 32-bit length field"@,
                ComposeError::IoError => "failed to write output image"@,
            },
    {
        match self {
            ComposeError::MissingArtifact => "missing build artifact",
            ComposeError::FormatError => "malformed bootloader artifact",
            ComposeError::SizeOverflow => "kernel payload exceeds 32-bit length field",
            ComposeError::IoError => "failed to write output image",
        }
    }
}

} // verus!
