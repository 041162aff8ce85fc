//! The extracted boot code that must occupy the start of the image.

use vstd::prelude::*;
use vstd::slice::slice_to_vec;
use crate::elf::spec_extract_elf;
use crate::error::ComposeError;

verus! {

/// How the bootloader artifact packages its boot code.  The choice between
/// the two variants is a build-configuration decision, not a runtime one,
/// and both must yield byte-identical boot code for a correctly built
/// artifact.
#[derive(Clone, Copy, Debug, PartialEq, Eq, Structural)]
pub enum Packaging {
    /// The artifact is an ELF object; the code lives in its `.bootloader`
    /// section.
    ElfSection,
    /// An external converter already flattened the artifact into raw
    /// boot-sector code; its bytes are taken verbatim.
    FlatBinary,
}

/// Flat, position-independent machine code extracted from the bootloader
/// artifact.  Invariant: never empty.
pub struct BootCode {
    code: Vec<u8>,
}

impl View for BootCode {
    type V = Seq<u8>;

    closed spec fn view(&self) -> Seq<u8> {
        self.code@
    }
}

impl BootCode {
    /// Boot code is a non-empty byte range.
    pub open spec fn wf(&self) -> bool {
        self@.len() > 0
    }

    /// Wraps bytes that an external converter already flattened into raw
    /// boot-sector code.  The bytes are adopted verbatim; only the
    /// non-emptiness invariant is enforced.
    pub fn from_flat(bytes: Vec<u8>) -> (r: Result<BootCode, ComposeError>)
        ensures
            bytes@.len() > 0 ==> (r matches Ok(c) && c@ == bytes@ && c.wf()),
            bytes@.len() == 0 ==> r matches Err(ComposeError::FormatError),
    {
        if bytes.len() == 0 {
            Err(ComposeError::FormatError)
        } else {
            Ok(BootCode { code: bytes })
        }
    }

    /// Adopts a byte range that extraction has already checked to be
    /// non-empty.
    pub(crate) fn from_extracted(bytes: Vec<u8>) -> (r: BootCode)
        requires
            bytes@.len() > 0,
        ensures
            r@ == bytes@,
            r.wf(),
    {
        BootCode { code: bytes }
    }

    /// Length of the boot code in bytes.
    pub fn len(&self) -> (r: usize)
        ensures
            r == self@.len(),
    {
        self.code.len()
    }

    /// The boot code bytes.
    pub fn as_slice(&self) -> (r: &[u8])
        ensures
            r@ == self@,
    {
        self.code.as_slice()
    }
}

/// Extracts the boot code from the bootloader artifact bytes, under the
/// packaging variant the build configuration selected.
pub fn extract(packaging: Packaging, artifact_bytes: &[u8]) -> (r: Result<BootCode, ComposeError>)
    ensures
        match packaging {
            Packaging::ElfSection => match r {
                Ok(code) => spec_extract_elf(artifact_bytes@) == Some(code@) && code.wf(),
                Err(e) => e == ComposeError::FormatError && spec_extract_elf(artifact_bytes@)
                    is None,
            },
            Packaging::FlatBinary => match r {
                Ok(code) => code@ == artifact_bytes@ && code.wf(),
                Err(e) => e == ComposeError::FormatError && artifact_bytes@.len() == 0,
            },
        },
{
    match packaging {
        Packaging::ElfSection => crate::elf::extract_elf_section(artifact_bytes),
        Packaging::FlatBinary => BootCode::from_flat(slice_to_vec(artifact_bytes)),
    }
}

} // verus!
