//! Composer for flat bootable disk images.
//!
//! The library turns two independently built binary artifacts — a
//! second-stage bootloader and an operating-system kernel — into one flat
//! image laid out as boot code, a 512-byte kernel header, the kernel
//! payload, and zero padding up to the next sector boundary.  Boot code is
//! located either inside an ELF object (in its `.bootloader` section) or
//! taken verbatim from an already flattened binary.

pub mod boot_code;
pub mod bytes;
pub mod elf;
pub mod error;
pub mod image;
pub mod pad;
