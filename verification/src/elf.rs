//! Locating boot code inside an ELF-packaged bootloader artifact.
//!
//! The artifact is interpreted as an ELF object just far enough to find the
//! section named `.bootloader`: the identification bytes are sanity-checked
//! (magic, class, endianness), the section header table and the section-name
//! string table are walked, and the matching section's raw byte range is
//! returned unchanged.  Parsing only computes offsets; the underlying bytes
//! are never rewritten.

use vstd::prelude::*;
use vstd::arithmetic::mul::{lemma_mul_inequality, lemma_mul_is_distributive_add_other_way};
use vstd::slice::{slice_subrange, slice_to_vec};
use crate::boot_code::BootCode;
use crate::bytes::{read_u16, read_u32, read_u64, spec_u16_at, spec_u32_at, spec_u64_at, ByteOrder};
use crate::error::ComposeError;

verus! {

/// The artifact starts with the four ELF magic bytes.
pub open spec fn spec_magic_ok(b: Seq<u8>) -> bool {
    &&& b.len() >= 4
    &&& b[0] == 0x7f
    &&& b[1] == 0x45
    &&& b[2] == 0x4c
    &&& b[3] == 0x46
}

/// Identification sanity check: magic number, declared class (32- or
/// 64-bit), and declared endianness all hold valid values.
pub open spec fn spec_ident_ok(b: Seq<u8>) -> bool {
    &&& b.len() >= 6
    &&& spec_magic_ok(b)
    &&& (b[4] == 1 || b[4] == 2)
    &&& (b[5] == 1 || b[5] == 2)
}

/// The identification bytes declare a 64-bit object.
pub open spec fn spec_is_class64(b: Seq<u8>) -> bool
    recommends
        b.len() >= 5,
{
    b[4] == 2
}

/// The byte order that the identification bytes declare for all multi-byte
/// fields of the object.
pub open spec fn spec_order(b: Seq<u8>) -> ByteOrder
    recommends
        b.len() >= 6,
{
    if b[5] == 1 {
        ByteOrder::Little
    } else {
        ByteOrder::Big
    }
}

/// Size of the ELF header for the declared class.
pub open spec fn spec_ehsize(b: Seq<u8>) -> int {
    if spec_is_class64(b) {
        64
    } else {
        52
    }
}

/// The section header entry size that the declared class prescribes.
pub open spec fn spec_shentsize_required(b: Seq<u8>) -> int {
    if spec_is_class64(b) {
        64
    } else {
        40
    }
}

/// File offset of the section header table, as the header declares it.
pub open spec fn spec_shoff(b: Seq<u8>) -> int
    recommends
        b.len() >= spec_ehsize(b),
{
    if spec_is_class64(b) {
        spec_u64_at(b, 0x28, spec_order(b))
    } else {
        spec_u32_at(b, 0x20, spec_order(b))
    }
}

/// Declared size of one section header table entry.
pub open spec fn spec_shentsize(b: Seq<u8>) -> int
    recommends
        b.len() >= spec_ehsize(b),
{
    if spec_is_class64(b) {
        spec_u16_at(b, 0x3a, spec_order(b))
    } else {
        spec_u16_at(b, 0x2e, spec_order(b))
    }
}

/// Declared number of section header table entries.
pub open spec fn spec_shnum(b: Seq<u8>) -> int
    recommends
        b.len() >= spec_ehsize(b),
{
    if spec_is_class64(b) {
        spec_u16_at(b, 0x3c, spec_order(b))
    } else {
        spec_u16_at(b, 0x30, spec_order(b))
    }
}

/// Declared index of the section-name string table section.
pub open spec fn spec_shstrndx(b: Seq<u8>) -> int
    recommends
        b.len() >= spec_ehsize(b),
{
    if spec_is_class64(b) {
        spec_u16_at(b, 0x3e, spec_order(b))
    } else {
        spec_u16_at(b, 0x32, spec_order(b))
    }
}

/// File offset of section header entry `i`.
pub open spec fn spec_sh_base(b: Seq<u8>, i: int) -> int {
    spec_shoff(b) + i * spec_shentsize(b)
}

/// Name-table offset of section `i`'s name.
pub open spec fn spec_sh_name(b: Seq<u8>, i: int) -> int {
    spec_u32_at(b, spec_sh_base(b, i), spec_order(b))
}

/// File offset of section `i`'s contents.
pub open spec fn spec_sh_offset(b: Seq<u8>, i: int) -> int {
    if spec_is_class64(b) {
        spec_u64_at(b, spec_sh_base(b, i) + 0x18, spec_order(b))
    } else {
        spec_u32_at(b, spec_sh_base(b, i) + 0x10, spec_order(b))
    }
}

/// Length of section `i`'s contents.
pub open spec fn spec_sh_size(b: Seq<u8>, i: int) -> int {
    if spec_is_class64(b) {
        spec_u64_at(b, spec_sh_base(b, i) + 0x20, spec_order(b))
    } else {
        spec_u32_at(b, spec_sh_base(b, i) + 0x14, spec_order(b))
    }
}

/// The header passes the sanity check and its whole section header table
/// lies inside the artifact, with entries of the prescribed size.
pub open spec fn spec_table_in_bounds(b: Seq<u8>) -> bool {
    &&& spec_ident_ok(b)
    &&& b.len() >= spec_ehsize(b)
    &&& spec_shentsize(b) == spec_shentsize_required(b)
    &&& spec_shoff(b) + spec_shnum(b) * spec_shentsize(b) <= b.len()
}

/// File offset of the section-name string table's contents.
pub open spec fn spec_strtab_off(b: Seq<u8>) -> int {
    spec_sh_offset(b, spec_shstrndx(b))
}

/// Length of the section-name string table.
pub open spec fn spec_strtab_size(b: Seq<u8>) -> int {
    spec_sh_size(b, spec_shstrndx(b))
}

/// The section header table and the section-name string table both lie
/// inside the artifact.
pub open spec fn spec_table_ok(b: Seq<u8>) -> bool {
    &&& spec_table_in_bounds(b)
    &&& spec_shstrndx(b) < spec_shnum(b)
    &&& spec_strtab_off(b) + spec_strtab_size(b) <= b.len()
}

/// The bytes of the required section name, `.bootloader`.
pub open spec fn spec_section_name() -> Seq<u8> {
    seq![0x2eu8, 0x62u8, 0x6fu8, 0x6fu8, 0x74u8, 0x6cu8, 0x6fu8, 0x61u8, 0x64u8, 0x65u8, 0x72u8]
}

/// Section `i` is named exactly `.bootloader`: its name offset points at
/// those eleven bytes followed by a NUL terminator, all inside the string
/// table.
pub open spec fn spec_name_matches(b: Seq<u8>, i: int) -> bool {
    let off = spec_strtab_off(b) + spec_sh_name(b, i);
    &&& spec_sh_name(b, i) + 12 <= spec_strtab_size(b)
    &&& b.subrange(off, off + 11) == spec_section_name()
    &&& b[off + 11] == 0
}

/// Index of the first section at or after `i` named `.bootloader`, if any.
pub open spec fn spec_find_bootloader_from(b: Seq<u8>, i: int) -> Option<int>
    decreases spec_shnum(b) - i,
{
    if i >= spec_shnum(b) {
        None
    } else if spec_name_matches(b, i) {
        Some(i)
    } else {
        spec_find_bootloader_from(b, i + 1)
    }
}

/// What section-based extraction yields: the raw byte range of the first
/// section named `.bootloader`, provided the artifact passes the ELF sanity
/// checks, such a section exists, and its range is non-empty and inside the
/// artifact; nothing otherwise.
pub open spec fn spec_extract_elf(b: Seq<u8>) -> Option<Seq<u8>> {
    if !spec_table_ok(b) {
        None
    } else {
        match spec_find_bootloader_from(b, 0) {
            Option::None => None,
            Option::Some(i) => {
                let off = spec_sh_offset(b, i);
                let sz = spec_sh_size(b, i);
                if sz > 0 && off + sz <= b.len() {
                    Some(b.subrange(off, off + sz))
                } else {
                    None
                }
            },
        }
    }
}

/// An artifact with malformed magic bytes never yields boot code: together
/// with `extract_elf_section`'s contract, extraction on such an artifact
/// always fails with `FormatError`.
pub proof fn lemma_bad_magic_extracts_nothing(b: Seq<u8>)
    requires
        !spec_magic_ok(b),
    ensures
        spec_extract_elf(b) is None,
{
}

/// A well-formed ELF artifact that lacks a `.bootloader` section never
/// yields boot code: together with `extract_elf_section`'s contract,
/// extraction on such an artifact always fails with `FormatError`.
pub proof fn lemma_missing_section_extracts_nothing(b: Seq<u8>)
    requires
        spec_find_bootloader_from(b, 0) is None,
    ensures
        spec_extract_elf(b) is None,
{
}

/// Section header entry `i` lies inside the section header table.
proof fn lemma_section_header_in_bounds(b: Seq<u8>, i: int)
    requires
        spec_table_in_bounds(b),
        0 <= i < spec_shnum(b),
    ensures
        spec_shoff(b) <= spec_sh_base(b, i),
        spec_sh_base(b, i) + spec_shentsize(b) <= b.len(),
{
    let e = spec_shentsize(b);
    let n = spec_shnum(b);
    assert(0 <= i * e) by (nonlinear_arith)
        requires
            0 <= i,
            e > 0,
    ;
    lemma_mul_inequality(i + 1, n, e);
    lemma_mul_is_distributive_add_other_way(e, i, 1);
}

/// The `j`-th byte of the required section name.
fn section_name_byte(j: usize) -> (r: u8)
    requires
        j < 11,
    ensures
        r == spec_section_name()[j as int],
{
    match j {
        0 => 0x2e,
        1 => 0x62,
        2 => 0x6f,
        3 => 0x6f,
        4 => 0x74,
        5 => 0x6c,
        6 => 0x6f,
        7 => 0x61,
        8 => 0x64,
        9 => 0x65,
        10 => 0x72,
        _ => 0,
    }
}

/// Compares the NUL-terminated string at `off` with `.bootloader`.
fn matches_section_name(b: &[u8], off: usize) -> (r: bool)
    requires
        off + 12 <= b@.len(),
    ensures
        r == (b@.subrange(off as int, off as int + 11) == spec_section_name() && b[off as int + 11]
            == 0),
{
    let blen = b.len();
    let mut j: usize = 0;
    while j < 11
        invariant
            j <= 11,
            off + 12 <= blen == b@.len(),
            forall|k: int| 0 <= k < j ==> b@[off + k] == spec_section_name()[k],
        decreases 11 - j,
    {
        if b[off + j] != section_name_byte(j) {
            assert(b@.subrange(off as int, off as int + 11)[j as int] != spec_section_name()[
                j as int
            ]);
            return false;
        }
        j = j + 1;
    }
    if b[off + 11] != 0 {
        return false;
    }
    assert(b@.subrange(off as int, off as int + 11) =~= spec_section_name());
    true
}

/// Reads section header entry fields: name offset, contents offset,
/// contents length.
fn read_section_fields(b: &[u8], base: usize, is64: bool, order: ByteOrder) -> (r: (u32, u64, u64))
    requires
        base + (if is64 {
            64int
        } else {
            40int
        }) <= b@.len(),
    ensures
        r.0 == spec_u32_at(b@, base as int, order),
        r.1 == (if is64 {
            spec_u64_at(b@, base as int + 0x18, order)
        } else {
            spec_u32_at(b@, base as int + 0x10, order)
        }),
        r.2 == (if is64 {
            spec_u64_at(b@, base as int + 0x20, order)
        } else {
            spec_u32_at(b@, base as int + 0x14, order)
        }),
{
    let blen = b.len();
    let name = read_u32(b, base, order);
    if is64 {
        (name, read_u64(b, base + 0x18, order), read_u64(b, base + 0x20, order))
    } else {
        (name, read_u32(b, base + 0x10, order) as u64, read_u32(b, base + 0x14, order) as u64)
    }
}

/// Copies `count` bytes of `b` starting at `start` into a fresh buffer.
fn copy_range(b: &[u8], start: usize, count: usize) -> (r: Vec<u8>)
    requires
        start + count <= b@.len(),
    ensures
        r@ == b@.subrange(start as int, start as int + count),
{
    let blen = b.len();
    let piece = slice_subrange(b, start, start + count);
    slice_to_vec(piece)
}

/// Section-based extraction: interprets the bootloader artifact as an ELF
/// object and returns the raw contents of its `.bootloader` section.
/// Fails with `FormatError` exactly when the sanity checks fail, no such
/// section exists, or its byte range is empty or out of bounds.
#[verifier::loop_isolation(false)]
pub fn extract_elf_section(artifact_bytes: &[u8]) -> (r: Result<BootCode, ComposeError>)
    ensures
        match r {
            Ok(code) => spec_extract_elf(artifact_bytes@) == Some(code@) && code.wf(),
            Err(e) => e == ComposeError::FormatError && spec_extract_elf(artifact_bytes@) is None,
        },
{
    let b = artifact_bytes;
    let len = b.len();
    if len < 6 {
        return Err(ComposeError::FormatError);
    }
    if !(b[0] == 0x7f && b[1] == 0x45 && b[2] == 0x4c && b[3] == 0x46) {
        return Err(ComposeError::FormatError);
    }
    let class = b[4];
    let data = b[5];
    if !(class == 1 || class == 2) {
        return Err(ComposeError::FormatError);
    }
    if !(data == 1 || data == 2) {
        return Err(ComposeError::FormatError);
    }
    let is64 = class == 2;
    let order = if data == 1 {
        ByteOrder::Little
    } else {
        ByteOrder::Big
    };
    let ehsize: usize = if is64 {
        64
    } else {
        52
    };
    if len < ehsize {
        return Err(ComposeError::FormatError);
    }
    let len64 = len as u64;
    let shoff: u64 = if is64 {
        read_u64(b, 0x28, order)
    } else {
        read_u32(b, 0x20, order) as u64
    };
    let shentsize: u16 = if is64 {
        read_u16(b, 0x3a, order)
    } else {
        read_u16(b, 0x2e, order)
    };
    let shnum: u16 = if is64 {
        read_u16(b, 0x3c, order)
    } else {
        read_u16(b, 0x30, order)
    };
    let shstrndx: u16 = if is64 {
        read_u16(b, 0x3e, order)
    } else {
        read_u16(b, 0x32, order)
    };
    let required: u16 = if is64 {
        64
    } else {
        40
    };
    if shentsize != required {
        return Err(ComposeError::FormatError);
    }
    let table_bytes: u64 = (shnum as u64) * (shentsize as u64);
    if shoff > len64 || table_bytes > len64 - shoff {
        return Err(ComposeError::FormatError);
    }
    if shstrndx >= shnum {
        return Err(ComposeError::FormatError);
    }
    assert(spec_table_in_bounds(b@));
    // the section-name string table
    proof {
        lemma_section_header_in_bounds(b@, shstrndx as int);
    }
    let str_base: u64 = shoff + (shstrndx as u64) * (shentsize as u64);
    let str_fields = read_section_fields(b, str_base as usize, is64, order);
    let str_off: u64 = str_fields.1;
    let str_size: u64 = str_fields.2;
    if str_off > len64 || str_size > len64 - str_off {
        return Err(ComposeError::FormatError);
    }
    assert(spec_table_ok(b@));
    let mut i: u16 = 0;
    while i < shnum
        invariant
            i <= shnum,
            spec_find_bootloader_from(b@, 0) == spec_find_bootloader_from(b@, i as int),
        decreases shnum - i,
    {
        proof {
            lemma_section_header_in_bounds(b@, i as int);
        }
        let base: u64 = shoff + (i as u64) * (shentsize as u64);
        let fields = read_section_fields(b, base as usize, is64, order);
        let name = fields.0;
        let s_off = fields.1;
        let s_size = fields.2;
        let mut matched = false;
        if (name as u64) + 12 <= str_size {
            matched = matches_section_name(b, (str_off + name as u64) as usize);
        }
        assert(matched == spec_name_matches(b@, i as int));
        if matched {
            assert(spec_find_bootloader_from(b@, 0) == Some(i as int));
            if s_size == 0 || s_off > len64 || s_size > len64 - s_off {
                return Err(ComposeError::FormatError);
            }
            let code = copy_range(b, s_off as usize, s_size as usize);
            return Ok(BootCode::from_extracted(code));
        }
        i = i + 1;
    }
    assert(spec_find_bootloader_from(b@, shnum as int) is None);
    Err(ComposeError::FormatError)
}

} // verus!
