//! Image layout: boot code, kernel header, kernel payload, sector padding.

use vstd::prelude::*;
use vstd::arithmetic::div_mod::{lemma_add_mod_noop, lemma_mod_add_multiples_vanish};
use crate::boot_code::BootCode;
use crate::bytes::{append_le32, lemma_le32_round_trip, spec_le32_bytes, spec_u32_at, ByteOrder};
use crate::error::ComposeError;
use crate::pad::{lemma_pad_len_aligns, pad_len, spec_pad_len};

verus! {

/// Storage sector size: firmware reads the image in blocks of this many bytes.
pub const SECTOR_SIZE: u64 = 512;

/// The logical role of a build artifact.
#[derive(Clone, Copy, Debug, PartialEq, Eq, Structural)]
pub enum Role {
    Bootloader,
    Kernel,
}

/// A compiled build artifact: an opaque byte sequence plus its role.
pub struct Artifact {
    pub role: Role,
    pub bytes: Vec<u8>,
}

/// A run of `n` zero bytes.
pub open spec fn spec_zeros(n: int) -> Seq<u8> {
    Seq::new(n as nat, |i: int| 0u8)
}

/// The fixed 512-byte kernel header: the payload length as a little-endian
/// 32-bit integer in bytes 0–3, all remaining bytes zero-filled reserved
/// space.
pub open spec fn spec_header_bytes(kernel_len: int) -> Seq<u8> {
    spec_le32_bytes(kernel_len) + spec_zeros(508)
}

/// Canonical byte layout of a composed image:
/// boot code, kernel header, kernel payload, zero padding to the next
/// sector boundary (measured from the start of the header).
pub open spec fn spec_image_bytes(boot: Seq<u8>, kernel: Seq<u8>) -> Seq<u8> {
    boot + spec_header_bytes(kernel.len() as int) + kernel + spec_zeros(
        spec_pad_len(kernel.len() as int, SECTOR_SIZE as int),
    )
}

/// Appends all of `src` to `out`.
fn append_bytes(out: &mut Vec<u8>, src: &[u8])
    ensures
        final(out)@ == old(out)@ + src@,
{
    let mut i: usize = 0;
    while i < src.len()
        invariant
            i <= src@.len(),
            out@ == old(out)@ + src@.subrange(0, i as int),
        decreases src@.len() - i,
    {
        out.push(src[i]);
        i = i + 1;
        assert(out@ =~= old(out)@ + src@.subrange(0, i as int));
    }
    assert(out@ =~= old(out)@ + src@);
}

/// Appends `count` zero bytes to `out`.
fn append_zeros(out: &mut Vec<u8>, count: usize)
    ensures
        final(out)@ == old(out)@ + spec_zeros(count as int),
{
    let mut i: usize = 0;
    while i < count
        invariant
            i <= count,
            out@ == old(out)@ + spec_zeros(i as int),
        decreases count - i,
    {
        out.push(0u8);
        i = i + 1;
        assert(out@ =~= old(out)@ + spec_zeros(i as int));
    }
}

/// Assembles the final image from extracted boot code and the kernel
/// payload.  Succeeds for every kernel whose length fits the header's
/// 32-bit field; otherwise fails with `SizeOverflow` and produces nothing.
pub fn compose(boot_code: &BootCode, kernel: &Artifact) -> (r: Result<Vec<u8>, ComposeError>)
    ensures
        kernel.bytes@.len() <= u32::MAX ==> (r matches Ok(img) && img@ == spec_image_bytes(
            boot_code@,
            kernel.bytes@,
        )),
        kernel.bytes@.len() > u32::MAX ==> r matches Err(ComposeError::SizeOverflow),
{
    let n = kernel.bytes.len();
    if n as u64 > 0xFFFF_FFFFu64 {
        return Err(ComposeError::SizeOverflow);
    }
    let mut out: Vec<u8> = Vec::new();
    append_bytes(&mut out, boot_code.as_slice());
    append_le32(&mut out, n as u32);
    append_zeros(&mut out, 508);
    append_bytes(&mut out, kernel.bytes.as_slice());
    let p = pad_len(n as u64, SECTOR_SIZE);
    append_zeros(&mut out, p as usize);
    assert(out@ =~= spec_image_bytes(boot_code@, kernel.bytes@));
    Ok(out)
}

/// The composed image, read back at the header, decodes the true kernel
/// length in its first four bytes, and every remaining header byte is zero.
pub proof fn lemma_image_header_encodes_len(boot: Seq<u8>, kernel: Seq<u8>)
    requires
        kernel.len() <= u32::MAX,
    ensures
        spec_u32_at(spec_image_bytes(boot, kernel), boot.len() as int, ByteOrder::Little)
            == kernel.len(),
        forall|j: int|
            4 <= j < 512 ==> #[trigger] spec_image_bytes(boot, kernel)[boot.len() + j] == 0,
{
    let n = kernel.len() as int;
    let img = spec_image_bytes(boot, kernel);
    let hdr = spec_le32_bytes(n);
    lemma_le32_round_trip(n);
    assert forall|j: int| 0 <= j < 4 implies img[boot.len() + j] == hdr[j] by {
        assert(spec_header_bytes(n)[j] == hdr[j]);
    }
    assert(spec_u32_at(img, boot.len() as int, ByteOrder::Little) == spec_u32_at(
        hdr,
        0,
        ByteOrder::Little,
    ));
    assert forall|j: int| 4 <= j < 512 implies #[trigger] img[boot.len() + j] == 0 by {
        assert(spec_header_bytes(n)[j] == spec_zeros(508)[j - 4]);
    }
}

/// Round trip: the kernel-payload region of a composed image holds exactly
/// the original kernel bytes.
pub proof fn lemma_image_round_trip(boot: Seq<u8>, kernel: Seq<u8>)
    ensures
        spec_image_bytes(boot, kernel).subrange(
            boot.len() as int + 512,
            boot.len() as int + 512 + kernel.len(),
        ) == kernel,
{
    lemma_pad_len_aligns(kernel.len() as int, SECTOR_SIZE as int);
    let img = spec_image_bytes(boot, kernel);
    assert forall|j: int| 0 <= j < kernel.len() implies img[boot.len() + 512 + j] == kernel[j] by {
    }
    assert(img.subrange(boot.len() as int + 512, boot.len() as int + 512 + kernel.len()) =~= kernel);
}

/// The header-plus-kernel-plus-padding region is an exact multiple of the
/// sector size, so the whole image is sector-aligned whenever the boot code
/// itself is.
pub proof fn lemma_image_alignment(boot: Seq<u8>, kernel: Seq<u8>)
    ensures
        spec_image_bytes(boot, kernel).len() == boot.len() + 512 + kernel.len() + spec_pad_len(
            kernel.len() as int,
            512,
        ),
        (512 + kernel.len() + spec_pad_len(kernel.len() as int, 512)) % 512 == 0,
        boot.len() % 512 == 0 ==> spec_image_bytes(boot, kernel).len() % 512 == 0,
{
    let k = kernel.len() as int;
    let p = spec_pad_len(k, 512);
    lemma_pad_len_aligns(k, 512);
    lemma_mod_add_multiples_vanish(k + p, 512);
    if boot.len() % 512 == 0 {
        lemma_add_mod_noop(boot.len() as int, 512 + k + p, 512);
    }
}

} // verus!
