use boot_image::boot_code::{extract, BootCode, Packaging};
use boot_image::elf::extract_elf_section;
use boot_image::error::ComposeError;
use boot_image::image::{compose, Artifact, Role};
use boot_image::pad::pad_len;

fn put_u16(b: &mut Vec<u8>, off: usize, v: u16) {
    b[off] = (v & 0xff) as u8;
    b[off + 1] = (v >> 8) as u8;
}

fn put_u32(b: &mut Vec<u8>, off: usize, v: u32) {
    for k in 0..4 {
        b[off + k] = ((v >> (8 * k)) & 0xff) as u8;
    }
}

fn put_u64(b: &mut Vec<u8>, off: usize, v: u64) {
    for k in 0..8 {
        b[off + k] = ((v >> (8 * k)) & 0xff) as u8;
    }
}

/// Builds a minimal 64-bit little-endian ELF object holding the given named
/// sections, plus a trailing section-name string table.
fn make_elf64(sections: &[(&str, Vec<u8>)]) -> Vec<u8> {
    let mut strtab: Vec<u8> = Vec::new();
    let mut name_offs: Vec<u32> = Vec::new();
    for (name, _) in sections {
        name_offs.push(strtab.len() as u32);
        strtab.extend_from_slice(name.as_bytes());
        strtab.push(0);
    }
    let n = sections.len() + 1;
    let mut out = vec![0u8; 64];
    out[0] = 0x7f;
    out[1] = b'E';
    out[2] = b'L';
    out[3] = b'F';
    out[4] = 2; // 64-bit
    out[5] = 1; // little-endian
    let mut offsets: Vec<u64> = Vec::new();
    for (_, content) in sections {
        offsets.push(out.len() as u64);
        out.extend_from_slice(content);
    }
    let strtab_off = out.len() as u64;
    out.extend_from_slice(&strtab);
    let shoff = out.len() as u64;
    for (i, (_, content)) in sections.iter().enumerate() {
        let mut ent = vec![0u8; 64];
        put_u32(&mut ent, 0, name_offs[i]);
        put_u64(&mut ent, 24, offsets[i]);
        put_u64(&mut ent, 32, content.len() as u64);
        out.extend_from_slice(&ent);
    }
    let mut ent = vec![0u8; 64];
    put_u64(&mut ent, 24, strtab_off);
    put_u64(&mut ent, 32, strtab.len() as u64);
    out.extend_from_slice(&ent);
    put_u64(&mut out, 0x28, shoff);
    put_u16(&mut out, 0x3a, 64);
    put_u16(&mut out, 0x3c, n as u16);
    put_u16(&mut out, 0x3e, (n - 1) as u16);
    out
}

/// Builds a minimal 32-bit little-endian ELF object in the same way.
fn make_elf32(sections: &[(&str, Vec<u8>)]) -> Vec<u8> {
    let mut strtab: Vec<u8> = Vec::new();
    let mut name_offs: Vec<u32> = Vec::new();
    for (name, _) in sections {
        name_offs.push(strtab.len() as u32);
        strtab.extend_from_slice(name.as_bytes());
        strtab.push(0);
    }
    let n = sections.len() + 1;
    let mut out = vec![0u8; 52];
    out[0] = 0x7f;
    out[1] = b'E';
    out[2] = b'L';
    out[3] = b'F';
    out[4] = 1; // 32-bit
    out[5] = 1; // little-endian
    let mut offsets: Vec<u32> = Vec::new();
    for (_, content) in sections {
        offsets.push(out.len() as u32);
        out.extend_from_slice(content);
    }
    let strtab_off = out.len() as u32;
    out.extend_from_slice(&strtab);
    let shoff = out.len() as u32;
    for (i, (_, content)) in sections.iter().enumerate() {
        let mut ent = vec![0u8; 40];
        put_u32(&mut ent, 0, name_offs[i]);
        put_u32(&mut ent, 16, offsets[i]);
        put_u32(&mut ent, 20, content.len() as u32);
        out.extend_from_slice(&ent);
    }
    let mut ent = vec![0u8; 40];
    put_u32(&mut ent, 16, strtab_off);
    put_u32(&mut ent, 20, strtab.len() as u32);
    out.extend_from_slice(&ent);
    put_u32(&mut out, 0x20, shoff);
    put_u16(&mut out, 0x2e, 40);
    put_u16(&mut out, 0x30, n as u16);
    put_u16(&mut out, 0x32, (n - 1) as u16);
    out
}

fn boot_code_from(bytes: Vec<u8>) -> BootCode {
    match BootCode::from_flat(bytes) {
        Ok(c) => c,
        Err(_) => panic!("boot code must not be empty"),
    }
}

#[test]
fn pad_len_basic() {
    assert_eq!(pad_len(5, 512), 507);
    assert_eq!(pad_len(0, 512), 0);
    assert_eq!(pad_len(1, 512), 511);
    assert_eq!(pad_len(511, 512), 1);
    assert_eq!(pad_len(513, 512), 511);
    assert_eq!(pad_len(1024, 512), 0);
}

#[test]
fn pad_len_aligns_for_many_lengths() {
    for n in 0..2000u64 {
        let p = pad_len(n, 512);
        assert!(p < 512);
        assert_eq!((n + p) % 512, 0);
    }
}

#[test]
fn pad_len_exact_sector() {
    // a kernel of exactly one sector needs no padding at all
    assert_eq!(pad_len(512, 512), 0);
}

#[test]
fn compose_concrete_layout() {
    let boot = boot_code_from(vec![0xaa; 10]);
    let kernel = Artifact { role: Role::Kernel, bytes: vec![0x42; 5] };
    let img = compose(&boot, &kernel).unwrap();
    assert_eq!(img.len(), 10 + 512 + 5 + 507);
    assert_eq!(&img[..10], &[0xaa; 10][..]);
    // header bytes 0-3: little-endian kernel length
    assert_eq!(&img[10..14], &[0x05, 0x00, 0x00, 0x00][..]);
    // header bytes 4-511: reserved zeros
    assert!(img[14..522].iter().all(|&x| x == 0));
    // kernel payload
    assert_eq!(&img[522..527], &[0x42; 5][..]);
    // padding
    assert!(img[527..].iter().all(|&x| x == 0));
    assert_eq!(img.len() % 512, 10);
}

#[test]
fn compose_empty_kernel() {
    let boot = boot_code_from(vec![0x11, 0x22]);
    let kernel = Artifact { role: Role::Kernel, bytes: Vec::new() };
    let img = compose(&boot, &kernel).unwrap();
    assert_eq!(img.len(), 2 + 512);
    assert_eq!(&img[..2], &[0x11, 0x22][..]);
    assert!(img[2..].iter().all(|&x| x == 0));
}

#[test]
fn compose_sector_sized_kernel_gets_no_padding() {
    let boot = boot_code_from(vec![0xaa; 512]);
    let kernel = Artifact { role: Role::Kernel, bytes: vec![7u8; 512] };
    let img = compose(&boot, &kernel).unwrap();
    assert_eq!(img.len(), 512 + 512 + 512);
    assert_eq!(img.len() % 512, 0);
    assert_eq!(&img[512..514], &[0x00, 0x02][..]); // 512 = 0x0200, little-endian
    assert_eq!(&img[1024..], &vec![7u8; 512][..]);
}

#[test]
fn compose_round_trip_kernel_payload() {
    let boot = boot_code_from(vec![0xcc; 37]);
    let payload: Vec<u8> = (0..1000u32).map(|i| (i * 7 + 3) as u8).collect();
    let kernel = Artifact { role: Role::Kernel, bytes: payload.clone() };
    let img = compose(&boot, &kernel).unwrap();
    assert_eq!(&img[37 + 512..37 + 512 + 1000], &payload[..]);
}

#[test]
fn compose_header_decodes_larger_length() {
    let boot = boot_code_from(vec![1]);
    let kernel = Artifact { role: Role::Kernel, bytes: vec![9u8; 70000] };
    let img = compose(&boot, &kernel).unwrap();
    let n = u32::from_le_bytes([img[1], img[2], img[3], img[4]]);
    assert_eq!(n, 70000);
}

#[test]
fn extract_from_elf64() {
    let code = vec![0xde, 0xad, 0xbe, 0xef, 0x90];
    let elf = make_elf64(&[(".text", vec![1, 2, 3]), (".bootloader", code.clone())]);
    let boot = extract_elf_section(&elf).unwrap();
    assert_eq!(boot.as_slice(), &code[..]);
}

#[test]
fn extract_from_elf32() {
    let code = vec![0xfa, 0xf4];
    let elf = make_elf32(&[(".bootloader", code.clone()), (".data", vec![9])]);
    let boot = extract_elf_section(&elf).unwrap();
    assert_eq!(boot.as_slice(), &code[..]);
}

#[test]
fn extract_bad_magic_fails() {
    let code = vec![0xaa; 16];
    let mut elf = make_elf64(&[(".bootloader", code)]);
    elf[0] = 0x00;
    assert!(matches!(extract_elf_section(&elf), Err(ComposeError::FormatError)));
}

#[test]
fn extract_bad_class_fails() {
    let mut elf = make_elf64(&[(".bootloader", vec![1, 2, 3])]);
    elf[4] = 9;
    assert!(matches!(extract_elf_section(&elf), Err(ComposeError::FormatError)));
}

#[test]
fn extract_garbage_fails() {
    assert!(matches!(extract_elf_section(&[]), Err(ComposeError::FormatError)));
    assert!(matches!(extract_elf_section(&[0x7f, b'E']), Err(ComposeError::FormatError)));
    let junk: Vec<u8> = (0..200u32).map(|i| i as u8).collect();
    assert!(matches!(extract_elf_section(&junk), Err(ComposeError::FormatError)));
}

#[test]
fn extract_missing_section_fails() {
    let elf = make_elf64(&[(".text", vec![1, 2, 3]), (".data", vec![4, 5])]);
    assert!(matches!(extract_elf_section(&elf), Err(ComposeError::FormatError)));
}

#[test]
fn extract_similar_name_fails() {
    let elf = make_elf64(&[(".bootloade", vec![1]), (".bootloaderX", vec![2])]);
    assert!(matches!(extract_elf_section(&elf), Err(ComposeError::FormatError)));
}

#[test]
fn extract_empty_section_fails() {
    let elf = make_elf64(&[(".bootloader", Vec::new())]);
    assert!(matches!(extract_elf_section(&elf), Err(ComposeError::FormatError)));
}

#[test]
fn flat_binary_is_taken_verbatim() {
    let bytes = vec![0x31, 0xc0, 0xcd, 0x10];
    let boot = match extract(Packaging::FlatBinary, &bytes) {
        Ok(c) => c,
        Err(_) => panic!("flat extraction must succeed on non-empty input"),
    };
    assert_eq!(boot.as_slice(), &bytes[..]);
    assert_eq!(boot.len(), 4);
}

#[test]
fn flat_binary_empty_fails() {
    assert!(matches!(extract(Packaging::FlatBinary, &[]), Err(ComposeError::FormatError)));
    assert!(matches!(BootCode::from_flat(Vec::new()), Err(ComposeError::FormatError)));
}

#[test]
fn packaging_variants_agree_on_wellformed_artifact() {
    let code = vec![0x55, 0xaa, 0x90, 0x90];
    let elf = make_elf64(&[(".bootloader", code.clone())]);
    let from_elf = extract(Packaging::ElfSection, &elf).unwrap();
    let from_flat = extract(Packaging::FlatBinary, &code).unwrap();
    assert_eq!(from_elf.as_slice(), from_flat.as_slice());
}

#[test]
fn error_descriptions_name_the_stage() {
    assert_eq!(ComposeError::MissingArtifact.describe(), "missing build artifact");
    assert_eq!(ComposeError::FormatError.describe(), "malformed bootloader artifact");
    assert_eq!(
        ComposeError::SizeOverflow.describe(),
        "kernel payload exceeds 32-bit length field"
    );
    assert_eq!(ComposeError::IoError.describe(), "failed to write output image");
}

#[test]
fn end_to_end_elf_to_image() {
    let code = vec![0xfa; 512];
    let elf = make_elf64(&[(".text", vec![0; 8]), (".bootloader", code.clone())]);
    let boot = extract(Packaging::ElfSection, &elf).unwrap();
    let kernel_bytes: Vec<u8> = (0..600u32).map(|i| (i % 251) as u8).collect();
    let kernel = Artifact { role: Role::Kernel, bytes: kernel_bytes.clone() };
    let img = compose(&boot, &kernel).unwrap();
    // boot code is sector-aligned, so the whole image is too
    assert_eq!(img.len() % 512, 0);
    assert_eq!(img.len(), 512 + 512 + 600 + 424);
    assert_eq!(&img[..512], &code[..]);
    assert_eq!(
        u32::from_le_bytes([img[512], img[513], img[514], img[515]]),
        600
    );
    assert_eq!(&img[1024..1624], &kernel_bytes[..]);
    assert!(img[1624..].iter().all(|&x| x == 0));
}

fn put_u16_be(b: &mut Vec<u8>, off: usize, v: u16) {
    b[off] = (v >> 8) as u8;
    b[off + 1] = (v & 0xff) as u8;
}

fn put_u32_be(b: &mut Vec<u8>, off: usize, v: u32) {
    for k in 0..4 {
        b[off + k] = ((v >> (8 * (3 - k))) & 0xff) as u8;
    }
}

fn put_u64_be(b: &mut Vec<u8>, off: usize, v: u64) {
    for k in 0..8 {
        b[off + k] = ((v >> (8 * (7 - k))) & 0xff) as u8;
    }
}

/// Builds a minimal 64-bit big-endian ELF object in the same way.
fn make_elf64_be(sections: &[(&str, Vec<u8>)]) -> Vec<u8> {
    let mut strtab: Vec<u8> = Vec::new();
    let mut name_offs: Vec<u32> = Vec::new();
    for (name, _) in sections {
        name_offs.push(strtab.len() as u32);
        strtab.extend_from_slice(name.as_bytes());
        strtab.push(0);
    }
    let n = sections.len() + 1;
    let mut out = vec![0u8; 64];
    out[0] = 0x7f;
    out[1] = b'E';
    out[2] = b'L';
    out[3] = b'F';
    out[4] = 2; // 64-bit
    out[5] = 2; // big-endian
    let mut offsets: Vec<u64> = Vec::new();
    for (_, content) in sections {
        offsets.push(out.len() as u64);
        out.extend_from_slice(content);
    }
    let strtab_off = out.len() as u64;
    out.extend_from_slice(&strtab);
    let shoff = out.len() as u64;
    for (i, (_, content)) in sections.iter().enumerate() {
        let mut ent = vec![0u8; 64];
        put_u32_be(&mut ent, 0, name_offs[i]);
        put_u64_be(&mut ent, 24, offsets[i]);
        put_u64_be(&mut ent, 32, content.len() as u64);
        out.extend_from_slice(&ent);
    }
    let mut ent = vec![0u8; 64];
    put_u64_be(&mut ent, 24, strtab_off);
    put_u64_be(&mut ent, 32, strtab.len() as u64);
    out.extend_from_slice(&ent);
    put_u64_be(&mut out, 0x28, shoff);
    put_u16_be(&mut out, 0x3a, 64);
    put_u16_be(&mut out, 0x3c, n as u16);
    put_u16_be(&mut out, 0x3e, (n - 1) as u16);
    out
}

#[test]
fn extract_from_elf64_big_endian() {
    let code = vec![0x0f, 0x1e, 0xfa, 0xc3];
    let elf = make_elf64_be(&[(".text", vec![1, 2]), (".bootloader", code.clone())]);
    let boot = extract_elf_section(&elf).unwrap();
    assert_eq!(boot.as_slice(), &code[..]);
}

#[test]
fn extract_section_range_out_of_bounds_fails() {
    let elf = make_elf64(&[(".bootloader", vec![1, 2, 3])]);
    let shoff = u64::from_le_bytes(elf[0x28..0x30].try_into().unwrap()) as usize;
    // corrupt the section's size field so its range leaves the artifact
    let mut bad = elf.clone();
    put_u64(&mut bad, shoff + 32, u64::MAX);
    assert!(matches!(extract_elf_section(&bad), Err(ComposeError::FormatError)));
}

#[test]
fn extract_truncated_table_fails() {
    let mut elf = make_elf64(&[(".bootloader", vec![1, 2, 3])]);
    // point the section header table past the end of the artifact
    let len = elf.len() as u64;
    put_u64(&mut elf, 0x28, len + 1);
    assert!(matches!(extract_elf_section(&elf), Err(ComposeError::FormatError)));
}

#[test]
fn extract_bad_entry_size_fails() {
    let mut elf = make_elf64(&[(".bootloader", vec![1, 2, 3])]);
    put_u16(&mut elf, 0x3a, 32); // 64-bit entries must be 64 bytes
    assert!(matches!(extract_elf_section(&elf), Err(ComposeError::FormatError)));
}
