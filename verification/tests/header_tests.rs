//! Tests of the on-flash binary header parser.

use kernel_core::error::HeaderParseError;
use kernel_core::header::{
    parse_header, parse_header_lengths, InitialParseError, APP_HEADER_BASE_LENGTH,
    MAX_WRITEABLE_REGIONS, MIN_HEADER_LENGTH, NO_FIXED_ADDRESS,
};

fn push_le16(v: &mut Vec<u8>, x: u16) {
    v.push((x & 0xFF) as u8);
    v.push((x >> 8) as u8);
}

fn push_le32(v: &mut Vec<u8>, x: u32) {
    v.push((x & 0xFF) as u8);
    v.push(((x >> 8) & 0xFF) as u8);
    v.push(((x >> 16) & 0xFF) as u8);
    v.push(((x >> 24) & 0xFF) as u8);
}

/// An application header with the given fields, padded to `header_length`.
#[allow(clippy::too_many_arguments)]
fn app_header(
    header_length: u16,
    total_length: u32,
    enabled: bool,
    protected_size: u32,
    init_fn_offset: u32,
    minimum_ram_size: u32,
    fixed_flash: u32,
    fixed_ram: u32,
    regions: &[(u32, u32)],
    name: &[u8],
) -> Vec<u8> {
    let mut h = Vec::new();
    push_le16(&mut h, 2);
    push_le16(&mut h, header_length);
    push_le32(&mut h, total_length);
    let flags = 2 | if enabled { 1 } else { 0 };
    push_le32(&mut h, flags);
    push_le32(&mut h, protected_size);
    push_le32(&mut h, init_fn_offset);
    push_le32(&mut h, minimum_ram_size);
    push_le32(&mut h, fixed_flash);
    push_le32(&mut h, fixed_ram);
    push_le32(&mut h, regions.len() as u32);
    for (offset, size) in regions {
        push_le32(&mut h, *offset);
        push_le32(&mut h, *size);
    }
    h.extend_from_slice(name);
    h
}

#[test]
fn lengths_of_valid_header() {
    let h = app_header(40, 256, true, 40, 64, 1024, NO_FIXED_ADDRESS, NO_FIXED_ADDRESS, &[], b"ping");
    let r = parse_header_lengths(&h);
    assert_eq!(r, Ok((2, 40, 256)));
}

#[test]
fn lengths_of_inconsistent_header_skip_as_padding() {
    // Header length larger than the whole entry: version 2 but inconsistent.
    let mut h = Vec::new();
    push_le16(&mut h, 2);
    push_le16(&mut h, 300);
    push_le32(&mut h, 128);
    assert_eq!(
        parse_header_lengths(&h),
        Err(InitialParseError::InvalidHeader { entry_length: 128 })
    );
    // Header too short to hold the flags word.
    let mut h2 = Vec::new();
    push_le16(&mut h2, 2);
    push_le16(&mut h2, (MIN_HEADER_LENGTH - 1) as u16);
    push_le32(&mut h2, 64);
    assert_eq!(
        parse_header_lengths(&h2),
        Err(InitialParseError::InvalidHeader { entry_length: 64 })
    );
}

#[test]
fn lengths_of_unparsable_header_stop_discovery() {
    // Erased flash reads as all ones: not a version-2 header at all.
    let h = vec![0xFF; 8];
    assert_eq!(parse_header_lengths(&h), Err(InitialParseError::UnableToParse));
    // Version 1 likewise ends discovery.
    let mut h2 = Vec::new();
    push_le16(&mut h2, 1);
    push_le16(&mut h2, 16);
    push_le32(&mut h2, 64);
    assert_eq!(parse_header_lengths(&h2), Err(InitialParseError::UnableToParse));
}

#[test]
fn full_header_fields_decode_exactly() {
    let h = app_header(
        52,
        4096,
        true,
        52,
        128,
        2048,
        NO_FIXED_ADDRESS,
        NO_FIXED_ADDRESS,
        &[(100, 16)],
        b"sensor",
    );
    assert_eq!(h.len(), APP_HEADER_BASE_LENGTH + 8 + 6);
    let parsed = parse_header(&h, 2).unwrap();
    assert!(parsed.is_app);
    assert!(parsed.enabled);
    assert_eq!(parsed.version, 2);
    assert_eq!(parsed.protected_size, 52);
    assert_eq!(parsed.init_fn_offset, 128);
    assert_eq!(parsed.minimum_ram_size, 2048);
    assert_eq!(parsed.fixed_address_flash, None);
    assert_eq!(parsed.fixed_address_ram, None);
    assert_eq!(parsed.writeable_regions, vec![(100, 16)]);
    assert_eq!(parsed.package_name, b"sensor".to_vec());
}

#[test]
fn fixed_addresses_decode_when_present() {
    let h = app_header(
        44,
        1024,
        true,
        44,
        80,
        512,
        0x0004_0000,
        0x2000_0000,
        &[],
        b"fixedapp",
    );
    let parsed = parse_header(&h, 2).unwrap();
    assert_eq!(parsed.fixed_address_flash, Some(0x0004_0000));
    assert_eq!(parsed.fixed_address_ram, Some(0x2000_0000));
}

#[test]
fn padding_header_is_not_an_app() {
    // Flags word with bit 1 clear: a padding entry.
    let mut h = Vec::new();
    push_le16(&mut h, 2);
    push_le16(&mut h, 16);
    push_le32(&mut h, 512);
    push_le32(&mut h, 0);
    push_le32(&mut h, 0);
    let parsed = parse_header(&h, 2).unwrap();
    assert!(!parsed.is_app);
}

#[test]
fn truncated_header_reports_not_enough_bytes() {
    let h = vec![2, 0, 16, 0, 0, 1];
    assert_eq!(parse_header(&h, 2), Err(HeaderParseError::NotEnoughBytes));
}

#[test]
fn app_header_shorter_than_fixed_prefix_is_bad_length() {
    // An app header (bit 1 set) that ends before the fixed fields.
    let mut h = Vec::new();
    push_le16(&mut h, 2);
    push_le16(&mut h, 16);
    push_le32(&mut h, 512);
    push_le32(&mut h, 3);
    push_le32(&mut h, 0);
    assert_eq!(parse_header(&h, 2), Err(HeaderParseError::BadHeaderLength));
}

#[test]
fn too_many_regions_are_rejected() {
    let regions: Vec<(u32, u32)> = (0..(MAX_WRITEABLE_REGIONS as u32 + 1)).map(|i| (i, 4)).collect();
    let h = app_header(
        (APP_HEADER_BASE_LENGTH + 8 * (MAX_WRITEABLE_REGIONS + 1)) as u16,
        4096,
        true,
        36,
        64,
        256,
        NO_FIXED_ADDRESS,
        NO_FIXED_ADDRESS,
        &regions,
        b"",
    );
    assert_eq!(parse_header(&h, 2), Err(HeaderParseError::TooManyRegions));
}

#[test]
fn region_list_that_overruns_header_is_bad_length() {
    // Declares two regions but the header ends after the fixed prefix.
    let h = app_header(
        APP_HEADER_BASE_LENGTH as u16,
        4096,
        true,
        36,
        64,
        256,
        NO_FIXED_ADDRESS,
        NO_FIXED_ADDRESS,
        &[],
        b"",
    );
    let mut h = h;
    // Overwrite the region count in place.
    h[32] = 2;
    assert_eq!(parse_header(&h, 2), Err(HeaderParseError::BadHeaderLength));
}
