//! Binary header parser for the on-flash process format.
//!
//! Each process entry in flash begins with a little-endian header:
//!
//! | offset | size | field                                        |
//! |--------|------|----------------------------------------------|
//! | 0      | 2    | format version (must be 2)                   |
//! | 2      | 2    | header length in bytes                       |
//! | 4      | 4    | total entry length (header + binary)         |
//! | 8      | 4    | flags: bit 0 = enabled, bit 1 = application  |
//! | 12     | 4    | protected size (kernel-owned flash prefix)   |
//! | 16     | 4    | init function offset from the entry start    |
//! | 20     | 4    | minimum RAM size requested                   |
//! | 24     | 4    | fixed flash address, `0xFFFF_FFFF` for none  |
//! | 28     | 4    | fixed RAM address, `0xFFFF_FFFF` for none    |
//! | 32     | 4    | number of writable flash regions             |
//! | 36     | 8·n  | writable flash regions as (offset, size)     |
//! | 36+8·n | rest | package name bytes, up to the header length  |
//!
//! Entries whose flags clear bit 1 are padding: they occupy flash but carry no
//! application, and only the first 12 bytes of their header are read.
//!
//! The parser never reads past the supplied slice and never panics on
//! malformed input: malformed headers are data, not program errors.

use vstd::prelude::*;

use crate::error::HeaderParseError;

verus! {

/// Shortest header that carries the flags word.
pub const MIN_HEADER_LENGTH: usize = 12;

/// Fixed prefix of an application header, before the writable-region list.
pub const APP_HEADER_BASE_LENGTH: usize = 36;

/// Most writable flash regions one header may declare.
pub const MAX_WRITEABLE_REGIONS: usize = 4;

/// Field value declaring that no fixed address is required.
pub const NO_FIXED_ADDRESS: u32 = 0xFFFF_FFFF;

/// The 16-bit little-endian integer at offset `i` of `s`.
pub open spec fn spec_le16(s: Seq<u8>, i: int) -> int {
    s[i] + 256 * s[i + 1]
}

/// The 32-bit little-endian integer at offset `i` of `s`.
pub open spec fn spec_le32(s: Seq<u8>, i: int) -> int {
    s[i] + 256 * s[i + 1] + 65536 * s[i + 2] + 16777216 * s[i + 3]
}

/// Read the 16-bit little-endian integer at offset `i`.
pub fn read_le16(b: &[u8], i: usize) -> (r: u16)
    requires
        i + 2 <= b@.len(),
    ensures
        r == spec_le16(b@, i as int),
{
    (b[i] as u16) + 256 * (b[i + 1] as u16)
}

/// Read the 32-bit little-endian integer at offset `i`.
pub fn read_le32(b: &[u8], i: usize) -> (r: u32)
    requires
        i + 4 <= b@.len(),
    ensures
        r == spec_le32(b@, i as int),
{
    (b[i] as u32) + 256 * (b[i + 1] as u32) + 65536 * (b[i + 2] as u32) + 16777216 * (b[i + 3]
        as u32)
}

/// Why the first eight bytes of a candidate entry could not be accepted.
#[derive(Copy, Clone, Debug, PartialEq, Eq, Structural)]
pub enum InitialParseError {
    /// The bytes carry the right version but inconsistent lengths. The entry
    /// is skippable padding of the given total length.
    InvalidHeader { entry_length: u32 },
    /// The bytes do not look like a header at all; there are no further
    /// processes and scanning stops.
    UnableToParse,
}

/// The version field of the eight-byte prefix.
pub open spec fn spec_version(s: Seq<u8>) -> int {
    spec_le16(s, 0)
}

/// Whether the eight-byte prefix declares consistent lengths for a version-2
/// entry: the header holds at least the flags word and fits inside the entry.
pub open spec fn spec_lengths_consistent(s: Seq<u8>) -> bool {
    &&& spec_le16(s, 2) >= MIN_HEADER_LENGTH
    &&& spec_le16(s, 2) <= spec_le32(s, 4)
}

/// Decode the eight-byte prefix of a candidate entry into
/// `(version, header length, total entry length)`.
///
/// Exactly one of three things happens:
/// - the prefix is a version-2 header with consistent lengths: `Ok`;
/// - the prefix is version 2 but inconsistent: `InvalidHeader`, carrying the
///   total entry length so the caller can skip the entry as padding;
/// - the prefix is any other version: `UnableToParse`, ending discovery.
pub fn parse_header_lengths(b: &[u8]) -> (r: Result<(u16, u16, u32), InitialParseError>)
    requires
        b@.len() >= 8,
    ensures
        r is Ok <==> spec_version(b@) == 2 && spec_lengths_consistent(b@),
        r matches Ok((v, hl, el)) ==> v == 2 && hl == spec_le16(b@, 2) && el == spec_le32(b@, 4),
        (r matches Err(e) && e is InvalidHeader) <==> spec_version(b@) == 2
            && !spec_lengths_consistent(b@),
        r matches Err(InitialParseError::InvalidHeader { entry_length }) ==> entry_length
            == spec_le32(b@, 4),
        r == Err::<(u16, u16, u32), InitialParseError>(InitialParseError::UnableToParse)
            <==> spec_version(b@) != 2,
{
    let version = read_le16(b, 0);
    if version != 2 {
        return Err(InitialParseError::UnableToParse);
    }
    let header_length = read_le16(b, 2);
    let entry_length = read_le32(b, 4);
    if header_length as usize >= MIN_HEADER_LENGTH && header_length as u32 <= entry_length {
        Ok((version, header_length, entry_length))
    } else {
        Err(InitialParseError::InvalidHeader { entry_length })
    }
}

/// Structured metadata decoded from one process entry's header.
#[derive(Debug, PartialEq, Eq)]
pub struct ProcessHeader {
    /// Format version of the header.
    pub version: u16,
    /// Whether the entry carries an application (padding entries do not).
    pub is_app: bool,
    /// Whether the application is enabled and should be loaded.
    pub enabled: bool,
    /// Bytes at the start of the entry that are kernel-owned and never
    /// executable as application code.
    pub protected_size: u32,
    /// Offset of the init function from the start of the entry.
    pub init_fn_offset: u32,
    /// Minimum RAM the application requests.
    pub minimum_ram_size: u32,
    /// Flash address the entry must sit at, if the binary is not
    /// position-independent.
    pub fixed_address_flash: Option<u32>,
    /// RAM address the process's memory window must start at, if any.
    pub fixed_address_ram: Option<u32>,
    /// Writable flash sub-regions as (offset, size) pairs.
    pub writeable_regions: Vec<(u32, u32)>,
    /// Package name bytes.
    pub package_name: Vec<u8>,
}

/// Whether the flags word marks the entry as enabled (bit 0).
pub open spec fn spec_flag_enabled(flags: int) -> bool {
    flags % 2 == 1
}

/// Whether the flags word marks the entry as an application (bit 1).
pub open spec fn spec_flag_app(flags: int) -> bool {
    (flags / 2) % 2 == 1
}

/// Number of writable flash regions the header declares.
pub open spec fn spec_region_count(s: Seq<u8>) -> int {
    spec_le32(s, 32)
}

/// Whether an application header of length `s.len()` has room for its
/// declared writable-region list.
pub open spec fn spec_app_header_fits(s: Seq<u8>) -> bool {
    &&& s.len() >= APP_HEADER_BASE_LENGTH
    &&& spec_region_count(s) <= MAX_WRITEABLE_REGIONS
    &&& APP_HEADER_BASE_LENGTH + 8 * spec_region_count(s) <= s.len()
}

/// Whether `parse_header` accepts the header bytes: they hold at least the
/// flags word, and an application header has room for its declared fields.
pub open spec fn spec_parse_ok(s: Seq<u8>) -> bool {
    &&& s.len() >= MIN_HEADER_LENGTH
    &&& (spec_flag_app(spec_le32(s, 8)) ==> spec_app_header_fits(s))
}

/// Decode a full header from the `header` slice, which must be exactly the
/// header region of the entry (its length is the declared header length).
///
/// A non-application (padding) header yields `is_app == false` with the
/// remaining fields empty; the caller skips such entries. An application
/// header yields every declared field. Malformed headers are reported as
/// values, never as panics.
pub fn parse_header(header: &[u8], version: u16) -> (r: Result<ProcessHeader, HeaderParseError>)
    ensures
        r is Ok <==> spec_parse_ok(header@),
        header@.len() < MIN_HEADER_LENGTH ==> r == Err::<ProcessHeader, HeaderParseError>(
            HeaderParseError::NotEnoughBytes,
        ),
        r matches Ok(h) ==> {
            &&& h.version == version
            &&& h.enabled == spec_flag_enabled(spec_le32(header@, 8))
            &&& h.is_app == spec_flag_app(spec_le32(header@, 8))
        },
        header@.len() >= MIN_HEADER_LENGTH && !spec_flag_app(spec_le32(header@, 8)) ==> (r
            matches Ok(h) && !h.is_app),
        header@.len() >= MIN_HEADER_LENGTH && spec_flag_app(spec_le32(header@, 8)) ==> {
            if spec_app_header_fits(header@) {
                r matches Ok(h) && {
                    &&& h.is_app
                    &&& h.protected_size == spec_le32(header@, 12)
                    &&& h.init_fn_offset == spec_le32(header@, 16)
                    &&& h.minimum_ram_size == spec_le32(header@, 20)
                    &&& h.fixed_address_flash == (if spec_le32(header@, 24) == NO_FIXED_ADDRESS {
                        Option::<u32>::None
                    } else {
                        Option::<u32>::Some(spec_le32(header@, 24) as u32)
                    })
                    &&& h.fixed_address_ram == (if spec_le32(header@, 28) == NO_FIXED_ADDRESS {
                        Option::<u32>::None
                    } else {
                        Option::<u32>::Some(spec_le32(header@, 28) as u32)
                    })
                    &&& h.writeable_regions@.len() == spec_region_count(header@)
                    &&& forall|k: int|
                        0 <= k < h.writeable_regions@.len() ==> h.writeable_regions@[k] == (
                        spec_le32(header@, 36 + 8 * k) as u32,
                        spec_le32(header@, 40 + 8 * k) as u32,
                        )
                    &&& h.package_name@ == header@.subrange(
                        APP_HEADER_BASE_LENGTH + 8 * spec_region_count(header@),
                        header@.len() as int,
                    )
                }
            } else {
                r is Err
            }
        },
{
    if header.len() < MIN_HEADER_LENGTH {
        return Err(HeaderParseError::NotEnoughBytes);
    }
    let flags = read_le32(header, 8);
    let enabled = flags % 2 == 1;
    let is_app = (flags / 2) % 2 == 1;
    if !is_app {
        return Ok(
            ProcessHeader {
                version,
                is_app: false,
                enabled,
                protected_size: 0,
                init_fn_offset: 0,
                minimum_ram_size: 0,
                fixed_address_flash: None,
                fixed_address_ram: None,
                writeable_regions: Vec::new(),
                package_name: Vec::new(),
            },
        );
    }
    if header.len() < APP_HEADER_BASE_LENGTH {
        return Err(HeaderParseError::BadHeaderLength);
    }
    let region_count = read_le32(header, 32);
    if region_count as usize > MAX_WRITEABLE_REGIONS {
        return Err(HeaderParseError::TooManyRegions);
    }
    let region_count = region_count as usize;
    if header.len() < APP_HEADER_BASE_LENGTH + 8 * region_count {
        return Err(HeaderParseError::BadHeaderLength);
    }

    let mut writeable_regions: Vec<(u32, u32)> = Vec::new();
    let mut k: usize = 0;
    while k < region_count
        invariant
            k <= region_count,
            region_count <= MAX_WRITEABLE_REGIONS,
            APP_HEADER_BASE_LENGTH + 8 * region_count <= header@.len(),
            writeable_regions@.len() == k,
            forall|j: int|
                0 <= j < k ==> writeable_regions@[j] == (
                spec_le32(header@, 36 + 8 * j) as u32,
                spec_le32(header@, 40 + 8 * j) as u32,
                ),
        decreases region_count - k,
    {
        let offset = read_le32(header, APP_HEADER_BASE_LENGTH + 8 * k);
        let size = read_le32(header, APP_HEADER_BASE_LENGTH + 8 * k + 4);
        writeable_regions.push((offset, size));
        k = k + 1;
    }

    let name_start = APP_HEADER_BASE_LENGTH + 8 * region_count;
    let mut package_name: Vec<u8> = Vec::new();
    let mut i: usize = name_start;
    while i < header.len()
        invariant
            name_start <= i <= header@.len(),
            package_name@ == header@.subrange(name_start as int, i as int),
        decreases header@.len() - i,
    {
        package_name.push(header[i]);
        proof {
            assert(package_name@ =~= header@.subrange(name_start as int, i + 1));
        }
        i = i + 1;
    }

    let protected_size = read_le32(header, 12);
    let init_fn_offset = read_le32(header, 16);
    let minimum_ram_size = read_le32(header, 20);
    let fixed_flash = read_le32(header, 24);
    let fixed_ram = read_le32(header, 28);
    Ok(
        ProcessHeader {
            version,
            is_app: true,
            enabled,
            protected_size,
            init_fn_offset,
            minimum_ram_size,
            fixed_address_flash: if fixed_flash == NO_FIXED_ADDRESS {
                None
            } else {
                Some(fixed_flash)
            },
            fixed_address_ram: if fixed_ram == NO_FIXED_ADDRESS {
                None
            } else {
                Some(fixed_ram)
            },
            writeable_regions,
            package_name,
        },
    )
}

} // verus!
