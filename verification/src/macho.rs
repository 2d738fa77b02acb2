//! Locating the code section of a mapped arm64 Mach-O image.
//!
//! The walk only reads the bytes it is given: a load command or section that
//! does not lie inside them ends it without a result.

use vstd::prelude::*;

verus! {

/// Magic number of a 64-bit Mach-O header.
pub const MH_MAGIC_64: u32 = 0xfeed_facf;

/// Load command of a 64-bit segment.
pub const LC_SEGMENT_64: u32 = 0x19;

/// Size of the header, behind which the load commands start.
pub const HEADER_SIZE: u64 = 32;

/// Offset of the first section in a segment command.
pub const SECTIONS_OFFSET: u64 = 72;

/// Size of one section entry.
pub const SECTION_SIZE: u64 = 80;

/// The little-endian number of the four bytes at `at`.
pub open spec fn word32(image: Seq<u8>, at: int) -> Option<u32> {
    if 0 <= at && at + 4 <= image.len() {
        Some(
            (image[at] as u32) | ((image[at + 1] as u32) << 8) | ((image[at + 2] as u32) << 16) | ((
            image[at + 3] as u32) << 24),
        )
    } else {
        None
    }
}

/// The little-endian number of the eight bytes at `at`.
pub open spec fn word64(image: Seq<u8>, at: int) -> Option<u64> {
    match (word32(image, at), word32(image, at + 4)) {
        (Some(low), Some(high)) => Some((low as u64) | ((high as u64) << 32)),
        _ => None,
    }
}

/// Whether the name at `at` starts with `prefix`; `None` where it does not lie
/// inside the image.
pub open spec fn name_starts(image: Seq<u8>, at: int, prefix: Seq<u8>) -> Option<bool> {
    if 0 <= at && at + 16 <= image.len() {
        Some(prefix.is_prefix_of(image.subrange(at, at + 16)))
    } else {
        None
    }
}

/// The bytes of `__TEXT` and its terminator.
pub open spec fn text_segment_name() -> Seq<u8> {
    seq![0x5f, 0x5f, 0x54, 0x45, 0x58, 0x54, 0x00]
}

/// The bytes of `__text` and its terminator.
pub open spec fn text_section_name() -> Seq<u8> {
    seq![0x5f, 0x5f, 0x74, 0x65, 0x78, 0x74, 0x00]
}

/// What a part of the walk found.
pub enum Found {
    /// The section: its address in the file and its size.
    Section(u64, u64),
    /// Nothing, so far.
    Nothing,
    /// The image ends where something was to be read.
    Outside,
}

/// The first code section among the sections from number `s` on, of `count`
/// that start at `sections`.
pub open spec fn section_from(image: Seq<u8>, sections: int, s: nat, count: nat) -> Found
    decreases count - s,
{
    if s >= count {
        Found::Nothing
    } else {
        let base = sections + s * SECTION_SIZE;
        match name_starts(image, base, text_section_name()) {
            None => Found::Outside,
            Some(true) => match (word64(image, base + 32), word64(image, base + 40)) {
                (Some(addr), Some(size)) => Found::Section(addr, size),
                _ => Found::Outside,
            },
            Some(false) => section_from(image, sections, s + 1, count),
        }
    }
}

/// What the segment command at `offset` holds.
pub open spec fn in_segment(image: Seq<u8>, offset: int) -> Found {
    match name_starts(image, offset + 8, text_segment_name()) {
        None => Found::Outside,
        Some(false) => Found::Nothing,
        Some(true) => match word32(image, offset + 64) {
            None => Found::Outside,
            Some(count) => section_from(image, offset + SECTIONS_OFFSET, 0, count as nat),
        },
    }
}

/// The code section in the load commands from `offset` on, of which `left` are
/// left and which end at `end`.
pub open spec fn section_in_commands(image: Seq<u8>, offset: int, end: int, left: nat) -> Found
    decreases left,
{
    if left == 0 || offset + 8 > end {
        Found::Nothing
    } else {
        match (word32(image, offset), word32(image, offset + 4)) {
            (Some(command), Some(size)) => if size == 0 || offset + size > end {
                Found::Nothing
            } else {
                let here = if command == LC_SEGMENT_64 {
                    in_segment(image, offset)
                } else {
                    Found::Nothing
                };
                match here {
                    Found::Nothing => section_in_commands(
                        image,
                        offset + size,
                        end,
                        (left - 1) as nat,
                    ),
                    _ => here,
                }
            },
            _ => Found::Outside,
        }
    }
}

/// The code section of `image`, mapped at `header`: its address and its size.
pub open spec fn text_section(image: Seq<u8>, header: u64) -> Option<(u64, u64)> {
    match (word32(image, 0), word32(image, 16), word32(image, 20)) {
        (Some(magic), Some(count), Some(size)) => if magic != MH_MAGIC_64 {
            None
        } else {
            match section_in_commands(
                image,
                HEADER_SIZE as int,
                HEADER_SIZE + size,
                count as nat,
            ) {
                Found::Section(addr, size) => Some(
                    (((header + addr) % 0x1_0000_0000_0000_0000) as u64, size),
                ),
                _ => None,
            }
        },
        _ => None,
    }
}

fn read_word32(image: &[u8], at: u64) -> (r: Option<u32>)
    ensures
        r == word32(image@, at as int),
{
    let len: u64 = image.len() as u64;
    if len < 4 || at > len - 4 {
        return None;
    }
    let i: usize = at as usize;
    Some(
        (image[i] as u32) | ((image[i + 1] as u32) << 8) | ((image[i + 2] as u32) << 16) | ((image[i
            + 3] as u32) << 24),
    )
}

fn read_word64(image: &[u8], at: u64) -> (r: Option<u64>)
    requires
        at + 4 <= u64::MAX,
    ensures
        r == word64(image@, at as int),
{
    match (read_word32(image, at), read_word32(image, at + 4)) {
        (Some(low), Some(high)) => Some((low as u64) | ((high as u64) << 32)),
        _ => None,
    }
}

/// Whether the name at `at` starts with the seven bytes `prefix`.
fn read_name(image: &[u8], at: u64, prefix: &[u8; 7]) -> (r: Option<bool>)
    ensures
        r == name_starts(image@, at as int, prefix@),
{
    let len: u64 = image.len() as u64;
    if len < 16 || at > len - 16 {
        return None;
    }
    let start: usize = at as usize;
    let ghost name = image@.subrange(at as int, at + 16);
    let mut i: usize = 0;
    while i < 7
        invariant
            i <= 7,
            start == at,
            start + 16 <= image.len(),
            name == image@.subrange(at as int, at + 16),
            forall|j: int| 0 <= j < i ==> #[trigger] prefix@[j] == name[j],
        decreases 7 - i,
    {
        assert(name[i as int] == image@[start + i]);
        if image[start + i] != prefix[i] {
            assert(!prefix@.is_prefix_of(name));
            return Some(false);
        }
        i = i + 1;
    }
    assert(prefix@ =~= name.subrange(0, 7));
    Some(true)
}

fn find_section(image: &[u8], sections: u64, count: u32) -> (r: Found)
    requires
        sections <= 0x1_0000_0100,
    ensures
        r == section_from(image@, sections as int, 0, count as nat),
{
    let name: [u8; 7] = [0x5f, 0x5f, 0x74, 0x65, 0x78, 0x74, 0x00];
    assert(name@ =~= text_section_name());
    let mut s: u32 = 0;
    while s < count
        invariant
            s <= count,
            sections <= 0x1_0000_0100,
            name@ == text_section_name(),
            section_from(image@, sections as int, 0, count as nat) == section_from(
                image@,
                sections as int,
                s as nat,
                count as nat,
            ),
        decreases count - s,
    {
        let base: u64 = sections + (s as u64) * SECTION_SIZE;
        match read_name(image, base, &name) {
            None => return Found::Outside,
            Some(true) => return match (
                read_word64(image, base + 32),
                read_word64(image, base + 40),
            ) {
                (Some(addr), Some(size)) => Found::Section(addr, size),
                _ => Found::Outside,
            },
            Some(false) => {},
        }
        s = s + 1;
    }
    Found::Nothing
}

fn find_in_segment(image: &[u8], offset: u64) -> (r: Found)
    requires
        offset <= 0x1_0000_0020,
    ensures
        r == in_segment(image@, offset as int),
{
    let name: [u8; 7] = [0x5f, 0x5f, 0x54, 0x45, 0x58, 0x54, 0x00];
    assert(name@ =~= text_segment_name());
    match read_name(image, offset + 8, &name) {
        None => Found::Outside,
        Some(false) => Found::Nothing,
        Some(true) => match read_word32(image, offset + 64) {
            None => Found::Outside,
            Some(count) => find_section(image, offset + SECTIONS_OFFSET, count),
        },
    }
}

/// Walks the segment load commands of an arm64 image mapped at `header` and
/// returns address and size of its code section. The section's address is one
/// of the file; the header address serves as the slide.
pub fn macho_text_section(image: &[u8], header: u64) -> (r: Option<(u64, u64)>)
    ensures
        r == text_section(image@, header),
{
    let (magic, count, size) = match (
        read_word32(image, 0),
        read_word32(image, 16),
        read_word32(image, 20),
    ) {
        (Some(magic), Some(count), Some(size)) => (magic, count, size),
        _ => return None,
    };
    if magic != MH_MAGIC_64 {
        return None;
    }
    let end: u64 = HEADER_SIZE + size as u64;
    let mut offset: u64 = HEADER_SIZE;
    let mut left: u32 = count;
    while left > 0
        invariant
            offset <= end,
            end == HEADER_SIZE + size,
            end <= 0x1_0000_0020,
            magic == MH_MAGIC_64,
            word32(image@, 0) == Some(magic),
            word32(image@, 16) == Some(count),
            word32(image@, 20) == Some(size),
            section_in_commands(image@, HEADER_SIZE as int, end as int, count as nat)
                == section_in_commands(image@, offset as int, end as int, left as nat),
        decreases left,
    {
        if offset + 8 > end {
            return None;
        }
        let (command, length) = match (
            read_word32(image, offset),
            read_word32(image, offset + 4),
        ) {
            (Some(command), Some(length)) => (command, length),
            _ => return None,
        };
        if length == 0 || offset + length as u64 > end {
            return None;
        }
        if command == LC_SEGMENT_64 {
            match find_in_segment(image, offset) {
                Found::Section(addr, size) => return Some((header.wrapping_add(addr), size)),
                Found::Outside => return None,
                Found::Nothing => {},
            }
        }
        offset = offset + length as u64;
        left = left - 1;
    }
    None
}

} // verus!
