//! What holds of paths, images, events and texts.

use vstd::prelude::*;

use crate::base::DataRoot;
use crate::bridge::{
    enumerate_unity_framework, exact_symbol, exports_result, hydrate_result,
    read_il2cpp_string_utf16, runtime_identity, BridgeBackend, CallbackIl2Cpp, ExactHandle,
    StringBorrow,
};
use crate::backend::{AttachGuard, DomainHandle, ImageIdentity, RuntimeIdentity};
use crate::debug_plugin::socket_path;
use crate::error::{HookError, Il2CppError, PluginError, RestoreError};
use crate::event::{
    CallbackObservability, CompactEvent, CompactEventCode, CompactLevel, CompactOwnerId,
    CompactSiteId,
};
use crate::ffi::{copy_documents_path, entry, EntryStep, StartMarker};
use crate::macho::macho_text_section;
use crate::observability::{code_category, drain_available, CompactRecord, ObservabilityRoot};
use crate::paths::{file_name, same_path};
use crate::runtime_config::{config_path, load_config, ParsedConfig};
use crate::text::{ends_with_text, has_nul, same_text};

verus! {

// ---------------------------------------------------------------------------
// Texts and paths
// ---------------------------------------------------------------------------

/// Texts are compared character by character.
pub proof fn texts_are_compared_by_character(
    text: &str,
    other: &str,
    same: bool,
    ends: bool,
    nul: bool,
)
    requires
        call_ensures(same_text, (text, other), same),
        call_ensures(ends_with_text, (text, other), ends),
        call_ensures(has_nul, (text,), nul),
    ensures
        same <==> text@ == other@,
        ends <==> exists|head: Seq<char>| text@ == #[trigger] (head + other@),
        nul <==> exists|i: int| 0 <= i < text@.len() && #[trigger] text@[i] == '\0',
{
    if ends {
        let head = text@.take(text@.len() - other@.len());
        assert(text@ =~= head + text@.skip(text@.len() - other@.len()));
    }
    if exists|head: Seq<char>| text@ == #[trigger] (head + other@) {
        let head = choose|head: Seq<char>| text@ == #[trigger] (head + other@);
        assert(text@.skip(text@.len() - other@.len()) =~= other@);
    }
}

/// `parts` written one after the other, with a separator between each two.
pub open spec fn separated(parts: Seq<Seq<char>>) -> Seq<char>
    decreases parts.len(),
{
    if parts.len() <= 1 {
        parts[0]
    } else {
        separated(parts.drop_last()) + seq!['/'] + parts.last()
    }
}

/// `parts` are what the separators of `path` part it into.
pub open spec fn are_parts(parts: Seq<Seq<char>>, path: Seq<char>) -> bool {
    &&& parts.len() > 0
    &&& forall|i: int| 0 <= i < parts.len() ==> !(#[trigger] parts[i]).contains('/')
    &&& separated(parts) == path
}

/// The names in a path that is parted into `parts`: the first part, where it is
/// not empty, and every later one that is neither empty nor a dot.
pub open spec fn names_of(parts: Seq<Seq<char>>) -> Seq<Seq<char>> {
    (if parts[0].len() > 0 {
        seq![parts[0]]
    } else {
        Seq::empty()
    }) + parts.skip(1).filter(|part: Seq<char>| part.len() > 0 && part != "."@)
}

proof fn lemma_parts(path: Seq<char>)
    ensures
        are_parts(crate::paths::segments(path), path),
    decreases path.len(),
{
    let parts = crate::paths::segments(path);
    if path.len() == 0 {
        assert(separated(parts) =~= path);
    } else {
        let before = crate::paths::segments(path.drop_last());
        lemma_parts(path.drop_last());
        if path.last() == '/' {
            assert(parts.drop_last() =~= before);
            assert(separated(parts) =~= path);
            assert forall|i: int| 0 <= i < parts.len() implies !(#[trigger] parts[i]).contains(
                '/',
            ) by {
                if i < before.len() {
                    assert(parts[i] == before[i]);
                }
            }
        } else {
            let last = before.last().push(path.last());
            assert(parts.drop_last() =~= before.drop_last());
            assert forall|i: int| 0 <= i < parts.len() implies !(#[trigger] parts[i]).contains(
                '/',
            ) by {
                if i < before.len() - 1 {
                    assert(parts[i] == before[i]);
                } else {
                    assert(parts[i] == last);
                    assert(!before[before.len() - 1].contains('/'));
                    if last.contains('/') {
                        let k = choose|k: int| 0 <= k < last.len() && last[k] == '/';
                        assert(before.last()[k] == '/');
                    }
                }
            }
            if parts.len() > 1 {
                assert(separated(before) =~= separated(before.drop_last()) + seq!['/']
                    + before.last());
            } else {
                assert(separated(before) == before[0]);
                assert(parts[0] == last);
            }
            assert(path =~= path.drop_last().push(path.last()));
            assert(separated(parts) =~= path);
        }
    }
}

proof fn lemma_names(parts: Seq<Seq<char>>)
    requires
        parts.len() > 0,
    ensures
        crate::paths::counted(parts) == names_of(parts),
    decreases parts.len(),
{
    reveal(Seq::filter);
    let named = |part: Seq<char>| part.len() > 0 && part != "."@;
    if parts.len() == 1 {
        assert(parts.drop_last() =~= Seq::<Seq<char>>::empty());
        assert(crate::paths::counted(parts.drop_last()) =~= Seq::<Seq<char>>::empty());
        assert(parts.skip(1) =~= Seq::<Seq<char>>::empty());
        assert(crate::paths::counted(parts) =~= names_of(parts));
    } else {
        lemma_names(parts.drop_last());
        assert(parts.skip(1).drop_last() =~= parts.drop_last().skip(1));
        assert(parts.skip(1).last() == parts.last());
        assert(parts.drop_last()[0] == parts[0]);
        assert(crate::paths::counted(parts) =~= names_of(parts));
    }
}

/// Two paths are the same exactly where both or neither start at the root and
/// they have the same names in the same order: separators that are doubled or
/// trail, and dots between them, say nothing.
pub proof fn same_path_has_the_same_names(path: &str, other: &str, r: bool) -> (parts: (
    Seq<Seq<char>>,
    Seq<Seq<char>>,
))
    requires
        call_ensures(same_path, (path, other), r),
    ensures
        are_parts(parts.0, path@),
        are_parts(parts.1, other@),
        r <==> {
            &&& (path@.len() > 0 && path@[0] == '/') == (other@.len() > 0 && other@[0] == '/')
            &&& names_of(parts.0) == names_of(parts.1)
        },
{
    lemma_parts(path@);
    lemma_parts(other@);
    lemma_names(crate::paths::segments(path@));
    lemma_names(crate::paths::segments(other@));
    (crate::paths::segments(path@), crate::paths::segments(other@))
}

/// The file name of a path is its last name, unless that is a dot or two.
pub proof fn file_name_is_the_last_name(path: &str, r: Option<String>) -> (parts: Seq<Seq<char>>)
    requires
        call_ensures(file_name, (path,), r),
    ensures
        are_parts(parts, path@),
        ({
            let names = names_of(parts);
            &&& r is Some <==> names.len() > 0 && names.last() != "."@ && names.last() != ".."@
            &&& r matches Some(name) ==> name@ == names.last()
        }),
{
    lemma_parts(path@);
    lemma_names(crate::paths::segments(path@));
    crate::paths::segments(path@)
}

/// A path that starts at the root stands for itself; any other lies under the
/// data root, one separator behind it.
pub proof fn joined_path_lies_under_the_root(
    root: &DataRoot,
    relative: &str,
    r: String,
    config: String,
    socket: String,
)
    requires
        call_ensures(DataRoot::join, (root, relative), r),
        call_ensures(config_path, (root,), config),
        call_ensures(socket_path, (root,), socket),
    ensures
        relative@.len() > 0 && relative@[0] == '/' ==> r@ == relative@,
        !(relative@.len() > 0 && relative@[0] == '/') ==> {
            if root.root().len() == 0 || root.root().last() == '/' {
                r@ == root.root() + relative@
            } else {
                r@ == root.root() + seq!['/'] + relative@
            }
        },
        root.root().len() > 0 && root.root().last() != '/' ==> config@ == root.root()
            + "/scsp.toml"@ && socket@ == root.root() + "/shiny-song-tools/d.sock"@,
{
    reveal_strlit("scsp.toml");
    reveal_strlit("/scsp.toml");
    reveal_strlit("shiny-song-tools");
    reveal_strlit("d.sock");
    reveal_strlit("/shiny-song-tools/d.sock");
    if !(relative@.len() > 0 && relative@[0] == '/') && root.root().len() > 0
        && root.root().last() != '/' {
        assert(root.root().push('/') =~= root.root() + seq!['/']);
    }
    if root.root().len() > 0 && root.root().last() != '/' {
        assert(config@ =~= root.root() + "/scsp.toml"@);
        let folder = root.root().push('/') + "shiny-song-tools"@;
        assert(folder.last() == "shiny-song-tools"@.last());
        assert(folder.push('/') + "d.sock"@ =~= root.root() + "/shiny-song-tools/d.sock"@);
    }
}

// ---------------------------------------------------------------------------
// Entry
// ---------------------------------------------------------------------------

/// `end` is where the C string in `bytes` ends.
pub open spec fn ends_at(bytes: Seq<u8>, end: int) -> bool {
    &&& 0 <= end <= bytes.len()
    &&& forall|i: int| 0 <= i < end ==> #[trigger] bytes[i] != 0
    &&& end < bytes.len() ==> bytes[end] == 0
}

proof fn lemma_c_text(bytes: Seq<u8>) -> (end: int)
    ensures
        ends_at(bytes, end),
        crate::ffi::c_text(bytes) == bytes.take(end),
    decreases bytes.len(),
{
    if bytes.len() == 0 || bytes[0] == 0 {
        assert(bytes.take(0) =~= Seq::<u8>::empty());
        0
    } else {
        let end = lemma_c_text(bytes.skip(1)) + 1;
        assert forall|i: int| 0 <= i < end implies #[trigger] bytes[i] != 0 by {
            if i > 0 {
                assert(bytes.skip(1)[i - 1] == bytes[i]);
            }
        }
        assert(seq![bytes[0]] + bytes.skip(1).take(end - 1) =~= bytes.take(end));
        if end < bytes.len() {
            assert(bytes.skip(1)[end - 1] == bytes[end]);
        }
        end
    }
}

/// A path is taken exactly where there is one, it is not empty before its
/// terminator, and it is UTF-8; it is then the text of just those bytes.
pub proof fn path_is_the_text_before_the_terminator(
    bytes: Option<&[u8]>,
    r: Option<String>,
) -> (end: int)
    requires
        call_ensures(copy_documents_path, (bytes,), r),
    ensures
        bytes is None ==> r is None,
        bytes matches Some(bytes) ==> {
            &&& ends_at(bytes@, end)
            &&& r is Some <==> end > 0 && vstd::utf8::valid_utf8(bytes@.take(end))
            &&& r matches Some(path) ==> path@ == vstd::utf8::decode_utf8(bytes@.take(end))
        },
{
    match bytes {
        Some(bytes) => lemma_c_text(bytes@),
        None => 0,
    }
}

/// The first call starts where its path is valid, with that path as the data
/// root and with the configuration that is read there; every later call is a
/// duplicate, whatever became of the first.
pub proof fn only_the_first_call_starts<F: FnOnce(&str) -> Option<String>>(
    marker: &mut StartMarker,
    bytes: Option<&[u8]>,
    read_file: F,
    r: EntryStep,
    copied: Option<String>,
    found: Option<String>,
    loaded: ParsedConfig,
)
    requires
        call_ensures(entry::<F>, (marker, bytes, read_file), r),
        call_ensures(copy_documents_path, (bytes,), copied),
        call_ensures(load_config, (found,), loaded),
    ensures
        final(marker).is_claimed(),
        r is Duplicate <==> old(marker).is_claimed(),
        r is InvalidPath <==> !old(marker).is_claimed() && copied is None,
        r is Start ==> r->data_root.root() == copied->Some_0@,
        r is Start ==> exists|path: &str, text: Option<String>|
            {
                &&& #[trigger] read_file.ensures((path,), text)
                &&& path@ == crate::base::joined(r->data_root.root(), "scsp.toml"@)
                &&& text is None ==> !r->config.debug.enabled && !r->config.fps.enabled
                &&& text == found ==> r->config == loaded
            },
{
    if r is Start {
        let (path, text) = choose|path: &str, text: Option<String>|
            {
                &&& path@ == crate::base::joined(r->data_root.root(), "scsp.toml"@)
                &&& #[trigger] read_file.ensures((path,), text)
                &&& r->config == crate::ffi::loaded(text)
            };
        assert(read_file.ensures((path,), text));
    }
}

// ---------------------------------------------------------------------------
// Images
// ---------------------------------------------------------------------------

/// The number that four bytes spell, the lowest first.
pub open spec fn number32(image: Seq<u8>, at: int) -> int {
    image[at] + 0x100 * image[at + 1] + 0x1_0000 * image[at + 2] + 0x100_0000 * image[at + 3]
}

/// The number that eight bytes spell, the lowest first.
pub open spec fn number64(image: Seq<u8>, at: int) -> int {
    number32(image, at) + 0x1_0000_0000 * number32(image, at + 4)
}

proof fn lemma_words(image: Seq<u8>, at: int)
    requires
        0 <= at,
    ensures
        crate::macho::word32(image, at) is Some <==> at + 4 <= image.len(),
        at + 4 <= image.len() ==> crate::macho::word32(image, at)->Some_0 == number32(image, at),
        crate::macho::word64(image, at) is Some <==> at + 8 <= image.len(),
        at + 8 <= image.len() ==> crate::macho::word64(image, at)->Some_0 == number64(image, at),
{
    let (a, b, c, d) = (image[at], image[at + 1], image[at + 2], image[at + 3]);
    let (e, f, g, h) = (image[at + 4], image[at + 5], image[at + 6], image[at + 7]);
    let low = (a as u32) | ((b as u32) << 8) | ((c as u32) << 16) | ((d as u32) << 24);
    let high = (e as u32) | ((f as u32) << 8) | ((g as u32) << 16) | ((h as u32) << 24);
    assert(low == a + 0x100 * b + 0x1_0000 * c + 0x100_0000 * d && high == e + 0x100 * f + 0x1_0000
        * g + 0x100_0000 * h && (low as u64) | ((high as u64) << 32) == low + 0x1_0000_0000 * high)
        by (bit_vector)
        requires
            low == (a as u32) | ((b as u32) << 8) | ((c as u32) << 16) | ((d as u32) << 24),
            high == (e as u32) | ((f as u32) << 8) | ((g as u32) << 16) | ((h as u32) << 24),
    ;
}

/// The 16 bytes at `at` begin with `name`.
pub open spec fn is_named(image: Seq<u8>, at: int, name: Seq<u8>) -> bool {
    image.subrange(at, at + name.len()) == name
}

/// `__TEXT` and its terminator.
pub open spec fn segment_name() -> Seq<u8> {
    seq![95, 95, 84, 69, 88, 84, 0]
}

/// `__text` and its terminator.
pub open spec fn section_name() -> Seq<u8> {
    seq![95, 95, 116, 101, 120, 116, 0]
}

proof fn lemma_name(image: Seq<u8>, at: int, name: Seq<u8>)
    requires
        0 <= at,
        name.len() == 7,
    ensures
        crate::macho::name_starts(image, at, name) is Some <==> at + 16 <= image.len(),
        at + 16 <= image.len() ==> crate::macho::name_starts(image, at, name) == Some(
            is_named(image, at, name),
        ),
{
    if at + 16 <= image.len() {
        let field = image.subrange(at, at + 16);
        assert(field.subrange(0, 7) =~= image.subrange(at, at + 7));
    }
}

/// The load command at `offset` is a whole segment command named `__TEXT`.
pub open spec fn is_text_segment(image: Seq<u8>, offset: int) -> bool {
    number32(image, offset) == 0x19 && is_named(image, offset + 8, segment_name())
}

/// Where section `s` of the segment at `offset` is described.
pub open spec fn section_at(offset: int, s: int) -> int {
    offset + 72 + 80 * s
}

/// The load command at `offset` is no segment with a code section, and all that
/// has to be read to see that lies inside the image.
pub open spec fn holds_no_code(image: Seq<u8>, offset: int) -> bool {
    &&& offset + 24 <= image.len()
    &&& is_text_segment(image, offset) ==> {
        &&& offset + 68 <= image.len()
        &&& forall|s: int|
            0 <= s < number32(image, offset + 64) ==> {
                &&& #[trigger] section_at(offset, s) + 16 <= image.len()
                &&& !is_named(image, section_at(offset, s), section_name())
            }
    }
}

/// Section `s` of the segment at `offset` is its first code section, and lies
/// inside the image.
pub open spec fn holds_code(image: Seq<u8>, offset: int, s: int) -> bool {
    &&& offset + 68 <= image.len()
    &&& is_text_segment(image, offset)
    &&& 0 <= s < number32(image, offset + 64)
    &&& section_at(offset, s) + 48 <= image.len()
    &&& is_named(image, section_at(offset, s), section_name())
    &&& forall|k: int|
        0 <= k < s ==> !is_named(image, #[trigger] section_at(offset, k), section_name())
}

/// `offsets` are the first load commands of the image, each behind the one
/// before it and inside what the header says.
pub open spec fn are_commands(image: Seq<u8>, offsets: Seq<int>) -> bool {
    let end = 32 + number32(image, 20);
    &&& image.len() >= 32
    &&& number32(image, 0) == 0xfeed_facf
    &&& 0 < offsets.len() <= number32(image, 16)
    &&& offsets[0] == 32
    &&& forall|i: int|
        0 <= i < offsets.len() ==> {
            let size = number32(image, offsets[i] + 4);
            &&& (#[trigger] offsets[i]) + 8 <= end && offsets[i] + 8 <= image.len()
            &&& 0 < size && offsets[i] + size <= end
            &&& i + 1 < offsets.len() ==> offsets[i + 1] == offsets[i] + size
        }
}

proof fn lemma_sections(image: Seq<u8>, offset: int, from: nat, s: int, count: nat)
    requires
        0 <= offset,
        from <= s < count,
        section_at(offset, s) + 48 <= image.len(),
        is_named(image, section_at(offset, s), section_name()),
        forall|k: int|
            from <= k < s ==> !is_named(image, #[trigger] section_at(offset, k), section_name()),
    ensures
        crate::macho::section_from(image, offset + 72, from, count)
            == crate::macho::Found::Section(
            number64(image, section_at(offset, s) + 32) as u64,
            number64(image, section_at(offset, s) + 40) as u64,
        ),
    decreases s - from,
{
    let base = section_at(offset, from as int);
    lemma_name(image, base, section_name());
    assert(crate::macho::text_section_name() =~= section_name());
    lemma_words(image, base + 32);
    lemma_words(image, base + 40);
    if from < s {
        lemma_sections(image, offset, from + 1, s, count);
    }
}

proof fn lemma_no_sections(image: Seq<u8>, offset: int, from: nat, count: nat)
    requires
        0 <= offset,
        forall|k: int|
            from <= k < count ==> {
                &&& #[trigger] section_at(offset, k) + 16 <= image.len()
                &&& !is_named(image, section_at(offset, k), section_name())
            },
    ensures
        crate::macho::section_from(image, offset + 72, from, count)
            == crate::macho::Found::Nothing,
    decreases count - from,
{
    if from < count {
        let base = section_at(offset, from as int);
        lemma_name(image, base, section_name());
        assert(crate::macho::text_section_name() =~= section_name());
        lemma_no_sections(image, offset, from + 1, count);
    }
}

proof fn lemma_commands(image: Seq<u8>, offsets: Seq<int>, i: int, s: int, left: nat)
    requires
        are_commands(image, offsets),
        0 <= i < offsets.len(),
        forall|k: int| 0 <= k < offsets.len() ==> 0 <= #[trigger] offsets[k],
        left >= offsets.len() - i,
        forall|k: int|
            0 <= k < offsets.len() - 1 ==> holds_no_code(image, #[trigger] offsets[k]),
        holds_code(image, offsets.last(), s),
    ensures
        crate::macho::section_in_commands(image, offsets[i], 32 + number32(image, 20), left)
            == crate::macho::Found::Section(
            number64(image, section_at(offsets.last(), s) + 32) as u64,
            number64(image, section_at(offsets.last(), s) + 40) as u64,
        ),
    decreases offsets.len() - i,
{
    let offset = offsets[i];
    lemma_words(image, offset);
    lemma_words(image, offset + 4);
    lemma_name(image, offset + 8, segment_name());
    assert(crate::macho::text_segment_name() =~= segment_name());
    if offset + 68 <= image.len() {
        lemma_words(image, offset + 64);
    }
    if i == offsets.len() - 1 {
        lemma_sections(image, offset, 0, s, number32(image, offset + 64) as nat);
    } else {
        lemma_commands(image, offsets, i + 1, s, (left - 1) as nat);
        assert(holds_no_code(image, offset));
        if is_text_segment(image, offset) {
            lemma_no_sections(image, offset, 0, number32(image, offset + 64) as nat);
        }
    }
}

/// The code section of an image is the first section named `__text` of a
/// segment named `__TEXT`, wherever in the load commands that stands: its
/// address in the file moved by where the image is mapped, and its size.
pub proof fn first_code_section_is_found(
    image: &[u8],
    header: u64,
    r: Option<(u64, u64)>,
    offsets: Seq<int>,
    s: int,
)
    requires
        call_ensures(macho_text_section, (image, header), r),
        are_commands(image@, offsets),
        forall|k: int|
            0 <= k < offsets.len() - 1 ==> holds_no_code(image@, #[trigger] offsets[k]),
        holds_code(image@, offsets.last(), s),
    ensures
        r is Some,
        r->Some_0.0 == (header + number64(image@, section_at(offsets.last(), s) + 32))
            % 0x1_0000_0000_0000_0000,
        r->Some_0.1 == number64(image@, section_at(offsets.last(), s) + 40),
{
    assert forall|k: int| 0 <= k < offsets.len() implies 0 <= #[trigger] offsets[k] by {
        lemma_offsets(image@, offsets, k);
    }
    lemma_words(image@, 0);
    lemma_words(image@, 16);
    lemma_words(image@, 20);
    lemma_words(image@, section_at(offsets.last(), s) + 32);
    lemma_words(image@, section_at(offsets.last(), s) + 40);
    lemma_commands(image@, offsets, 0, s, number32(image@, 16) as nat);
}

proof fn lemma_offsets(image: Seq<u8>, offsets: Seq<int>, k: int)
    requires
        are_commands(image, offsets),
        0 <= k < offsets.len(),
    ensures
        offsets[k] >= 32,
    decreases k,
{
    if k > 0 {
        lemma_offsets(image, offsets, k - 1);
        assert(offsets[k - 1 + 1] == offsets[k - 1] + number32(image, offsets[k - 1] + 4));
    }
}

/// Where a code section was found among the sections of a segment.
proof fn lemma_found_section(image: Seq<u8>, offset: int, from: nat, count: nat) -> (s: int)
    requires
        0 <= offset,
        from <= count,
        crate::macho::section_from(image, offset + 72, from, count) is Section,
    ensures
        from <= s < count,
        section_at(offset, s) + 48 <= image.len(),
        is_named(image, section_at(offset, s), section_name()),
        forall|k: int|
            from <= k < s ==> !is_named(image, #[trigger] section_at(offset, k), section_name()),
        crate::macho::section_from(image, offset + 72, from, count)
            == crate::macho::Found::Section(
            number64(image, section_at(offset, s) + 32) as u64,
            number64(image, section_at(offset, s) + 40) as u64,
        ),
    decreases count - from,
{
    let base = section_at(offset, from as int);
    lemma_name(image, base, section_name());
    assert(crate::macho::text_section_name() =~= section_name());
    lemma_words(image, base + 32);
    lemma_words(image, base + 40);
    assert(offset + 72 + from * crate::macho::SECTION_SIZE == base);
    if is_named(image, base, section_name()) {
        from as int
    } else {
        lemma_found_section(image, offset, from + 1, count)
    }
}

/// Where no section of a segment is a code section.
proof fn lemma_no_section(image: Seq<u8>, offset: int, from: nat, count: nat)
    requires
        0 <= offset,
        from <= count,
        crate::macho::section_from(image, offset + 72, from, count) is Nothing,
    ensures
        forall|k: int|
            from <= k < count ==> !is_named(image, #[trigger] section_at(offset, k), section_name()),
    decreases count - from,
{
    if from < count {
        let base = section_at(offset, from as int);
        lemma_name(image, base, section_name());
        assert(crate::macho::text_section_name() =~= section_name());
        assert(offset + 72 + from * crate::macho::SECTION_SIZE == base);
        lemma_no_section(image, offset, from + 1, count);
    }
}

/// What one load command is found to hold.
proof fn lemma_found_here(image: Seq<u8>, offset: int) -> (s: int)
    requires
        0 <= offset,
        offset + 8 <= image.len(),
    ensures
        ({
            let here = if number32(image, offset) == 0x19 {
                crate::macho::in_segment(image, offset)
            } else {
                crate::macho::Found::Nothing
            };
            &&& here is Section ==> holds_code(image, offset, s) && here
                == crate::macho::Found::Section(
                number64(image, section_at(offset, s) + 32) as u64,
                number64(image, section_at(offset, s) + 40) as u64,
            )
            &&& here is Nothing ==> forall|k: int| !#[trigger] holds_code(image, offset, k)
        }),
{
    lemma_name(image, offset + 8, segment_name());
    assert(crate::macho::text_segment_name() =~= segment_name());
    lemma_words(image, offset + 64);
    if number32(image, offset) == 0x19 && offset + 24 <= image.len() && is_text_segment(
        image,
        offset,
    ) && offset + 68 <= image.len() {
        let count = number32(image, offset + 64) as nat;
        let found = crate::macho::section_from(image, offset + 72, 0, count);
        if found is Section {
            lemma_found_section(image, offset, 0, count)
        } else {
            if found is Nothing {
                lemma_no_section(image, offset, 0, count);
            }
            0
        }
    } else {
        0
    }
}

/// `offsets` are load commands from `start` on, each behind the one before it
/// and before `end`; the last one holds code, as its section `s`, and none
/// before it does.
pub open spec fn lead_to_code(
    image: Seq<u8>,
    start: int,
    end: int,
    offsets: Seq<int>,
    s: int,
) -> bool {
    &&& offsets.len() > 0
    &&& offsets[0] == start
    &&& forall|i: int|
        0 <= i < offsets.len() ==> {
            let size = number32(image, offsets[i] + 4);
            &&& (#[trigger] offsets[i]) + 8 <= end && offsets[i] + 8 <= image.len()
            &&& 0 < size && offsets[i] + size <= end
            &&& i + 1 < offsets.len() ==> offsets[i + 1] == offsets[i] + size
        }
    &&& forall|i: int, k: int|
        0 <= i < offsets.len() - 1 ==> !#[trigger] holds_code(image, offsets[i], k)
    &&& holds_code(image, offsets.last(), s)
}

/// Where a code section was found among the load commands.
proof fn lemma_found_commands(image: Seq<u8>, offset: int, end: int, left: nat) -> (r: (
    Seq<int>,
    int,
))
    requires
        0 <= offset,
        crate::macho::section_in_commands(image, offset, end, left) is Section,
    ensures
        lead_to_code(image, offset, end, r.0, r.1),
        r.0.len() <= left,
        crate::macho::section_in_commands(image, offset, end, left)
            == crate::macho::Found::Section(
            number64(image, section_at(r.0.last(), r.1) + 32) as u64,
            number64(image, section_at(r.0.last(), r.1) + 40) as u64,
        ),
    decreases left,
{
    lemma_words(image, offset);
    lemma_words(image, offset + 4);
    let s = lemma_found_here(image, offset);
    let size = number32(image, offset + 4);
    let here = if number32(image, offset) == 0x19 {
        crate::macho::in_segment(image, offset)
    } else {
        crate::macho::Found::Nothing
    };
    if here is Nothing {
        let (offsets, found) = lemma_found_commands(image, offset + size, end, (left - 1) as nat);
        let all = seq![offset] + offsets;
        assert forall|i: int| 0 <= i < all.len() implies {
            let size = number32(image, all[i] + 4);
            &&& (#[trigger] all[i]) + 8 <= end && all[i] + 8 <= image.len()
            &&& 0 < size && all[i] + size <= end
            &&& i + 1 < all.len() ==> all[i + 1] == all[i] + size
        } by {
            if i > 0 {
                assert(all[i] == offsets[i - 1]);
                if i + 1 < all.len() {
                    assert(all[i + 1] == offsets[i - 1 + 1]);
                }
            }
        }
        assert forall|i: int, k: int| 0 <= i < all.len() - 1 implies !#[trigger] holds_code(
            image,
            all[i],
            k,
        ) by {
            if i > 0 {
                assert(all[i] == offsets[i - 1]);
            }
        }
        assert(all.last() == offsets.last());
        (all, found)
    } else {
        assert(seq![offset].last() == offset);
        (seq![offset], s)
    }
}

/// The section that the load commands lead to, as it is reported.
proof fn lemma_reported(image: Seq<u8>, end: int, left: nat) -> (found: (Seq<int>, int))
    requires
        crate::macho::section_in_commands(image, 32, end, left) is Section,
    ensures
        lead_to_code(image, 32, end, found.0, found.1),
        found.0.len() <= left,
        ({
            let at = section_at(found.0.last(), found.1);
            let whole = crate::macho::section_in_commands(image, 32, end, left);
            &&& whole->Section_0 == number64(image, at + 32)
            &&& whole->Section_1 == number64(image, at + 40)
        }),
{
    let (offsets, s) = lemma_found_commands(image, 32, end, left);
    let at = section_at(offsets.last(), s);
    assert(holds_code(image, offsets.last(), s));
    lemma_at_least(image, 32, end, offsets, s, offsets.len() - 1);
    lemma_words(image, at + 32);
    lemma_words(image, at + 40);
    (offsets, s)
}

proof fn lemma_at_least(
    image: Seq<u8>,
    start: int,
    end: int,
    offsets: Seq<int>,
    s: int,
    i: int,
)
    requires
        lead_to_code(image, start, end, offsets, s),
        0 <= i < offsets.len(),
    ensures
        offsets[i] >= start,
    decreases i,
{
    if i > 0 {
        lemma_at_least(image, start, end, offsets, s, i - 1);
        assert(offsets[i - 1 + 1] == offsets[i - 1] + number32(image, offsets[i - 1] + 4));
    }
}

/// A section that is reported is the first code section of a 64-bit image: its
/// load commands lead to it, and its address and size are those that are
/// written there.
pub proof fn reported_section_is_in_the_image(
    image: &[u8],
    header: u64,
    r: Option<(u64, u64)>,
) -> (found: (Seq<int>, int))
    requires
        call_ensures(macho_text_section, (image, header), r),
        r is Some,
    ensures
        number32(image@, 0) == 0xfeed_facf,
        lead_to_code(image@, 32, 32 + number32(image@, 20), found.0, found.1),
        found.0.len() <= number32(image@, 16),
        r->Some_0.0 == (header + number64(image@, section_at(found.0.last(), found.1) + 32))
            % 0x1_0000_0000_0000_0000,
        r->Some_0.1 == number64(image@, section_at(found.0.last(), found.1) + 40),
{
    lemma_words(image@, 0);
    lemma_words(image@, 16);
    lemma_words(image@, 20);
    let end = 32 + number32(image@, 20);
    let left = number32(image@, 16) as nat;
    let whole = crate::macho::section_in_commands(image@, 32, end, left);
    assert(crate::macho::text_section(image@, header) == match whole {
        crate::macho::Found::Section(addr, size) => Some(
            (((header + addr) % 0x1_0000_0000_0000_0000) as u64, size),
        ),
        _ => None,
    });
    lemma_reported(image@, end, left)
}

/// What is not a 64-bit image, or is too short for its header, has no code
/// section.
pub proof fn other_files_have_no_code_section(
    image: &[u8],
    header: u64,
    r: Option<(u64, u64)>,
)
    requires
        call_ensures(macho_text_section, (image, header), r),
        image.len() < 24 || number32(image@, 0) != 0xfeed_facf,
    ensures
        r is None,
{
    lemma_words(image@, 0);
    lemma_words(image@, 16);
    lemma_words(image@, 20);
}

/// The game's image is the first whose file is named `UnityFramework`.
pub proof fn first_unity_framework_is_taken(
    paths: &Vec<Option<String>>,
    r: Option<usize>,
    k: int,
    path: &str,
    name: Option<String>,
)
    requires
        call_ensures(enumerate_unity_framework, (paths,), r),
        0 <= k < paths.len(),
        paths@[k] is Some && paths@[k]->Some_0@ == path@,
        call_ensures(file_name, (path,), name),
    ensures
        name is Some && name->Some_0@ == "UnityFramework"@ ==> r is Some && r->Some_0 <= k,
        !(name is Some && name->Some_0@ == "UnityFramework"@) ==> r != Some(k as usize),
        r matches Some(index) ==> index < paths.len() && paths@[index as int] is Some,
{
    assert(crate::bridge::is_unity_framework(paths[k]) <==> name is Some && name->Some_0@
        == "UnityFramework"@);
}

/// A symbol counts only where it was found and lies in the very image that it
/// was looked up in.
pub proof fn symbol_belongs_to_its_image(
    address: usize,
    owner: Option<String>,
    path: &str,
    r: Option<usize>,
    image: &str,
    same: bool,
)
    requires
        call_ensures(exact_symbol, (address, owner, path), r),
        call_ensures(same_path, (image, path), same),
        owner matches Some(owner) ==> owner@ == image@,
    ensures
        r is Some <==> address != 0 && owner is Some && same,
        r matches Some(found) ==> found == address,
{
}

/// The domain is probed once: a domain that was captured is handed out without
/// another probe, and none is captured where the probe finds none.
pub proof fn domain_is_captured_once<F: FnOnce() -> usize>(
    backend: &mut BridgeBackend,
    probe: F,
    r: Result<DomainHandle, Il2CppError>,
    known: Option<DomainHandle>,
)
    requires
        call_ensures(BridgeBackend::domain_get::<F>, (backend, probe), r),
        call_ensures(BridgeBackend::domain, (&*final(backend),), known),
    ensures
        old(backend).captured() != 0 ==> r == Ok::<DomainHandle, Il2CppError>(
            DomainHandle(old(backend).captured()),
        ),
        old(backend).captured() == 0 ==> probe.ensures((), final(backend).captured()),
        r is Ok <==> known is Some,
        r matches Ok(domain) ==> known == Some(domain) && domain.0 != 0,
        r matches Err(error) ==> error == Il2CppError::DomainUnavailable,
        final(backend).image() == old(backend).image(),
{
}

/// A thread is attached only where there is a domain, and only where it was not
/// attached before; only an attachment that was made is given back.
pub proof fn only_own_attachments_are_given_back<
    C: FnOnce() -> usize,
    A: FnOnce(usize) -> usize,
>(
    backend: &BridgeBackend,
    current: C,
    attach: A,
    r: Result<(AttachGuard, usize), Il2CppError>,
)
    requires
        call_ensures(
            BridgeBackend::attach_current_thread::<C, A>,
            (backend, current, attach),
            r,
        ),
    ensures
        backend.captured() == 0 <==> r == Err::<(AttachGuard, usize), Il2CppError>(
            Il2CppError::NotReady,
        ),
        r matches Ok(attached) ==> attached.1 != 0 && if attached.0.is_armed() {
            attach.ensures((backend.captured(),), attached.1) && current.ensures((), 0)
        } else {
            current.ensures((), attached.1)
        },
        r matches Err(error) ==> backend.captured() != 0 ==> error == Il2CppError::AttachFailed,
{
}

/// What the steps of the backend come to.
pub proof fn backend_steps_report_what_is_missing(
    missing: Option<Vec<&'static str>>,
    exports: Result<(), Il2CppError>,
    hydrated: bool,
    metadata: Result<(), Il2CppError>,
    corlib: Option<String>,
    identity: Result<RuntimeIdentity, Il2CppError>,
)
    requires
        call_ensures(exports_result, (missing,), exports),
        call_ensures(hydrate_result, (hydrated,), metadata),
        call_ensures(runtime_identity, (corlib,), identity),
    ensures
        exports is Ok <==> missing is None,
        missing matches Some(names) ==> names.len() > 0 ==> exports->Err_0
            == Il2CppError::ExportMissing(names@[0]),
        missing matches Some(names) ==> names.len() == 0 ==> exports->Err_0 is NotReady,
        metadata is Ok <==> hydrated,
        metadata is Err ==> metadata->Err_0 is NotReady,
        identity is Ok <==> corlib is Some,
        identity matches Ok(known) ==> known.unity_version@ == corlib->Some_0@
            && known.il2cpp_variant@ == "il2cpp-bridge-rs/0.1.4"@,
        identity matches Err(error) ==> error == Il2CppError::IdentityMismatch,
{
}

/// A managed string is borrowed only where it is there, and as many code units
/// as it says.
pub proof fn string_borrow_is_bounded(
    cap: &CallbackIl2Cpp,
    string_null: bool,
    length: i32,
    chars_null: bool,
    r: StringBorrow,
)
    requires
        call_ensures(CallbackIl2Cpp::string_utf16, (cap, string_null, length, chars_null), r),
    ensures
        r is Nothing <==> string_null || length < 0 || (length > 0 && chars_null),
        r is Empty <==> !string_null && length == 0,
        r matches StringBorrow::Units(count) ==> count == length && count > 0,
{
}

// ---------------------------------------------------------------------------
// Events
// ---------------------------------------------------------------------------

/// An event waits behind those before it as long as there is room; otherwise it
/// is counted, and what waits stays.
pub proof fn events_wait_or_are_counted(
    queue: &mut CallbackObservability,
    event: CompactEvent,
    r: bool,
    dropped: u64,
)
    requires
        call_ensures(CallbackObservability::try_emit, (queue, event), r),
        call_ensures(CallbackObservability::dropped, (&*final(queue),), dropped),
    ensures
        r <==> old(queue).events().len() < old(queue).capacity(),
        r ==> final(queue).events() == old(queue).events().push(event) && dropped == old(
            queue).lost(),
        !r ==> final(queue).events() == old(queue).events(),
        !r && old(queue).lost() < u64::MAX ==> dropped == old(queue).lost() + 1,
        !r && old(queue).lost() == u64::MAX ==> dropped == 0,
        final(queue).capacity() == old(queue).capacity(),
{
}

/// The process queue has room for 4096 events and starts empty.
pub proof fn process_queue_holds_4096(r: CallbackObservability)
    requires
        call_ensures(CallbackObservability::new, (), r),
    ensures
        r.capacity() == 4096,
        r.events().len() == 0,
        r.lost() == 0,
{
}

/// Events are drained oldest first, as many as are wanted or are there, and the
/// rest stays.
pub proof fn events_are_drained_oldest_first(
    queue: &mut CallbackObservability,
    max: usize,
    r: Vec<CompactEvent>,
)
    requires
        call_ensures(CallbackObservability::drain, (queue, max), r),
    ensures
        old(queue).events() == r@ + final(queue).events(),
        r.len() <= max,
        r.len() < max ==> final(queue).events().len() == 0,
        final(queue).lost() == old(queue).lost(),
        final(queue).capacity() == old(queue).capacity(),
{
    assert(old(queue).events() =~= r@ + final(queue).events());
}

/// The number of a severity grows with it.
pub proof fn severity_has_its_number(level: CompactLevel, r: u8)
    requires
        call_ensures(CompactLevel::as_u8, (level,), r),
    ensures
        level is Info <==> r == 0,
        level is Warn <==> r == 1,
        level is Error <==> r == 2,
{
}

/// The domain and the message of each code; a code that is not known is
/// reported as such.
pub proof fn codes_have_their_messages(
    code: CompactEventCode,
    r: (&'static str, &'static str),
)
    requires
        call_ensures(code_category, (code,), r),
    ensures
        code.0 == 1 ==> r.0@ == "scheduler"@ && r.1@ == "scheduler frame entered"@,
        code.0 == 2 ==> r.0@ == "hook"@ && r.1@ == "original LateUpdate entered"@,
        code.0 == 3 ==> r.0@ == "hook"@ && r.1@ == "original LateUpdate returned"@,
        code.0 == 4 ==> r.0@ == "scheduler"@ && r.1@
            == "callback reached without published context"@,
        code.0 == 5 ==> r.0@ == "scheduler"@ && r.1@ == "scheduler global failure published"@,
        code.0 == 6 ==> r.0@ == "scheduler"@ && r.1@ == "scheduler thread identity mismatch"@,
        code.0 == 7 ==> r.0@ == "runtime"@ && r.1@ == "entry panicked; startup aborted"@,
        code.0 == 8 ==> r.0@ == "scheduler"@ && r.1@ == "scheduler frame done"@,
        code.0 == 0 || code.0 > 8 ==> r.0@ == "runtime"@ && r.1@ == "unclassified compact event"@,
{
}

/// A drain turns at most 256 events into records, oldest first and each with
/// what its event said and with the message of its code; the rest stays.
pub proof fn drained_records_say_what_the_events_said(
    queue: &mut CallbackObservability,
    r: Vec<CompactRecord>,
    code: CompactEventCode,
    message: (&'static str, &'static str),
)
    requires
        call_ensures(drain_available, (queue,), r),
        call_ensures(code_category, (code,), message),
    ensures
        final(queue).lost() == old(queue).lost(),
        final(queue).capacity() == old(queue).capacity(),
        r.len() == if old(queue).events().len() < 256 {
            old(queue).events().len()
        } else {
            256
        },
        final(queue).events() == old(queue).events().skip(r.len() as int),
        forall|i: int|
            0 <= i < r.len() ==> {
                let record = #[trigger] r@[i];
                let event = old(queue).events()[i];
                &&& record.level == event.level
                &&& record.code == event.code.0
                &&& record.owner == event.owner.0
                &&& record.site == event.site.0
                &&& record.arg0 == event.arg0
                &&& record.arg1 == event.arg1
                &&& event.code == code ==> record.domain@ == message.0@ && record.message@
                    == message.1@
            },
{
    assert forall|i: int| 0 <= i < r.len() implies crate::observability::records(
        #[trigger] r@[i],
        old(queue).events()[i],
    ) by {
        assert(r[i] == r@[i]);
    }
}

/// Uptime is the time that has passed, and never negative.
pub proof fn uptime_is_time_passed(start: u64, root: ObservabilityRoot, now: u64, r: u64)
    requires
        call_ensures(ObservabilityRoot::new, (start,), root),
        call_ensures(ObservabilityRoot::uptime, (&root, now), r),
    ensures
        now >= start ==> start + r == now,
        now < start ==> r == 0,
{
}

// ---------------------------------------------------------------------------
// Errors
// ---------------------------------------------------------------------------

/// The text of an error names its kind and then says what it was; the text of a
/// message is the message.
pub proof fn error_texts_name_their_kind(
    error: &PluginError,
    r: String,
    hook: &HookError,
    hook_text: String,
    il2cpp: &Il2CppError,
    il2cpp_text: String,
)
    requires
        call_ensures(PluginError::message, (error,), r),
        call_ensures(HookError::message, (hook,), hook_text),
        call_ensures(Il2CppError::message, (il2cpp,), il2cpp_text),
    ensures
        error matches PluginError::ResourceConflict(detail) ==> r@ == "resource conflict: "@
            + detail@,
        error matches PluginError::MissingDependency(detail) ==> r@ == "missing dependency: "@
            + detail@,
        error matches PluginError::Hook(inner) ==> inner == *hook ==> r@ == "hook: "@ + hook_text@,
        error matches PluginError::Il2Cpp(inner) ==> inner == *il2cpp ==> r@ == "il2cpp: "@
            + il2cpp_text@,
        error matches PluginError::Io(detail) ==> r@ == "io: "@ + detail@,
        error matches PluginError::Message(detail) ==> r@ == detail@,
{
}

/// The texts of hook and restore errors.
pub proof fn hook_errors_have_their_texts(
    error: &HookError,
    r: String,
    restore: &RestoreError,
    s: String,
)
    requires
        call_ensures(HookError::message, (error,), r),
        call_ensures(RestoreError::message, (restore,), s),
    ensures
        error is TargetUnavailable ==> r@ == "hook target unavailable"@,
        error is SignatureMismatch ==> r@ == "hook target signature mismatch"@,
        error is SiteAlreadyRegistered ==> r@ == "hook site already registered"@,
        error is SlotConflict ==> r@
            == "method pointer slot conflict: slot is owned by another party"@,
        error is InstallationFailed ==> r@
            == "hook installation succeeded but readback did not confirm the replacement"@,
        error is OwnershipDrift ==> r@ == "method pointer slot ownership drift detected"@,
        error is SlotMalformed ==> r@
            == "method pointer slot is malformed (unreadable, null, or misaligned)"@,
        error matches HookError::EntryPatchUnsupported(detail) ==> r@
            == "entry patch unsupported at this site: "@ + detail@,
        restore is OwnershipLost ==> s@ == "ownership of the restored state was lost"@,
        restore is Failed ==> s@ == "restore action failed"@,
{
}

/// The texts of platform errors.
pub proof fn platform_errors_have_their_texts(error: &Il2CppError, r: String)
    requires
        call_ensures(Il2CppError::message, (error,), r),
    ensures
        error is ImageNotFound ==> r@
            == "UnityFramework image not found before the readiness deadline"@,
        error is ImageIdentityMismatch ==> r@ == "UnityFramework image identity mismatch"@,
        error matches Il2CppError::ExportMissing(name) ==> r@ == "required IL2CPP export missing: "@
            + name@,
        error matches Il2CppError::ReadinessSymbolMissing(name) ==> r@
            == "required bootstrap readiness symbol missing: "@ + name@,
        error is ReadinessDeadlineExceeded ==> r@ == "bootstrap readiness deadline exceeded"@,
        error matches Il2CppError::ClassNotFound(name) ==> r@ == "il2cpp class not found: "@
            + name@,
        error is DomainUnavailable ==> r@
            == "il2cpp_domain_get returned null; one-shot bootstrap terminated"@,
        error is AttachFailed ==> r@ == "thread attach to the IL2CPP domain failed"@,
        error is IdentityMismatch ==> r@ == "IL2CPP runtime/layout identity mismatch"@,
        error matches Il2CppError::MethodResolutionFailed(detail) ==> r@
            == "IL2CPP method resolution failed: "@ + detail@,
        error is NotReady ==> r@ == "IL2CPP API used before readiness"@,
{
}

// ---------------------------------------------------------------------------
// The exact image
// ---------------------------------------------------------------------------

/// An image is opened under the path that was asked for: a mapping that is
/// there is adopted, and only where there is none is one loaded. A path that
/// cannot be handed over is no image at all.
pub proof fn image_is_adopted_before_it_is_loaded<
    A: FnOnce(&String) -> usize,
    L: FnOnce(&String) -> usize,
>(path: String, adopt: A, load: L, r: Result<ExactHandle, Il2CppError>)
    requires
        call_ensures(ExactHandle::open::<A, L>, (path, adopt, load), r),
    ensures
        r matches Ok(handle) ==> {
            &&& handle.file() == path@
            &&& handle.address() != 0
            &&& adopt.ensures((&path,), handle.address()) || (adopt.ensures((&path,), 0)
                && load.ensures((&path,), handle.address()))
        },
        path@.contains('\0') ==> r is Err && r->Err_0 is ImageIdentityMismatch,
        r is Err && !path@.contains('\0') ==> r->Err_0 is ImageNotFound && adopt.ensures(
            (&path,),
            0,
        ) && load.ensures((&path,), 0),
{
}

/// A symbol is one that the lookup in this very image found and that lies in
/// the file of the image.
pub proof fn symbol_lies_in_its_image<
    L: FnOnce(usize, &str) -> usize,
    O: FnOnce(usize) -> Option<String>,
>(handle: &ExactHandle, name: &str, lookup: L, owner: O, r: Option<usize>)
    requires
        call_ensures(ExactHandle::symbol::<L, O>, (handle, name, lookup, owner), r),
    ensures
        r matches Some(address) ==> {
            &&& address != 0
            &&& lookup.ensures((handle.address(), name), address)
            &&& exists|image: Option<String>|
                {
                    &&& #[trigger] owner.ensures((address,), image)
                    &&& image is Some
                    &&& crate::paths::is_same_path(image->Some_0@, handle.file())
                }
        },
        r is None && !name@.contains('\0') ==> exists|address: usize|
            {
                &&& #[trigger] lookup.ensures((handle.address(), name), address)
                &&& address != 0 ==> exists|image: Option<String>|
                    {
                        &&& #[trigger] owner.ensures((address,), image)
                        &&& image is Some ==> !crate::paths::is_same_path(
                            image->Some_0@,
                            handle.file(),
                        )
                    }
            },
        name@.contains('\0') ==> r is None,
{
}

/// A handle tells where its image is and from which file, and its backend has
/// that image and no domain yet.
pub proof fn handle_tells_of_its_image(
    raw: usize,
    path: String,
    handle: ExactHandle,
    told: &String,
    text: &str,
    identity: ImageIdentity,
    name: Option<String>,
    backend: BridgeBackend,
    held: &ExactHandle,
    domain: Option<DomainHandle>,
)
    requires
        call_ensures(ExactHandle::from_raw, (raw, path), handle),
        call_ensures(ExactHandle::path, (&handle,), told),
        call_ensures(ExactHandle::identity, (&handle,), identity),
        text@ == path@,
        call_ensures(file_name, (text,), name),
        call_ensures(BridgeBackend::new, (handle,), backend),
        call_ensures(BridgeBackend::handle, (&backend,), held),
        call_ensures(BridgeBackend::domain, (&backend,), domain),
    ensures
        told@ == path@,
        handle.address() == raw,
        identity.handle.0 == raw,
        name matches Some(name) ==> identity.name@ == name@,
        name is None ==> identity.name@.len() == 0,
        *held == handle,
        domain is None,
{
}

/// `units` are the code units of the managed string at `ptr`: as many as its
/// length word says, one after the other behind that word.
pub open spec fn are_units_at<L: FnOnce(usize) -> i32, U: Fn(usize) -> u16>(
    units: Seq<u16>,
    ptr: usize,
    read_length: L,
    read_unit: U,
    length: i32,
) -> bool {
    &&& read_length.ensures(((ptr + 0x10) as usize,), length)
    &&& length <= 0 ==> units.len() == 0
    &&& length > 0 ==> units.len() == length
    &&& forall|i: int|
        0 <= i < units.len() ==> read_unit.ensures(
            ((ptr + 0x14 + 2 * i) as usize,),
            #[trigger] units[i],
        )
}

/// The contents of a managed string are its code units, all of them in order;
/// only a null pointer has none.
pub proof fn string_is_read_whole<L: FnOnce(usize) -> i32, U: Fn(usize) -> u16>(
    ptr: usize,
    read_length: L,
    read_unit: &U,
    r: Option<Vec<u16>>,
)
    requires
        call_ensures(read_il2cpp_string_utf16::<L, U>, (ptr, read_length, read_unit), r),
    ensures
        r is None <==> ptr == 0,
        r matches Some(units) ==> exists|length: i32| #[trigger]
            are_units_at(units@, ptr, read_length, *read_unit, length),
{
    if let Some(units) = r {
        let length = choose|length: i32|
            {
                &&& #[trigger] read_length.ensures(((ptr + 0x10) as usize,), length)
                &&& units.len() == if length > 0 {
                    length as int
                } else {
                    0
                }
                &&& forall|i: int|
                    0 <= i < units.len() ==> read_unit.ensures(
                        (crate::bridge::unit_address(ptr, i),),
                        #[trigger] units[i],
                    )
            };
        assert forall|i: int| 0 <= i < units.len() implies read_unit.ensures(
            ((ptr + 0x14 + 2 * i) as usize,),
            #[trigger] units@[i],
        ) by {
            assert(units[i] == units@[i]);
        }
        assert(are_units_at(units@, ptr, read_length, *read_unit, length));
    }
}

// ---------------------------------------------------------------------------
// Small values
// ---------------------------------------------------------------------------

/// A data root is the path that it was made of, and does not show it in logs.
pub proof fn data_root_hides_its_path(path: String, root: DataRoot, told: &String, shown: String)
    requires
        call_ensures(DataRoot::new, (path,), root),
        call_ensures(DataRoot::path, (&root,), told),
        call_ensures(DataRoot::display, (&root,), shown),
    ensures
        told@ == path@,
        root.root() == path@,
        shown@ == "DataRoot(<documents>)"@,
{
}

/// An attachment is undone exactly where this process made it, and never once
/// it was handed over.
pub proof fn only_own_attachment_is_undone(
    owned: bool,
    guard: AttachGuard,
    released: bool,
    leaked: bool,
)
    requires
        call_ensures(AttachGuard::new, (owned,), guard),
        call_ensures(AttachGuard::release, (guard,), released),
        call_ensures(AttachGuard::leak, (guard,), leaked),
    ensures
        released <==> owned,
        !leaked,
{
}

/// The marker is claimed by the first caller and by no other.
pub proof fn marker_is_claimed_once(
    new: StartMarker,
    marker: &mut StartMarker,
    first: bool,
    later: &mut StartMarker,
    second: bool,
)
    requires
        call_ensures(StartMarker::new, (), new),
        *old(marker) == new,
        call_ensures(StartMarker::claim, (marker,), first),
        *old(later) == *final(marker),
        call_ensures(StartMarker::claim, (later,), second),
    ensures
        first,
        !second,
{
}

/// An event says what it was built of, and nothing of what it was not told.
pub proof fn event_says_what_it_was_told(
    code: CompactEventCode,
    level: CompactLevel,
    event: CompactEvent,
    owner: CompactOwnerId,
    owned: CompactEvent,
    site: CompactSiteId,
    sited: CompactEvent,
    arg0: u64,
    arg1: u64,
    told: CompactEvent,
)
    requires
        call_ensures(CompactEvent::new, (code, level), event),
        call_ensures(CompactEvent::owner, (event, owner), owned),
        call_ensures(CompactEvent::site, (owned, site), sited),
        call_ensures(CompactEvent::args, (sited, arg0, arg1), told),
    ensures
        event.code == code && event.level == level,
        event.owner.0 == 0 && event.site.0 == 0 && event.arg0 == 0 && event.arg1 == 0,
        told.code == code && told.level == level,
        told.owner == owner && told.site == site,
        told.arg0 == arg0 && told.arg1 == arg1,
{
}

/// A new queue of events is empty, has lost none, and holds what it was made
/// for.
pub proof fn new_event_queue_is_empty(capacity: usize, r: CallbackObservability, dropped: u64)
    requires
        0 < capacity < usize::MAX / 2,
        call_ensures(CallbackObservability::with_capacity, (capacity,), r),
        call_ensures(CallbackObservability::dropped, (&r,), dropped),
    ensures
        r.events().len() == 0,
        r.capacity() == capacity,
        dropped == 0,
{
}

/// The codes of the scheduler and of the entry point are eight numbers in a
/// row, and records go to the subsystem of the runtime.
pub proof fn codes_are_numbered_in_a_row()
    ensures
        crate::compact_codes::SCHED_FRAME_ENTERED == 1,
        crate::compact_codes::SCHED_ORIGINAL_CALLED == 2,
        crate::compact_codes::SCHED_ORIGINAL_RETURNED == 3,
        crate::compact_codes::SCHED_NO_PUBLISHED_CONTEXT == 4,
        crate::compact_codes::SCHED_GLOBAL_FAILURE == 5,
        crate::compact_codes::SCHED_THREAD_MISMATCH == 6,
        crate::compact_codes::FFI_ENTRY_PANICKED == 7,
        crate::compact_codes::SCHED_FRAME_DONE == 8,
        crate::observability::SUBSYSTEM@ == "com.shinysongtools.runtime"@,
        crate::observability::CATEGORY@ == "runtime"@,
{
}

} // verus!
