//! What holds of entry patches, by what the machine does with them.

use vstd::prelude::*;

use crate::arm64::TrampolinePlan;
use crate::entry_patch::{
    confirm_patch, decode_words, encode_words, entry_patch_bytes, page_size, remap_site,
    staged_page, sync_range, EntryPatchMemory, EntryPatchSite, PatchWrite, RemapSite, RemapStep,
};
use crate::error::HookError;
use crate::machine::Cpu;
use crate::method_slot::MethodRef;

verus! {

// ---------------------------------------------------------------------------
// Code bytes
// ---------------------------------------------------------------------------

/// `bytes` spell `words`, each in four bytes, the lowest first.
pub open spec fn spells(bytes: Seq<u8>, words: Seq<u32>) -> bool {
    &&& bytes.len() >= 4 * words.len()
    &&& forall|i: int|
        0 <= i < words.len() ==> #[trigger] words[i] == bytes[4 * i] + 0x100 * bytes[4 * i + 1]
            + 0x1_0000 * bytes[4 * i + 2] + 0x100_0000 * bytes[4 * i + 3]
}

proof fn lemma_word_at(bytes: Seq<u8>, at: int)
    ensures
        crate::entry_patch::word_at(bytes, at) == bytes[at] + 0x100 * bytes[at + 1] + 0x1_0000
            * bytes[at + 2] + 0x100_0000 * bytes[at + 3],
{
    let (a, b, c, d) = (bytes[at], bytes[at + 1], bytes[at + 2], bytes[at + 3]);
    assert((a as u32) | ((b as u32) << 8) | ((c as u32) << 16) | ((d as u32) << 24) == a + 0x100 * b
        + 0x1_0000 * c + 0x100_0000 * d) by (bit_vector);
}

proof fn lemma_spells(words: Seq<u32>)
    ensures
        crate::entry_patch::code_bytes(words).len() == 4 * words.len(),
        spells(crate::entry_patch::code_bytes(words), words),
{
    crate::entry_patch::code_round_trip(words);
    let bytes = crate::entry_patch::code_bytes(words);
    assert forall|i: int| 0 <= i < words.len() implies #[trigger] words[i] == bytes[4 * i] + 0x100
        * bytes[4 * i + 1] + 0x1_0000 * bytes[4 * i + 2] + 0x100_0000 * bytes[4 * i + 3] by {
        lemma_word_at(bytes, 4 * i);
        assert(crate::entry_patch::code_words(bytes)[i] == words[i]);
    }
}

/// Words are encoded so that their bytes spell them, and no more.
pub proof fn encoded_bytes_spell_the_words(words: &[u32], r: Vec<u8>)
    requires
        call_ensures(encode_words, (words,), r),
    ensures
        r.len() == 4 * words.len(),
        spells(r@, words@),
{
    lemma_spells(words@);
}

/// Bytes are decoded into the words that they spell, as many as are whole.
pub proof fn decoded_words_are_spelled(bytes: &[u8], r: Vec<u32>)
    requires
        call_ensures(decode_words, (bytes,), r),
    ensures
        4 * r.len() <= bytes.len() < 4 * r.len() + 4,
        spells(bytes@, r@),
{
    assert forall|i: int| 0 <= i < r.len() implies #[trigger] r@[i] == bytes@[4 * i] + 0x100
        * bytes@[4 * i + 1] + 0x1_0000 * bytes@[4 * i + 2] + 0x100_0000 * bytes@[4 * i + 3] by {
        lemma_word_at(bytes@, 4 * i);
    }
}

/// `words` are code that, run from `entry`, goes to `replacement` and touches
/// at most `x16`.
pub open spec fn diverts(words: Seq<u32>, entry: int, replacement: int) -> bool {
    forall|cpu: Cpu|
        cpu.pc == entry ==> exists|n: nat|
            {
                let end = #[trigger] crate::machine::run(words, entry, cpu, n);
                &&& end is Some
                &&& end->Some_0 == (Cpu { pc: replacement, x: end->Some_0.x, ..cpu })
                &&& end->Some_0.x == cpu.x || end->Some_0.x == cpu.x.insert(16, replacement)
            }
}

proof fn lemma_diverts(entry: u64, replacement: u64)
    requires
        entry + 16 < 0x1_0000_0000_0000_0000,
    ensures
        diverts(
            crate::entry_patch::patch_words(entry, replacement),
            entry as int,
            replacement as int,
        ),
{
    let words = crate::entry_patch::patch_words(entry, replacement);
    let e = entry as int;
    crate::entry_patch::patch_reaches_replacement(entry, replacement);
    assert forall|cpu: Cpu| cpu.pc == e implies exists|n: nat|
        {
            let end = #[trigger] crate::machine::run(words, e, cpu, n);
            &&& end is Some
            &&& end->Some_0 == (Cpu { pc: replacement as int, x: end->Some_0.x, ..cpu })
            &&& end->Some_0.x == cpu.x || end->Some_0.x == cpu.x.insert(16, replacement as int)
        } by {
        if crate::entry_patch::reachable(entry, replacement) {
            crate::trampoline_laws::lemma_decoded(words[0], entry);
            crate::trampoline_laws::lemma_always_taken(words[0], cpu);
            let next = crate::machine::branched(words[0], cpu);
            crate::trampoline_laws::lemma_kinds(words[0]);
            assert(crate::machine::step(words, e, cpu) == Some(next));
            assert(crate::machine::run(words, e, next, 0) == Some(next));
            assert(crate::machine::run(words, e, cpu, 1) == Some(next));
            assert(next =~= Cpu { pc: replacement as int, x: cpu.x, ..cpu });
        } else {
            crate::trampoline_laws::lemma_run_absolute_jump(words, e, 0, cpu, replacement);
            let end = crate::machine::run(words, e, cpu, 2);
            assert(end is Some);
        }
    }
}

/// A patched entry goes to the replacement, wherever the two lie, and touches
/// at most `x16`. It takes one instruction where a branch reaches that far,
/// and four where none does.
pub proof fn patched_entry_goes_to_the_replacement(
    entry: u64,
    replacement: u64,
    r: Vec<u8>,
    bytes: &[u8],
    words: Vec<u32>,
)
    requires
        call_ensures(entry_patch_bytes, (entry, replacement), r),
        call_ensures(decode_words, (bytes,), words),
        bytes@ == r@,
        entry + 16 < 0x1_0000_0000_0000_0000,
    ensures
        r.len() == 4 * words.len(),
        diverts(words@, entry as int, replacement as int),
        ({
            let distance = replacement - entry;
            r.len() == if distance % 4 == 0 && -0x800_0000 <= distance < 0x800_0000 {
                4int
            } else {
                16
            }
        }),
{
    let expected = crate::entry_patch::patch_words(entry, replacement);
    crate::entry_patch::code_round_trip(expected);
    lemma_diverts(entry, replacement);
    assert(words@ == expected);
}

// ---------------------------------------------------------------------------
// Pages
// ---------------------------------------------------------------------------

/// A page size is what the system reported, if that is one.
pub proof fn page_size_is_as_reported(value: i64, r: Result<u64, HookError>)
    requires
        call_ensures(page_size, (value,), r),
    ensures
        r is Ok <==> value > 0,
        r matches Ok(size) ==> size == value,
        r matches Err(error) ==> error == HookError::EntryPatchUnsupported("page size unavailable"),
{
}

/// What is synchronised is whole cache lines of 64 bytes: all that hold the
/// code, and none beside.
pub proof fn synchronised_lines_cover_the_code(start: u64, len: u64, r: (u64, u64))
    requires
        call_ensures(sync_range, (start, len), r),
        start + len + 64 <= u64::MAX,
    ensures
        r.0 % 64 == 0,
        r.1 % 64 == 0,
        r.0 <= start,
        start - r.0 < 64,
        start + len <= r.1,
        r.1 - (start + len) < 64,
{
}

/// The pages are a partition: an address lies in its page, less than a page
/// size from the start, and every address there has the same page. A patch has
/// a site exactly where it ends in the page that it starts in, and the site
/// is where it lies.
pub proof fn patch_lies_in_one_page(
    addr: u64,
    len: u64,
    size: u64,
    r: Result<RemapSite, HookError>,
    other: u64,
    other_len: u64,
    s: Result<RemapSite, HookError>,
)
    requires
        call_ensures(remap_site, (addr, len, size), r),
        call_ensures(remap_site, (other, other_len, size), s),
        size > 0,
        size & ((size - 1) as u64) == 0,
    ensures
        r matches Ok(site) ==> {
            &&& site.page <= addr < site.page + size
            &&& site.page + site.offset == addr
            &&& site.offset + len <= size
            &&& site.len == len && site.page_size == size
            &&& s matches Ok(site2) ==> (site2.page == site.page <==> site.page <= other
                < site.page + size)
        },
        r matches Err(error) ==> error == HookError::EntryPatchUnsupported(
            "patch crosses a page boundary",
        ),
        len == 0 ==> r is Ok,
        r is Ok && s is Ok && addr <= other && r->Ok_0.page == s->Ok_0.page && other + other_len
            <= addr + len ==> other + other_len <= r->Ok_0.page + size,
        r is Err && s is Ok && s->Ok_0.page <= addr < s->Ok_0.page + size ==> addr + len
            > s->Ok_0.page + size,
{
    let mask = (size - 1) as u64;
    let page = crate::entry_patch::page_of(addr, size);
    let page2 = crate::entry_patch::page_of(other, size);
    assert(page <= addr && addr - page < size && page2 <= other && other - page2 < size && (page
        <= other && other - page < size ==> page2 == page) && (page2 <= addr && addr - page2 < size
        ==> page2 == page)) by (bit_vector)
        requires
            size > 0,
            mask == size - 1,
            size & mask == 0,
            page == addr & !mask,
            page2 == other & !mask,
    ;
}

/// A page is replaced in four steps, each after the one before it has
/// succeeded; the first failure ends it.
pub proof fn page_is_replaced_step_by_step(
    step: RemapStep,
    done: bool,
    r: Result<Option<RemapStep>, HookError>,
)
    requires
        call_ensures(RemapStep::next, (step, done), r),
    ensures
        r is Ok <==> done,
        r matches Err(error) ==> error == HookError::InstallationFailed,
        r matches Ok(next) ==> {
            &&& step == RemapStep::OpenStage <==> next == Some(RemapStep::SealStage)
            &&& step == RemapStep::SealStage <==> next == Some(RemapStep::Remap)
            &&& step == RemapStep::Remap <==> next == Some(RemapStep::ReadBack)
            &&& step == RemapStep::ReadBack <==> next is None
        },
{
}

/// The staged page is the page with the patch in its place and nothing else
/// changed, and only that page is confirmed against the patch.
pub proof fn staged_page_holds_the_patch(
    target: &[u8],
    site: &RemapSite,
    patch: &[u8],
    r: Vec<u8>,
    got: &[u8],
    confirmed: Result<(), HookError>,
)
    requires
        call_ensures(staged_page, (target, site, patch), r),
        call_ensures(confirm_patch, (patch, got), confirmed),
        target.len() == site.page_size,
        patch.len() == site.len,
        site.offset + site.len <= site.page_size,
    ensures
        r@ == target@.take(site.offset as int) + patch@ + target@.skip(site.offset + site.len),
        confirmed is Ok <==> got@ == r@.subrange(site.offset as int, site.offset + site.len),
        confirmed matches Err(error) ==> error == HookError::InstallationFailed,
{
    let whole = target@.take(site.offset as int) + patch@ + target@.skip(site.offset + site.len);
    assert(whole.len() == target@.len());
    assert(r@ =~= whole) by {
        assert forall|i: int| 0 <= i < r@.len() implies r@[i] == whole[i] by {
            assert(r[i] == r@[i]);
        }
    }
    assert(r@.subrange(site.offset as int, site.offset + site.len) =~= patch@);
}

// ---------------------------------------------------------------------------
// The entry as a slot
// ---------------------------------------------------------------------------

/// An entry can be patched exactly where it is an instruction address; the
/// patch then diverts it to the replacement.
pub proof fn site_is_an_instruction(
    entry: usize,
    replacement: usize,
    r: Result<EntryPatchSite, HookError>,
)
    requires
        call_ensures(EntryPatchSite::new, (entry, replacement), r),
        entry + 16 < 0x1_0000_0000_0000_0000,
    ensures
        r is Ok <==> entry > 0 && entry % 4 == 0,
        r matches Err(error) ==> error == HookError::SlotMalformed,
        r matches Ok(site) ==> {
            &&& site.entry() == entry
            &&& site.replacement() == replacement
            &&& exists|words: Seq<u32>| #[trigger]
                spells(site.patch(), words) && site.patch().len() == 4 * words.len() && diverts(
                    words,
                    entry as int,
                    replacement as int,
                )
        },
{
    if r is Ok {
        let words = crate::entry_patch::patch_words(entry as u64, replacement as u64);
        lemma_spells(words);
        lemma_diverts(entry as u64, replacement as u64);
    }
}

/// The slot of a method is used exactly where it is there and aligned.
pub proof fn slot_is_there_and_aligned(
    method: &MethodRef,
    align: usize,
    r: Result<usize, HookError>,
)
    requires
        call_ensures(EntryPatchSite::slot_address, (method, align), r),
        align > 0,
    ensures
        r matches Ok(slot) ==> slot == method.method_pointer_slot && slot > 0 && slot as int
            % align as int == 0,
        r matches Err(error) ==> error == HookError::SlotMalformed && (method.method_pointer_slot
            == 0 || method.method_pointer_slot as int % align as int != 0),
{
}

/// The displaced code can be relocated exactly where none of its instructions
/// reads its own address; as many bytes are displaced as the patch is long.
pub proof fn displaced_code_is_relocated(
    site: &EntryPatchSite,
    displaced: usize,
    original: &[u8],
    r: Result<TrampolinePlan, HookError>,
    words: Vec<u32>,
)
    requires
        call_ensures(EntryPatchSite::displaced, (site,), displaced),
        call_ensures(EntryPatchSite::relocate, (site, original), r),
        call_ensures(decode_words, (original,), words),
    ensures
        displaced == site.patch().len(),
        r is Ok <==> forall|i: int|
            0 <= i < words.len() ==> !crate::machine::is_address(#[trigger] words@[i])
                && !crate::machine::is_literal(words@[i]),
        r matches Ok(plan) ==> plan.entry() == site.entry() && plan.ops() == words@,
{
    let entry = site.entry() as u64;
    assert forall|i: int| 0 <= i < words.len() implies (crate::arm64::decoded(
        #[trigger] words@[i],
        crate::arm64::pc_of(entry, i),
    ) is None <==> crate::machine::is_address(words@[i]) || crate::machine::is_literal(
        words@[i],
    )) by {
        crate::trampoline_laws::lemma_decoded(words@[i], crate::arm64::pc_of(entry, i));
    }
}

/// A new entry is as the code was: not patched, with the trampoline as its word.
pub proof fn new_entry_is_pristine(
    site: EntryPatchSite,
    original: Vec<u8>,
    trampoline: usize,
    r: EntryPatchMemory,
    word: Option<usize>,
    failure: Option<&'static str>,
)
    requires
        call_ensures(EntryPatchMemory::new, (site, original, trampoline), r),
        call_ensures(EntryPatchMemory::read, (&r,), word),
        call_ensures(EntryPatchMemory::last_failure, (&r,), failure),
    ensures
        word == Some(trampoline),
        failure is None,
        !r.installed(),
        r.entry() == site.entry(),
        r.replacement() == site.replacement(),
        r.bytes(false) == site.patch(),
        r.bytes(true) == original@,
{
}

/// A swap may begin exactly from the word that the entry has to the one that it
/// does not have; else the word is reported. It puts the patch in or the
/// original bytes back, at the entry.
pub proof fn only_the_other_word_is_swapped_in(
    memory: &EntryPatchMemory,
    word: Option<usize>,
    expected: usize,
    new: usize,
    r: Result<PatchWrite, usize>,
    write: &PatchWrite,
    bytes: (usize, &[u8]),
)
    requires
        memory.replacement() != memory.trampoline(),
        call_ensures(EntryPatchMemory::read, (memory,), word),
        call_ensures(EntryPatchMemory::begin_exchange, (memory, expected, new), r),
        call_ensures(EntryPatchMemory::write_bytes, (memory, write), bytes),
        r matches Ok(begun) ==> *write == begun,
    ensures
        word == Some(
            if memory.installed() {
                memory.replacement()
            } else {
                memory.trampoline()
            },
        ),
        r is Ok <==> Some(expected) == word && (new == memory.replacement() || new
            == memory.trampoline()) && new != expected,
        r matches Err(current) ==> Some(current) == word,
        r is Ok ==> {
            &&& write.new == new
            &&& bytes.0 == memory.entry()
            &&& new == memory.replacement() ==> bytes.1@ == memory.bytes(false)
            &&& new == memory.trampoline() ==> bytes.1@ == memory.bytes(true)
        },
{
}

/// A swap that was written has happened: the entry has the new word. One that
/// failed has not, and says which write failed. Nothing else changes.
pub proof fn swap_happens_exactly_when_written(
    memory: &mut EntryPatchMemory,
    expected: usize,
    new: usize,
    begun: Result<PatchWrite, usize>,
    written: Result<(), HookError>,
    r: Result<(), usize>,
)
    requires
        old(memory).replacement() != old(memory).trampoline(),
        call_ensures(EntryPatchMemory::begin_exchange, (&*old(memory), expected, new), begun),
        begun is Ok,
        call_ensures(EntryPatchMemory::finish_exchange, (memory, &begun->Ok_0, written), r),
    ensures
        r is Ok <==> written is Ok,
        written is Ok ==> final(memory).installed() == (new == old(memory).replacement())
            && final(memory).failure() == old(memory).failure(),
        written is Err ==> {
            &&& r->Err_0 == expected
            &&& final(memory).installed() == old(memory).installed()
            &&& final(memory).failure() == Some(
                if new == old(memory).trampoline() {
                    "entry restore write failed"
                } else {
                    "entry patch write failed"
                },
            )
        },
        final(memory).entry() == old(memory).entry(),
        final(memory).replacement() == old(memory).replacement(),
        final(memory).trampoline() == old(memory).trampoline(),
        final(memory).bytes(true) == old(memory).bytes(true),
        final(memory).bytes(false) == old(memory).bytes(false),
{
}

/// Compare-and-swap of an entry. It succeeds only from the expected word and
/// only once the bytes of the new state were written over the entry; from then
/// on the entry has the new word. Where it fails, nothing but the diagnosis has
/// changed, and the word that the entry has is reported.
pub proof fn entry_is_compared_and_swapped<W: FnOnce(usize, &[u8]) -> Result<(), HookError>>(
    memory: &mut EntryPatchMemory,
    expected: usize,
    new: usize,
    writer: W,
    r: Result<(), usize>,
    word: Option<usize>,
    word_after: Option<usize>,
)
    requires
        old(memory).replacement() != old(memory).trampoline(),
        call_ensures(EntryPatchMemory::compare_exchange, (memory, expected, new, writer), r),
        call_ensures(EntryPatchMemory::read, (&*old(memory),), word),
        call_ensures(EntryPatchMemory::read, (&*final(memory),), word_after),
    ensures
        r is Ok ==> {
            &&& word == Some(expected)
            &&& word_after == Some(new)
            &&& new != expected
            &&& final(memory).installed() == (new == old(memory).replacement())
            &&& exists|code: &[u8], written: Result<(), HookError>|
                code@ == old(memory).bytes(new == old(memory).trampoline()) && written is Ok
                    && #[trigger] writer.ensures((old(memory).entry(), code), written)
        },
        r matches Err(current) ==> word == Some(current) && word_after == word,
        word != Some(expected) ==> r is Err && final(memory).failure() == old(memory).failure(),
        word == Some(expected) && new != expected && (new == old(memory).replacement() || new
            == old(memory).trampoline()) ==> exists|code: &[u8], written: Result<(), HookError>|
            {
                &&& code@ == old(memory).bytes(new == old(memory).trampoline())
                &&& #[trigger] writer.ensures((old(memory).entry(), code), written)
                &&& r is Ok <==> written is Ok
                &&& r is Ok ==> final(memory).failure() == old(memory).failure()
                &&& r is Err ==> final(memory).failure() == Some(
                    if new == old(memory).trampoline() {
                        "entry restore write failed"
                    } else {
                        "entry patch write failed"
                    },
                )
            },
        final(memory).entry() == old(memory).entry(),
        final(memory).replacement() == old(memory).replacement(),
        final(memory).trampoline() == old(memory).trampoline(),
        final(memory).bytes(true) == old(memory).bytes(true),
        final(memory).bytes(false) == old(memory).bytes(false),
{
    if let Some(write) = crate::entry_patch::planned_write(*old(memory), expected, new) {
        let (code, written) = choose|code: &[u8], written: Result<(), HookError>|
            code@ == old(memory).bytes(write.restores) && #[trigger] writer.ensures(
                (old(memory).entry(), code),
                written,
            ) && crate::entry_patch::written_outcome(
                *old(memory),
                *final(memory),
                write,
                written,
                r,
            );
        assert(writer.ensures((old(memory).entry(), code), written));
    }
}

} // verus!
