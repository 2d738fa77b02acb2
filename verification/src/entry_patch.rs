//! Function-entry inline patching behind the slot protocol.
//!
//! Swapping a method pointer slot only intercepts callers that dispatch
//! through the slot; directly compiled branches jump straight into the
//! function entry. This module rewrites the entry itself and keeps the same
//! compare-and-swap, readback and ownership contract.
//!
//! The bytes to write, the trampoline and every decision about them are
//! computed here; mapping, protecting and copying pages is left to the
//! caller, which performs one [`PatchWrite`] at a time and reports back.

use vstd::prelude::*;

use crate::arm64::{plan_trampoline, TrampolinePlan, BR_X16, LDR_X16_LITERAL_8};
use crate::error::HookError;
use crate::method_slot::MethodRef;

verus! {

/// Little-endian bytes of one word.
pub open spec fn word_bytes(word: u32) -> Seq<u8> {
    seq![
        (word & 0xFF) as u8,
        ((word >> 8) & 0xFF) as u8,
        ((word >> 16) & 0xFF) as u8,
        ((word >> 24) & 0xFF) as u8,
    ]
}

/// The word with the four little-endian bytes at `at`.
pub open spec fn word_at(bytes: Seq<u8>, at: int) -> u32 {
    (bytes[at] as u32) | ((bytes[at + 1] as u32) << 8) | ((bytes[at + 2] as u32) << 16) | ((bytes[at
        + 3] as u32) << 24)
}

/// Little-endian bytes of `words`.
pub open spec fn code_bytes(words: Seq<u32>) -> Seq<u8>
    decreases words.len(),
{
    if words.len() == 0 {
        Seq::empty()
    } else {
        code_bytes(words.drop_last()) + word_bytes(words.last())
    }
}

/// The whole words of `bytes`; a rest of fewer than four bytes is left out.
pub open spec fn code_words(bytes: Seq<u8>) -> Seq<u32> {
    Seq::new(bytes.len() / 4, |i: int| word_at(bytes, 4 * i))
}

/// A `b` at `entry` reaches `replacement`: a whole number of instructions
/// away, and less than 128 MiB.
pub open spec fn reachable(entry: u64, replacement: u64) -> bool {
    (replacement - entry) % 4 == 0 && -0x800_0000 <= replacement - entry < 0x800_0000
}

/// The words that replace the function entry.
pub open spec fn patch_words(entry: u64, replacement: u64) -> Seq<u32> {
    if reachable(entry, replacement) {
        seq![crate::arm64::branch_word(0b000101, (replacement - entry) / 4)]
    } else {
        crate::arm64::absolute_jump(replacement)
    }
}

fn push_word(buf: &mut Vec<u8>, word: u32)
    ensures
        final(buf)@ == old(buf)@ + word_bytes(word),
{
    buf.push((word & 0xFF) as u8);
    buf.push(((word >> 8) & 0xFF) as u8);
    buf.push(((word >> 16) & 0xFF) as u8);
    buf.push(((word >> 24) & 0xFF) as u8);
    assert(buf@ =~= old(buf)@ + word_bytes(word));
}

/// Little-endian bytes of `words`.
pub fn encode_words(words: &[u32]) -> (r: Vec<u8>)
    ensures
        r@ == code_bytes(words@),
{
    let mut buf: Vec<u8> = Vec::new();
    let mut index: usize = 0;
    assert(words@.take(0) =~= Seq::<u32>::empty());
    while index < words.len()
        invariant
            index <= words.len(),
            buf@ == code_bytes(words@.take(index as int)),
        decreases words.len() - index,
    {
        assert(words@.take(index + 1).drop_last() =~= words@.take(index as int));
        push_word(&mut buf, words[index]);
        index = index + 1;
    }
    assert(words@.take(index as int) =~= words@);
    buf
}

/// The whole words of `bytes`.
pub fn decode_words(bytes: &[u8]) -> (r: Vec<u32>)
    ensures
        r@ == code_words(bytes@),
{
    let mut words: Vec<u32> = Vec::new();
    let count: usize = bytes.len() / 4;
    let mut index: usize = 0;
    while index < count
        invariant
            index <= count,
            count == bytes.len() / 4,
            words.len() == index,
            forall|i: int| 0 <= i < index ==> #[trigger] words[i] == word_at(bytes@, 4 * i),
        decreases count - index,
    {
        let at: usize = 4 * index;
        words.push(
            (bytes[at] as u32) | ((bytes[at + 1] as u32) << 8) | ((bytes[at + 2] as u32) << 16) | ((
            bytes[at + 3] as u32) << 24),
        );
        index = index + 1;
    }
    assert(words@ =~= code_words(bytes@));
    words
}

/// Near `b` within 128 MiB (one displaced instruction), otherwise the
/// 16-byte absolute jump through `x16` (four displaced instructions).
pub fn entry_patch_bytes(entry: u64, replacement: u64) -> (r: Vec<u8>)
    ensures
        r@ == code_bytes(patch_words(entry, replacement)),
        r.len() == if reachable(entry, replacement) {
            4int
        } else {
            16
        },
{
    let forward: bool = replacement >= entry;
    let distance: u64 = if forward {
        replacement - entry
    } else {
        entry - replacement
    };
    let near: bool = distance % 4 == 0 && (distance < 0x800_0000 || (!forward && distance
        == 0x800_0000));
    let mut bytes: Vec<u8> = Vec::new();
    proof {
        reveal_with_fuel(code_bytes, 5);
    }
    if near {
        let words: i64 = if forward {
            (distance / 4) as i64
        } else {
            -((distance / 4) as i64)
        };
        assert(words == (replacement - entry) / 4);
        push_word(&mut bytes, crate::arm64::b_enc(0b000101, words));
        let ghost one = patch_words(entry, replacement);
        assert(one.drop_last() =~= Seq::<u32>::empty());
        assert(bytes@ =~= code_bytes(one));
    } else {
        push_word(&mut bytes, LDR_X16_LITERAL_8);
        push_word(&mut bytes, BR_X16);
        push_word(&mut bytes, (replacement & 0xFFFF_FFFF) as u32);
        push_word(&mut bytes, (replacement >> 32) as u32);
        let ghost four = patch_words(entry, replacement);
        assert(four.drop_last().drop_last().drop_last().drop_last() =~= Seq::<u32>::empty());
        assert(bytes@ =~= code_bytes(four));
    }
    bytes
}

/// Decoding gives back the words that were encoded.
pub proof fn code_round_trip(words: Seq<u32>)
    ensures
        code_bytes(words).len() == 4 * words.len(),
        code_words(code_bytes(words)) == words,
    decreases words.len(),
{
    if words.len() > 0 {
        code_round_trip(words.drop_last());
        let head = code_bytes(words.drop_last());
        let bytes = code_bytes(words);
        assert forall|i: int| 0 <= i < words.len() implies word_at(bytes, 4 * i) == words[i] by {
            if i < words.len() - 1 {
                assert(code_words(head)[i] == words.drop_last()[i]);
            } else {
                let word = words.last();
                assert(((word & 0xFF) as u8) as u32 | ((((word >> 8) & 0xFF) as u8) as u32) << 8 | (((
                (word >> 16) & 0xFF) as u8) as u32) << 16 | ((((word >> 24) & 0xFF) as u8) as u32)
                    << 24 == word) by (bit_vector);
                assert(bytes[4 * i] == word_bytes(word)[0]);
                assert(bytes[4 * i + 1] == word_bytes(word)[1]);
                assert(bytes[4 * i + 2] == word_bytes(word)[2]);
                assert(bytes[4 * i + 3] == word_bytes(word)[3]);
            }
        }
        assert(code_words(bytes) =~= words);
    }
}

/// The patched entry goes to the replacement: a near patch is one `b` to it,
/// a far patch loads the literal behind the jump, and that is the replacement.
pub proof fn patch_reaches_replacement(entry: u64, replacement: u64)
    ensures
        ({
            let words = patch_words(entry, replacement);
            if reachable(entry, replacement) {
                words.len() == 1 && crate::arm64::decoded(words[0], entry) == Some(
                    crate::arm64::Plan::B { target: replacement },
                )
            } else {
                &&& words.len() == 4
                &&& words[0] == LDR_X16_LITERAL_8
                &&& words[1] == BR_X16
                &&& words[2] + 0x1_0000_0000 * words[3] == replacement
            }
        }),
{
    if reachable(entry, replacement) {
        crate::arm64::branch_round_trip(false, (replacement - entry) / 4, entry);
    } else {
        assert(((replacement & 0xFFFF_FFFF) as u32) + 0x1_0000_0000 * ((replacement >> 32) as u32)
            == replacement) by (bit_vector);
    }
}

// ---------------------------------------------------------------------------
// Page replacement
// ---------------------------------------------------------------------------

/// The page size that the system reported.
pub fn page_size(value: i64) -> (r: Result<u64, HookError>)
    ensures
        value > 0 ==> r is Ok && r->Ok_0 == value,
        value <= 0 ==> r is Err && r->Err_0 == HookError::EntryPatchUnsupported(
            "page size unavailable",
        ),
{
    if value <= 0 {
        return Err(HookError::EntryPatchUnsupported("page size unavailable"));
    }
    Ok(value as u64)
}

/// Cache line size that instruction synchronisation steps by.
pub const CACHE_LINE: u64 = 64;

/// First cache line of the `len` bytes at `start`, and the first line behind
/// them.
pub fn sync_range(start: u64, len: u64) -> (r: (u64, u64))
    requires
        start + len + CACHE_LINE <= u64::MAX,
    ensures
        r.0 % CACHE_LINE == 0 && r.1 % CACHE_LINE == 0,
        r.0 <= start < r.0 + CACHE_LINE,
        start + len <= r.1 < start + len + CACHE_LINE,
{
    let first: u64 = start & !(CACHE_LINE - 1);
    let reach: u64 = start + len + CACHE_LINE - 1;
    let end: u64 = reach & !(CACHE_LINE - 1);
    assert(forall|x: u64| #[trigger] (x & !63u64) == x - x % 64) by (bit_vector);
    (first, end)
}

/// A full-page replacement of the code at one address, step by step. Every
/// step is performed by the caller, which reports whether it succeeded.
#[derive(Debug, Clone, Copy, PartialEq, Eq, Structural)]
pub enum RemapStep {
    /// Make the staging page writable.
    OpenStage,
    /// Copy the target page into the staging page, put the patch over it and
    /// make the staging page executable.
    SealStage,
    /// Map the staging page over the target page.
    Remap,
    /// Synchronise the instruction cache and read the patched bytes back.
    ReadBack,
}

/// Where a patch lies: its page, the offset in that page and its length.
#[derive(Debug, Clone, Copy, PartialEq, Eq, Structural)]
pub struct RemapSite {
    pub page: u64,
    pub offset: u64,
    pub len: u64,
    pub page_size: u64,
}

/// Start of the page that holds `addr`.
pub open spec fn page_of(addr: u64, page_size: u64) -> u64 {
    addr & !((page_size - 1) as u64)
}

/// The page that holds a patch of `len` bytes at `addr`. A patch never
/// crosses a page boundary.
pub fn remap_site(addr: u64, len: u64, page_size: u64) -> (r: Result<RemapSite, HookError>)
    requires
        page_size > 0,
    ensures
        ({
            let page = page_of(addr, page_size);
            if addr - page + len > page_size {
                r is Err && r->Err_0 == HookError::EntryPatchUnsupported(
                    "patch crosses a page boundary",
                )
            } else {
                r is Ok && r->Ok_0 == (RemapSite {
                    page,
                    offset: (addr - page) as u64,
                    len,
                    page_size,
                })
            }
        }),
        r is Ok ==> r->Ok_0.page + r->Ok_0.offset == addr && r->Ok_0.offset + len <= page_size,
{
    let mask: u64 = !(page_size - 1);
    let page: u64 = addr & mask;
    assert(page <= addr) by (bit_vector)
        requires
            page == addr & mask,
    ;
    let offset: u64 = addr - page;
    if offset > page_size || len > page_size - offset {
        return Err(HookError::EntryPatchUnsupported("patch crosses a page boundary"));
    }
    Ok(RemapSite { page, offset, len, page_size })
}

impl RemapStep {
    /// The step after `self`, given whether `self` succeeded; `None` once the
    /// page is in place and the readback is left to [`confirm_patch`].
    pub fn next(self, done: bool) -> (r: Result<Option<RemapStep>, HookError>)
        ensures
            !done ==> r is Err && r->Err_0 == HookError::InstallationFailed,
            done ==> r is Ok && r->Ok_0 == match self {
                RemapStep::OpenStage => Some(RemapStep::SealStage),
                RemapStep::SealStage => Some(RemapStep::Remap),
                RemapStep::Remap => Some(RemapStep::ReadBack),
                RemapStep::ReadBack => None,
            },
    {
        if !done {
            return Err(HookError::InstallationFailed);
        }
        Ok(
            match self {
                RemapStep::OpenStage => Some(RemapStep::SealStage),
                RemapStep::SealStage => Some(RemapStep::Remap),
                RemapStep::Remap => Some(RemapStep::ReadBack),
                RemapStep::ReadBack => None,
            },
        )
    }
}

/// Content of the staging page: the target page with the patch over it.
pub fn staged_page(target: &[u8], site: &RemapSite, patch: &[u8]) -> (r: Vec<u8>)
    requires
        target.len() == site.page_size,
        patch.len() == site.len,
        site.offset + site.len <= site.page_size,
    ensures
        r.len() == target.len(),
        forall|i: int|
            0 <= i < target.len() ==> #[trigger] r[i] == if site.offset <= i < site.offset
                + patch.len() {
                patch[i - site.offset]
            } else {
                target[i]
            },
{
    let mut page: Vec<u8> = Vec::new();
    page.extend_from_slice(target);
    let start: usize = site.offset as usize;
    let mut index: usize = 0;
    while index < patch.len()
        invariant
            index <= patch.len(),
            start == site.offset,
            start + patch.len() <= target.len(),
            page.len() == target.len(),
            forall|i: int|
                0 <= i < target.len() ==> #[trigger] page[i] == if start <= i < start + index {
                    patch[i - start]
                } else {
                    target[i]
                },
        decreases patch.len() - index,
    {
        page.set(start + index, patch[index]);
        index = index + 1;
    }
    page
}

/// Integrity check of a patch: the bytes read back are the bytes written.
pub fn confirm_patch(written: &[u8], got: &[u8]) -> (r: Result<(), HookError>)
    ensures
        r is Ok <==> written@ == got@,
        r is Err ==> r->Err_0 == HookError::InstallationFailed,
{
    if written.len() != got.len() {
        return Err(HookError::InstallationFailed);
    }
    let mut index: usize = 0;
    while index < written.len()
        invariant
            index <= written.len(),
            written.len() == got.len(),
            written@.take(index as int) == got@.take(index as int),
        decreases written.len() - index,
    {
        if written[index] != got[index] {
            return Err(HookError::InstallationFailed);
        }
        assert(written@.take(index + 1) =~= got@.take(index + 1)) by {
            assert(forall|i: int|
                0 <= i < index ==> written@.take(index as int)[i] == got@.take(index as int)[i]);
        }
        index = index + 1;
    }
    assert(written@.take(index as int) =~= written@);
    assert(got@.take(index as int) =~= got@);
    Ok(())
}

// ---------------------------------------------------------------------------
// The entry as a slot
// ---------------------------------------------------------------------------

/// A function entry to be patched, and the bytes that will replace it.
pub struct EntryPatchSite {
    entry: usize,
    replacement: usize,
    patch: Vec<u8>,
}

impl EntryPatchSite {
    pub closed spec fn entry(self) -> usize {
        self.entry
    }

    pub closed spec fn replacement(self) -> usize {
        self.replacement
    }

    pub closed spec fn patch(self) -> Seq<u8> {
        self.patch@
    }

    pub closed spec fn wf(self) -> bool {
        &&& self.entry != 0 && self.entry % 4 == 0
        &&& self.patch@ == code_bytes(patch_words(self.entry as u64, self.replacement as u64))
        &&& self.patch.len() == if reachable(self.entry as u64, self.replacement as u64) {
            4int
        } else {
            16
        }
    }

    /// Address of the word that holds the entry address of `method`.
    pub fn slot_address(method: &MethodRef, align: usize) -> (r: Result<usize, HookError>)
        requires
            align > 0,
        ensures
            ({
                let slot = method.method_pointer_slot;
                if slot == 0 || slot as int % align as int != 0 {
                    r is Err && r->Err_0 == HookError::SlotMalformed
                } else {
                    r is Ok && r->Ok_0 == slot
                }
            }),
    {
        let slot: usize = method.method_pointer_slot;
        if slot == 0 || slot % align != 0 {
            return Err(HookError::SlotMalformed);
        }
        Ok(slot)
    }

    /// The entry address read from the slot, and the address to divert to.
    pub fn new(entry: usize, replacement: usize) -> (r: Result<Self, HookError>)
        ensures
            entry == 0 || entry % 4 != 0 ==> r is Err && r->Err_0 == HookError::SlotMalformed,
            entry != 0 && entry % 4 == 0 ==> {
                &&& r is Ok
                &&& r->Ok_0.wf()
                &&& r->Ok_0.entry() == entry
                &&& r->Ok_0.replacement() == replacement
                &&& r->Ok_0.patch() == code_bytes(patch_words(entry as u64, replacement as u64))
            },
    {
        if entry == 0 || entry % 4 != 0 {
            return Err(HookError::SlotMalformed);
        }
        let patch: Vec<u8> = entry_patch_bytes(entry as u64, replacement as u64);
        Ok(EntryPatchSite { entry, replacement, patch })
    }

    /// Number of bytes that the patch displaces.
    pub fn displaced(&self) -> (r: usize)
        ensures
            r == self.patch().len(),
    {
        self.patch.len()
    }

    /// Plans the trampoline for the displaced bytes `original`.
    pub fn relocate(&self, original: &[u8]) -> (r: Result<TrampolinePlan, HookError>)
        requires
            self.wf(),
            original.len() == self.patch().len(),
            self.entry() + 16 <= u64::MAX,
        ensures
            ({
                let entry = self.entry() as u64;
                let ops = code_words(original@);
                &&& r is Ok <==> crate::arm64::relocatable(entry, ops)
                &&& r is Ok ==> r->Ok_0.wf() && r->Ok_0.entry() == entry && r->Ok_0.ops() == ops
                &&& r is Err ==> exists|i: int|
                    #[trigger] crate::arm64::first_refused(entry, ops, i)
                        && crate::arm64::refused_with(r->Err_0, ops[i])
            }),
    {
        let ops: Vec<u32> = decode_words(original);
        plan_trampoline(self.entry as u64, &ops)
    }
}

/// A write of the entry that a compare-and-swap asks for.
#[derive(Debug, Clone, Copy, PartialEq, Eq, Structural)]
pub struct PatchWrite {
    /// Whether the original bytes go back, or the patch goes in.
    pub restores: bool,
    /// The state word that is swapped in when the write succeeds.
    pub new: usize,
}

/// A function entry behind the slot protocol. The state word is virtual:
/// pristine is the trampoline address, installed is the replacement address.
pub struct EntryPatchMemory {
    entry: usize,
    replacement: usize,
    trampoline: usize,
    patch: Vec<u8>,
    original: Vec<u8>,
    installed: bool,
    failure: Option<&'static str>,
}

impl EntryPatchMemory {
    pub closed spec fn entry(self) -> usize {
        self.entry
    }

    pub closed spec fn replacement(self) -> usize {
        self.replacement
    }

    pub closed spec fn trampoline(self) -> usize {
        self.trampoline
    }

    pub closed spec fn installed(self) -> bool {
        self.installed
    }

    pub closed spec fn failure(self) -> Option<&'static str> {
        self.failure
    }

    /// The bytes at the entry while it is patched, or while it is not.
    pub closed spec fn bytes(self, restores: bool) -> Seq<u8> {
        if restores {
            self.original@
        } else {
            self.patch@
        }
    }

    /// The virtual state word.
    pub open spec fn word(self) -> usize {
        if self.installed() {
            self.replacement()
        } else {
            self.trampoline()
        }
    }

    /// Everything but the installed flag and the last failure is as in `other`.
    pub open spec fn same_site(self, other: Self) -> bool {
        &&& self.entry() == other.entry()
        &&& self.replacement() == other.replacement()
        &&& self.trampoline() == other.trampoline()
        &&& self.bytes(true) == other.bytes(true)
        &&& self.bytes(false) == other.bytes(false)
    }

    /// A pristine entry with its trampoline in place.
    pub fn new(site: EntryPatchSite, original: Vec<u8>, trampoline: usize) -> (r: Self)
        ensures
            r.entry() == site.entry(),
            r.replacement() == site.replacement(),
            r.trampoline() == trampoline,
            r.bytes(false) == site.patch(),
            r.bytes(true) == original@,
            !r.installed(),
            r.failure() is None,
    {
        EntryPatchMemory {
            entry: site.entry,
            replacement: site.replacement,
            trampoline,
            patch: site.patch,
            original,
            installed: false,
            failure: None,
        }
    }

    /// Description of the last physical patch failure, for diagnostics.
    pub fn last_failure(&self) -> (r: Option<&'static str>)
        ensures
            r == self.failure(),
    {
        self.failure
    }

    fn state_word(&self) -> (r: usize)
        ensures
            r == self.word(),
    {
        if self.installed {
            self.replacement
        } else {
            self.trampoline
        }
    }

    /// Current state word; an entry can always be read.
    pub fn read(&self) -> (r: Option<usize>)
        ensures
            r == Some(self.word()),
    {
        Some(self.state_word())
    }

    /// First half of a compare-and-swap: the write that it takes, or the
    /// current word where the swap is refused. Only the two words of this
    /// site can be swapped in, each from the other.
    pub fn begin_exchange(&self, expected: usize, new: usize) -> (r: Result<PatchWrite, usize>)
        ensures
            match planned_write(*self, expected, new) {
                Some(write) => r is Ok && r->Ok_0 == write,
                None => r is Err && r->Err_0 == self.word(),
            },
    {
        let current: usize = self.state_word();
        if expected != current {
            return Err(current);
        }
        if new == self.replacement && !self.installed {
            Ok(PatchWrite { restores: false, new })
        } else if new == self.trampoline && self.installed {
            Ok(PatchWrite { restores: true, new })
        } else {
            Err(current)
        }
    }

    /// The address that `write` goes to, and the bytes that go there.
    pub fn write_bytes(&self, write: &PatchWrite) -> (r: (usize, &[u8]))
        ensures
            r.0 == self.entry(),
            r.1@ == self.bytes(write.restores),
    {
        if write.restores {
            (self.entry, self.original.as_slice())
        } else {
            (self.entry, self.patch.as_slice())
        }
    }

    /// Second half of a compare-and-swap: `written` is how the write went. A
    /// failed write leaves the state word as it was and is kept for
    /// diagnostics.
    pub fn finish_exchange(&mut self, write: &PatchWrite, written: Result<(), HookError>) -> (r:
        Result<(), usize>)
        ensures
            written_outcome(*old(self), *final(self), *write, written, r),
    {
        match written {
            Ok(()) => {
                self.installed = write.new == self.replacement;
                Ok(())
            },
            Err(_) => {
                self.failure = if write.restores {
                    Some("entry restore write failed")
                } else {
                    Some("entry patch write failed")
                };
                Err(self.state_word())
            },
        }
    }

    /// Compare-and-swap of the state word. `writer` copies bytes over the code
    /// at an address; it is called at most once, and only where the swap is
    /// allowed.
    pub fn compare_exchange<W: FnOnce(usize, &[u8]) -> Result<(), HookError>>(
        &mut self,
        expected: usize,
        new: usize,
        writer: W,
    ) -> (r: Result<(), usize>)
        requires
            planned_write(*old(self), expected, new) matches Some(write) ==> forall|code: &[u8]|
                code@ == old(self).bytes(write.restores) ==> #[trigger] writer.requires(
                    (old(self).entry(), code),
                ),
        ensures
            match planned_write(*old(self), expected, new) {
                None => *final(self) == *old(self) && r is Err && r->Err_0 == old(self).word(),
                Some(write) => exists|code: &[u8], written: Result<(), HookError>|
                    code@ == old(self).bytes(write.restores) && #[trigger] writer.ensures(
                        (old(self).entry(), code),
                        written,
                    ) && written_outcome(*old(self), *final(self), write, written, r),
            },
    {
        let write: PatchWrite = match self.begin_exchange(expected, new) {
            Ok(write) => write,
            Err(current) => return Err(current),
        };
        let (entry, code) = self.write_bytes(&write);
        let written = writer(entry, code);
        let ghost outcome = written;
        let r = self.finish_exchange(&write, written);
        assert(writer.ensures((entry, code), outcome));
        r
    }
}

/// The write that swapping `expected` for `new` takes, if the swap is allowed.
pub open spec fn planned_write(
    memory: EntryPatchMemory,
    expected: usize,
    new: usize,
) -> Option<PatchWrite> {
    if expected != memory.word() {
        None
    } else if new == memory.replacement() && !memory.installed() {
        Some(PatchWrite { restores: false, new })
    } else if new == memory.trampoline() && memory.installed() {
        Some(PatchWrite { restores: true, new })
    } else {
        None
    }
}

/// State and reply after `write` was performed with the outcome `written`.
pub open spec fn written_outcome(
    before: EntryPatchMemory,
    after: EntryPatchMemory,
    write: PatchWrite,
    written: Result<(), HookError>,
    reply: Result<(), usize>,
) -> bool {
    &&& after.same_site(before)
    &&& written is Ok ==> {
        &&& reply is Ok
        &&& after.installed() == (write.new == before.replacement())
        &&& after.failure() == before.failure()
    }
    &&& written is Err ==> {
        &&& reply is Err && reply->Err_0 == before.word()
        &&& after.installed() == before.installed()
        &&& after.failure() == Some(
            if write.restores {
                "entry restore write failed"
            } else {
                "entry patch write failed"
            },
        )
    }
}

/// A compare-and-swap on an entry keeps the slot contract: when the write goes
/// through, the word is the new one, and swapping back is allowed again.
pub proof fn entry_keeps_slot_contract(
    before: EntryPatchMemory,
    after: EntryPatchMemory,
    expected: usize,
    new: usize,
    written: Result<(), HookError>,
    reply: Result<(), usize>,
)
    requires
        before.replacement() != before.trampoline(),
        planned_write(before, expected, new) is Some,
        written_outcome(
            before,
            after,
            planned_write(before, expected, new)->Some_0,
            written,
            reply,
        ),
    ensures
        before.word() == expected,
        written is Ok ==> reply is Ok && after.word() == new && planned_write(
            after,
            new,
            expected,
        ) is Some,
        written is Err ==> reply is Err && after.word() == before.word(),
{
}

} // verus!
