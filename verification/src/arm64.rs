//! AArch64 instruction relocation: decoding one displaced instruction into a
//! relocation plan and emitting the words that stand for it elsewhere.
//!
//! The branch families (`b`, `bl`, `b.cond`, `cbz`/`cbnz`, `tbz`/`tbnz`) are
//! relocated. A branch whose target stays inside the displaced window is
//! re-encoded with an adjusted immediate; a target outside the window is
//! reached by an inverted branch over an absolute jump through `x16`, and by
//! the jump alone where the branch is always taken.
//! `adr`/`adrp` and literal loads are refused, because they would need
//! data-address fixups. Everything else is copied verbatim.

use vstd::prelude::*;

use crate::error::HookError;

verus! {

/// `ldr x16, #8`
pub const LDR_X16_LITERAL_8: u32 = 0x5800_0050;

/// `br x16`
pub const BR_X16: u32 = 0xD61F_0200;

/// `pacibsp`
pub const PACIBSP: u32 = 0xD503_237F;

/// `nop`
pub const NOP: u32 = 0xD503_201F;

/// From this condition on a `b.cond` is always taken, and its inverse is too.
pub const COND_ALWAYS: u32 = 14;

// ---------------------------------------------------------------------------
// Encodings
// ---------------------------------------------------------------------------

/// `b`: the top six bits are `000101`.
pub open spec fn is_b(op: u32) -> bool {
    op >> 26 == 0b000101
}

/// `bl`: the top six bits are `100101`.
pub open spec fn is_bl(op: u32) -> bool {
    op >> 26 == 0b100101
}

/// `b.cond`: the top seven bits are `0101010`.
pub open spec fn is_bcond(op: u32) -> bool {
    op >> 25 == 0b0101010
}

/// `adr` and `adrp`: bits 28 to 24 are `10000`.
pub open spec fn is_adr(op: u32) -> bool {
    (op >> 24) & 0b11111 == 0b10000
}

/// Loads (and prefetches) from a PC-relative literal: bits 29 to 27 are
/// `011` and bits 25 to 24 are `00`; bit 26 selects the vector registers.
pub open spec fn is_literal_load(op: u32) -> bool {
    (op >> 27) & 0b111 == 0b011 && (op >> 24) & 0b11 == 0b00
}

/// `cbz` and `cbnz`: bits 30 to 25 are `011010`.
pub open spec fn is_cbz(op: u32) -> bool {
    (op >> 25) & 0b111111 == 0b011010
}

/// `tbz` and `tbnz`: bits 30 to 25 are `011011`.
pub open spec fn is_tbz(op: u32) -> bool {
    (op >> 25) & 0b111111 == 0b011011
}

/// The 26-bit immediate of `b` and `bl`.
pub open spec fn imm26(op: u32) -> u32 {
    op & 0x03FF_FFFF
}

/// The 19-bit immediate of `b.cond` and `cbz`/`cbnz`.
pub open spec fn imm19(op: u32) -> u32 {
    (op >> 5) & 0x7_FFFF
}

/// The 14-bit immediate of `tbz`/`tbnz`.
pub open spec fn imm14(op: u32) -> u32 {
    (op >> 5) & 0x3FFF
}

/// Two's complement reading of an immediate whose sign bit weighs `half`.
pub open spec fn signed(value: int, half: int) -> int {
    if value < half {
        value
    } else {
        value - 2 * half
    }
}

/// An address `words` instructions away from `pc`, modulo the address space.
pub open spec fn displaced(pc: u64, words: int) -> u64 {
    ((pc + 4 * words) % 0x1_0000_0000_0000_0000) as u64
}

/// Relocation plan for one displaced instruction.
#[derive(Debug, Clone, Copy, PartialEq, Eq, Structural)]
pub enum Plan {
    Verbatim { op: u32 },
    B { target: u64 },
    Bl { target: u64 },
    BCond { cond: u32, inverted: bool, target: u64 },
    CbzCbnz { op: u32, rt: u32, target: u64 },
    TbzTbnz { op: u32, rt: u32, target: u64 },
}

/// What the instruction `op` at address `pc` does, as far as relocation
/// needs to know; `None` where it cannot be relocated.
pub open spec fn decoded(op: u32, pc: u64) -> Option<Plan> {
    if is_b(op) {
        Some(Plan::B { target: displaced(pc, signed(imm26(op) as int, 0x200_0000)) })
    } else if is_bl(op) {
        Some(Plan::Bl { target: displaced(pc, signed(imm26(op) as int, 0x200_0000)) })
    } else if is_bcond(op) {
        Some(
            Plan::BCond {
                cond: op & 0xF,
                inverted: false,
                target: displaced(pc, signed(imm19(op) as int, 0x4_0000)),
            },
        )
    } else if is_adr(op) || is_literal_load(op) {
        None
    } else if is_cbz(op) {
        Some(
            Plan::CbzCbnz {
                op,
                rt: op & 0x1F,
                target: displaced(pc, signed(imm19(op) as int, 0x4_0000)),
            },
        )
    } else if is_tbz(op) {
        Some(
            Plan::TbzTbnz {
                op,
                rt: op & 0x1F,
                target: displaced(pc, signed(imm14(op) as int, 0x2000)),
            },
        )
    } else {
        Some(Plan::Verbatim { op })
    }
}

/// `error` is the refusal of the position-dependent instruction `op`.
pub open spec fn refused_with(error: HookError, op: u32) -> bool {
    &&& error is EntryPatchUnsupported
    &&& error->EntryPatchUnsupported_0@ == if is_adr(op) {
        "adr/adrp in the displaced prologue"@
    } else {
        "literal load in the displaced prologue"@
    }
}

/// Two's complement reading of `value`, whose sign bit weighs `half`.
fn sext(value: u32, half: u32) -> (r: i64)
    requires
        value < 2 * half,
        half <= 0x4000_0000,
    ensures
        r == signed(value as int, half as int),
{
    if value < half {
        value as i64
    } else {
        value as i64 - 2 * (half as i64)
    }
}

/// The address `words` instructions after `pc`.
fn target_of(pc: u64, words: i64) -> (r: u64)
    requires
        -0x200_0000 <= words < 0x200_0000,
    ensures
        r == displaced(pc, words as int),
{
    if words >= 0 {
        pc.wrapping_add((words as u64) * 4)
    } else {
        pc.wrapping_sub(((-words) as u64) * 4)
    }
}

/// Classifies the instruction `op` found at address `orig_pc`.
pub fn plan_op(op: u32, orig_pc: u64) -> (r: Result<Plan, HookError>)
    ensures
        match decoded(op, orig_pc) {
            Some(plan) => r is Ok && r->Ok_0 == plan,
            None => r is Err && refused_with(r->Err_0, op),
        },
{
    if op == PACIBSP {
        assert(!is_b(PACIBSP) && !is_bl(PACIBSP) && !is_bcond(PACIBSP) && !is_adr(PACIBSP)
            && !is_literal_load(PACIBSP) && !is_cbz(PACIBSP) && !is_tbz(PACIBSP)) by (bit_vector);
        return Ok(Plan::Verbatim { op });
    }
    assert((op & 0x7C00_0000 == 0x1400_0000) == (is_b(op) || is_bl(op))) by (bit_vector);
    assert(imm26(op) < 0x400_0000 && imm19(op) < 0x8_0000 && imm14(op) < 0x4000) by (bit_vector);
    if op & 0x7C00_0000 == 0x1400_0000 {
        let words: i64 = sext(op & 0x03FF_FFFF, 0x200_0000);
        let target: u64 = target_of(orig_pc, words);
        if op >> 26 == 0b100101 {
            return Ok(Plan::Bl { target });
        }
        return Ok(Plan::B { target });
    }
    let top8: u32 = op >> 24;
    assert(((op >> 24) & 0xFE == 0x54) == is_bcond(op)) by (bit_vector);
    if top8 & 0xFE == 0x54 {
        let words: i64 = sext((op >> 5) & 0x7_FFFF, 0x4_0000);
        return Ok(Plan::BCond { cond: op & 0xF, inverted: false, target: target_of(orig_pc, words) });
    }
    assert(((op >> 24) & 0x9F == 0x10 || (op >> 24) & 0x9F == 0x90) == is_adr(op)) by (bit_vector);
    if top8 & 0x9F == 0x10 || top8 & 0x9F == 0x90 {
        return Err(HookError::EntryPatchUnsupported("adr/adrp in the displaced prologue"));
    }
    assert(((op >> 24) & 0x3B == 0x18) == is_literal_load(op)) by (bit_vector);
    if top8 & 0x3B == 0x18 {
        return Err(HookError::EntryPatchUnsupported("literal load in the displaced prologue"));
    }
    assert(((op >> 24) & 0x7E == 0x34) == is_cbz(op)) by (bit_vector);
    if top8 & 0x7E == 0x34 {
        let words: i64 = sext((op >> 5) & 0x7_FFFF, 0x4_0000);
        return Ok(Plan::CbzCbnz { op, rt: op & 0x1F, target: target_of(orig_pc, words) });
    }
    assert(((op >> 24) & 0x7E == 0x36) == is_tbz(op)) by (bit_vector);
    if top8 & 0x7E == 0x36 {
        let words: i64 = sext((op >> 5) & 0x3FFF, 0x2000);
        return Ok(Plan::TbzTbnz { op, rt: op & 0x1F, target: target_of(orig_pc, words) });
    }
    Ok(Plan::Verbatim { op })
}

// ---------------------------------------------------------------------------
// Relocation
// ---------------------------------------------------------------------------

/// The half-open address range of the displaced instructions.
#[derive(Clone, Copy)]
pub struct Window {
    pub start: u64,
    pub end: u64,
}

impl Window {
    pub open spec fn holds(self, target: u64) -> bool {
        self.start <= target < self.end
    }

    pub fn contains(&self, target: u64) -> (r: bool)
        ensures
            r == self.holds(target),
    {
        self.start <= target && target < self.end
    }
}

/// Index of the displaced instruction at `target`.
pub open spec fn index_of(target: u64, window: Window) -> int {
    (target - window.start) / 4
}

impl Plan {
    /// Where the instruction branches to, if it branches.
    pub open spec fn destination(self) -> Option<u64> {
        match self {
            Plan::Verbatim { .. } => None,
            Plan::B { target } => Some(target),
            Plan::Bl { target } => Some(target),
            Plan::BCond { target, .. } => Some(target),
            Plan::CbzCbnz { target, .. } => Some(target),
            Plan::TbzTbnz { target, .. } => Some(target),
        }
    }

    /// Whether the instruction branches out of `window`.
    pub open spec fn leaves(self, window: Window) -> bool {
        self.destination() is Some && !window.holds(self.destination()->Some_0)
    }
}

/// Number of words that relocating `plan` takes.
pub open spec fn relocated_size(plan: Plan, window: Window) -> nat {
    if !plan.leaves(window) {
        1
    } else {
        match plan {
            Plan::Verbatim { .. } => 1,
            Plan::B { .. } => 4,
            Plan::Bl { .. } => 7,
            _ => 5,
        }
    }
}

/// `b`/`bl` with the top six bits `top6` over `words` instructions.
pub open spec fn branch_word(top6: u32, words: int) -> u32 {
    (top6 << 26) | ((words % 0x400_0000) as u32)
}

/// `movz`/`movk` of the low 48 bits of `value` into register `rd`.
pub open spec fn mov48(rd: u32, value: u64) -> Seq<u32> {
    seq![
        0xD280_0000 | (((value & 0xFFFF) as u32) << 5) | rd,
        0xF2A0_0000 | ((((value >> 16) & 0xFFFF) as u32) << 5) | rd,
        0xF2C0_0000 | ((((value >> 32) & 0xFFFF) as u32) << 5) | rd,
    ]
}

/// An absolute jump through `x16`.
pub open spec fn far_jump(target: u64) -> Seq<u32> {
    mov48(16, target).push(BR_X16)
}

/// Where the instruction after the displaced instruction `index` continues:
/// at its relocated copy, or behind the window after the last one.
pub open spec fn return_address(
    index: int,
    positions: Seq<usize>,
    window: Window,
    base: u64,
) -> u64 {
    if index + 1 < positions.len() {
        (base + positions[index + 1] * 4) as u64
    } else {
        window.end
    }
}

/// Words from position `pos` to the relocated copy of the instruction at `target`.
pub open spec fn window_words(target: u64, pos: int, positions: Seq<usize>, window: Window) -> int {
    positions[index_of(target, window)] - pos
}

/// The words that stand for the displaced instruction `index`, placed at
/// word `pos` of a trampoline at `base` in which displaced instruction `i`
/// was relocated to word `positions[i]`.
pub open spec fn relocated(
    plan: Plan,
    index: int,
    pos: int,
    positions: Seq<usize>,
    window: Window,
    base: u64,
) -> Seq<u32> {
    match plan {
        Plan::Verbatim { op } => seq![op],
        Plan::B { target } => if window.holds(target) {
            seq![branch_word(0b000101, window_words(target, pos, positions, window))]
        } else {
            far_jump(target)
        },
        Plan::Bl { target } => if window.holds(target) {
            seq![branch_word(0b100101, window_words(target, pos, positions, window))]
        } else {
            mov48(16, target) + mov48(30, return_address(index, positions, window, base)) + seq![
                BR_X16,
            ]
        },
        Plan::BCond { cond, inverted, target } => if window.holds(target) {
            let imm = (window_words(target, pos, positions, window) % 0x8_0000) as u32;
            seq![
                0x5400_0000 | (imm << 5) | (if inverted {
                    cond ^ 1
                } else {
                    cond
                }),
            ]
        } else if cond >= COND_ALWAYS {
            seq![NOP] + far_jump(target)
        } else {
            seq![
                0x5400_0000 | (5u32 << 5) | (if inverted {
                    cond
                } else {
                    cond ^ 1
                }),
            ] + far_jump(target)
        },
        Plan::CbzCbnz { op, rt, target } => if window.holds(target) {
            let imm = (window_words(target, pos, positions, window) % 0x8_0000) as u32;
            seq![(op & 0xFF00_0000) | (imm << 5) | rt]
        } else {
            seq![((op ^ 0x0100_0000) & 0xFF00_001F) | (5u32 << 5) | rt] + far_jump(target)
        },
        Plan::TbzTbnz { op, rt, target } => if window.holds(target) {
            let imm = (window_words(target, pos, positions, window) % 0x4000) as u32;
            seq![(op & 0xFFF8_0000) | (imm << 5) | rt]
        } else {
            seq![((op ^ 0x0100_0000) & 0xFFF8_001F) | (5u32 << 5) | rt] + far_jump(target)
        },
    }
}

/// Number of words that relocating `plan` takes.
pub fn plan_size(plan: &Plan, window: &Window) -> (r: usize)
    ensures
        r == relocated_size(*plan, *window),
        1 <= r <= 7,
{
    match plan {
        Plan::Verbatim { .. } => 1,
        Plan::B { target } => if window.contains(*target) {
            1
        } else {
            4
        },
        Plan::Bl { target } => if window.contains(*target) {
            1
        } else {
            7
        },
        Plan::BCond { target, .. } | Plan::CbzCbnz { target, .. } | Plan::TbzTbnz {
            target,
            ..
        } => if window.contains(*target) {
            1
        } else {
            5
        },
    }
}

/// The signed distance from word `from` to word `to` as an immediate field
/// of `modulus` values.
fn word_delta(from: usize, to: usize, modulus: u32) -> (r: u32)
    requires
        modulus > 0,
    ensures
        r == (to - from) % (modulus as int),
        r < modulus,
{
    let m: u64 = modulus as u64;
    if to >= from {
        (((to - from) as u64) % m) as u32
    } else {
        let back: u64 = ((from - to) as u64) % m;
        let r: u64 = (m - back) % m;
        proof {
            let d = from - to;
            vstd::arithmetic::div_mod::lemma_fundamental_div_mod(d as int, m as int);
            let q = d as int / m as int;
            assert(to - from == m * (-q - 1) + (m - back)) by (nonlinear_arith)
                requires
                    d == m * q + back,
                    d == from - to,
            ;
            vstd::arithmetic::div_mod::lemma_mod_multiples_vanish(-q - 1, m - back, m as int);
        }
        r as u32
    }
}

/// `b`/`bl` with the top six bits `top6` over `imm26_words` instructions.
pub fn b_enc(top6: u32, imm26_words: i64) -> (r: u32)
    ensures
        r == branch_word(top6, imm26_words as int),
{
    assert((imm26_words as u32) & 0x03FF_FFFF == (imm26_words % 0x400_0000) as u32) by (bit_vector);
    (top6 << 26) | ((imm26_words as u32) & 0x03FF_FFFF)
}

/// Materialises the low 48 bits of `value` in `rd` (3 instructions).
pub fn mov_imm48(rd: u32, value: u64) -> (r: [u32; 3])
    ensures
        r@ == mov48(rd, value),
{
    let lo: u32 = (value & 0xFFFF) as u32;
    let mid: u32 = ((value >> 16) & 0xFFFF) as u32;
    let hi: u32 = ((value >> 32) & 0xFFFF) as u32;
    assert(0xF280_0000u32 | 0x0020_0000u32 == 0xF2A0_0000u32) by (bit_vector);
    assert(0xF280_0000u32 | 0x0040_0000u32 == 0xF2C0_0000u32) by (bit_vector);
    let r = [
        0xD280_0000 | (lo << 5) | rd,
        0xF280_0000 | 0x0020_0000 | (mid << 5) | rd,
        0xF280_0000 | 0x0040_0000 | (hi << 5) | rd,
    ];
    assert(r@ =~= mov48(rd, value));
    r
}

/// Appends an absolute jump through `x16`.
fn far_jump_seq(buf: &mut Vec<u32>, target: u64)
    ensures
        final(buf)@ == old(buf)@ + far_jump(target),
{
    let words = mov_imm48(16, target);
    buf.extend_from_slice(&words);
    buf.push(BR_X16);
    assert(buf@ =~= old(buf)@ + far_jump(target));
}

/// Index of the displaced instruction at `target`.
fn target_index(target: u64, window: &Window) -> (r: usize)
    requires
        window.holds(target),
        index_of(target, *window) <= usize::MAX,
    ensures
        r == index_of(target, *window),
{
    ((target - window.start) / 4) as usize
}

/// Appends the words that stand for the displaced instruction `index`. `pos`
/// is the word offset of this instruction; `ops_pos[i]` is the word offset
/// of displaced instruction `i`, for branches that stay inside the window.
pub fn emit_op(
    buf: &mut Vec<u32>,
    plan: &Plan,
    index: usize,
    pos: usize,
    ops_pos: &[usize],
    window: &Window,
    tramp_base: u64,
)
    requires
        plan.destination() matches Some(target) ==> window.holds(target) ==> index_of(
            target,
            *window,
        ) < ops_pos.len(),
        index < usize::MAX,
        *plan is Bl && plan.leaves(*window) && index + 1 < ops_pos.len() ==> tramp_base + 4
            * ops_pos[index + 1] <= u64::MAX,
    ensures
        final(buf).len() == old(buf).len() + relocated_size(*plan, *window),
        final(buf)@ == old(buf)@ + relocated(
            *plan,
            index as int,
            pos as int,
            ops_pos@,
            *window,
            tramp_base,
        ),
{
    let ghost words = relocated(*plan, index as int, pos as int, ops_pos@, *window, tramp_base);
    match plan {
        Plan::Verbatim { op } => {
            buf.push(*op);
        },
        Plan::B { target } => if window.contains(*target) {
            let to: usize = ops_pos[target_index(*target, window)];
            buf.push((0b000101u32 << 26) | word_delta(pos, to, 0x400_0000));
        } else {
            far_jump_seq(buf, *target);
        },
        Plan::Bl { target } => if window.contains(*target) {
            let to: usize = ops_pos[target_index(*target, window)];
            buf.push((0b100101u32 << 26) | word_delta(pos, to, 0x400_0000));
        } else {
            // x30 cannot be the address behind the original call: that one
            // lies inside the patched window.
            let ret: u64 = if index + 1 < ops_pos.len() {
                tramp_base + (ops_pos[index + 1] as u64) * 4
            } else {
                window.end
            };
            let call = mov_imm48(16, *target);
            let link = mov_imm48(30, ret);
            buf.extend_from_slice(&call);
            buf.extend_from_slice(&link);
            buf.push(BR_X16);
        },
        Plan::BCond { cond, inverted, target } => if window.contains(*target) {
            let to: usize = ops_pos[target_index(*target, window)];
            let imm19: u32 = word_delta(pos, to, 0x8_0000);
            let cond_v: u32 = if *inverted {
                *cond ^ 1
            } else {
                *cond
            };
            buf.push(0x5400_0000 | (imm19 << 5) | cond_v);
        } else if *cond >= COND_ALWAYS {
            // The inverse of a branch that is always taken is always taken.
            buf.push(NOP);
            far_jump_seq(buf, *target);
        } else {
            // Invert the condition, branch over the far sequence.
            let inv: u32 = if *inverted {
                *cond
            } else {
                *cond ^ 1
            };
            buf.push(0x5400_0000 | (5u32 << 5) | inv);
            far_jump_seq(buf, *target);
        },
        Plan::CbzCbnz { op, rt, target } => if window.contains(*target) {
            let to: usize = ops_pos[target_index(*target, window)];
            let imm19: u32 = word_delta(pos, to, 0x8_0000);
            // Keep sf, the fixed pattern and op (bit 24); rewrite imm19 and Rt.
            buf.push((*op & 0xFF00_0000) | (imm19 << 5) | *rt);
        } else {
            // Invert op (bit 24), clear the old imm19 and skip the far jump.
            buf.push(((*op ^ 0x0100_0000) & 0xFF00_001F) | (5u32 << 5) | *rt);
            far_jump_seq(buf, *target);
        },
        Plan::TbzTbnz { op, rt, target } => if window.contains(*target) {
            let to: usize = ops_pos[target_index(*target, window)];
            let imm14: u32 = word_delta(pos, to, 0x4000);
            // Keep b5, the fixed pattern, op (bit 24) and b40 (bits 23 to
            // 19); rewrite imm14 and Rt.
            buf.push((*op & 0xFFF8_0000) | (imm14 << 5) | *rt);
        } else {
            // Invert op (bit 24), clear the old imm14 and skip the far jump.
            buf.push(((*op ^ 0x0100_0000) & 0xFFF8_001F) | (5u32 << 5) | *rt);
            far_jump_seq(buf, *target);
        },
    }
    assert(buf@ =~= old(buf)@ + words);
}

// ---------------------------------------------------------------------------
// Trampolines
// ---------------------------------------------------------------------------

/// The address range of `count` instructions from `entry` on.
pub open spec fn window_of(entry: u64, count: nat) -> Window {
    Window { start: entry, end: (entry + 4 * count) as u64 }
}

/// Address of the displaced instruction `index`.
pub open spec fn pc_of(entry: u64, index: int) -> u64 {
    (entry + 4 * index) as u64
}

/// Every instruction of `ops`, displaced from `entry`, can be relocated.
pub open spec fn relocatable(entry: u64, ops: Seq<u32>) -> bool {
    forall|i: int| 0 <= i < ops.len() ==> decoded(#[trigger] ops[i], pc_of(entry, i)) is Some
}

/// Instruction `i` is the first of `ops` that cannot be relocated.
pub open spec fn first_refused(entry: u64, ops: Seq<u32>, i: int) -> bool {
    &&& 0 <= i < ops.len()
    &&& relocatable(entry, ops.take(i))
    &&& decoded(ops[i], pc_of(entry, i)) is None
}

/// The relocation plans of `ops`, displaced from `entry`.
pub open spec fn plans_of(entry: u64, ops: Seq<u32>) -> Seq<Plan> {
    Seq::new(ops.len(), |i: int| decoded(ops[i], pc_of(entry, i))->Some_0)
}

/// Words that the first `count` of `plans` take.
pub open spec fn words_before(plans: Seq<Plan>, window: Window, count: nat) -> nat
    decreases count,
{
    if count == 0 {
        0
    } else {
        words_before(plans, window, (count - 1) as nat) + relocated_size(
            plans[count - 1],
            window,
        )
    }
}

/// Word offset of each relocated instruction.
pub open spec fn positions_of(plans: Seq<Plan>, window: Window) -> Seq<usize> {
    Seq::new(plans.len(), |i: int| words_before(plans, window, i as nat) as usize)
}

/// The first `count` relocated instructions of a trampoline at `base`.
pub open spec fn relocated_prefix(plans: Seq<Plan>, window: Window, base: u64, count: nat) -> Seq<
    u32,
>
    decreases count,
{
    if count == 0 {
        Seq::empty()
    } else {
        let index = count - 1;
        let positions = positions_of(plans, window);
        relocated_prefix(plans, window, base, index as nat) + relocated(
            plans[index],
            index,
            positions[index] as int,
            positions,
            window,
            base,
        )
    }
}

/// `ldr x16, #8; br x16; .quad target`
pub open spec fn absolute_jump(target: u64) -> Seq<u32> {
    seq![LDR_X16_LITERAL_8, BR_X16, (target & 0xFFFF_FFFF) as u32, (target >> 32) as u32]
}

/// The trampoline at `base` that stands for `ops`, displaced from `entry`:
/// the relocated instructions and a jump back behind them.
pub open spec fn trampoline(entry: u64, ops: Seq<u32>, base: u64) -> Seq<u32> {
    let window = window_of(entry, ops.len());
    relocated_prefix(plans_of(entry, ops), window, base, ops.len()) + absolute_jump(window.end)
}

/// Relocation plans and word offsets of displaced instructions.
pub struct TrampolinePlan {
    window: Window,
    plans: Vec<Plan>,
    ops_pos: Vec<usize>,
    words: usize,
    ops: Ghost<Seq<u32>>,
}

impl TrampolinePlan {
    /// Address of the first displaced instruction.
    pub closed spec fn entry(self) -> u64 {
        self.window.start
    }

    /// The displaced instructions.
    pub closed spec fn ops(self) -> Seq<u32> {
        self.ops@
    }

    /// The plan relocates its instructions, which fit the address space.
    pub closed spec fn wf(self) -> bool {
        &&& relocatable(self.entry(), self.ops())
        &&& self.entry() + 4 * self.ops().len() <= u64::MAX
        &&& 7 * self.ops().len() + 4 <= usize::MAX
        &&& self.window == window_of(self.entry(), self.ops().len())
        &&& self.plans@ == plans_of(self.entry(), self.ops())
        &&& self.ops_pos@ == positions_of(self.plans@, self.window)
        &&& self.words == words_before(self.plans@, self.window, self.ops().len())
    }
}

/// Relocation takes at least one and at most seven words per instruction.
pub proof fn lemma_words_bounds(plans: Seq<Plan>, window: Window, count: nat)
    requires
        count <= plans.len(),
    ensures
        count <= words_before(plans, window, count) <= 7 * count,
    decreases count,
{
    if count > 0 {
        lemma_words_bounds(plans, window, (count - 1) as nat);
    }
}

/// Word offsets do not decrease.
proof fn lemma_words_monotone(plans: Seq<Plan>, window: Window, count: nat, more: nat)
    requires
        count <= more <= plans.len(),
    ensures
        words_before(plans, window, count) <= words_before(plans, window, more),
    decreases more - count,
{
    if count < more {
        lemma_words_monotone(plans, window, count, (more - 1) as nat);
    }
}

/// Each relocated instruction takes as many words as its plan says.
pub proof fn relocated_length(
    plan: Plan,
    index: int,
    pos: int,
    positions: Seq<usize>,
    window: Window,
    base: u64,
)
    ensures
        relocated(plan, index, pos, positions, window, base).len() == relocated_size(plan, window),
{
}

/// A relocated prefix is as long as the word offset behind it: every
/// instruction lands at the offset that branches to it were aimed at.
pub proof fn relocated_prefix_length(plans: Seq<Plan>, window: Window, base: u64, count: nat)
    requires
        count <= plans.len(),
    ensures
        relocated_prefix(plans, window, base, count).len() == words_before(plans, window, count),
    decreases count,
{
    if count > 0 {
        relocated_prefix_length(plans, window, base, (count - 1) as nat);
    }
}

/// Plans the relocation of `ops`, displaced from `entry`.
pub fn plan_trampoline(entry: u64, ops: &[u32]) -> (r: Result<TrampolinePlan, HookError>)
    requires
        entry + 4 * ops.len() <= u64::MAX,
        7 * ops.len() + 4 <= usize::MAX,
    ensures
        r is Ok <==> relocatable(entry, ops@),
        r is Ok ==> r->Ok_0.wf() && r->Ok_0.entry() == entry && r->Ok_0.ops() == ops@,
        r is Err ==> exists|i: int|
            #[trigger] first_refused(entry, ops@, i) && refused_with(r->Err_0, ops@[i]),
{
    let window = Window { start: entry, end: entry + (ops.len() as u64) * 4 };
    let mut plans: Vec<Plan> = Vec::new();
    let mut index: usize = 0;
    while index < ops.len()
        invariant
            index <= ops.len(),
            entry + 4 * ops.len() <= u64::MAX,
            plans@ == plans_of(entry, ops@.take(index as int)),
            relocatable(entry, ops@.take(index as int)),
        decreases ops.len() - index,
    {
        let ghost before = ops@.take(index as int);
        match plan_op(ops[index], entry + (index as u64) * 4) {
            Ok(plan) => {
                plans.push(plan);
                proof {
                    let after = ops@.take(index + 1);
                    assert forall|i: int| 0 <= i < after.len() implies decoded(
                        #[trigger] after[i],
                        pc_of(entry, i),
                    ) is Some by {
                        if i < index {
                            assert(after[i] == before[i]);
                        }
                    }
                    assert(plans@ =~= plans_of(entry, after));
                }
            },
            Err(error) => {
                assert(first_refused(entry, ops@, index as int));
                return Err(error);
            },
        }
        index = index + 1;
    }
    assert(ops@.take(index as int) =~= ops@);
    let mut ops_pos: Vec<usize> = Vec::new();
    let mut words: usize = 0;
    index = 0;
    while index < plans.len()
        invariant
            index <= plans.len(),
            plans.len() == ops.len(),
            7 * ops.len() + 4 <= usize::MAX,
            words == words_before(plans@, window, index as nat),
            ops_pos.len() == index,
            forall|i: int|
                0 <= i < index ==> #[trigger] ops_pos[i] == words_before(plans@, window, i as nat),
        decreases plans.len() - index,
    {
        proof {
            lemma_words_bounds(plans@, window, index as nat);
            lemma_words_bounds(plans@, window, (index + 1) as nat);
        }
        ops_pos.push(words);
        words = words + plan_size(&plans[index], &window);
        index = index + 1;
    }
    assert(ops_pos@ =~= positions_of(plans@, window));
    Ok(TrampolinePlan { window, plans, ops_pos, words, ops: Ghost(ops@) })
}

/// The trampoline for `ops`, displaced from `entry`, is `count` words long
/// wherever it lies.
pub open spec fn has_length(entry: u64, ops: Seq<u32>, count: usize) -> bool {
    forall|base: u64| count == #[trigger] trampoline(entry, ops, base).len()
}

impl TrampolinePlan {
    /// Number of words of the trampoline, the jump back included.
    pub fn word_count(&self) -> (r: usize)
        requires
            self.wf(),
        ensures
            has_length(self.entry(), self.ops(), r),
    {
        proof {
            lemma_words_bounds(self.plans@, self.window, self.ops().len());
            assert forall|base: u64|
                self.words + 4 == #[trigger] trampoline(self.entry(), self.ops(), base).len() by {
                relocated_prefix_length(self.plans@, self.window, base, self.ops().len());
            }
        }
        self.words + 4
    }

    /// The words of the trampoline for the address `base`.
    pub fn assemble(&self, base: u64) -> (r: Vec<u32>)
        requires
            self.wf(),
            base + 28 * self.ops().len() <= u64::MAX,
        ensures
            r@ == trampoline(self.entry(), self.ops(), base),
    {
        let ghost count = self.ops().len();
        proof {
            assert forall|i: int| 0 <= i < count implies base + 4
                * #[trigger] self.ops_pos[i] <= u64::MAX by {
                lemma_words_bounds(self.plans@, self.window, i as nat);
            }
        }
        let mut buf: Vec<u32> = Vec::new();
        let mut index: usize = 0;
        while index < self.plans.len()
            invariant
                index <= self.plans.len(),
                self.wf(),
                self.plans.len() == self.ops_pos.len() == self.ops().len(),
                buf@ == relocated_prefix(self.plans@, self.window, base, index as nat),
                forall|i: int|
                    0 <= i < self.ops_pos.len() ==> base + 4 * #[trigger] self.ops_pos[i]
                        <= u64::MAX,
            decreases self.plans.len() - index,
        {
            emit_op(
                &mut buf,
                &self.plans[index],
                index,
                self.ops_pos[index],
                &self.ops_pos,
                &self.window,
                base,
            );
            index = index + 1;
        }
        let target: u64 = self.window.end;
        buf.push(LDR_X16_LITERAL_8);
        buf.push(BR_X16);
        buf.push((target & 0xFFFF_FFFF) as u32);
        buf.push((target >> 32) as u32);
        assert(buf@ =~= trampoline(self.entry(), self.ops(), base));
        buf
    }
}

/// The trampoline at `base` for `ops`, displaced from `entry`.
pub fn build_trampoline(entry: u64, ops: &[u32], base: u64) -> (r: Result<Vec<u32>, HookError>)
    requires
        entry + 4 * ops.len() <= u64::MAX,
        base + 28 * ops.len() <= u64::MAX,
        7 * ops.len() + 4 <= usize::MAX,
    ensures
        r is Ok <==> relocatable(entry, ops@),
        r is Ok ==> r->Ok_0@ == trampoline(entry, ops@, base),
        r is Err ==> exists|i: int|
            #[trigger] first_refused(entry, ops@, i) && refused_with(r->Err_0, ops@[i]),
{
    match plan_trampoline(entry, ops) {
        Ok(plan) => Ok(plan.assemble(base)),
        Err(error) => Err(error),
    }
}

// ---------------------------------------------------------------------------
// Laws
// ---------------------------------------------------------------------------

/// Displaced instruction `i` stands in the trampoline at the word offset that
/// branches inside the window are aimed at.
pub proof fn relocated_at_position(entry: u64, ops: Seq<u32>, base: u64, i: int)
    requires
        relocatable(entry, ops),
        0 <= i < ops.len(),
        7 * ops.len() + 4 <= usize::MAX,
    ensures
        ({
            let window = window_of(entry, ops.len());
            let plans = plans_of(entry, ops);
            let positions = positions_of(plans, window);
            let start = positions[i] as int;
            let words = relocated(plans[i], i, start, positions, window, base);
            &&& start + words.len() + 4 <= trampoline(entry, ops, base).len()
            &&& trampoline(entry, ops, base).subrange(start, start + words.len()) == words
        }),
{
    let window = window_of(entry, ops.len());
    let plans = plans_of(entry, ops);
    lemma_prefix_stable(plans, window, base, (i + 1) as nat, ops.len());
    relocated_prefix_length(plans, window, base, i as nat);
    relocated_prefix_length(plans, window, base, (i + 1) as nat);
    relocated_prefix_length(plans, window, base, ops.len());
    lemma_words_bounds(plans, window, i as nat);
    lemma_words_monotone(plans, window, (i + 1) as nat, ops.len());
    let positions = positions_of(plans, window);
    let start = positions[i] as int;
    let words = relocated(plans[i], i, start, positions, window, base);
    let whole = trampoline(entry, ops, base);
    let prefix = relocated_prefix(plans, window, base, (i + 1) as nat);
    assert(prefix == relocated_prefix(plans, window, base, i as nat) + words);
    assert(whole.subrange(start, start + words.len()) =~= words) by {
        assert forall|k: int| 0 <= k < words.len() implies whole[start + k] == words[k] by {
            assert(whole[start + k] == relocated_prefix(plans, window, base, ops.len())[start + k]);
            assert(prefix[start + k] == words[k]);
        }
    }
}

proof fn lemma_prefix_stable(plans: Seq<Plan>, window: Window, base: u64, count: nat, more: nat)
    requires
        count <= more <= plans.len(),
    ensures
        relocated_prefix(plans, window, base, count).is_prefix_of(
            relocated_prefix(plans, window, base, more),
        ),
    decreases more - count,
{
    if count < more {
        lemma_prefix_stable(plans, window, base, count, (more - 1) as nat);
    }
}

/// `movz` or `movk`, and the register it writes.
pub open spec fn is_wide_move(op: u32, rd: u32) -> bool {
    (op & 0xFF80_0000 == 0xD280_0000 || op & 0xFF80_0000 == 0xF280_0000) && op & 0x1F == rd
}

/// Value of the written register after the `movz` or `movk` `op`.
pub open spec fn wide_move(op: u32, before: u64) -> u64 {
    let shift = ((op >> 21) & 3) as u64 * 16;
    let imm = (((op >> 5) & 0xFFFF) as u64) << shift;
    if op & 0xFF80_0000 == 0xD280_0000 {
        imm
    } else {
        (before & !(0xFFFFu64 << shift)) | imm
    }
}

/// The three wide moves leave `value` in `rd`, whatever was there, for every
/// address of the 48-bit user address space.
pub proof fn mov48_materialises(rd: u32, value: u64, before: u64)
    requires
        rd < 32,
        value < 0x1_0000_0000_0000,
    ensures
        forall|i: int| 0 <= i < 3 ==> is_wide_move(#[trigger] mov48(rd, value)[i], rd),
        wide_move(
            mov48(rd, value)[2],
            wide_move(mov48(rd, value)[1], wide_move(mov48(rd, value)[0], before)),
        ) == value,
{
    let lo = 0xD280_0000 | (((value & 0xFFFF) as u32) << 5) | rd;
    let mid = 0xF2A0_0000 | ((((value >> 16) & 0xFFFF) as u32) << 5) | rd;
    let hi = 0xF2C0_0000 | ((((value >> 32) & 0xFFFF) as u32) << 5) | rd;
    assert(is_wide_move(lo, rd) && is_wide_move(mid, rd) && is_wide_move(hi, rd)) by (bit_vector)
        requires
            rd < 32,
            lo == 0xD280_0000 | (((value & 0xFFFF) as u32) << 5) | rd,
            mid == 0xF2A0_0000 | ((((value >> 16) & 0xFFFF) as u32) << 5) | rd,
            hi == 0xF2C0_0000 | ((((value >> 32) & 0xFFFF) as u32) << 5) | rd,
    ;
    assert((lo >> 21) & 3 == 0 && (mid >> 21) & 3 == 1 && (hi >> 21) & 3 == 2 && lo & 0xFF80_0000
        == 0xD280_0000 && mid & 0xFF80_0000 == 0xF280_0000 && hi & 0xFF80_0000 == 0xF280_0000 && (lo
        >> 5) & 0xFFFF == value & 0xFFFF && (mid >> 5) & 0xFFFF == (value >> 16) & 0xFFFF && (hi
        >> 5) & 0xFFFF == (value >> 32) & 0xFFFF) by (bit_vector)
        requires
            rd < 32,
            lo == 0xD280_0000 | (((value & 0xFFFF) as u32) << 5) | rd,
            mid == 0xF2A0_0000 | ((((value >> 16) & 0xFFFF) as u32) << 5) | rd,
            hi == 0xF2C0_0000 | ((((value >> 32) & 0xFFFF) as u32) << 5) | rd,
    ;
    assert(((((((value & 0xFFFF) << 0u64) & !(0xFFFFu64 << 16u64)) | (((value >> 16) & 0xFFFF)
        << 16u64)) & !(0xFFFFu64 << 32u64)) | (((value >> 32) & 0xFFFF) << 32u64)) == value)
        by (bit_vector)
        requires
            value < 0x1_0000_0000_0000,
    ;
}

/// Two plans are the same operation up to where they branch to: same kind,
/// and same condition, tested register and tested bit.
pub open spec fn same_operation(plan: Plan, other: Plan) -> bool {
    match (plan, other) {
        (Plan::B { .. }, Plan::B { .. }) => true,
        (Plan::Bl { .. }, Plan::Bl { .. }) => true,
        (
            Plan::BCond { cond, inverted, .. },
            Plan::BCond { cond: cond2, inverted: inverted2, .. },
        ) => cond == cond2 && inverted == inverted2,
        (Plan::CbzCbnz { op, rt, .. }, Plan::CbzCbnz { op: op2, rt: rt2, .. }) => op >> 24 == op2
            >> 24 && rt == rt2,
        (Plan::TbzTbnz { op, rt, .. }, Plan::TbzTbnz { op: op2, rt: rt2, .. }) => op >> 19 == op2
            >> 19 && rt == rt2,
        _ => false,
    }
}

/// `other` tests the opposite of what `plan` tests: the low bit of the
/// condition, or bit 24 of the instruction, is flipped and nothing else.
pub open spec fn opposite_operation(plan: Plan, other: Plan) -> bool {
    match (plan, other) {
        (
            Plan::BCond { cond, inverted, .. },
            Plan::BCond { cond: cond2, inverted: inverted2, .. },
        ) => cond ^ 1 == cond2 && inverted == inverted2,
        (Plan::CbzCbnz { op, rt, .. }, Plan::CbzCbnz { op: op2, rt: rt2, .. }) => (op ^ 0x0100_0000)
            >> 24 == op2 >> 24 && rt == rt2,
        (Plan::TbzTbnz { op, rt, .. }, Plan::TbzTbnz { op: op2, rt: rt2, .. }) => (op ^ 0x0100_0000)
            >> 19 == op2 >> 19 && rt == rt2,
        _ => false,
    }
}

/// An encoded `b` or `bl` decodes to the distance it was encoded with.
pub proof fn branch_round_trip(link: bool, words: int, pc: u64)
    requires
        -0x200_0000 <= words < 0x200_0000,
    ensures
        decoded(
            branch_word(
                if link {
                    0b100101
                } else {
                    0b000101
                },
                words,
            ),
            pc,
        ) == Some(
            if link {
                Plan::Bl { target: displaced(pc, words) }
            } else {
                Plan::B { target: displaced(pc, words) }
            },
        ),
{
    let imm = (words % 0x400_0000) as u32;
    assert(is_b((0b000101u32 << 26) | imm) && imm26((0b000101u32 << 26) | imm) == imm && is_bl(
        (0b100101u32 << 26) | imm,
    ) && !is_b((0b100101u32 << 26) | imm) && imm26((0b100101u32 << 26) | imm) == imm)
        by (bit_vector)
        requires
            imm < 0x400_0000,
    ;
}

proof fn lemma_bcond(cond: u32, imm: u32, pc: u64)
    requires
        cond < 16,
        imm < 0x8_0000,
    ensures
        decoded(0x5400_0000 | (imm << 5) | cond, pc) == Some(
            Plan::BCond {
                cond,
                inverted: false,
                target: displaced(pc, signed(imm as int, 0x4_0000)),
            },
        ),
{
    let word = 0x5400_0000 | (imm << 5) | cond;
    assert(!is_b(word) && !is_bl(word) && is_bcond(word) && word & 0xF == cond && imm19(word)
        == imm) by (bit_vector)
        requires
            word == 0x5400_0000 | (imm << 5) | cond,
            cond < 16,
            imm < 0x8_0000,
    ;
}

proof fn lemma_cbz(op: u32, word: u32, imm: u32, pc: u64)
    requires
        is_cbz(op),
        word == (op & 0xFF00_0000) | (imm << 5) | (op & 0x1F),
        imm < 0x8_0000,
    ensures
        decoded(word, pc) == Some(
            Plan::CbzCbnz {
                op: word,
                rt: op & 0x1F,
                target: displaced(pc, signed(imm as int, 0x4_0000)),
            },
        ),
        word >> 24 == op >> 24,
{
    assert(!is_b(word) && !is_bl(word) && !is_bcond(word) && !is_adr(word) && !is_literal_load(word)
        && is_cbz(word) && word & 0x1F == op & 0x1F && imm19(word) == imm && word >> 24 == op >> 24)
        by (bit_vector)
        requires
            is_cbz(op),
            word == (op & 0xFF00_0000) | (imm << 5) | (op & 0x1F),
            imm < 0x8_0000,
    ;
}

proof fn lemma_tbz(op: u32, word: u32, imm: u32, pc: u64)
    requires
        is_tbz(op),
        word == (op & 0xFFF8_0000) | (imm << 5) | (op & 0x1F),
        imm < 0x4000,
    ensures
        decoded(word, pc) == Some(
            Plan::TbzTbnz {
                op: word,
                rt: op & 0x1F,
                target: displaced(pc, signed(imm as int, 0x2000)),
            },
        ),
        word >> 19 == op >> 19,
{
    assert(!is_b(word) && !is_bl(word) && !is_bcond(word) && !is_adr(word) && !is_literal_load(word)
        && !is_cbz(word) && is_tbz(word) && word & 0x1F == op & 0x1F && imm14(word) == imm && word
        >> 19 == op >> 19) by (bit_vector)
        requires
            is_tbz(op),
            word == (op & 0xFFF8_0000) | (imm << 5) | (op & 0x1F),
            imm < 0x4000,
    ;
}

/// A branch that stays inside the window is relocated to one word that does
/// the same and branches to the relocated copy of its target.
pub proof fn inner_branch_reaches_relocated_target(
    op: u32,
    pc: u64,
    index: int,
    pos: int,
    positions: Seq<usize>,
    window: Window,
    base: u64,
)
    requires
        decoded(op, pc) is Some,
        decoded(op, pc)->Some_0.destination() is Some,
        window.holds(decoded(op, pc)->Some_0.destination()->Some_0),
        0 <= pos < 0x2000,
        ({
            let to = positions[index_of(decoded(op, pc)->Some_0.destination()->Some_0, window)];
            to < 0x2000 && base + 4 * to <= u64::MAX
        }),
        base + 4 * pos <= u64::MAX,
    ensures
        ({
            let plan = decoded(op, pc)->Some_0;
            let words = relocated(plan, index, pos, positions, window, base);
            let copy = decoded(words[0], (base + 4 * pos) as u64);
            let to = positions[index_of(plan.destination()->Some_0, window)];
            &&& words.len() == 1
            &&& copy is Some
            &&& same_operation(plan, copy->Some_0)
            &&& copy->Some_0.destination() == Some((base + 4 * to) as u64)
        }),
{
    let plan = decoded(op, pc)->Some_0;
    let target = plan.destination()->Some_0;
    let at = (base + 4 * pos) as u64;
    let delta = window_words(target, pos, positions, window);
    assert(displaced(at, delta) == (base + 4 * positions[index_of(target, window)]) as u64);
    assert(signed(delta % 0x8_0000, 0x4_0000) == delta);
    assert(signed(delta % 0x4000, 0x2000) == delta);
    assert(op & 0xF < 16) by (bit_vector);
    if is_b(op) {
        branch_round_trip(false, delta, at);
    } else if is_bl(op) {
        branch_round_trip(true, delta, at);
    } else if is_bcond(op) {
        lemma_bcond(op & 0xF, (delta % 0x8_0000) as u32, at);
    } else if is_cbz(op) {
        let imm = (delta % 0x8_0000) as u32;
        lemma_cbz(op, (op & 0xFF00_0000) | (imm << 5) | (op & 0x1F), imm, at);
    } else {
        let imm = (delta % 0x4000) as u32;
        lemma_tbz(op, (op & 0xFFF8_0000) | (imm << 5) | (op & 0x1F), imm, at);
    }
}

/// A branch that leaves the window is relocated to an absolute jump to its
/// target. A conditional one first tests the opposite condition and then
/// skips exactly that jump, so that both directions go on as before. One whose
/// condition always holds does nothing first, and so always jumps.
pub proof fn outer_branch_reaches_target(
    op: u32,
    pc: u64,
    index: int,
    pos: int,
    positions: Seq<usize>,
    window: Window,
    base: u64,
)
    requires
        decoded(op, pc) is Some,
        decoded(op, pc)->Some_0.leaves(window),
        base + 4 * pos + 20 <= u64::MAX,
        0 <= pos,
    ensures
        ({
            let plan = decoded(op, pc)->Some_0;
            let target = plan.destination()->Some_0;
            let words = relocated(plan, index, pos, positions, window, base);
            match plan {
                Plan::B { .. } => words == far_jump(target),
                Plan::Bl { .. } => words == mov48(16, target) + mov48(
                    30,
                    return_address(index, positions, window, base),
                ) + seq![BR_X16],
                Plan::BCond { cond, .. } if cond >= COND_ALWAYS => {
                    &&& words == seq![NOP] + far_jump(target)
                    &&& decoded(NOP, (base + 4 * pos) as u64) == Some(Plan::Verbatim { op: NOP })
                },
                _ => {
                    let skip = decoded(words[0], (base + 4 * pos) as u64);
                    &&& words.len() == 5
                    &&& words.subrange(1, 5) == far_jump(target)
                    &&& skip is Some
                    &&& opposite_operation(plan, skip->Some_0)
                    &&& skip->Some_0.destination() == Some((base + 4 * (pos + 5)) as u64)
                },
            }
        }),
{
    let plan = decoded(op, pc)->Some_0;
    let target = plan.destination()->Some_0;
    let at = (base + 4 * pos) as u64;
    let words = relocated(plan, index, pos, positions, window, base);
    if is_bcond(op) && !is_b(op) && !is_bl(op) && op & 0xF >= COND_ALWAYS {
        assert(!is_b(NOP) && !is_bl(NOP) && !is_bcond(NOP) && !is_adr(NOP) && !is_literal_load(NOP)
            && !is_cbz(NOP) && !is_tbz(NOP)) by (bit_vector);
    } else if !is_b(op) && !is_bl(op) {
        assert(words.subrange(1, 5) =~= far_jump(target));
        assert(displaced(at, 5) == (base + 4 * (pos + 5)) as u64);
        let flipped = op ^ 0x0100_0000;
        if is_bcond(op) {
            let cond = op & 0xF;
            assert(cond ^ 1 < 16) by (bit_vector)
                requires
                    cond < 14,
            ;
            lemma_bcond(cond ^ 1, 5, at);
        } else if is_cbz(op) {
            assert(is_cbz(flipped) && words[0] == (flipped & 0xFF00_0000) | (5u32 << 5) | (flipped
                & 0x1F) && flipped & 0x1F == op & 0x1F) by {
                assert(is_cbz(op ^ 0x0100_0000) && ((op ^ 0x0100_0000) & 0xFF00_001F) | (5u32 << 5)
                    | (op & 0x1F) == ((op ^ 0x0100_0000) & 0xFF00_0000) | (5u32 << 5) | ((op
                    ^ 0x0100_0000) & 0x1F) && (op ^ 0x0100_0000) & 0x1F == op & 0x1F)
                    by (bit_vector)
                    requires
                        is_cbz(op),
                ;
            }
            lemma_cbz(flipped, words[0], 5, at);
        } else {
            assert(is_tbz(flipped) && words[0] == (flipped & 0xFFF8_0000) | (5u32 << 5) | (flipped
                & 0x1F) && flipped & 0x1F == op & 0x1F) by {
                assert(is_tbz(op ^ 0x0100_0000) && ((op ^ 0x0100_0000) & 0xFFF8_001F) | (5u32 << 5)
                    | (op & 0x1F) == ((op ^ 0x0100_0000) & 0xFFF8_0000) | (5u32 << 5) | ((op
                    ^ 0x0100_0000) & 0x1F) && (op ^ 0x0100_0000) & 0x1F == op & 0x1F)
                    by (bit_vector)
                    requires
                        is_tbz(op),
                ;
            }
            lemma_tbz(flipped, words[0], 5, at);
        }
    }
}

} // verus!
