//! What holds of decoded and relocated code, by what the machine does with it.

use vstd::prelude::*;

use crate::arm64::{
    b_enc, build_trampoline, mov_imm48, plan_op, plan_size, plan_trampoline, Plan, TrampolinePlan,
    Window,
};
use crate::error::HookError;
use crate::machine::Cpu;

verus! {

// ---------------------------------------------------------------------------
// Fields
// ---------------------------------------------------------------------------

/// Shifts and masks pick out the fields that place values do.
#[verifier::spinoff_prover]
#[verifier::rlimit(60)]
proof fn lemma_fields(op: u32)
    ensures
        op >> 26 == op / 0x400_0000,
        op >> 25 == op / 0x200_0000,
        (op >> 24) & 0b11111 == (op / 0x100_0000) % 32,
        (op >> 27) & 0b111 == (op / 0x800_0000) % 8,
        (op >> 24) & 0b11 == (op / 0x100_0000) % 4,
        (op >> 25) & 0b111111 == (op / 0x200_0000) % 64,
        op & 0x03FF_FFFF == op % 0x400_0000,
        (op >> 5) & 0x7_FFFF == (op / 32) % 0x8_0000,
        (op >> 5) & 0x3FFF == (op / 32) % 0x4000,
        op & 0xF == op % 16,
        op & 0x1F == op % 32,
{
    assert(op >> 26 == op / 0x400_0000 && op >> 25 == op / 0x200_0000 && (op >> 24) & 0b11111 == (op
        / 0x100_0000) % 32 && (op >> 27) & 0b111 == (op / 0x800_0000) % 8 && (op >> 24) & 0b11 == (
    op / 0x100_0000) % 4 && (op >> 25) & 0b111111 == (op / 0x200_0000) % 64 && op & 0x03FF_FFFF
        == op % 0x400_0000 && (op >> 5) & 0x7_FFFF == (op / 32) % 0x8_0000 && (op >> 5) & 0x3FFF
        == (op / 32) % 0x4000 && op & 0xF == op % 16 && op & 0x1F == op % 32) by (bit_vector);
}

/// An instruction is of one kind at most.
#[verifier::spinoff_prover]
#[verifier::rlimit(60)]
pub proof fn lemma_kinds(op: u32)
    ensures
        crate::machine::is_jump(op) ==> !crate::machine::is_call(op) && op / 0x200_0000
            != 0b0101010 && !crate::machine::is_address(op) && !crate::machine::is_literal(op)
            && !crate::machine::tests_register(op) && !crate::machine::tests_bit(op),
        crate::machine::is_call(op) ==> op / 0x200_0000 != 0b0101010 && !crate::machine::is_address(
            op,
        ) && !crate::machine::is_literal(op) && !crate::machine::tests_register(op)
            && !crate::machine::tests_bit(op),
        crate::machine::is_conditional(op) ==> op / 0x200_0000 == 0b0101010,
        op / 0x200_0000 == 0b0101010 ==> !crate::machine::is_address(op)
            && !crate::machine::is_literal(op) && !crate::machine::tests_register(op)
            && !crate::machine::tests_bit(op),
        crate::machine::is_address(op) ==> !crate::machine::tests_register(op)
            && !crate::machine::tests_bit(op),
        crate::machine::is_literal(op) ==> !crate::machine::tests_register(op)
            && !crate::machine::tests_bit(op),
        crate::machine::tests_register(op) ==> !crate::machine::tests_bit(op),
{
    assert((op / 0x400_0000 == 0b000101 || op / 0x400_0000 == 0b100101 ==> op / 0x200_0000
        != 0b0101010 && (op / 0x100_0000) % 32 != 0b10000 && (op / 0x800_0000) % 8 != 0b011 && (op
        / 0x200_0000) % 64 != 0b011010 && (op / 0x200_0000) % 64 != 0b011011) && (op / 0x100_0000
        == 0b0101_0100 ==> op / 0x200_0000 == 0b0101010) && (op / 0x200_0000 == 0b0101010 ==> (op
        / 0x100_0000) % 32 != 0b10000 && (op / 0x800_0000) % 8 != 0b011 && (op / 0x200_0000) % 64
        != 0b011010 && (op / 0x200_0000) % 64 != 0b011011) && ((op / 0x100_0000) % 32 == 0b10000
        ==> (op / 0x200_0000) % 64 != 0b011010 && (op / 0x200_0000) % 64 != 0b011011) && ((op
        / 0x800_0000) % 8 == 0b011 && (op / 0x100_0000) % 4 == 0 ==> (op / 0x200_0000) % 64
        != 0b011010 && (op / 0x200_0000) % 64 != 0b011011)) by (bit_vector);
}

/// A signed field gives back the distance that was put into it.
proof fn lemma_field_keeps(words: int)
    requires
        -0x2000 <= words < 0x2000,
    ensures
        crate::machine::sign_extended((words % 0x400_0000) as u32, 0x200_0000) == words,
        crate::machine::sign_extended((words % 0x8_0000) as u32, 0x4_0000) == words,
        crate::machine::sign_extended((words % 0x4000) as u32, 0x2000) == words,
{
    if words < 0 {
        assert(words % 0x400_0000 == words + 0x400_0000);
        assert(words % 0x8_0000 == words + 0x8_0000);
        assert(words % 0x4000 == words + 0x4000);
    }
}

/// What an instruction is planned as, by its fields.
#[verifier::spinoff_prover]
#[verifier::rlimit(60)]
pub proof fn lemma_decoded(op: u32, pc: u64)
    ensures
        ({
            let plan = crate::arm64::decoded(op, pc);
            let target = crate::machine::branch_target(op, pc as int) as u64;
            &&& crate::machine::is_jump(op) <==> plan is Some && plan->Some_0 is B
            &&& crate::machine::is_call(op) <==> plan is Some && plan->Some_0 is Bl
            &&& crate::machine::is_conditional(op) ==> plan is Some && plan->Some_0 is BCond
            &&& crate::machine::tests_register(op) <==> plan is Some && plan->Some_0 is CbzCbnz
            &&& crate::machine::tests_bit(op) <==> plan is Some && plan->Some_0 is TbzTbnz
            &&& crate::machine::is_address(op) || crate::machine::is_literal(op) <==> plan is None
            &&& plan matches Some(Plan::B { target: to }) ==> to == target
            &&& plan matches Some(Plan::Bl { target: to }) ==> to == target
            &&& plan matches Some(Plan::BCond { cond, inverted, target: to }) ==> cond == op % 16
                && !inverted && to == target && op / 0x200_0000 == 0b0101010
            &&& plan matches Some(Plan::CbzCbnz { op: word, rt, target: to }) ==> word == op && rt
                == op & 0x1F && to == target
            &&& plan matches Some(Plan::TbzTbnz { op: word, rt, target: to }) ==> word == op && rt
                == op & 0x1F && to == target
            &&& plan matches Some(Plan::Verbatim { op: word }) ==> word == op
                && !crate::machine::is_branch(op)
        }),
{
    reveal(crate::machine::distance);
    lemma_fields(op);
    lemma_kinds(op);
}

/// An instruction is planned as the machine would run it: a branch by its kind,
/// with the target that the machine would branch to, anything else as it
/// stands. What reads its own address is refused, and nothing else is.
#[verifier::spinoff_prover]
#[verifier::rlimit(60)]
pub proof fn plan_says_what_the_machine_does(op: u32, pc: u64, r: Result<Plan, HookError>)
    requires
        call_ensures(plan_op, (op, pc), r),
    ensures
        r is Err <==> crate::machine::is_address(op) || crate::machine::is_literal(op),
        r matches Err(error) ==> error is EntryPatchUnsupported
            && error->EntryPatchUnsupported_0@ == if crate::machine::is_address(op) {
            "adr/adrp in the displaced prologue"@
        } else {
            "literal load in the displaced prologue"@
        },
        crate::machine::is_branch(op) ==> r is Ok && r->Ok_0.destination() == Some(
            crate::machine::branch_target(op, pc as int) as u64,
        ),
        r matches Ok(plan) ==> {
            &&& plan is B <==> crate::machine::is_jump(op)
            &&& plan is Bl <==> crate::machine::is_call(op)
            &&& crate::machine::is_conditional(op) ==> plan is BCond && plan->cond == op % 16
                && !plan->inverted
            &&& plan is CbzCbnz <==> crate::machine::tests_register(op)
            &&& plan is TbzTbnz <==> crate::machine::tests_bit(op)
            &&& plan is Verbatim ==> plan == (Plan::Verbatim { op })
        },
{
    lemma_decoded(op, pc);
    lemma_fields(op);
}

// ---------------------------------------------------------------------------
// Emitted words
// ---------------------------------------------------------------------------

/// Fields of the three wide moves.
#[verifier::spinoff_prover]
#[verifier::rlimit(60)]
proof fn lemma_wide_moves(rd: u32, value: u64)
    requires
        rd < 32,
    ensures
        value % 0x1_0000_0000_0000 == value % 0x1_0000 + ((value / 0x1_0000) % 0x1_0000)
            * 0x1_0000 + ((value / 0x1_0000_0000) % 0x1_0000) * 0x1_0000_0000,
        ({
            let words = crate::arm64::mov48(rd, value);
            &&& crate::machine::is_movz(words[0])
            &&& crate::machine::is_movk(words[1])
            &&& crate::machine::is_movk(words[2])
            &&& (words[0] / 0x20_0000) % 4 == 0
            &&& (words[1] / 0x20_0000) % 4 == 1
            &&& (words[2] / 0x20_0000) % 4 == 2
            &&& (words[0] / 32) % 0x1_0000 == value % 0x1_0000
            &&& (words[1] / 32) % 0x1_0000 == (value / 0x1_0000) % 0x1_0000
            &&& (words[2] / 32) % 0x1_0000 == (value / 0x1_0000_0000) % 0x1_0000
            &&& words[0] % 32 == rd
            &&& words[1] % 32 == rd
            &&& words[2] % 32 == rd
        }),
{
    let lo = 0xD280_0000 | (((value & 0xFFFF) as u32) << 5) | rd;
    let mid = 0xF2A0_0000 | ((((value >> 16) & 0xFFFF) as u32) << 5) | rd;
    let hi = 0xF2C0_0000 | ((((value >> 32) & 0xFFFF) as u32) << 5) | rd;
    assert(lo / 0x80_0000 == 0b1_1010_0101 && mid / 0x80_0000 == 0b1_1110_0101 && hi / 0x80_0000
        == 0b1_1110_0101 && (lo / 0x20_0000) % 4 == 0 && (mid / 0x20_0000) % 4 == 1 && (hi
        / 0x20_0000) % 4 == 2 && (lo / 32) % 0x1_0000 == value % 0x1_0000 && (mid / 32) % 0x1_0000
        == (value / 0x1_0000) % 0x1_0000 && (hi / 32) % 0x1_0000 == (value / 0x1_0000_0000)
        % 0x1_0000 && lo % 32 == rd && mid % 32 == rd && hi % 32 == rd && value % 0x1_0000_0000_0000
        == value % 0x1_0000 + ((value / 0x1_0000) % 0x1_0000) * 0x1_0000 + ((value / 0x1_0000_0000)
        % 0x1_0000) * 0x1_0000_0000) by (bit_vector)
        requires
            rd < 32,
            lo == 0xD280_0000 | (((value & 0xFFFF) as u32) << 5) | rd,
            mid == 0xF2A0_0000 | ((((value >> 16) & 0xFFFF) as u32) << 5) | rd,
            hi == 0xF2C0_0000 | ((((value >> 32) & 0xFFFF) as u32) << 5) | rd,
    ;
}

/// `word` branches on the condition that `op` branches on, or on its opposite.
spec fn tests_as(word: u32, op: u32, opposite: bool) -> bool {
    &&& !crate::machine::is_jump(word) && !crate::machine::is_call(word)
    &&& crate::machine::is_conditional(op) ==> {
        &&& crate::machine::is_conditional(word)
        &&& if opposite {
            word % 16 == if op % 2 == 0 {
                op % 16 + 1
            } else {
                op % 16 - 1
            }
        } else {
            word % 16 == op % 16
        }
    }
    &&& !crate::machine::is_conditional(op) ==> {
        &&& !crate::machine::is_conditional(word)
        &&& crate::machine::tests_register(word) == crate::machine::tests_register(op)
        &&& crate::machine::tests_bit(word) == crate::machine::tests_bit(op)
        &&& word / 0x8000_0000 == op / 0x8000_0000
        &&& word % 32 == op % 32
        &&& crate::machine::tests_bit(op) ==> (word / 0x8_0000) % 32 == (op / 0x8_0000) % 32
        &&& ((word / 0x100_0000) % 2 == (op / 0x100_0000) % 2) == !opposite
    }
}

/// A branch on the opposite is taken exactly when the other is not.
#[verifier::spinoff_prover]
#[verifier::rlimit(60)]
proof fn lemma_taken(word: u32, op: u32, opposite: bool, cpu: Cpu, at: Cpu)
    requires
        tests_as(word, op, opposite),
        crate::machine::is_conditional(op) || crate::machine::tests_register(op)
            || crate::machine::tests_bit(op),
        !crate::machine::is_jump(op) && !crate::machine::is_call(op),
        crate::machine::is_conditional(op) && opposite ==> op % 16 < 14,
        cpu.x == at.x && cpu.n == at.n && cpu.z == at.z && cpu.c == at.c && cpu.v == at.v,
    ensures
        crate::machine::branch_taken(word, at) == (crate::machine::branch_taken(op, cpu)
            != opposite),
{
    reveal(crate::machine::branch_taken);
}

#[verifier::spinoff_prover]
#[verifier::rlimit(60)]
proof fn lemma_conditional(op: u32, imm: u32, condition: u32, word: u32)
    requires
        crate::machine::is_conditional(op),
        imm < 0x8_0000,
        condition == op & 0xF || (condition == (op & 0xF) ^ 1 && op % 16 < 14),
        word == 0x5400_0000 | (imm << 5) | condition,
    ensures
        tests_as(word, op, condition != op & 0xF),
        crate::machine::is_branch(word),
        crate::machine::distance(word) == crate::machine::sign_extended(imm, 0x4_0000),
{
    reveal(crate::machine::distance);
    lemma_kinds(op);
    lemma_kinds(word);
    assert((op & 0xF) ^ 1 != op & 0xF && (condition == op & 0xF ==> word % 16 == op % 16) && (
    condition == (op & 0xF) ^ 1 ==> word % 16 == if op % 2 == 0 {
        op % 16 + 1
    } else {
        op % 16 - 1
    }) && word / 0x100_0000 == 0x54 && (word / 32) % 0x8_0000 == imm) by (bit_vector)
        requires
            imm < 0x8_0000,
            condition == op & 0xF || condition == (op & 0xF) ^ 1,
            word == 0x5400_0000 | (imm << 5) | condition,
    ;
}

#[verifier::spinoff_prover]
#[verifier::rlimit(60)]
proof fn lemma_register_test(op: u32, imm: u32, opposite: bool, word: u32)
    requires
        crate::machine::tests_register(op),
        imm < 0x8_0000,
        opposite ==> imm == 5,
        word == if opposite {
            ((op ^ 0x0100_0000) & 0xFF00_001F) | (5u32 << 5) | (op & 0x1F)
        } else {
            (op & 0xFF00_0000) | (imm << 5) | (op & 0x1F)
        },
    ensures
        tests_as(word, op, opposite),
        crate::machine::is_branch(word),
        crate::machine::distance(word) == crate::machine::sign_extended(imm, 0x4_0000),
{
    reveal(crate::machine::distance);
    lemma_kinds(op);
    lemma_kinds(word);
    assert((word / 0x200_0000) % 64 == 0b011010 && word / 0x8000_0000 == op / 0x8000_0000 && word
        % 32 == op % 32 && ((word / 0x100_0000) % 2 == (op / 0x100_0000) % 2) == !opposite && (word
        / 32) % 0x8_0000 == imm) by (bit_vector)
        requires
            (op / 0x200_0000) % 64 == 0b011010,
            imm < 0x8_0000,
            opposite ==> imm == 5,
            word == if opposite {
                ((op ^ 0x0100_0000) & 0xFF00_001F) | (5u32 << 5) | (op & 0x1F)
            } else {
                (op & 0xFF00_0000) | (imm << 5) | (op & 0x1F)
            },
    ;
}

#[verifier::spinoff_prover]
#[verifier::rlimit(60)]
proof fn lemma_bit_test(op: u32, imm: u32, opposite: bool, word: u32)
    requires
        crate::machine::tests_bit(op),
        imm < 0x4000,
        opposite ==> imm == 5,
        word == if opposite {
            ((op ^ 0x0100_0000) & 0xFFF8_001F) | (5u32 << 5) | (op & 0x1F)
        } else {
            (op & 0xFFF8_0000) | (imm << 5) | (op & 0x1F)
        },
    ensures
        tests_as(word, op, opposite),
        crate::machine::is_branch(word),
        crate::machine::distance(word) == crate::machine::sign_extended(imm, 0x2000),
{
    reveal(crate::machine::distance);
    lemma_kinds(op);
    lemma_kinds(word);
    assert((word / 0x200_0000) % 64 == 0b011011 && word / 0x8000_0000 == op / 0x8000_0000 && word
        % 32 == op % 32 && ((word / 0x100_0000) % 2 == (op / 0x100_0000) % 2) == !opposite && (word
        / 0x8_0000) % 32 == (op / 0x8_0000) % 32 && (word / 32) % 0x4000 == imm) by (bit_vector)
        requires
            (op / 0x200_0000) % 64 == 0b011011,
            imm < 0x4000,
            opposite ==> imm == 5,
            word == if opposite {
                ((op ^ 0x0100_0000) & 0xFFF8_001F) | (5u32 << 5) | (op & 0x1F)
            } else {
                (op & 0xFFF8_0000) | (imm << 5) | (op & 0x1F)
            },
    ;
}

// ---------------------------------------------------------------------------
// Runs
// ---------------------------------------------------------------------------

/// The words `words` stand at word `at` of the code.
pub open spec fn stand_at(code: Seq<u32>, at: int, words: Seq<u32>) -> bool {
    &&& 0 <= at && at + words.len() <= code.len()
    &&& forall|k: int| 0 <= k < words.len() ==> code[at + k] == #[trigger] words[k]
}

/// The three wide moves load `value`, and do nothing else.
#[verifier::spinoff_prover]
#[verifier::rlimit(60)]
proof fn lemma_run_moves(code: Seq<u32>, base: int, at: int, cpu: Cpu, rd: u32, value: u64)
    requires
        stand_at(code, at, crate::arm64::mov48(rd, value)),
        rd < 31,
        0 <= base,
        base + 4 * code.len() < 0x1_0000_0000_0000_0000,
        cpu.pc == base + 4 * at,
    ensures
        crate::machine::run(code, base, cpu, 3) == Some(
            Cpu { pc: base + 4 * (at + 3), x: cpu.x.insert(rd as int, (value % 0x1_0000_0000_0000) as int), ..cpu },
        ),
{
    let words = crate::arm64::mov48(rd, value);
    lemma_wide_moves(rd, value);
    lemma_wide_value(rd, value, cpu.x[rd as int]);
    assert(code[at + 0] == words[0] && code[at + 1] == words[1] && code[at + 2] == words[2]);
    let r = rd as int;
    let low = crate::machine::wide_moved(words[0], cpu.x[r]);
    let middle = crate::machine::wide_moved(words[1], low);
    let c1 = Cpu { pc: base + 4 * (at + 1), x: cpu.x.insert(r, low), ..cpu };
    let c2 = Cpu { pc: base + 4 * (at + 2), x: cpu.x.insert(r, middle), ..cpu };
    let c3 = Cpu { pc: base + 4 * (at + 3), x: cpu.x.insert(r, (value % 0x1_0000_0000_0000) as int), ..cpu };
    lemma_step_move(code, base, at, cpu);
    assert(c1.x.insert(r, middle) =~= c2.x);
    lemma_step_move(code, base, at + 1, c1);
    assert(c2.x.insert(r, (value % 0x1_0000_0000_0000) as int) =~= c3.x);
    lemma_step_move(code, base, at + 2, c2);
    assert(crate::machine::run(code, base, c3, 0) == Some(c3));
    assert(crate::machine::run(code, base, c2, 1) == Some(c3));
    assert(crate::machine::run(code, base, c1, 2) == Some(c3));
}

/// What the three wide moves add up to.
#[verifier::spinoff_prover]
#[verifier::rlimit(60)]
proof fn lemma_wide_value(rd: u32, value: u64, before: int)
    requires
        rd < 31,
    ensures
        ({
            let words = crate::arm64::mov48(rd, value);
            crate::machine::wide_moved(
                words[2],
                crate::machine::wide_moved(
                    words[1],
                    crate::machine::wide_moved(words[0], before),
                ),
            ) == value % 0x1_0000_0000_0000
        }),
{
    let words = crate::arm64::mov48(rd, value);
    lemma_wide_moves(rd, value);
    let low = (value % 0x1_0000) as int;
    let middle = low + ((value / 0x1_0000) % 0x1_0000) * 0x1_0000;
    assert(crate::machine::wide_moved(words[0], before) == low);
    assert(crate::machine::wide_moved(words[1], low) == middle);
    assert((middle / 0x1_0000_0000) % 0x1_0000 == 0);
    assert(crate::machine::wide_moved(words[2], middle) == middle + ((value / 0x1_0000_0000)
        % 0x1_0000) * 0x1_0000_0000);
}

/// One wide move.
#[verifier::spinoff_prover]
#[verifier::rlimit(60)]
proof fn lemma_step_move(code: Seq<u32>, base: int, at: int, cpu: Cpu)
    requires
        0 <= at < code.len(),
        crate::machine::is_movz(code[at]) || crate::machine::is_movk(code[at]),
        code[at] % 32 != 31,
        0 <= base,
        base + 4 * code.len() < 0x1_0000_0000_0000_0000,
        cpu.pc == base + 4 * at,
    ensures
        ({
            let rd = (code[at] % 32) as int;
            crate::machine::step(code, base, cpu) == Some(
                Cpu {
                    pc: base + 4 * (at + 1),
                    x: cpu.x.insert(rd, crate::machine::wide_moved(code[at], cpu.x[rd])),
                    ..cpu
                },
            )
        }),
{
    assert(!crate::machine::is_branch(code[at]));
}

/// The four words of a far jump arrive at `target`; `x16` is theirs.
#[verifier::spinoff_prover]
#[verifier::rlimit(60)]
proof fn lemma_run_far_jump(code: Seq<u32>, base: int, at: int, cpu: Cpu, target: u64)
    requires
        stand_at(code, at, crate::arm64::far_jump(target)),
        0 <= base,
        base + 4 * code.len() < 0x1_0000_0000_0000_0000,
        cpu.pc == base + 4 * at,
    ensures
        crate::machine::run(code, base, cpu, 4) == Some(
            Cpu {
                pc: (target % 0x1_0000_0000_0000) as int,
                x: cpu.x.insert(16, (target % 0x1_0000_0000_0000) as int),
                ..cpu
            },
        ),
{
    let words = crate::arm64::far_jump(target);
    let moves = crate::arm64::mov48(16, target);
    assert forall|k: int| 0 <= k < moves.len() implies code[at + k] == #[trigger] moves[k] by {
        assert(words[k] == moves[k]);
    }
    lemma_run_moves(code, base, at, cpu, 16, target);
    let low = (target % 0x1_0000_0000_0000) as int;
    lemma_run_jump(code, base, at + 3, cpu, 3, low, cpu.x.insert(16, low));
    assert(code[at + 3] == words[3]);
}

/// A `br x16` behind a run that left `target` in `x16` arrives there.
#[verifier::spinoff_prover]
#[verifier::rlimit(60)]
proof fn lemma_run_jump(
    code: Seq<u32>,
    base: int,
    at: int,
    cpu: Cpu,
    count: nat,
    target: int,
    x: Map<int, int>,
)
    requires
        crate::machine::run(code, base, cpu, count) == Some(Cpu { pc: base + 4 * at, x, ..cpu }),
        0 <= at < code.len(),
        x[16] == target,
    ensures
        code[at] == crate::arm64::BR_X16 ==> crate::machine::run(code, base, cpu, count + 1)
            == Some(Cpu { pc: target, x, ..cpu }),
{
    let there = Cpu { pc: base + 4 * at, x, ..cpu };
    let done = Cpu { pc: target, x, ..cpu };
    crate::machine::run_continues(code, base, cpu, count, 1);
    if code[at] == crate::arm64::BR_X16 {
        assert(crate::machine::step(code, base, there) == Some(done));
        assert(crate::machine::run(code, base, done, 0) == Some(done));
    }
}

/// `b` and `bl` are always taken.
pub proof fn lemma_always_taken(word: u32, cpu: Cpu)
    ensures
        crate::machine::is_jump(word) || crate::machine::is_call(word)
            ==> crate::machine::branch_taken(word, cpu),
{
    reveal(crate::machine::branch_taken);
}

/// One branch.
#[verifier::spinoff_prover]
#[verifier::rlimit(60)]
proof fn lemma_run_branch(code: Seq<u32>, base: int, at: int, cpu: Cpu)
    requires
        0 <= at < code.len(),
        crate::machine::is_branch(code[at]),
        0 <= base,
        base + 4 * code.len() < 0x1_0000_0000_0000,
        0 <= at + crate::machine::distance(code[at]) < 0x4000,
        cpu.pc == base + 4 * at,
    ensures
        crate::machine::run(code, base, cpu, 1) == Some(
            Cpu {
                pc: if crate::machine::branch_taken(code[at], cpu) {
                    base + 4 * (at + crate::machine::distance(code[at]))
                } else {
                    base + 4 * (at + 1)
                },
                x: if crate::machine::is_call(code[at]) {
                    cpu.x.insert(30, base + 4 * (at + 1))
                } else {
                    cpu.x
                },
                ..cpu
            },
        ),
{
    let next = crate::machine::branched(code[at], cpu);
    lemma_always_taken(code[at], cpu);
    assert(crate::machine::step(code, base, cpu) == Some(next));
    assert(crate::machine::run(code, base, next, 0) == Some(next));
}

/// The jump at the end of a trampoline arrives at `target`; `x16` is its own.
#[verifier::spinoff_prover]
#[verifier::rlimit(60)]
pub proof fn lemma_run_absolute_jump(code: Seq<u32>, base: int, at: int, cpu: Cpu, target: u64)
    requires
        stand_at(code, at, crate::arm64::absolute_jump(target)),
        0 <= base,
        base + 4 * code.len() < 0x1_0000_0000_0000_0000,
        cpu.pc == base + 4 * at,
    ensures
        crate::machine::run(code, base, cpu, 2) == Some(
            Cpu { pc: target as int, x: cpu.x.insert(16, target as int), ..cpu },
        ),
{
    let words = crate::arm64::absolute_jump(target);
    assert(code[at + 0] == words[0] && code[at + 1] == words[1] && code[at + 2] == words[2]
        && code[at + 3] == words[3]);
    assert(target & 0xFFFF_FFFF == target % 0x1_0000_0000 && target >> 32 == target
        / 0x1_0000_0000 && target >> 32 < 0x1_0000_0000 && target & 0xFFFF_FFFF < 0x1_0000_0000)
        by (bit_vector);
    let loaded = Cpu {
        pc: base + 4 * (at + 1),
        x: cpu.x.insert(16, target as int),
        ..cpu
    };
    assert(crate::machine::step(code, base, cpu) == Some(loaded));
    assert(crate::machine::run(code, base, loaded, 0) == Some(loaded));
    assert(crate::machine::run(code, base, cpu, 1) == Some(loaded));
    lemma_run_jump(code, base, at + 1, cpu, 1, target as int, loaded.x);
}

// ---------------------------------------------------------------------------
// Trampolines
// ---------------------------------------------------------------------------

/// Code of `count` instructions was displaced from `entry` into a trampoline at
/// `base`, the instruction `i` to its word `places[i]`.
pub struct Displacement {
    pub entry: int,
    pub count: int,
    pub base: int,
    pub places: Seq<int>,
}

impl Displacement {
    /// Where to go on for `address`: displaced code goes on in the trampoline,
    /// all other code where it is. Addresses have 48 bits.
    pub open spec fn now_at(self, address: int) -> int {
        if self.entry <= address < self.entry + 4 * self.count {
            self.base + 4 * self.places[(address - self.entry) / 4]
        } else {
            address % 0x1_0000_0000_0000
        }
    }
}

/// `end` is where the machine would be after the branch `op`, the instruction
/// `i` of the displaced code, had it not been displaced: at the same place, with
/// the same flags and registers. The scratch register `x16` may differ. A call
/// returns to the instruction behind it, or, as the last one, to the jump
/// that leads behind the displaced code.
pub open spec fn carried_on(
    end: Cpu,
    code: Seq<u32>,
    d: Displacement,
    op: u32,
    i: int,
    cpu: Cpu,
) -> bool {
    let after = crate::machine::branched(op, cpu);
    &&& end.pc == d.now_at(after.pc)
    &&& end.n == cpu.n && end.z == cpu.z && end.c == cpu.c && end.v == cpu.v
    &&& forall|r: int| 0 <= r < 30 && r != 16 ==> #[trigger] end.x[r] == cpu.x[r]
    &&& if crate::machine::is_call(op) {
        ||| end.x[30] == d.now_at(after.x[30])
        ||| i + 1 == d.count && end.x[30] == d.base + 4 * (code.len() - 4)
    } else {
        end.x[30] == cpu.x[30]
    }
}

/// The displaced instruction `op` still does in the trampoline what it did: a
/// branch is carried on, and anything that is no branch stands there as it was,
/// with the next instruction behind it.
pub open spec fn still_does(
    code: Seq<u32>,
    d: Displacement,
    op: u32,
    i: int,
    cpu: Cpu,
) -> bool {
    let start = Cpu { pc: d.base + 4 * d.places[i], ..cpu };
    if crate::machine::is_branch(op) {
        exists|n: nat|
            {
                let end = #[trigger] crate::machine::run(code, d.base, start, n);
                end is Some && carried_on(end->Some_0, code, d, op, i, cpu)
            }
    } else {
        op / 0x100_0000 != 0b0101_0101 ==> {
            &&& code[d.places[i]] == op
            &&& d.places[i] + 1 == if i + 1 < d.count {
                d.places[i + 1]
            } else {
                code.len() - 4
            }
        }
    }
}

/// The facts that the cases below share.
spec fn in_trampoline(
    code: Seq<u32>,
    d: Displacement,
    entry: u64,
    ops: Seq<u32>,
    base: u64,
    positions: Seq<usize>,
    plan: Plan,
    i: int,
) -> bool {
    let window = crate::arm64::window_of(entry, ops.len());
    let size = crate::arm64::relocated_size(plan, window) as int;
    &&& d.entry == entry && d.count == ops.len() && d.base == base
    &&& d.places.len() == ops.len() && positions.len() == ops.len()
    &&& forall|k: int| 0 <= k < ops.len() ==> d.places[k] == #[trigger] positions[k]
    &&& forall|k: int| 0 <= k < ops.len() ==> 0 <= #[trigger] d.places[k] < 0x2000
    &&& entry + 4 * ops.len() < 0x1_0000_0000_0000
    &&& base + 4 * code.len() < 0x1_0000_0000_0000
    &&& 0 <= i < ops.len()
    &&& d.places[i] + size == if i + 1 < ops.len() {
        d.places[i + 1]
    } else {
        code.len() - 4
    }
    &&& stand_at(
        code,
        d.places[i],
        crate::arm64::relocated(plan, i, positions[i] as int, positions, window, base),
    )
    &&& stand_at(code, code.len() - 4, crate::arm64::absolute_jump(window.end))
    &&& plan == crate::arm64::decoded(ops[i], crate::arm64::pc_of(entry, i))->Some_0
    &&& crate::arm64::decoded(ops[i], crate::arm64::pc_of(entry, i)) is Some
}

/// A run that arrives behind the words of instruction `i`, with nothing
/// changed, arrives at the instruction that follows it.
#[verifier::spinoff_prover]
#[verifier::rlimit(60)]
proof fn lemma_falls_through(
    code: Seq<u32>,
    d: Displacement,
    entry: u64,
    ops: Seq<u32>,
    base: u64,
    positions: Seq<usize>,
    plan: Plan,
    i: int,
    cpu: Cpu,
    count: nat,
)
    requires
        in_trampoline(code, d, entry, ops, base, positions, plan, i),
        cpu.pc == entry + 4 * i,
        crate::machine::is_branch(ops[i]),
        !crate::machine::branch_taken(ops[i], cpu),
        ({
            let start = Cpu { pc: base + 4 * d.places[i], ..cpu };
            let size = crate::arm64::relocated_size(
                plan,
                crate::arm64::window_of(entry, ops.len()),
            ) as int;
            crate::machine::run(code, base as int, start, count) == Some(
                Cpu { pc: base + 4 * (d.places[i] + size), ..cpu },
            )
        }),
    ensures
        still_does(code, d, ops[i], i, cpu),
{
    let op = ops[i];
    let b = base as int;
    let start = Cpu { pc: base + 4 * d.places[i], ..cpu };
    let there = crate::machine::run(code, b, start, count)->Some_0;
    let after = crate::machine::branched(op, cpu);
    lemma_always_taken(op, cpu);
    assert(after.pc == entry + 4 * (i + 1));
    if i + 1 < ops.len() {
        assert(d.now_at(entry + 4 * (i + 1)) == base + 4 * d.places[i + 1]);
        assert(carried_on(there, code, d, op, i, cpu));
    } else {
        let end = (entry + 4 * ops.len()) as u64;
        lemma_run_absolute_jump(code, b, code.len() - 4, there, end);
        crate::machine::run_continues(code, b, start, count, 2);
        let done = crate::machine::run(code, b, start, count + 2);
        assert(carried_on(done->Some_0, code, d, op, i, cpu));
    }
}

/// A branch inside the displaced code.
#[verifier::spinoff_prover]
#[verifier::rlimit(60)]
proof fn lemma_inner(
    code: Seq<u32>,
    d: Displacement,
    entry: u64,
    ops: Seq<u32>,
    base: u64,
    positions: Seq<usize>,
    plan: Plan,
    i: int,
    cpu: Cpu,
)
    requires
        in_trampoline(code, d, entry, ops, base, positions, plan, i),
        cpu.pc == entry + 4 * i,
        crate::machine::is_branch(ops[i]),
        !plan.leaves(crate::arm64::window_of(entry, ops.len())),
    ensures
        still_does(code, d, ops[i], i, cpu),
{
    let op = ops[i];
    let b = base as int;
    let at = d.places[i];
    let word = code[at];
    let start = Cpu { pc: base + 4 * at, ..cpu };
    lemma_inner_word(code, d, entry, ops, base, positions, plan, i, cpu);
    let to = (crate::machine::branch_target(op, cpu.pc) - entry) / 4;
    assert(0 <= d.places[to] < 0x2000);
    lemma_run_branch(code, b, at, start);
    let next = crate::machine::run(code, b, start, 1)->Some_0;
    if crate::machine::branch_taken(op, cpu) {
        assert(next.pc == base + 4 * d.places[to]);
        assert(carried_on(next, code, d, op, i, cpu));
    } else {
        lemma_always_taken(op, cpu);
        assert(next =~= Cpu { pc: base + 4 * (at + 1), ..cpu });
        lemma_falls_through(code, d, entry, ops, base, positions, plan, i, cpu, 1);
    }
}

/// What a branch inside the displaced code becomes.
#[verifier::spinoff_prover]
#[verifier::rlimit(60)]
proof fn lemma_inner_word(
    code: Seq<u32>,
    d: Displacement,
    entry: u64,
    ops: Seq<u32>,
    base: u64,
    positions: Seq<usize>,
    plan: Plan,
    i: int,
    cpu: Cpu,
)
    requires
        in_trampoline(code, d, entry, ops, base, positions, plan, i),
        cpu.pc == entry + 4 * i,
        crate::machine::is_branch(ops[i]),
        !plan.leaves(crate::arm64::window_of(entry, ops.len())),
    ensures
        ({
            let word = code[d.places[i]];
            let start = Cpu { pc: base + 4 * d.places[i], ..cpu };
            let target = crate::machine::branch_target(ops[i], cpu.pc);
            let to = (target - entry) / 4;
            &&& crate::arm64::relocated_size(plan, crate::arm64::window_of(entry, ops.len())) == 1
            &&& entry <= target < entry + 4 * ops.len()
            &&& 0 <= to < ops.len()
            &&& crate::machine::is_branch(word)
            &&& crate::machine::is_call(word) == crate::machine::is_call(ops[i])
            &&& crate::machine::distance(word) == d.places[to] - d.places[i]
            &&& crate::machine::branch_taken(word, start) == crate::machine::branch_taken(
                ops[i],
                cpu,
            )
        }),
{
    let op = ops[i];
    let window = crate::arm64::window_of(entry, ops.len());
    let pc = crate::arm64::pc_of(entry, i);
    lemma_decoded(op, pc);
    let target = plan.destination()->Some_0;
    let words = crate::arm64::relocated(plan, i, positions[i] as int, positions, window, base);
    let at = d.places[i];
    assert(code[at + 0] == words[0]);
    let start = Cpu { pc: base + 4 * at, ..cpu };
    let to = crate::arm64::index_of(target, window);
    assert(d.places[to] == positions[to] && d.places[i] == positions[i]);
    let delta = crate::arm64::window_words(target, at, positions, window);
    lemma_fields(op);
    lemma_one_word(op, words[0], plan, delta, cpu, start);
}

/// The one word that a branch inside the displaced code becomes.
#[verifier::spinoff_prover]
#[verifier::rlimit(60)]
proof fn lemma_one_word(op: u32, word: u32, plan: Plan, delta: int, cpu: Cpu, start: Cpu)
    requires
        crate::machine::is_branch(op),
        exists|pc: u64| #[trigger] crate::arm64::decoded(op, pc) == Some(plan),
        -0x2000 < delta < 0x2000,
        word == match plan {
            Plan::B { .. } => crate::arm64::branch_word(0b000101, delta),
            Plan::Bl { .. } => crate::arm64::branch_word(0b100101, delta),
            Plan::BCond { cond, .. } => 0x5400_0000 | (((delta % 0x8_0000) as u32) << 5) | cond,
            Plan::CbzCbnz { op, rt, .. } => (op & 0xFF00_0000) | (((delta % 0x8_0000) as u32) << 5)
                | rt,
            Plan::TbzTbnz { op, rt, .. } => (op & 0xFFF8_0000) | (((delta % 0x4000) as u32) << 5)
                | rt,
            _ => word,
        },
        cpu.x == start.x && cpu.n == start.n && cpu.z == start.z && cpu.c == start.c && cpu.v
            == start.v,
    ensures
        crate::machine::is_branch(word),
        crate::machine::is_call(word) == crate::machine::is_call(op),
        crate::machine::distance(word) == delta,
        crate::machine::branch_taken(word, start) == crate::machine::branch_taken(op, cpu),
{
    let pc = choose|pc: u64| #[trigger] crate::arm64::decoded(op, pc) == Some(plan);
    lemma_decoded(op, pc);
    lemma_fields(op);
    lemma_kinds(op);
    lemma_field_keeps(delta);
    if crate::machine::is_jump(op) || crate::machine::is_call(op) {
        let link = crate::machine::is_call(op);
        crate::arm64::branch_round_trip(link, delta, 0);
        lemma_decoded(word, 0);
        lemma_always_taken(op, cpu);
        lemma_always_taken(word, start);
        lemma_branch_distance(link, delta, word);
    } else if crate::machine::is_conditional(op) {
        lemma_conditional(op, (delta % 0x8_0000) as u32, op & 0xF, word);
        lemma_taken(word, op, false, cpu, start);
    } else if crate::machine::tests_register(op) {
        lemma_register_test(op, (delta % 0x8_0000) as u32, false, word);
        lemma_taken(word, op, false, cpu, start);
    } else {
        lemma_bit_test(op, (delta % 0x4000) as u32, false, word);
        lemma_taken(word, op, false, cpu, start);
    }
}

/// The distance of an encoded `b` or `bl`.
#[verifier::spinoff_prover]
#[verifier::rlimit(60)]
proof fn lemma_branch_distance(link: bool, words: int, word: u32)
    requires
        -0x2000 < words < 0x2000,
        word == crate::arm64::branch_word(
            if link {
                0b100101
            } else {
                0b000101
            },
            words,
        ),
        crate::machine::is_jump(word) || crate::machine::is_call(word),
    ensures
        crate::machine::distance(word) == words,
{
    reveal(crate::machine::distance);
    lemma_field_keeps(words);
    lemma_imm26(link, (words % 0x400_0000) as u32, word);
}

#[verifier::spinoff_prover]
#[verifier::rlimit(60)]
proof fn lemma_imm26(link: bool, imm: u32, word: u32)
    requires
        imm < 0x400_0000,
        word == ((if link {
            0b100101u32
        } else {
            0b000101u32
        }) << 26) | imm,
    ensures
        word % 0x400_0000 == imm,
{
    assert(word % 0x400_0000 == imm) by (bit_vector)
        requires
            imm < 0x400_0000,
            word == ((if link {
                0b100101u32
            } else {
                0b000101u32
            }) << 26) | imm,
    ;
}

/// A branch out of the displaced code.
#[verifier::spinoff_prover]
#[verifier::rlimit(60)]
proof fn lemma_outer(
    code: Seq<u32>,
    d: Displacement,
    entry: u64,
    ops: Seq<u32>,
    base: u64,
    positions: Seq<usize>,
    plan: Plan,
    i: int,
    cpu: Cpu,
)
    requires
        in_trampoline(code, d, entry, ops, base, positions, plan, i),
        cpu.pc == entry + 4 * i,
        crate::machine::is_branch(ops[i]),
        plan.leaves(crate::arm64::window_of(entry, ops.len())),
    ensures
        still_does(code, d, ops[i], i, cpu),
{
    lemma_always_taken(ops[i], cpu);
    let op = ops[i];
    let b = base as int;
    let window = crate::arm64::window_of(entry, ops.len());
    let pc = crate::arm64::pc_of(entry, i);
    lemma_decoded(op, pc);
    lemma_fields(op);
    let target = plan.destination()->Some_0;
    let words = crate::arm64::relocated(plan, i, positions[i] as int, positions, window, base);
    let at = d.places[i];
    let start = Cpu { pc: base + 4 * at, ..cpu };
    if crate::machine::is_jump(op) {
        lemma_run_far_jump(code, b, at, start, target);
        let end = crate::machine::run(code, b, start, 4);
        assert(carried_on(end->Some_0, code, d, op, i, cpu));
    } else if crate::machine::is_call(op) {
        lemma_call(code, d, entry, ops, base, positions, plan, i, cpu);
    } else {
        let jump = crate::arm64::far_jump(target);
        assert(stand_at(code, at + 1, jump)) by {
            assert forall|k: int| 0 <= k < jump.len() implies code[at + 1 + k]
                == #[trigger] jump[k] by {
                assert(code[at + (k + 1)] == words[k + 1]);
            }
        }
        assert(code[at + 0] == words[0]);
        lemma_skip(code, d, entry, ops, base, positions, plan, i, cpu);
        let skipping = crate::machine::run(code, b, start, 1)->Some_0;
        if crate::machine::branch_taken(op, cpu) {
            lemma_run_far_jump(code, b, at + 1, skipping, target);
            crate::machine::run_continues(code, b, start, 1, 4);
            let end = crate::machine::run(code, b, start, 1 + 4);
            assert(carried_on(end->Some_0, code, d, op, i, cpu));
        } else {
            lemma_falls_through(code, d, entry, ops, base, positions, plan, i, cpu, 1);
        }
    }
}

/// The word before a far jump lets it happen exactly when the branch is taken.
#[verifier::spinoff_prover]
#[verifier::rlimit(60)]
proof fn lemma_skip(
    code: Seq<u32>,
    d: Displacement,
    entry: u64,
    ops: Seq<u32>,
    base: u64,
    positions: Seq<usize>,
    plan: Plan,
    i: int,
    cpu: Cpu,
)
    requires
        in_trampoline(code, d, entry, ops, base, positions, plan, i),
        cpu.pc == entry + 4 * i,
        crate::machine::is_branch(ops[i]) && !crate::machine::is_jump(ops[i])
            && !crate::machine::is_call(ops[i]),
        plan.leaves(crate::arm64::window_of(entry, ops.len())),
    ensures
        ({
            let start = Cpu { pc: base + 4 * d.places[i], ..cpu };
            crate::machine::run(code, base as int, start, 1) == Some(
                Cpu {
                    pc: if crate::machine::branch_taken(ops[i], cpu) {
                        base + 4 * (d.places[i] + 1)
                    } else {
                        base + 4 * (d.places[i] + 5)
                    },
                    ..cpu
                },
            )
        }),
{
    let op = ops[i];
    let b = base as int;
    let window = crate::arm64::window_of(entry, ops.len());
    let pc = crate::arm64::pc_of(entry, i);
    lemma_decoded(op, pc);
    lemma_fields(op);
    let words = crate::arm64::relocated(plan, i, positions[i] as int, positions, window, base);
    let word = words[0];
    let at = d.places[i];
    assert(code[at + 0] == words[0]);
    let start = Cpu { pc: base + 4 * at, ..cpu };
    if crate::machine::is_conditional(op) && op % 16 >= 14 {
        reveal(crate::machine::branch_taken);
        let next = Cpu { pc: base + 4 * (at + 1), ..cpu };
        assert(crate::machine::does_nothing(word));
        assert(crate::machine::step(code, b, start) == Some(next));
        assert(crate::machine::run(code, b, next, 0) == Some(next));
    } else {
        if crate::machine::is_conditional(op) {
            assert((op & 0xF) ^ 1 != op & 0xF) by (bit_vector);
            lemma_conditional(op, 5, (op & 0xF) ^ 1, word);
        } else if crate::machine::tests_register(op) {
            lemma_register_test(op, 5, true, word);
        } else {
            lemma_bit_test(op, 5, true, word);
        }
        lemma_taken(word, op, true, cpu, start);
        let next = crate::machine::branched(word, start);
        assert(crate::machine::distance(word) == 5);
        assert(crate::machine::step(code, b, start) == Some(next));
        assert(crate::machine::run(code, b, next, 0) == Some(next));
    }
}

/// A call out of the displaced code.
#[verifier::spinoff_prover]
#[verifier::rlimit(60)]
proof fn lemma_call(
    code: Seq<u32>,
    d: Displacement,
    entry: u64,
    ops: Seq<u32>,
    base: u64,
    positions: Seq<usize>,
    plan: Plan,
    i: int,
    cpu: Cpu,
)
    requires
        in_trampoline(code, d, entry, ops, base, positions, plan, i),
        cpu.pc == entry + 4 * i,
        crate::machine::is_call(ops[i]),
        plan.leaves(crate::arm64::window_of(entry, ops.len())),
    ensures
        still_does(code, d, ops[i], i, cpu),
{
    lemma_always_taken(ops[i], cpu);
    let op = ops[i];
    let b = base as int;
    let window = crate::arm64::window_of(entry, ops.len());
    let pc = crate::arm64::pc_of(entry, i);
    lemma_decoded(op, pc);
    let target = plan.destination()->Some_0;
    let words = crate::arm64::relocated(plan, i, positions[i] as int, positions, window, base);
    let at = d.places[i];
    let start = Cpu { pc: base + 4 * at, ..cpu };
    let back = crate::arm64::return_address(i, positions, window, base);
    let call = crate::arm64::mov48(16, target);
    let link = crate::arm64::mov48(30, back);
    assert(stand_at(code, at, call)) by {
        assert forall|k: int| 0 <= k < call.len() implies code[at + k] == #[trigger] call[k] by {
            assert(code[at + k] == words[k]);
        }
    }
    assert(stand_at(code, at + 3, link)) by {
        assert forall|k: int| 0 <= k < link.len() implies code[at + 3 + k]
            == #[trigger] link[k] by {
            assert(code[at + (k + 3)] == words[k + 3]);
        }
    }
    assert(code[at + 6] == words[6]);
    if i + 1 < ops.len() {
        assert(d.places[i + 1] == positions[i + 1]);
    }
    lemma_run_moves(code, b, at, start, 16, target);
    let called = crate::machine::run(code, b, start, 3)->Some_0;
    lemma_run_moves(code, b, at + 3, called, 30, back);
    crate::machine::run_continues(code, b, start, 3, 3);
    let linked = crate::machine::run(code, b, start, 3 + 3)->Some_0;
    let low = (target % 0x1_0000_0000_0000) as int;
    assert(back < 0x1_0000_0000_0000);
    assert(back % 0x1_0000_0000_0000 == back);
    assert(linked.x == cpu.x.insert(16, low).insert(30, back as int));
    lemma_run_jump(code, b, at + 6, start, 6, low, linked.x);
    let end = crate::machine::run(code, b, start, 6 + 1);
    assert(d.now_at(entry + 4 * (i + 1)) == back);
    assert(d.now_at(target as int) == low);
    assert(carried_on(end->Some_0, code, d, op, i, cpu));
}

/// A trampoline does what the code did that it displaced. It is entered at its
/// first word. Every branch that stood in the code goes on from the trampoline
/// exactly where it would have gone, under exactly the conditions under which
/// it would have, and a call comes back to what followed it; all that is
/// touched besides is the scratch register `x16`. Every other instruction is
/// there as it was. Behind the last one, the trampoline goes on behind the
/// displaced code.
#[verifier::spinoff_prover]
#[verifier::rlimit(60)]
pub proof fn trampoline_does_what_it_displaces(
    entry: u64,
    ops: &[u32],
    base: u64,
    r: Result<Vec<u32>, HookError>,
) -> (d: Displacement)
    requires
        call_ensures(build_trampoline, (entry, ops, base), r),
        r is Ok,
        7 * ops.len() < 0x2000,
        entry + 4 * ops.len() < 0x1_0000_0000_0000,
        base + 28 * ops.len() + 16 < 0x1_0000_0000_0000,
    ensures
        d.entry == entry && d.count == ops.len() && d.base == base,
        d.places.len() == ops.len(),
        ops.len() > 0 ==> d.places[0] == 0,
        forall|i: int, cpu: Cpu|
            0 <= i < ops.len() && cpu.pc == entry + 4 * i ==> #[trigger] still_does(
                r->Ok_0@,
                d,
                ops@[i],
                i,
                cpu,
            ),
        forall|cpu: Cpu|
            cpu.pc == base + 4 * (r->Ok_0.len() - 4) ==> #[trigger] crate::machine::run(
                r->Ok_0@,
                base as int,
                cpu,
                2,
            ) == Some(
                Cpu {
                    pc: entry + 4 * ops.len(),
                    x: cpu.x.insert(16, entry + 4 * ops.len()),
                    ..cpu
                },
            ),
{
    let code = r->Ok_0@;
    let count = ops@.len();
    let window = crate::arm64::window_of(entry, count);
    let plans = crate::arm64::plans_of(entry, ops@);
    let positions = crate::arm64::positions_of(plans, window);
    let d = Displacement {
        entry: entry as int,
        count: count as int,
        base: base as int,
        places: positions.map_values(|p: usize| p as int),
    };
    crate::arm64::lemma_words_bounds(plans, window, count);
    crate::arm64::relocated_prefix_length(plans, window, base, count);
    let jump = crate::arm64::absolute_jump(window.end);
    assert(code.len() == crate::arm64::words_before(plans, window, count) + 4);
    assert(stand_at(code, code.len() - 4, jump));
    assert forall|k: int| 0 <= k < count implies 0 <= #[trigger] d.places[k] < 0x2000
        && d.places[k] == positions[k] && positions[k] == crate::arm64::words_before(
        plans,
        window,
        k as nat,
    ) by {
        crate::arm64::lemma_words_bounds(plans, window, k as nat);
    }
    assert forall|i: int, cpu: Cpu|
        0 <= i < ops.len() && cpu.pc == entry + 4 * i implies #[trigger] still_does(
        code,
        d,
        ops@[i],
        i,
        cpu,
    ) by {
        let plan = plans[i];
        lemma_decoded(ops@[i], crate::arm64::pc_of(entry, i));
        crate::arm64::relocated_at_position(entry, ops@, base, i);
        let at = d.places[i];
        let words = crate::arm64::relocated(plan, i, positions[i] as int, positions, window, base);
        crate::arm64::relocated_length(plan, i, positions[i] as int, positions, window, base);
        assert(stand_at(code, at, words)) by {
            let part = code.subrange(at, at + words.len());
            assert forall|k: int| 0 <= k < words.len() implies code[at + k]
                == #[trigger] words[k] by {
                assert(part[k] == code[at + k]);
            }
        }
        if i + 1 < count {
            assert(d.places[i + 1] == crate::arm64::words_before(plans, window, (i + 1) as nat));
        }
        assert(in_trampoline(code, d, entry, ops@, base, positions, plan, i));
        if crate::machine::is_branch(ops@[i]) {
            if plan.leaves(window) {
                lemma_outer(code, d, entry, ops@, base, positions, plan, i, cpu);
            } else {
                lemma_inner(code, d, entry, ops@, base, positions, plan, i, cpu);
            }
        } else {
            assert(code[at + 0] == words[0]);
        }
    }
    assert forall|cpu: Cpu| cpu.pc == base + 4 * (code.len() - 4) implies
        #[trigger] crate::machine::run(code, base as int, cpu, 2) == Some(
        Cpu { pc: entry + 4 * ops.len(), x: cpu.x.insert(16, entry + 4 * ops.len()), ..cpu },
    ) by {
        lemma_run_absolute_jump(code, base as int, code.len() - 4, cpu, window.end);
    }
    d
}

/// Code is displaced exactly where none of it reads its own address; the
/// refusal names the first instruction that does.
#[verifier::spinoff_prover]
#[verifier::rlimit(60)]
pub proof fn only_address_readers_are_refused(
    entry: u64,
    ops: &[u32],
    base: u64,
    r: Result<Vec<u32>, HookError>,
)
    requires
        call_ensures(build_trampoline, (entry, ops, base), r),
    ensures
        r is Err <==> exists|i: int|
            0 <= i < ops.len() && (crate::machine::is_address(#[trigger] ops@[i])
                || crate::machine::is_literal(ops@[i])),
        r matches Err(error) ==> exists|i: int|
            {
                &&& 0 <= i < ops.len()
                &&& crate::machine::is_address(#[trigger] ops@[i]) || crate::machine::is_literal(
                    ops@[i],
                )
                &&& forall|k: int|
                    0 <= k < i ==> !crate::machine::is_address(#[trigger] ops@[k])
                        && !crate::machine::is_literal(ops@[k])
                &&& error is EntryPatchUnsupported
                &&& error->EntryPatchUnsupported_0@ == if crate::machine::is_address(ops@[i]) {
                    "adr/adrp in the displaced prologue"@
                } else {
                    "literal load in the displaced prologue"@
                }
            },
{
    assert forall|i: int| 0 <= i < ops.len() implies (crate::arm64::decoded(
        #[trigger] ops@[i],
        crate::arm64::pc_of(entry, i),
    ) is None <==> crate::machine::is_address(ops@[i]) || crate::machine::is_literal(ops@[i])) by {
        lemma_decoded(ops@[i], crate::arm64::pc_of(entry, i));
    }
    if let Err(error) = r {
        let i = choose|i: int|
            #[trigger] crate::arm64::first_refused(entry, ops@, i)
                && crate::arm64::refused_with(error, ops@[i]);
        assert(crate::machine::is_address(ops@[i]) || crate::machine::is_literal(ops@[i]));
        assert forall|k: int| 0 <= k < i implies !crate::machine::is_address(#[trigger] ops@[k])
            && !crate::machine::is_literal(ops@[k]) by {
            assert(ops@.take(i)[k] == ops@[k]);
        }
        lemma_fields(ops@[i]);
    }
}

/// The three instructions for a value are wide moves of one register that
/// leave the low 48 bits of the value in it, whatever it held.
#[verifier::spinoff_prover]
#[verifier::rlimit(60)]
pub proof fn wide_moves_load_the_value(rd: u32, value: u64, r: [u32; 3], before: int)
    requires
        call_ensures(mov_imm48, (rd, value), r),
        rd < 31,
    ensures
        forall|k: int|
            0 <= k < 3 ==> (crate::machine::is_movz(#[trigger] r@[k]) || crate::machine::is_movk(
                r@[k],
            )) && r@[k] % 32 == rd,
        crate::machine::wide_moved(
            r@[2],
            crate::machine::wide_moved(r@[1], crate::machine::wide_moved(r@[0], before)),
        ) == value % 0x1_0000_0000_0000,
{
    lemma_wide_moves(rd, value);
    lemma_wide_value(rd, value, before);
}

/// An encoded `b` or `bl` goes as far as it was told, in either direction.
#[verifier::spinoff_prover]
#[verifier::rlimit(60)]
pub proof fn encoded_branch_goes_its_distance(link: bool, words: i64, r: u32)
    requires
        call_ensures(
            b_enc,
            (
                if link {
                    0b100101u32
                } else {
                    0b000101u32
                },
                words,
            ),
            r,
        ),
        -0x200_0000 <= words < 0x200_0000,
    ensures
        crate::machine::is_call(r) == link,
        crate::machine::is_jump(r) == !link,
        crate::machine::distance(r) == words,
{
    reveal(crate::machine::distance);
    crate::arm64::branch_round_trip(link, words as int, 0);
    lemma_decoded(r, 0);
    lemma_kinds(r);
    lemma_fields(r);
    let imm = (words % 0x400_0000) as u32;
    lemma_imm26(link, imm, r);
    if words < 0 {
        assert(words % 0x400_0000 == words + 0x400_0000);
    }
}

/// A plan takes as many words as are emitted for it, and an inverted
/// conditional branch is the branch on the opposite condition.
#[verifier::spinoff_prover]
#[verifier::rlimit(60)]
pub proof fn inverted_plan_is_the_opposite_branch(
    cond: u32,
    target: u64,
    window: &Window,
    size: usize,
    index: int,
    pos: int,
    positions: Seq<usize>,
    base: u64,
)
    requires
        cond < 16,
        call_ensures(plan_size, (&Plan::BCond { cond, inverted: true, target }, window), size),
    ensures
        ({
            let words = crate::arm64::relocated(
                Plan::BCond { cond, inverted: true, target },
                index,
                pos,
                positions,
                *window,
                base,
            );
            &&& size == words.len()
            &&& words == crate::arm64::relocated(
                Plan::BCond {
                    cond: if cond % 2 == 0 {
                        (cond + 1) as u32
                    } else {
                        (cond - 1) as u32
                    },
                    inverted: false,
                    target,
                },
                index,
                pos,
                positions,
                *window,
                base,
            )
        }),
{
    assert((cond ^ 1) ^ 1 == cond && cond ^ 1 == if cond % 2 == 0 {
        cond + 1
    } else {
        cond - 1
    }) by (bit_vector)
        requires
            cond < 16,
    ;
}

/// A window holds the addresses from its start to before its end.
pub proof fn window_is_half_open(window: &Window, target: u64, r: bool)
    requires
        call_ensures(Window::contains, (window, target), r),
    ensures
        r <==> window.start <= target && target < window.end,
{
}

/// A plan can be assembled wherever its trampoline comes to lie: it gives what
/// is built there at once, as many words as it said, and it is refused exactly
/// where that is.
pub proof fn plan_assembles_to_the_trampoline(
    entry: u64,
    ops: &[u32],
    base: u64,
    planned: Result<TrampolinePlan, HookError>,
    built: Result<Vec<u32>, HookError>,
    count: usize,
    words: Vec<u32>,
)
    requires
        entry + 4 * ops.len() <= u64::MAX,
        base + 28 * ops.len() <= u64::MAX,
        7 * ops.len() + 4 <= usize::MAX,
        call_ensures(plan_trampoline, (entry, ops), planned),
        call_ensures(build_trampoline, (entry, ops, base), built),
        planned matches Ok(plan) ==> call_ensures(TrampolinePlan::word_count, (&plan,), count),
        planned matches Ok(plan) ==> call_ensures(TrampolinePlan::assemble, (&plan, base), words),
    ensures
        planned is Ok <==> built is Ok,
        planned is Ok ==> words@ == built->Ok_0@ && count == words.len(),
{
    if let Ok(plan) = planned {
        assert(count == crate::arm64::trampoline(plan.entry(), plan.ops(), base).len());
    }
}

} // verus!
