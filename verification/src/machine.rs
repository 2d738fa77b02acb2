//! What the AArch64 instructions do that trampolines are made of and that they
//! displace: branches, wide moves, literal loads and jumps through a register.
//!
//! Instructions are read by the place values of their fields, as the
//! architecture lays them out.

use vstd::prelude::*;

verus! {

/// The state that these instructions read and write.
#[verifier::ext_equal]
pub struct Cpu {
    pub pc: int,
    /// The 64-bit registers `x0` to `x30`.
    pub x: Map<int, int>,
    pub n: bool,
    pub z: bool,
    pub c: bool,
    pub v: bool,
}

/// Addresses are 64 bits wide.
pub open spec fn wrapped(address: int) -> int {
    address % 0x1_0000_0000_0000_0000
}

/// A two's complement field of `2 * half` values, read as a signed number: the
/// upper half of the values stands for the negative numbers.
pub open spec fn sign_extended(value: u32, half: int) -> int {
    if value >= half {
        value - 2 * half
    } else {
        value as int
    }
}

/// Register `r`; number 31 reads as zero.
pub open spec fn register(cpu: Cpu, r: u32) -> int {
    if r == 31 {
        0
    } else {
        cpu.x[r as int]
    }
}

// ---------------------------------------------------------------------------
// Branches
// ---------------------------------------------------------------------------

/// `b`: `000101`, then a 26-bit distance.
pub open spec fn is_jump(word: u32) -> bool {
    word / 0x400_0000 == 0b000101
}

/// `bl`: `100101`, then a 26-bit distance.
pub open spec fn is_call(word: u32) -> bool {
    word / 0x400_0000 == 0b100101
}

/// `b.cond`: `01010100`, a 19-bit distance, one bit, a 4-bit condition.
pub open spec fn is_conditional(word: u32) -> bool {
    word / 0x100_0000 == 0b0101_0100
}

/// `cbz` and `cbnz`: width, `011010`, sense, a 19-bit distance, a register.
pub open spec fn tests_register(word: u32) -> bool {
    (word / 0x200_0000) % 64 == 0b011010
}

/// `tbz` and `tbnz`: high bit of the number, `011011`, sense, the rest of the
/// number, a 14-bit distance, a register.
pub open spec fn tests_bit(word: u32) -> bool {
    (word / 0x200_0000) % 64 == 0b011011
}

/// A branch whose distance is part of the instruction.
pub open spec fn is_branch(word: u32) -> bool {
    is_jump(word) || is_call(word) || is_conditional(word) || tests_register(word) || tests_bit(
        word,
    )
}

/// `adr` and `adrp`: bits 28 to 24 are `10000`.
pub open spec fn is_address(word: u32) -> bool {
    (word / 0x100_0000) % 32 == 0b10000
}

/// Loads of a literal: bits 29 to 27 are `011`, bits 25 and 24 are clear.
pub open spec fn is_literal(word: u32) -> bool {
    (word / 0x800_0000) % 8 == 0b011 && (word / 0x100_0000) % 4 == 0
}

/// How many instructions away the target of a branch is.
#[verifier::opaque]
pub open spec fn distance(word: u32) -> int {
    if is_jump(word) || is_call(word) {
        sign_extended(word % 0x400_0000, 0x200_0000)
    } else if tests_bit(word) {
        sign_extended((word / 32) % 0x4000, 0x2000)
    } else {
        sign_extended((word / 32) % 0x8_0000, 0x4_0000)
    }
}

/// Where the branch `word` at `pc` goes when it is taken.
pub open spec fn branch_target(word: u32, pc: int) -> int {
    wrapped(pc + 4 * distance(word))
}

/// Whether the condition holds; conditions come in pairs of opposites, but the
/// last two always hold.
pub open spec fn condition_holds(condition: u32, cpu: Cpu) -> bool {
    let holds = match condition / 2 {
        0 => cpu.z,
        1 => cpu.c,
        2 => cpu.n,
        3 => cpu.v,
        4 => cpu.c && !cpu.z,
        5 => cpu.n == cpu.v,
        6 => cpu.n == cpu.v && !cpu.z,
        _ => true,
    };
    if condition % 2 == 1 && condition != 15 {
        !holds
    } else {
        holds
    }
}

/// The register that `cbz` and `cbnz` test, in the width that they say.
pub open spec fn tested_value(word: u32, cpu: Cpu) -> int {
    if word / 0x8000_0000 == 1 {
        register(cpu, word % 32)
    } else {
        register(cpu, word % 32) % 0x1_0000_0000
    }
}

/// The bit that `tbz` and `tbnz` test.
pub open spec fn tested_bit(word: u32, cpu: Cpu) -> int {
    let number = 32 * (word / 0x8000_0000) + (word / 0x8_0000) % 32;
    (register(cpu, word % 32) / (vstd::arithmetic::power2::pow2(number as nat) as int)) % 2
}

/// Whether the branch is taken. Sense 0 asks for zero, sense 1 for not zero.
#[verifier::opaque]
pub open spec fn branch_taken(word: u32, cpu: Cpu) -> bool {
    if is_jump(word) || is_call(word) {
        true
    } else if is_conditional(word) {
        condition_holds(word % 16, cpu)
    } else if tests_register(word) {
        (tested_value(word, cpu) == 0) == ((word / 0x100_0000) % 2 == 0)
    } else {
        (tested_bit(word, cpu) == 0) == ((word / 0x100_0000) % 2 == 0)
    }
}

/// The state after the branch `word`.
pub open spec fn branched(word: u32, cpu: Cpu) -> Cpu {
    let next = wrapped(cpu.pc + 4);
    Cpu {
        pc: if branch_taken(word, cpu) {
            branch_target(word, cpu.pc)
        } else {
            next
        },
        x: if is_call(word) {
            cpu.x.insert(30, next)
        } else {
            cpu.x
        },
        ..cpu
    }
}

// ---------------------------------------------------------------------------
// Other instructions
// ---------------------------------------------------------------------------

/// `movz` into a 64-bit register: `110100101`, half, 16 bits, register.
pub open spec fn is_movz(word: u32) -> bool {
    word / 0x80_0000 == 0b1_1010_0101
}

/// `movk` into a 64-bit register: `111100101`, half, 16 bits, register.
pub open spec fn is_movk(word: u32) -> bool {
    word / 0x80_0000 == 0b1_1110_0101
}

/// What the half that a wide move writes weighs.
pub open spec fn half_weight(word: u32) -> int {
    match (word / 0x20_0000) % 4 {
        0 => 1,
        1 => 0x1_0000,
        2 => 0x1_0000_0000,
        _ => 0x1_0000_0000_0000,
    }
}

/// The value that a wide move leaves in its register, which held `before`.
pub open spec fn wide_moved(word: u32, before: int) -> int {
    let weight = half_weight(word);
    let imm = (word / 32) % 0x1_0000;
    if is_movz(word) {
        imm * weight
    } else {
        before - ((before / weight) % 0x1_0000) * weight + imm * weight
    }
}

/// `br`: bits 31 to 10 are fixed, then a register and five clear bits.
pub open spec fn is_register_jump(word: u32) -> bool {
    word / 0x400 == 0b11_0101_1000_0111_1100_0000 && word % 32 == 0
}

/// `nop`
pub open spec fn does_nothing(word: u32) -> bool {
    word == 0b1101_0101_0000_0011_0010_0000_0001_1111
}

/// `ldr` of a 64-bit register from a literal: `01011000`, a 19-bit distance, a
/// register.
pub open spec fn is_register_literal(word: u32) -> bool {
    word / 0x100_0000 == 0b0101_1000
}

/// The state after the instruction at `cpu.pc` of the code at `base`; nothing
/// where that is not one of these instructions.
pub open spec fn step(code: Seq<u32>, base: int, cpu: Cpu) -> Option<Cpu> {
    let at = (cpu.pc - base) / 4;
    let word = code[at];
    let rd = (word % 32) as int;
    if (cpu.pc - base) % 4 != 0 || at < 0 || at >= code.len() {
        None
    } else if is_branch(word) {
        Some(branched(word, cpu))
    } else if (is_movz(word) || is_movk(word)) && rd != 31 {
        Some(
            Cpu {
                pc: wrapped(cpu.pc + 4),
                x: cpu.x.insert(rd, wide_moved(word, cpu.x[rd])),
                ..cpu
            },
        )
    } else if is_register_jump(word) && (word / 32) % 32 != 31 {
        Some(Cpu { pc: cpu.x[((word / 32) % 32) as int], ..cpu })
    } else if does_nothing(word) {
        Some(Cpu { pc: wrapped(cpu.pc + 4), ..cpu })
    } else if is_register_literal(word) && rd != 31 {
        let literal = at + sign_extended((word / 32) % 0x8_0000, 0x4_0000);
        if 0 <= literal && literal + 1 < code.len() {
            Some(
                Cpu {
                    pc: wrapped(cpu.pc + 4),
                    x: cpu.x.insert(rd, code[literal] + 0x1_0000_0000 * code[literal + 1]),
                    ..cpu
                },
            )
        } else {
            None
        }
    } else {
        None
    }
}

/// The state after `count` instructions of the code at `base`.
pub open spec fn run(code: Seq<u32>, base: int, cpu: Cpu, count: nat) -> Option<Cpu>
    decreases count,
{
    if count == 0 {
        Some(cpu)
    } else {
        match step(code, base, cpu) {
            Some(next) => run(code, base, next, (count - 1) as nat),
            None => None,
        }
    }
}

/// Running on from where a run arrived.
pub proof fn run_continues(code: Seq<u32>, base: int, cpu: Cpu, count: nat, more: nat)
    requires
        run(code, base, cpu, count) is Some,
    ensures
        run(code, base, cpu, count + more) == run(
            code,
            base,
            run(code, base, cpu, count)->Some_0,
            more,
        ),
    decreases count,
{
    if count > 0 {
        run_continues(
            code,
            base,
            step(code, base, cpu)->Some_0,
            (count - 1) as nat,
            more,
        );
    }
}

} // verus!
