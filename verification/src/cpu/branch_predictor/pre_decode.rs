//! Pre-decoder: classifies a fetched instruction word without decoding it in full.

use vstd::prelude::*;

verus! {

/// Major opcode of the unconditional jump `JAL`.
pub const OPCODE_JAL: u32 = 0x6f;

/// Major opcode of the indirect jump `JALR`.
pub const OPCODE_JALR: u32 = 0x67;

/// Major opcode of the conditional branches.
pub const OPCODE_BRANCH: u32 = 0x63;

/// Pre-decode result.
#[derive(Debug, Clone, Copy, PartialEq, Eq, Structural)]
pub struct PreDecodeResp {
    /// The instruction is an unconditional jump.
    pub is_jal: bool,
    /// The instruction is an indirect jump.
    pub is_jalr: bool,
    /// The instruction is a conditional branch.
    pub is_branch: bool,
    /// Offset of the target from the instruction, in two's complement.
    pub imm: u32,
}

/// The major opcode of an instruction: its seven lowest bits.
pub open spec fn opcode(inst: u32) -> int {
    inst as int % 128
}

/// The offset that a conditional branch encodes, a multiple of two in
/// `-4096 .. 4096`: bit 31 is its sign, bit 7 its bit 11, bits 30 to 25 its
/// bits 10 to 5, and bits 11 to 8 its bits 4 to 1.
pub open spec fn branch_offset(inst: u32) -> int {
    -4096 * (inst as int / 0x8000_0000) + 2048 * ((inst as int / 0x80) % 2) + 32 * ((inst as int
        / 0x200_0000) % 64) + 2 * ((inst as int / 0x100) % 16)
}

/// The offset that an unconditional jump encodes, a multiple of two in
/// `-1048576 .. 1048576`: bit 31 is its sign, bits 19 to 12 its bits 19 to
/// 12, bit 20 its bit 11, and bits 30 to 21 its bits 10 to 1.
pub open spec fn jump_offset(inst: u32) -> int {
    -0x10_0000 * (inst as int / 0x8000_0000) + 0x1000 * ((inst as int / 0x1000) % 256) + 2048 * ((
    inst as int / 0x10_0000) % 2) + 2 * ((inst as int / 0x20_0000) % 1024)
}

/// A signed offset as the 32-bit word that stands for it in two's complement.
pub open spec fn as_word(offset: int) -> int {
    offset % 0x1_0000_0000
}

/// What the pre-decoder reports for an instruction word.
pub open spec fn spec_pre_decode(inst: u32) -> PreDecodeResp {
    PreDecodeResp {
        is_jal: opcode(inst) == OPCODE_JAL,
        is_jalr: opcode(inst) == OPCODE_JALR,
        is_branch: opcode(inst) == OPCODE_BRANCH,
        imm: if opcode(inst) == OPCODE_JAL {
            as_word(jump_offset(inst)) as u32
        } else if opcode(inst) == OPCODE_BRANCH {
            as_word(branch_offset(inst)) as u32
        } else {
            0
        },
    }
}

proof fn lemma_branch_offset_bits(inst: u32, imm: u32)
    requires
        imm == (if inst >> 31 == 1 {
            0xffff_f000u32
        } else {
            0u32
        }) | ((inst << 4) & 0x800) | ((inst >> 20) & 0x7e0) | ((inst >> 7) & 0x1e),
    ensures
        imm == as_word(branch_offset(inst)),
{
    let sign: u32 = inst / 0x8000_0000;
    let b11: u32 = (inst / 0x80) % 2;
    let mid: u32 = (inst / 0x200_0000) % 64;
    let low: u32 = (inst / 0x100) % 16;
    assert(sign <= 1 && b11 <= 1 && mid <= 63 && low <= 15) by (bit_vector)
        requires
            sign == inst / 0x8000_0000,
            b11 == (inst / 0x80) % 2,
            mid == (inst / 0x200_0000) % 64,
            low == (inst / 0x100) % 16,
    ;
    let body: u32 = (2048 * b11 + 32 * mid + 2 * low) as u32;
    assert(imm == (if sign == 1 {
        0xffff_f000u32
    } else {
        0u32
    }) + body) by (bit_vector)
        requires
            sign == inst / 0x8000_0000,
            b11 == (inst / 0x80) % 2,
            mid == (inst / 0x200_0000) % 64,
            low == (inst / 0x100) % 16,
            body == 2048 * b11 + 32 * mid + 2 * low,
            body < 4096,
            imm == (if inst >> 31 == 1 {
                0xffff_f000u32
            } else {
                0u32
            }) | ((inst << 4) & 0x800) | ((inst >> 20) & 0x7e0) | ((inst >> 7) & 0x1e),
    ;
    assert(branch_offset(inst) == -4096 * sign + body);
}

proof fn lemma_jump_offset_bits(inst: u32, imm: u32)
    requires
        imm == (if inst >> 31 == 1 {
            0xfff0_0000u32
        } else {
            0u32
        }) | (inst & 0xf_f000) | ((inst >> 9) & 0x800) | ((inst >> 20) & 0x7fe),
    ensures
        imm == as_word(jump_offset(inst)),
{
    let sign: u32 = inst / 0x8000_0000;
    let high: u32 = (inst / 0x1000) % 256;
    let b11: u32 = (inst / 0x10_0000) % 2;
    let low: u32 = (inst / 0x20_0000) % 1024;
    assert(sign <= 1 && high <= 255 && b11 <= 1 && low <= 1023) by (bit_vector)
        requires
            sign == inst / 0x8000_0000,
            high == (inst / 0x1000) % 256,
            b11 == (inst / 0x10_0000) % 2,
            low == (inst / 0x20_0000) % 1024,
    ;
    let body: u32 = (0x1000 * high + 2048 * b11 + 2 * low) as u32;
    assert(imm == (if sign == 1 {
        0xfff0_0000u32
    } else {
        0u32
    }) + body) by (bit_vector)
        requires
            sign == inst / 0x8000_0000,
            high == (inst / 0x1000) % 256,
            b11 == (inst / 0x10_0000) % 2,
            low == (inst / 0x20_0000) % 1024,
            body == 0x1000 * high + 2048 * b11 + 2 * low,
            body < 0x10_0000,
            imm == (if inst >> 31 == 1 {
                0xfff0_0000u32
            } else {
                0u32
            }) | (inst & 0xf_f000) | ((inst >> 9) & 0x800) | ((inst >> 20) & 0x7fe),
    ;
    assert(jump_offset(inst) == -0x10_0000 * sign + body);
}

/// Classifies an instruction word as an unconditional jump, an indirect jump,
/// a conditional branch or none of them, and extracts the offset that a jump
/// or a branch encodes.
pub fn pre_decode(inst: u32) -> (r: PreDecodeResp)
    ensures
        r == spec_pre_decode(inst),
{
    let op: u32 = inst & 0x7f;
    assert(op == inst % 128) by (bit_vector)
        requires
            op == inst & 0x7f,
    ;
    let is_jal = op == OPCODE_JAL;
    let is_jalr = op == OPCODE_JALR;
    let is_branch = op == OPCODE_BRANCH;
    let negative = inst >> 31 == 1;
    let imm: u32 = if is_jal {
        let sign: u32 = if negative {
            0xfff0_0000
        } else {
            0
        };
        let imm: u32 = sign | (inst & 0xf_f000) | ((inst >> 9) & 0x800) | ((inst >> 20) & 0x7fe);
        proof {
            lemma_jump_offset_bits(inst, imm);
        }
        imm
    } else if is_branch {
        let sign: u32 = if negative {
            0xffff_f000
        } else {
            0
        };
        let imm: u32 = sign | ((inst << 4) & 0x800) | ((inst >> 20) & 0x7e0) | ((inst >> 7) & 0x1e);
        proof {
            lemma_branch_offset_bits(inst, imm);
        }
        imm
    } else {
        0
    };
    PreDecodeResp { is_jal, is_jalr, is_branch, imm }
}

/// An instruction word belongs to at most one of the three classes, and it
/// has an offset only where it is an unconditional jump or a conditional
/// branch. Such an offset is even.
pub proof fn lemma_classes_exclude_each_other(inst: u32)
    ensures
        !(spec_pre_decode(inst).is_jal && spec_pre_decode(inst).is_jalr),
        !(spec_pre_decode(inst).is_jal && spec_pre_decode(inst).is_branch),
        !(spec_pre_decode(inst).is_jalr && spec_pre_decode(inst).is_branch),
        !spec_pre_decode(inst).is_jal && !spec_pre_decode(inst).is_branch ==> spec_pre_decode(
            inst,
        ).imm == 0,
        spec_pre_decode(inst).imm % 2 == 0,
{
}

} // verus!
