//! Tests, comparisons, jumps and calls on 64-bit operands.
use vstd::prelude::*;
use crate::buffer::{used_label, AsmHelper, Label, RelocationKind, RelocationSize};
use crate::x64::base::{
    appended, emit_imm, imm_bytes, lemma_modrm_extension, modrm, opt_rex, rexw, same_but_extension,
    AsmX64Helper, JumpCondition, Operand, REXKind, Register,
};
use crate::x64::math::{alu_bytes, alu_shape, emit_alu, emit_unary, unary_bytes};

verus! {

pub open spec fn test_shape(dst: Operand, src: Operand) -> bool {
    dst.rm() && (src is Long || src is R)
}

pub open spec fn test_bytes(dst: Operand, src: Operand) -> Seq<u8> {
    if dst == Operand::R(Register::rax) && src is Long {
        rexw(Operand::Empty, Operand::Empty) + seq![0xa9u8] + imm_bytes(src)
    } else if src is Long {
        rexw(Operand::Empty, dst) + seq![0xf7u8] + modrm(Operand::Op(0), dst) + imm_bytes(src)
    } else {
        rexw(src, dst) + seq![0x85u8] + modrm(src, dst)
    }
}

/// Register extension, for `test`: r8 to r15 in place of rax to rdi change the REX byte alone.
/// (The short `rax, imm32` form has no r8 counterpart.)
pub proof fn lemma_test_register_extension(dst: Operand, src: Operand, dst2: Operand, src2: Operand)
    requires
        test_shape(dst, src),
        same_but_extension(dst, dst2),
        same_but_extension(src, src2),
        src is Long ==> (dst == Operand::R(Register::rax) <==> dst2 == Operand::R(Register::rax)),
    ensures
        test_shape(dst2, src2),
        test_bytes(dst, src).drop_first() == test_bytes(dst2, src2).drop_first(),
        0x48 <= test_bytes(dst, src)[0] <= 0x4f,
        test_bytes(dst, src)[0] == 0x48 <==> dst.hi() == 0 && src.hi() == 0,
{
    lemma_modrm_extension(Operand::Op(0), dst, Operand::Op(0), dst2);
    lemma_modrm_extension(src, dst, src2, dst2);
    assert(imm_bytes(src) == imm_bytes(src2));
    if dst == Operand::R(Register::rax) && src is Long {
        assert(test_bytes(dst, src).drop_first() =~= test_bytes(dst2, src2).drop_first());
    } else if src is Long {
        assert(test_bytes(dst, src).drop_first() =~= test_bytes(dst2, src2).drop_first());
    } else {
        assert(test_bytes(dst, src).drop_first() =~= test_bytes(dst2, src2).drop_first());
    }
}

/// The second opcode byte of the `0F 8x` conditional jump on `c`.
pub open spec fn condition_opcode(c: JumpCondition) -> u8 {
    match c {
        JumpCondition::IfZero | JumpCondition::IfEqual => 0x84,
        JumpCondition::IfNotZero | JumpCondition::IfNotEqual => 0x85,
        JumpCondition::IfOverflow => 0x80,
        JumpCondition::IfNoOverflow => 0x81,
        JumpCondition::IfGreater => 0x8f,
        JumpCondition::IfLess => 0x8c,
        JumpCondition::IfGreaterOrEqual => 0x8d,
        JumpCondition::IfLessOrEqual => 0x8e,
    }
}

pub fn condition_code(c: JumpCondition) -> (r: u8)
    ensures
        r == condition_opcode(c),
{
    match c {
        JumpCondition::IfZero | JumpCondition::IfEqual => 0x84,
        JumpCondition::IfNotZero | JumpCondition::IfNotEqual => 0x85,
        JumpCondition::IfOverflow => 0x80,
        JumpCondition::IfNoOverflow => 0x81,
        JumpCondition::IfGreater => 0x8f,
        JumpCondition::IfLess => 0x8c,
        JumpCondition::IfGreaterOrEqual => 0x8d,
        JumpCondition::IfLessOrEqual => 0x8e,
    }
}

pub trait AsmX64Branching: AsmX64Helper + AsmHelper {
    fn testq(&mut self, dst: Operand, src: Operand)
        requires
            test_shape(dst, src),
        ensures
            appended(old(self), final(self), test_bytes(dst, src)),
    {
        if dst == Operand::R(Register::rax) && matches!(src, Operand::Long(_)) {
            self.emit_rex(REXKind::REXW, Operand::Empty, Operand::Empty);
            self.emitb(0xa9);
            emit_imm(self, src);
        } else if matches!(src, Operand::Long(_)) {
            self.emit_rex(REXKind::REXW, Operand::Empty, dst);
            self.emitb(0xf7);
            self.emit_modrm(Operand::Op(0), dst);
            emit_imm(self, src);
        } else {
            self.emit_rex(REXKind::REXW, src, dst);
            self.emitb(0x85);
            self.emit_modrm(src, dst);
        }
    }

    fn cmpq(&mut self, dst: Operand, src: Operand)
        requires
            alu_shape(dst, src),
        ensures
            appended(old(self), final(self), alu_bytes(7, dst, src)),
    {
        emit_alu(self, 7, dst, src);
    }

    /// Indirect jump, `FF /4`.
    fn jmpq(&mut self, target: Operand)
        requires
            target.rm(),
        ensures
            appended(
                old(self),
                final(self),
                opt_rex(Operand::Empty, target) + seq![0xffu8] + modrm(Operand::Op(4), target),
            ),
    {
        self.emit_opt_rex(Operand::Empty, target);
        self.emitb(0xff);
        self.emit_modrm(Operand::Op(4), target);
    }

    /// Jump to `l`, `E9 rel32`.
    fn jmpl(&mut self, l: &mut Label)
        ensures
            used_label(
                old(self),
                final(self),
                *old(l),
                *final(l),
                seq![0xe9u8],
                RelocationKind::RelocRelative,
                RelocationSize::RelocLong,
                -4i64,
            ),
    {
        self.emitb(0xe9);
        self.emit_use(l, RelocationKind::RelocRelative, RelocationSize::RelocLong, -4);
    }

    /// Jump to `l` when `c` holds, `0F 8x rel32`.
    fn jccl(&mut self, c: JumpCondition, l: &mut Label)
        ensures
            used_label(
                old(self),
                final(self),
                *old(l),
                *final(l),
                seq![0x0fu8, condition_opcode(c)],
                RelocationKind::RelocRelative,
                RelocationSize::RelocLong,
                -4i64,
            ),
    {
        self.emitb(0x0f);
        self.emitb(condition_code(c));
        self.emit_use(l, RelocationKind::RelocRelative, RelocationSize::RelocLong, -4);
    }

    /// Indirect call, `REX.W FF /2`.
    fn callq(&mut self, target: Operand)
        requires
            target.rm(),
        ensures
            appended(old(self), final(self), unary_bytes(0xff, 2, target, Operand::Empty)),
    {
        emit_unary(self, 0xff, 2, target, Operand::Empty);
    }
}

} // verus!
