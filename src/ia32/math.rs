//! Integer arithmetic, logic and shifts on 32-bit operands.
use vstd::prelude::*;
use crate::ia32::base::{emit_imm32, AsmIA32Helper, Operand, Register};
use crate::x64::base::appended;
use crate::x64::math::{alu_bytes, alu_shape, unary_bytes};

verus! {

/// The encoding of an arithmetic or logic instruction with opcode extension `digit`: the
/// 64-bit one without its REX prefix.
pub open spec fn alu32_bytes(digit: u8, dst: Operand, src: Operand) -> Seq<u8> {
    alu_bytes(digit, dst.widened(), src.widened()).drop_first()
}

/// A one-operand instruction `opcode, /digit` on an r/m operand, then the immediate `tail`.
pub open spec fn unary32_bytes(opcode: u8, digit: u8, dst: Operand, tail: Operand) -> Seq<u8> {
    unary_bytes(opcode, digit, dst.widened(), tail.widened()).drop_first()
}

/// Emits the arithmetic or logic instruction with opcode extension `digit`.
pub(crate) fn emit_alu32<A: AsmIA32Helper + ?Sized>(
    a: &mut A,
    digit: u8,
    dst: Operand,
    src: Operand,
)
    requires
        digit < 8,
        alu_shape(dst.widened(), src.widened()),
    ensures
        appended(old(a), final(a), alu32_bytes(digit, dst, src)),
{
    if dst == Operand::R(Register::eax) && matches!(src, Operand::Long(_)) {
        a.emitb(8 * digit + 5);
        emit_imm32(a, src);
    } else if dst.is_rm() && matches!(src, Operand::Byte(_)) {
        a.emitb(0x83);
        a.emit_modrm(Operand::Op(digit), dst);
        emit_imm32(a, src);
    } else if dst.is_rm() && matches!(src, Operand::Long(_)) {
        a.emitb(0x81);
        a.emit_modrm(Operand::Op(digit), dst);
        emit_imm32(a, src);
    } else if dst.is_reg() && src.is_rm() {
        a.emitb(8 * digit + 3);
        a.emit_modrm(dst, src);
    } else {
        a.emitb(8 * digit + 1);
        a.emit_modrm(src, dst);
    }
}

/// Emits `opcode, /digit` on the r/m operand `dst`, then the immediate `tail`, if any.
pub(crate) fn emit_unary32<A: AsmIA32Helper + ?Sized>(
    a: &mut A,
    opcode: u8,
    digit: u8,
    dst: Operand,
    tail: Operand,
)
    requires
        dst.rm(),
    ensures
        appended(old(a), final(a), unary32_bytes(opcode, digit, dst, tail)),
{
    a.emitb(opcode);
    a.emit_modrm(Operand::Op(digit), dst);
    emit_imm32(a, tail);
}

pub trait AsmIA32Math: AsmIA32Helper {
    fn incl(&mut self, dst: Operand)
        requires
            dst.rm(),
        ensures
            appended(old(self), final(self), unary32_bytes(0xff, 0, dst, Operand::Empty)),
    {
        emit_unary32(self, 0xff, 0, dst, Operand::Empty);
    }

    fn decl(&mut self, dst: Operand)
        requires
            dst.rm(),
        ensures
            appended(old(self), final(self), unary32_bytes(0xff, 1, dst, Operand::Empty)),
    {
        emit_unary32(self, 0xff, 1, dst, Operand::Empty);
    }

    fn addl(&mut self, dst: Operand, src: Operand)
        requires
            alu_shape(dst.widened(), src.widened()),
        ensures
            appended(old(self), final(self), alu32_bytes(0, dst, src)),
    {
        emit_alu32(self, 0, dst, src);
    }

    fn subl(&mut self, dst: Operand, src: Operand)
        requires
            alu_shape(dst.widened(), src.widened()),
        ensures
            appended(old(self), final(self), alu32_bytes(5, dst, src)),
    {
        emit_alu32(self, 5, dst, src);
    }

    /// Unsigned divide of edx:eax by `src`.
    fn divl(&mut self, src: Operand)
        requires
            src.rm(),
        ensures
            appended(old(self), final(self), unary32_bytes(0xf7, 6, src, Operand::Empty)),
    {
        emit_unary32(self, 0xf7, 6, src, Operand::Empty);
    }

    /// Unsigned multiply of eax by `src` into edx:eax.
    fn mull(&mut self, src: Operand)
        requires
            src.rm(),
        ensures
            appended(old(self), final(self), unary32_bytes(0xf7, 4, src, Operand::Empty)),
    {
        emit_unary32(self, 0xf7, 4, src, Operand::Empty);
    }

    /// Signed divide of edx:eax by `src`.
    fn idivl(&mut self, src: Operand)
        requires
            src.rm(),
        ensures
            appended(old(self), final(self), unary32_bytes(0xf7, 7, src, Operand::Empty)),
    {
        emit_unary32(self, 0xf7, 7, src, Operand::Empty);
    }

    /// Signed multiply of eax by `src` into edx:eax.
    fn imull(&mut self, src: Operand)
        requires
            src.rm(),
        ensures
            appended(old(self), final(self), unary32_bytes(0xf7, 5, src, Operand::Empty)),
    {
        emit_unary32(self, 0xf7, 5, src, Operand::Empty);
    }

    fn shll(&mut self, dst: Operand, src: Operand)
        requires
            dst.rm(),
            src is Byte,
        ensures
            appended(old(self), final(self), unary32_bytes(0xc1, 4, dst, src)),
    {
        emit_unary32(self, 0xc1, 4, dst, src);
    }

    fn shrl(&mut self, dst: Operand, src: Operand)
        requires
            dst.rm(),
            src is Byte,
        ensures
            appended(old(self), final(self), unary32_bytes(0xc1, 5, dst, src)),
    {
        emit_unary32(self, 0xc1, 5, dst, src);
    }

    fn sarl(&mut self, dst: Operand, src: Operand)
        requires
            dst.rm(),
            src is Byte,
        ensures
            appended(old(self), final(self), unary32_bytes(0xc1, 7, dst, src)),
    {
        emit_unary32(self, 0xc1, 7, dst, src);
    }

    fn andl(&mut self, dst: Operand, src: Operand)
        requires
            alu_shape(dst.widened(), src.widened()),
        ensures
            appended(old(self), final(self), alu32_bytes(4, dst, src)),
    {
        emit_alu32(self, 4, dst, src);
    }

    fn orl(&mut self, dst: Operand, src: Operand)
        requires
            alu_shape(dst.widened(), src.widened()),
        ensures
            appended(old(self), final(self), alu32_bytes(1, dst, src)),
    {
        emit_alu32(self, 1, dst, src);
    }

    fn xorl(&mut self, dst: Operand, src: Operand)
        requires
            alu_shape(dst.widened(), src.widened()),
        ensures
            appended(old(self), final(self), alu32_bytes(6, dst, src)),
    {
        emit_alu32(self, 6, dst, src);
    }
}

} // verus!
