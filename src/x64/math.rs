//! Integer arithmetic, logic and shifts on 64-bit operands.
use vstd::prelude::*;
use crate::x64::base::{
    appended, emit_imm, imm_bytes, lemma_modrm_extension, modrm, rexw, same_but_extension,
    AsmX64Helper, Operand, REXKind, Register,
};

verus! {

/// The operand shapes of the two-operand arithmetic and logic family.
pub open spec fn alu_shape(dst: Operand, src: Operand) -> bool {
    ||| dst.rm() && (src is Byte || src is Long || src is R)
    ||| dst is R && src.rm()
}

/// The encoding of an arithmetic or logic instruction whose opcode extension is `digit`
/// (add 0, or 1, and 4, sub 5, xor 6, cmp 7): its opcodes are `8 * digit` plus 5 for
/// `rax, imm32`, plus 3 for `reg, r/m` and plus 1 for `r/m, reg`.
pub open spec fn alu_bytes(digit: u8, dst: Operand, src: Operand) -> Seq<u8> {
    if dst == Operand::R(Register::rax) && src is Long {
        rexw(Operand::Empty, Operand::Empty) + seq![(8 * digit + 5) as u8] + imm_bytes(src)
    } else if dst.rm() && src is Byte {
        rexw(Operand::Empty, dst) + seq![0x83u8] + modrm(Operand::Op(digit), dst) + imm_bytes(src)
    } else if dst.rm() && src is Long {
        rexw(Operand::Empty, dst) + seq![0x81u8] + modrm(Operand::Op(digit), dst) + imm_bytes(src)
    } else if dst is R && src.rm() {
        rexw(dst, src) + seq![(8 * digit + 3) as u8] + modrm(dst, src)
    } else {
        rexw(src, dst) + seq![(8 * digit + 1) as u8] + modrm(src, dst)
    }
}

/// A one-operand instruction `rexw, opcode, /digit` on an r/m operand, then `tail`.
pub open spec fn unary_bytes(opcode: u8, digit: u8, dst: Operand, tail: Operand) -> Seq<u8> {
    rexw(Operand::Empty, dst) + seq![opcode] + modrm(Operand::Op(digit), dst) + imm_bytes(tail)
}

/// Register extension, for the arithmetic and logic family: registers r8 to r15 in place of
/// rax to rdi change the REX byte alone, and the REX byte carries no R or B bit exactly where
/// no operand uses such a register. (The short `rax, imm32` form has no r8 counterpart, so
/// `rax` and another register stand in for each other only with a non-`Long` source.)
pub proof fn lemma_alu_register_extension(
    digit: u8,
    dst: Operand,
    src: Operand,
    dst2: Operand,
    src2: Operand,
)
    requires
        digit < 8,
        alu_shape(dst, src),
        same_but_extension(dst, dst2),
        same_but_extension(src, src2),
        src is Long ==> (dst == Operand::R(Register::rax) <==> dst2 == Operand::R(Register::rax)),
    ensures
        alu_shape(dst2, src2),
        alu_bytes(digit, dst, src).len() == alu_bytes(digit, dst2, src2).len(),
        alu_bytes(digit, dst, src).drop_first() == alu_bytes(digit, dst2, src2).drop_first(),
        0x48 <= alu_bytes(digit, dst, src)[0] <= 0x4f,
        alu_bytes(digit, dst, src)[0] == 0x48 <==> dst.hi() == 0 && src.hi() == 0,
{
    let a = alu_bytes(digit, dst, src);
    let b = alu_bytes(digit, dst2, src2);
    lemma_modrm_extension(Operand::Op(digit), dst, Operand::Op(digit), dst2);
    lemma_modrm_extension(dst, src, dst2, src2);
    lemma_modrm_extension(src, dst, src2, dst2);
    assert(imm_bytes(src) == imm_bytes(src2));
    if dst == Operand::R(Register::rax) && src is Long {
        assert(a.drop_first() =~= b.drop_first());
    } else if dst.rm() && src is Byte {
        assert(a.drop_first() =~= b.drop_first());
    } else if dst.rm() && src is Long {
        assert(a.drop_first() =~= b.drop_first());
    } else if dst is R && src.rm() {
        assert(a.drop_first() =~= b.drop_first());
    } else {
        assert(a.drop_first() =~= b.drop_first());
    }
}

/// Register extension, for the one-operand forms: r8 to r15 in place of rax to rdi change the
/// REX byte alone, which carries the B bit exactly for those registers.
pub proof fn lemma_unary_register_extension(
    opcode: u8,
    digit: u8,
    dst: Operand,
    tail: Operand,
    dst2: Operand,
)
    requires
        dst.rm(),
        same_but_extension(dst, dst2),
    ensures
        unary_bytes(opcode, digit, dst, tail).len() == unary_bytes(opcode, digit, dst2, tail).len(),
        unary_bytes(opcode, digit, dst, tail).drop_first() == unary_bytes(
            opcode,
            digit,
            dst2,
            tail,
        ).drop_first(),
        0x48 <= unary_bytes(opcode, digit, dst, tail)[0] <= 0x4f,
        unary_bytes(opcode, digit, dst, tail)[0] == 0x48 <==> dst.hi() == 0,
{
    lemma_modrm_extension(Operand::Op(digit), dst, Operand::Op(digit), dst2);
    assert(unary_bytes(opcode, digit, dst, tail).drop_first() =~= unary_bytes(
        opcode,
        digit,
        dst2,
        tail,
    ).drop_first());
}

/// Emits the arithmetic or logic instruction with opcode extension `digit`.
pub(crate) fn emit_alu<A: AsmX64Helper + ?Sized>(a: &mut A, digit: u8, dst: Operand, src: Operand)
    requires
        digit < 8,
        alu_shape(dst, src),
    ensures
        appended(old(a), final(a), alu_bytes(digit, dst, src)),
{
    if dst == Operand::R(Register::rax) && matches!(src, Operand::Long(_)) {
        a.emit_rex(REXKind::REXW, Operand::Empty, Operand::Empty);
        a.emitb(8 * digit + 5);
        emit_imm(a, src);
    } else if dst.is_rm() && matches!(src, Operand::Byte(_)) {
        a.emit_rex(REXKind::REXW, Operand::Empty, dst);
        a.emitb(0x83);
        a.emit_modrm(Operand::Op(digit), dst);
        emit_imm(a, src);
    } else if dst.is_rm() && matches!(src, Operand::Long(_)) {
        a.emit_rex(REXKind::REXW, Operand::Empty, dst);
        a.emitb(0x81);
        a.emit_modrm(Operand::Op(digit), dst);
        emit_imm(a, src);
    } else if dst.is_reg() && src.is_rm() {
        a.emit_rex(REXKind::REXW, dst, src);
        a.emitb(8 * digit + 3);
        a.emit_modrm(dst, src);
    } else {
        a.emit_rex(REXKind::REXW, src, dst);
        a.emitb(8 * digit + 1);
        a.emit_modrm(src, dst);
    }
}

/// Emits `rexw, opcode, /digit` on the r/m operand `dst`, then the immediate `tail`, if any.
pub(crate) fn emit_unary<A: AsmX64Helper + ?Sized>(
    a: &mut A,
    opcode: u8,
    digit: u8,
    dst: Operand,
    tail: Operand,
)
    requires
        dst.rm(),
    ensures
        appended(old(a), final(a), unary_bytes(opcode, digit, dst, tail)),
{
    a.emit_rex(REXKind::REXW, Operand::Empty, dst);
    a.emitb(opcode);
    a.emit_modrm(Operand::Op(digit), dst);
    emit_imm(a, tail);
}

pub trait AsmX64Math: AsmX64Helper {
    fn incq(&mut self, dst: Operand)
        requires
            dst.rm(),
        ensures
            appended(old(self), final(self), unary_bytes(0xff, 0, dst, Operand::Empty)),
    {
        emit_unary(self, 0xff, 0, dst, Operand::Empty);
    }

    fn decq(&mut self, dst: Operand)
        requires
            dst.rm(),
        ensures
            appended(old(self), final(self), unary_bytes(0xff, 1, dst, Operand::Empty)),
    {
        emit_unary(self, 0xff, 1, dst, Operand::Empty);
    }

    fn addq(&mut self, dst: Operand, src: Operand)
        requires
            alu_shape(dst, src),
        ensures
            appended(old(self), final(self), alu_bytes(0, dst, src)),
    {
        emit_alu(self, 0, dst, src);
    }

    fn subq(&mut self, dst: Operand, src: Operand)
        requires
            alu_shape(dst, src),
        ensures
            appended(old(self), final(self), alu_bytes(5, dst, src)),
    {
        emit_alu(self, 5, dst, src);
    }

    /// Unsigned divide of rdx:rax by `src`.
    fn divq(&mut self, src: Operand)
        requires
            src.rm(),
        ensures
            appended(old(self), final(self), unary_bytes(0xf7, 6, src, Operand::Empty)),
    {
        emit_unary(self, 0xf7, 6, src, Operand::Empty);
    }

    /// Unsigned multiply of rax by `src` into rdx:rax.
    fn mulq(&mut self, src: Operand)
        requires
            src.rm(),
        ensures
            appended(old(self), final(self), unary_bytes(0xf7, 4, src, Operand::Empty)),
    {
        emit_unary(self, 0xf7, 4, src, Operand::Empty);
    }

    fn shlq(&mut self, dst: Operand, src: Operand)
        requires
            dst.rm(),
            src is Byte,
        ensures
            appended(old(self), final(self), unary_bytes(0xc1, 4, dst, src)),
    {
        emit_unary(self, 0xc1, 4, dst, src);
    }

    fn shrq(&mut self, dst: Operand, src: Operand)
        requires
            dst.rm(),
            src is Byte,
        ensures
            appended(old(self), final(self), unary_bytes(0xc1, 5, dst, src)),
    {
        emit_unary(self, 0xc1, 5, dst, src);
    }

    fn sarq(&mut self, dst: Operand, src: Operand)
        requires
            dst.rm(),
            src is Byte,
        ensures
            appended(old(self), final(self), unary_bytes(0xc1, 7, dst, src)),
    {
        emit_unary(self, 0xc1, 7, dst, src);
    }

    fn andq(&mut self, dst: Operand, src: Operand)
        requires
            alu_shape(dst, src),
        ensures
            appended(old(self), final(self), alu_bytes(4, dst, src)),
    {
        emit_alu(self, 4, dst, src);
    }

    fn orq(&mut self, dst: Operand, src: Operand)
        requires
            alu_shape(dst, src),
        ensures
            appended(old(self), final(self), alu_bytes(1, dst, src)),
    {
        emit_alu(self, 1, dst, src);
    }

    fn xorq(&mut self, dst: Operand, src: Operand)
        requires
            alu_shape(dst, src),
        ensures
            appended(old(self), final(self), alu_bytes(6, dst, src)),
    {
        emit_alu(self, 6, dst, src);
    }
}

} // verus!
