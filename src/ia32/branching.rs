//! Tests, comparisons, jumps and calls on 32-bit operands.
use vstd::prelude::*;
use crate::buffer::{used_label, AsmHelper, Label, RelocationKind, RelocationSize};
use crate::ia32::base::{emit_imm32, modrm32, AsmIA32Helper, Operand, Register};
use crate::ia32::math::{alu32_bytes, emit_alu32};
use crate::x64::base::{appended, JumpCondition};
use crate::x64::branching::{condition_code, condition_opcode, test_bytes, test_shape};
use crate::x64::math::alu_shape;

verus! {

/// The 64-bit encoding without its REX prefix.
pub open spec fn test32_bytes(dst: Operand, src: Operand) -> Seq<u8> {
    test_bytes(dst.widened(), src.widened()).drop_first()
}

pub trait AsmIA32Branching: AsmIA32Helper + AsmHelper {
    fn testl(&mut self, dst: Operand, src: Operand)
        requires
            test_shape(dst.widened(), src.widened()),
        ensures
            appended(old(self), final(self), test32_bytes(dst, src)),
    {
        if dst == Operand::R(Register::eax) && matches!(src, Operand::Long(_)) {
            self.emitb(0xa9);
            emit_imm32(self, src);
        } else if matches!(src, Operand::Long(_)) {
            self.emitb(0xf7);
            self.emit_modrm(Operand::Op(0), dst);
            emit_imm32(self, src);
        } else {
            self.emitb(0x85);
            self.emit_modrm(src, dst);
        }
    }

    fn cmpl(&mut self, dst: Operand, src: Operand)
        requires
            alu_shape(dst.widened(), src.widened()),
        ensures
            appended(old(self), final(self), alu32_bytes(7, dst, src)),
    {
        emit_alu32(self, 7, dst, src);
    }

    /// Indirect jump, `FF /4`.
    fn jmp(&mut self, target: Operand)
        requires
            target.rm(),
        ensures
            appended(old(self), final(self), seq![0xffu8] + modrm32(Operand::Op(4), target)),
    {
        self.emitb(0xff);
        self.emit_modrm(Operand::Op(4), target);
    }

    /// Jump to `l`, `E9 rel32`.
    fn jmpl(&mut self, l: &mut Label)
        ensures
            used_label(
                old(self),
                final(self),
                *old(l),
                *final(l),
                seq![0xe9u8],
                RelocationKind::RelocRelative,
                RelocationSize::RelocLong,
                -4i64,
            ),
    {
        self.emitb(0xe9);
        self.emit_use(l, RelocationKind::RelocRelative, RelocationSize::RelocLong, -4);
    }

    /// Jump to `l` when `c` holds, `0F 8x rel32`.
    fn jccl(&mut self, c: JumpCondition, l: &mut Label)
        ensures
            used_label(
                old(self),
                final(self),
                *old(l),
                *final(l),
                seq![0x0fu8, condition_opcode(c)],
                RelocationKind::RelocRelative,
                RelocationSize::RelocLong,
                -4i64,
            ),
    {
        self.emitb(0x0f);
        self.emitb(condition_code(c));
        self.emit_use(l, RelocationKind::RelocRelative, RelocationSize::RelocLong, -4);
    }

    /// Indirect call, `FF /2`.
    fn call(&mut self, target: Operand)
        requires
            target.rm(),
        ensures
            appended(old(self), final(self), seq![0xffu8] + modrm32(Operand::Op(2), target)),
    {
        self.emitb(0xff);
        self.emit_modrm(Operand::Op(2), target);
    }
}

} // verus!
