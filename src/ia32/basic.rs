//! Data movement and stack instructions on 32-bit operands.
use vstd::prelude::*;
use crate::buffer::{used_label, AsmHelper, Label, RelocationKind, RelocationSize};
use crate::ia32::base::{emit_imm32, imm32_bytes, modrm32, AsmIA32Helper, Operand, Register};
use crate::x64::base::appended;
use crate::x64::basic::{mov_bytes, pop_bytes, push_bytes, ret_bytes, xchg_bytes, xchg_shape};

verus! {

pub open spec fn mov32_shape(dst: Operand, src: Operand) -> bool {
    ||| dst is R && src.rm()
    ||| dst.rm() && (src is R || src is Long)
}

/// The 64-bit encoding without its REX prefix.
pub open spec fn mov32_bytes(dst: Operand, src: Operand) -> Seq<u8> {
    mov_bytes(dst.widened(), src.widened()).drop_first()
}

pub open spec fn xchg32_bytes(dst: Operand, src: Operand) -> Seq<u8> {
    xchg_bytes(dst.widened(), src.widened()).drop_first()
}

/// The 64-bit encoding, without the REX prefix that its register and memory forms carry.
pub open spec fn push32_bytes(op: Operand) -> Seq<u8> {
    if op.rm() {
        push_bytes(op.widened()).drop_first()
    } else {
        push_bytes(op.widened())
    }
}

pub open spec fn pop32_bytes(op: Operand) -> Seq<u8> {
    pop_bytes(op.widened()).drop_first()
}

/// A zero-extending load, `0F opcode /r`.
pub open spec fn movzx32_bytes(opcode: u8, dst: Operand, src: Operand) -> Seq<u8> {
    seq![0x0fu8, opcode] + modrm32(dst, src)
}

pub trait AsmIA32Basic: AsmIA32Helper + AsmHelper {
    fn movl(&mut self, dst: Operand, src: Operand)
        requires
            mov32_shape(dst, src),
        ensures
            appended(old(self), final(self), mov32_bytes(dst, src)),
    {
        if dst.is_reg() && src.is_rm() {
            self.emitb(0x8b);
            self.emit_modrm(dst, src);
        } else if dst.is_rm() && src.is_reg() {
            self.emitb(0x89);
            self.emit_modrm(src, dst);
        } else {
            self.emitb(0xc7);
            self.emit_modrm(Operand::Op(0), dst);
            emit_imm32(self, src);
        }
    }

    /// Zero-extending load of a byte, `0F B6 /r`.
    fn movlzxb(&mut self, dst: Operand, src: Operand)
        requires
            dst is R,
            src.rm(),
        ensures
            appended(old(self), final(self), movzx32_bytes(0xb6, dst, src)),
    {
        self.emitb(0x0f);
        self.emitb(0xb6);
        self.emit_modrm(dst, src);
    }

    /// Zero-extending load of a 16-bit word, `0F B7 /r`.
    fn movlzxl(&mut self, dst: Operand, src: Operand)
        requires
            dst is R,
            src.rm(),
        ensures
            appended(old(self), final(self), movzx32_bytes(0xb7, dst, src)),
    {
        self.emitb(0x0f);
        self.emitb(0xb7);
        self.emit_modrm(dst, src);
    }

    /// Loads the absolute address of `l` into `dst`: `B8+r` and a 4-byte slot.
    fn movl_proc(&mut self, dst: Operand, l: &mut Label)
        requires
            dst is R,
        ensures
            used_label(
                old(self),
                final(self),
                *old(l),
                *final(l),
                seq![(0xb8 + dst.widened().lo()) as u8],
                RelocationKind::RelocAbsolute,
                RelocationSize::RelocLong,
                0i64,
            ),
    {
        self.emitb(0xb8 + dst.val());
        self.emit_use(l, RelocationKind::RelocAbsolute, RelocationSize::RelocLong, 0);
    }

    fn xchgl(&mut self, dst: Operand, src: Operand)
        requires
            xchg_shape(dst.widened(), src.widened()),
        ensures
            appended(old(self), final(self), xchg32_bytes(dst, src)),
    {
        if dst == Operand::R(Register::eax) && src.is_reg() {
            self.emitb(0x90 + src.val());
        } else if dst.is_reg() && src == Operand::R(Register::eax) {
            self.emitb(0x90 + dst.val());
        } else if dst.is_reg() && src.is_rm() {
            self.emitb(0x87);
            self.emit_modrm(dst, src);
        } else {
            self.emitb(0x87);
            self.emit_modrm(src, dst);
        }
    }

    fn pushl(&mut self, op: Operand)
        requires
            op.rm() || op is Byte || op is Long,
        ensures
            appended(old(self), final(self), push32_bytes(op)),
    {
        if op.is_rm() {
            self.emitb(0xff);
            self.emit_modrm(Operand::Op(6), op);
        } else if matches!(op, Operand::Byte(_)) {
            self.emitb(0x6a);
            emit_imm32(self, op);
        } else {
            self.emitb(0x68);
            emit_imm32(self, op);
        }
    }

    fn popl(&mut self, op: Operand)
        requires
            op.rm(),
        ensures
            appended(old(self), final(self), pop32_bytes(op)),
    {
        if op.is_reg() {
            self.emitb(0x58 + op.val());
        } else {
            self.emitb(0x8f);
            self.emit_modrm(Operand::Op(0), op);
        }
    }

    /// Return, popping `w` more bytes when `r` is `Word(w)`.
    fn ret(&mut self, r: Operand)
        requires
            r is Empty || r is Word,
        ensures
            appended(old(self), final(self), ret_bytes(r.widened())),
    {
        if matches!(r, Operand::Empty) {
            self.emitb(0xc3);
        } else {
            self.emitb(0xc2);
            emit_imm32(self, r);
        }
    }
}

} // verus!
