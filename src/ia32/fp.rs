//! SSE2 scalar double-precision instructions on IA-32, where no REX prefix exists: the
//! 64-bit encodings of the same operands, whose optional REX is absent for xmm0 to xmm7.
use vstd::prelude::*;
use crate::ia32::base::{modrm32, AsmIA32Helper, Operand};
use crate::x64::base::appended;
use crate::x64::fp::{sse_bytes, sse_move_bytes, RoundMode};

verus! {

pub open spec fn sse32_bytes(prefix: u8, opcode: u8, r: Operand, rm: Operand) -> Seq<u8> {
    sse_bytes(prefix, opcode, r.widened(), rm.widened())
}

/// Emits `prefix, 0F, opcode, ModR/M(r, rm)`.
pub(crate) fn emit_sse32<A: AsmIA32Helper + ?Sized>(
    a: &mut A,
    prefix: u8,
    opcode: u8,
    r: Operand,
    rm: Operand,
)
    requires
        r is D || r is R,
        !(rm is Op),
    ensures
        appended(old(a), final(a), sse32_bytes(prefix, opcode, r, rm)),
{
    a.emitb(prefix);
    a.emitb(0x0f);
    a.emitb(opcode);
    a.emit_modrm(r, rm);
}

pub trait AsmIA32FP: AsmIA32Helper {
    /// `F2 0F 10 /r` to load, `F2 0F 11 /r` to store.
    fn movsd(&mut self, dst: Operand, src: Operand)
        requires
            dst is D && src.dm() || dst.dm() && src is D,
        ensures
            appended(
                old(self),
                final(self),
                sse_move_bytes(0xf2, 0x10, 0xf2, 0x11, dst.widened(), src.widened()),
            ),
    {
        if matches!(dst, Operand::D(_)) {
            emit_sse32(self, 0xf2, 0x10, dst, src);
        } else {
            emit_sse32(self, 0xf2, 0x11, src, dst);
        }
    }

    fn addsd(&mut self, dst: Operand, src: Operand)
        requires
            dst is D,
            src.dm(),
        ensures
            appended(old(self), final(self), sse32_bytes(0xf2, 0x58, dst, src)),
    {
        emit_sse32(self, 0xf2, 0x58, dst, src);
    }

    fn subsd(&mut self, dst: Operand, src: Operand)
        requires
            dst is D,
            src.dm(),
        ensures
            appended(old(self), final(self), sse32_bytes(0xf2, 0x5c, dst, src)),
    {
        emit_sse32(self, 0xf2, 0x5c, dst, src);
    }

    fn mulsd(&mut self, dst: Operand, src: Operand)
        requires
            dst is D,
            src.dm(),
        ensures
            appended(old(self), final(self), sse32_bytes(0xf2, 0x59, dst, src)),
    {
        emit_sse32(self, 0xf2, 0x59, dst, src);
    }

    fn divsd(&mut self, dst: Operand, src: Operand)
        requires
            dst is D,
            src.dm(),
        ensures
            appended(old(self), final(self), sse32_bytes(0xf2, 0x5e, dst, src)),
    {
        emit_sse32(self, 0xf2, 0x5e, dst, src);
    }

    /// Converts a 32-bit integer to a double, `F2 0F 2A /r`.
    fn cvtsi2sd(&mut self, dst: Operand, src: Operand)
        requires
            dst is D,
            src.rm(),
        ensures
            appended(old(self), final(self), sse32_bytes(0xf2, 0x2a, dst, src)),
    {
        emit_sse32(self, 0xf2, 0x2a, dst, src);
    }

    /// Converts a double to a 32-bit integer with the current rounding, `F2 0F 2D /r`.
    fn cvtsd2si(&mut self, dst: Operand, src: Operand)
        requires
            dst is R,
            src.dm(),
        ensures
            appended(old(self), final(self), sse32_bytes(0xf2, 0x2d, dst, src)),
    {
        emit_sse32(self, 0xf2, 0x2d, dst, src);
    }

    /// Converts a double to a 32-bit integer, truncating, `F2 0F 2C /r`.
    fn cvttsd2si(&mut self, dst: Operand, src: Operand)
        requires
            dst is R,
            src.dm(),
        ensures
            appended(old(self), final(self), sse32_bytes(0xf2, 0x2c, dst, src)),
    {
        emit_sse32(self, 0xf2, 0x2c, dst, src);
    }

    /// Rounds with `mode`, precision exception suppressed: `66 0F 3A 0B /r ib`.
    fn roundsd(&mut self, dst: Operand, src: Operand, mode: RoundMode)
        requires
            dst is D,
            src.dm(),
        ensures
            appended(
                old(self),
                final(self),
                seq![0x66u8, 0x0fu8, 0x3au8, 0x0bu8] + modrm32(dst, src) + seq![
                    (0x08 + mode.bits()) as u8,
                ],
            ),
    {
        self.emitb(0x66);
        self.emitb(0x0f);
        self.emitb(0x3a);
        self.emitb(0x0b);
        self.emit_modrm(dst, src);
        self.emitb(0x08 + mode.code());
    }

    /// Unordered compare setting the integer flags, `66 0F 2E /r`.
    fn ucomisd(&mut self, dst: Operand, src: Operand)
        requires
            dst is D,
            src.dm(),
        ensures
            appended(old(self), final(self), sse32_bytes(0x66, 0x2e, dst, src)),
    {
        emit_sse32(self, 0x66, 0x2e, dst, src);
    }
}

} // verus!
