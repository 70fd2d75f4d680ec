//! SSE2 scalar double-precision instructions.
use vstd::prelude::*;
use crate::x64::base::{
    appended, lemma_modrm_extension, modrm, opt_rex, rex, rexw, same_but_extension, AsmX64Helper,
    Operand, REXKind,
};

verus! {

/// The rounding that `roundsd` applies.
#[derive(Clone, Copy, Debug, PartialEq, Eq, Structural)]
pub enum RoundMode {
    RoundNearest,
    RoundDown,
    RoundUp,
    RoundToward,
}

impl RoundMode {
    /// The two rounding-control bits of the `roundsd` immediate.
    pub open spec fn bits(self) -> u8 {
        match self {
            RoundMode::RoundNearest => 0,
            RoundMode::RoundDown => 1,
            RoundMode::RoundUp => 2,
            RoundMode::RoundToward => 3,
        }
    }

    pub fn code(&self) -> (r: u8)
        ensures
            r == self.bits(),
    {
        match self {
            RoundMode::RoundNearest => 0,
            RoundMode::RoundDown => 1,
            RoundMode::RoundUp => 2,
            RoundMode::RoundToward => 3,
        }
    }
}

/// An SSE instruction `prefix, [REX], 0F, opcode, ModR/M(r, rm)`, the REX present only
/// where an operand needs an extension bit.
pub open spec fn sse_bytes(prefix: u8, opcode: u8, r: Operand, rm: Operand) -> Seq<u8> {
    seq![prefix] + opt_rex(r, rm) + seq![0x0fu8, opcode] + modrm(r, rm)
}

/// An SSE conversion `F2, REX.W, 0F, opcode, ModR/M(r, rm)`.
pub open spec fn sse_wide_bytes(opcode: u8, r: Operand, rm: Operand) -> Seq<u8> {
    seq![0xf2u8] + rexw(r, rm) + seq![0x0fu8, opcode] + modrm(r, rm)
}

/// A move between an XMM register and an XMM register or memory: the load opcode when
/// `dst` is a register, else the store opcode with the operands swapped.
pub open spec fn sse_move_bytes(
    load_prefix: u8,
    load: u8,
    store_prefix: u8,
    store: u8,
    dst: Operand,
    src: Operand,
) -> Seq<u8> {
    if dst is D {
        sse_bytes(load_prefix, load, dst, src)
    } else {
        sse_bytes(store_prefix, store, src, dst)
    }
}

pub open spec fn sse_move_shape(dst: Operand, src: Operand) -> bool {
    ||| dst is D && src.dm()
    ||| dst.dm() && src is D
}

/// Register extension, for the SSE forms: with xmm8 to xmm15 or r8 to r15 in place of their low
/// counterparts, the encoding gains one REX byte after the mandatory prefix and is otherwise
/// the same; with none of them it has no REX byte.
pub proof fn lemma_sse_register_extension(
    prefix: u8,
    opcode: u8,
    r: Operand,
    rm: Operand,
    r2: Operand,
    rm2: Operand,
)
    requires
        same_but_extension(r, r2),
        same_but_extension(rm, rm2),
        r2.hi() == 0,
        rm2.hi() == 0,
    ensures
        sse_bytes(prefix, opcode, r2, rm2) == seq![prefix, 0x0fu8, opcode] + modrm(r2, rm2),
        r.hi() == 0 && rm.hi() == 0 ==> sse_bytes(prefix, opcode, r, rm) == sse_bytes(
            prefix,
            opcode,
            r2,
            rm2,
        ),
        r.hi() != 0 || rm.hi() != 0 ==> sse_bytes(prefix, opcode, r, rm) == seq![
            prefix,
            rex(false, r, rm),
        ] + sse_bytes(prefix, opcode, r2, rm2).drop_first(),
        r.hi() != 0 || rm.hi() != 0 ==> 0x41 <= rex(false, r, rm) <= 0x47,
{
    lemma_modrm_extension(r, rm, r2, rm2);
    assert(sse_bytes(prefix, opcode, r2, rm2) =~= seq![prefix, 0x0fu8, opcode] + modrm(r2, rm2));
    if r.hi() == 0 && rm.hi() == 0 {
        assert(sse_bytes(prefix, opcode, r, rm) =~= sse_bytes(prefix, opcode, r2, rm2));
    } else {
        assert(sse_bytes(prefix, opcode, r, rm) =~= seq![prefix, rex(false, r, rm)] + sse_bytes(
            prefix,
            opcode,
            r2,
            rm2,
        ).drop_first());
    }
}

/// Emits `prefix, [REX], 0F, opcode, ModR/M(r, rm)`.
pub(crate) fn emit_sse<A: AsmX64Helper + ?Sized>(
    a: &mut A,
    prefix: u8,
    opcode: u8,
    r: Operand,
    rm: Operand,
)
    requires
        r is D,
        !(rm is Op),
    ensures
        appended(old(a), final(a), sse_bytes(prefix, opcode, r, rm)),
{
    a.emitb(prefix);
    a.emit_opt_rex(r, rm);
    a.emitb(0x0f);
    a.emitb(opcode);
    a.emit_modrm(r, rm);
}

/// Emits `F2, REX.W, 0F, opcode, ModR/M(r, rm)`.
pub(crate) fn emit_sse_wide<A: AsmX64Helper + ?Sized>(
    a: &mut A,
    opcode: u8,
    r: Operand,
    rm: Operand,
)
    requires
        r is D || r is R,
        !(rm is Op),
    ensures
        appended(old(a), final(a), sse_wide_bytes(opcode, r, rm)),
{
    a.emitb(0xf2);
    a.emit_rex(REXKind::REXW, r, rm);
    a.emitb(0x0f);
    a.emitb(opcode);
    a.emit_modrm(r, rm);
}

pub trait AsmX64FP: AsmX64Helper {
    /// `F2 0F 10 /r` to load, `F2 0F 11 /r` to store.
    fn movsd(&mut self, dst: Operand, src: Operand)
        requires
            sse_move_shape(dst, src),
        ensures
            appended(old(self), final(self), sse_move_bytes(0xf2, 0x10, 0xf2, 0x11, dst, src)),
    {
        if dst.is_dreg() {
            emit_sse(self, 0xf2, 0x10, dst, src);
        } else {
            emit_sse(self, 0xf2, 0x11, src, dst);
        }
    }

    /// Moves the low quadword: `F3 0F 7E /r` to load, `66 0F D6 /r` to store.
    fn movqd(&mut self, dst: Operand, src: Operand)
        requires
            sse_move_shape(dst, src),
        ensures
            appended(old(self), final(self), sse_move_bytes(0xf3, 0x7e, 0x66, 0xd6, dst, src)),
    {
        if dst.is_dreg() {
            emit_sse(self, 0xf3, 0x7e, dst, src);
        } else {
            emit_sse(self, 0x66, 0xd6, src, dst);
        }
    }

    fn addsd(&mut self, dst: Operand, src: Operand)
        requires
            dst is D,
            src.dm(),
        ensures
            appended(old(self), final(self), sse_bytes(0xf2, 0x58, dst, src)),
    {
        emit_sse(self, 0xf2, 0x58, dst, src);
    }

    fn subsd(&mut self, dst: Operand, src: Operand)
        requires
            dst is D,
            src.dm(),
        ensures
            appended(old(self), final(self), sse_bytes(0xf2, 0x5c, dst, src)),
    {
        emit_sse(self, 0xf2, 0x5c, dst, src);
    }

    fn mulsd(&mut self, dst: Operand, src: Operand)
        requires
            dst is D,
            src.dm(),
        ensures
            appended(old(self), final(self), sse_bytes(0xf2, 0x59, dst, src)),
    {
        emit_sse(self, 0xf2, 0x59, dst, src);
    }

    fn divsd(&mut self, dst: Operand, src: Operand)
        requires
            dst is D,
            src.dm(),
        ensures
            appended(old(self), final(self), sse_bytes(0xf2, 0x5e, dst, src)),
    {
        emit_sse(self, 0xf2, 0x5e, dst, src);
    }

    fn andpd(&mut self, dst: Operand, src: Operand)
        requires
            dst is D,
            src.dm(),
        ensures
            appended(old(self), final(self), sse_bytes(0x66, 0x54, dst, src)),
    {
        emit_sse(self, 0x66, 0x54, dst, src);
    }

    fn orpd(&mut self, dst: Operand, src: Operand)
        requires
            dst is D,
            src.dm(),
        ensures
            appended(old(self), final(self), sse_bytes(0x66, 0x56, dst, src)),
    {
        emit_sse(self, 0x66, 0x56, dst, src);
    }

    fn xorpd(&mut self, dst: Operand, src: Operand)
        requires
            dst is D,
            src.dm(),
        ensures
            appended(old(self), final(self), sse_bytes(0x66, 0x57, dst, src)),
    {
        emit_sse(self, 0x66, 0x57, dst, src);
    }

    /// Converts a 64-bit integer to a double.
    fn cvtsi2sd(&mut self, dst: Operand, src: Operand)
        requires
            dst is D,
            src.rm(),
        ensures
            appended(old(self), final(self), sse_wide_bytes(0x2a, dst, src)),
    {
        emit_sse_wide(self, 0x2a, dst, src);
    }

    /// Converts a double to a 64-bit integer with the current rounding.
    fn cvtsd2si(&mut self, dst: Operand, src: Operand)
        requires
            dst is R,
            src.dm(),
        ensures
            appended(old(self), final(self), sse_wide_bytes(0x2d, dst, src)),
    {
        emit_sse_wide(self, 0x2d, dst, src);
    }

    /// Converts a double to a 64-bit integer, truncating.
    fn cvttsd2si(&mut self, dst: Operand, src: Operand)
        requires
            dst is R,
            src.dm(),
        ensures
            appended(old(self), final(self), sse_wide_bytes(0x2c, dst, src)),
    {
        emit_sse_wide(self, 0x2c, dst, src);
    }

    /// Rounds with `mode`, precision exception suppressed: `66 0F 3A 0B /r ib`.
    fn roundsd(&mut self, dst: Operand, src: Operand, mode: RoundMode)
        requires
            dst is D,
            src.dm(),
        ensures
            appended(
                old(self),
                final(self),
                seq![0x66u8] + opt_rex(dst, src) + seq![0x0fu8, 0x3au8, 0x0bu8] + modrm(dst, src)
                    + seq![(0x08 + mode.bits()) as u8],
            ),
    {
        self.emitb(0x66);
        self.emit_opt_rex(dst, src);
        self.emitb(0x0f);
        self.emitb(0x3a);
        self.emitb(0x0b);
        self.emit_modrm(dst, src);
        self.emitb(0x08 + mode.code());
    }

    /// Unordered compare setting the integer flags, `66 0F 2E /r`.
    fn ucomisd(&mut self, dst: Operand, src: Operand)
        requires
            dst is D,
            src.dm(),
        ensures
            appended(old(self), final(self), sse_bytes(0x66, 0x2e, dst, src)),
    {
        emit_sse(self, 0x66, 0x2e, dst, src);
    }
}

} // verus!
