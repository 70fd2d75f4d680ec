//! Data movement and stack instructions on 64-bit operands.
use vstd::prelude::*;
use crate::buffer::{used_label, AsmHelper, Label, RelocationKind, RelocationSize};
use crate::bytes::lemma_le_bytes_len;
use crate::x64::base::{
    appended, emit_imm, imm_bytes, lemma_modrm_extension, modrm, rexw, same_but_extension, sib,
    AsmX64Helper, Operand, REXKind, Register,
};

verus! {

pub open spec fn mov_shape(dst: Operand, src: Operand) -> bool {
    ||| dst is R && (src.rm() || src is Quad)
    ||| dst.rm() && (src is R || src is Long)
}

pub open spec fn mov_bytes(dst: Operand, src: Operand) -> Seq<u8> {
    if dst is R && src.rm() {
        rexw(dst, src) + seq![0x8bu8] + modrm(dst, src)
    } else if dst.rm() && src is R {
        rexw(src, dst) + seq![0x89u8] + modrm(src, dst)
    } else if dst.rm() && src is Long {
        rexw(Operand::Empty, dst) + seq![0xc7u8] + modrm(Operand::Op(0), dst) + imm_bytes(src)
    } else {
        rexw(Operand::Empty, dst) + seq![(0xb8 + dst.lo()) as u8] + imm_bytes(src)
    }
}

/// Register extension, for `mov`: registers r8 to r15 in place of rax to rdi change the REX
/// byte alone, and the REX byte carries no R or B bit exactly where no operand uses such a
/// register.
pub proof fn lemma_mov_register_extension(dst: Operand, src: Operand, dst2: Operand, src2: Operand)
    requires
        mov_shape(dst, src),
        same_but_extension(dst, dst2),
        same_but_extension(src, src2),
    ensures
        mov_shape(dst2, src2),
        mov_bytes(dst, src).len() == mov_bytes(dst2, src2).len(),
        mov_bytes(dst, src).drop_first() == mov_bytes(dst2, src2).drop_first(),
        0x48 <= mov_bytes(dst, src)[0] <= 0x4f,
        mov_bytes(dst, src)[0] == 0x48 <==> dst.hi() == 0 && src.hi() == 0,
{
    let a = mov_bytes(dst, src);
    let b = mov_bytes(dst2, src2);
    lemma_modrm_extension(Operand::Op(0), dst, Operand::Op(0), dst2);
    lemma_modrm_extension(dst, src, dst2, src2);
    lemma_modrm_extension(src, dst, src2, dst2);
    assert(imm_bytes(src) == imm_bytes(src2));
    if dst is R && src.rm() {
        assert(a.drop_first() =~= b.drop_first());
    } else if dst.rm() && src is R {
        assert(a.drop_first() =~= b.drop_first());
    } else if dst.rm() && src is Long {
        assert(a.drop_first() =~= b.drop_first());
    } else {
        assert(a.drop_first() =~= b.drop_first());
    }
}

/// Register extension, for `push` and `pop` of a register or memory operand: r8 to r15 in
/// place of rax to rdi change the REX byte alone, which carries the B bit exactly for those.
pub proof fn lemma_stack_register_extension(op: Operand, op2: Operand)
    requires
        op.rm(),
        same_but_extension(op, op2),
    ensures
        push_bytes(op).drop_first() == push_bytes(op2).drop_first(),
        pop_bytes(op).drop_first() == pop_bytes(op2).drop_first(),
        0x48 <= push_bytes(op)[0] <= 0x4f,
        push_bytes(op)[0] == 0x48 <==> op.hi() == 0,
        pop_bytes(op)[0] == push_bytes(op)[0],
{
    lemma_modrm_extension(Operand::Op(6), op, Operand::Op(6), op2);
    lemma_modrm_extension(Operand::Op(0), op, Operand::Op(0), op2);
    assert(push_bytes(op).drop_first() =~= push_bytes(op2).drop_first());
    assert(pop_bytes(op).drop_first() =~= pop_bytes(op2).drop_first());
}

/// Register extension, for `xchg`: r8 to r15 in place of rax to rdi change the REX byte alone.
/// (The short forms with rax have no r8 counterpart, so rax and another register stand in for
/// each other only where neither operand is rax in the short form.)
pub proof fn lemma_xchg_register_extension(dst: Operand, src: Operand, dst2: Operand, src2: Operand)
    requires
        xchg_shape(dst, src),
        same_but_extension(dst, dst2),
        same_but_extension(src, src2),
        (dst == Operand::R(Register::rax) && src is R) <==> (dst2 == Operand::R(Register::rax)
            && src2 is R),
        (dst is R && src == Operand::R(Register::rax)) <==> (dst2 is R && src2 == Operand::R(
            Register::rax,
        )),
    ensures
        xchg_shape(dst2, src2),
        xchg_bytes(dst, src).drop_first() == xchg_bytes(dst2, src2).drop_first(),
        0x48 <= xchg_bytes(dst, src)[0] <= 0x4f,
        xchg_bytes(dst, src)[0] == 0x48 <==> dst.hi() == 0 && src.hi() == 0,
{
    lemma_modrm_extension(dst, src, dst2, src2);
    lemma_modrm_extension(src, dst, src2, dst2);
    if dst == Operand::R(Register::rax) && src is R {
        assert(xchg_bytes(dst, src).drop_first() =~= xchg_bytes(dst2, src2).drop_first());
    } else if dst is R && src == Operand::R(Register::rax) {
        assert(xchg_bytes(dst, src).drop_first() =~= xchg_bytes(dst2, src2).drop_first());
    } else if dst is R && src.rm() {
        assert(xchg_bytes(dst, src).drop_first() =~= xchg_bytes(dst2, src2).drop_first());
    } else {
        assert(xchg_bytes(dst, src).drop_first() =~= xchg_bytes(dst2, src2).drop_first());
    }
}

/// Displacement width: `mov r, [base + d]` has no displacement byte (mod 00) for `d == 0`,
/// one (mod 01) for `1 <= d <= 255` and four (mod 10) for larger `d`; the ModR/M byte follows
/// the REX prefix and the opcode.
pub proof fn lemma_displacement_width(r: Register, base: Register, d: u32)
    ensures
        mov_bytes(Operand::R(r), Operand::M(base, d)).len() == 3 + sib(base).len() + (if d == 0 {
            0int
        } else if d <= 255 {
            1int
        } else {
            4int
        }),
        mov_bytes(Operand::R(r), Operand::M(base, d))[2] / 64 == (if d == 0 {
            0int
        } else if d <= 255 {
            1int
        } else {
            2int
        }),
{
    lemma_le_bytes_len(d as nat, 4);
}

pub open spec fn xchg_shape(dst: Operand, src: Operand) -> bool {
    ||| dst is R && src.rm()
    ||| dst.rm() && src is R
}

pub open spec fn xchg_bytes(dst: Operand, src: Operand) -> Seq<u8> {
    if dst == Operand::R(Register::rax) && src is R {
        rexw(Operand::Empty, src) + seq![(0x90 + src.lo()) as u8]
    } else if dst is R && src == Operand::R(Register::rax) {
        rexw(Operand::Empty, dst) + seq![(0x90 + dst.lo()) as u8]
    } else if dst is R && src.rm() {
        rexw(dst, src) + seq![0x87u8] + modrm(dst, src)
    } else {
        rexw(src, dst) + seq![0x87u8] + modrm(src, dst)
    }
}

pub open spec fn push_bytes(op: Operand) -> Seq<u8> {
    if op.rm() {
        rexw(Operand::Empty, op) + seq![0xffu8] + modrm(Operand::Op(6), op)
    } else if op is Byte {
        seq![0x6au8] + imm_bytes(op)
    } else {
        seq![0x68u8] + imm_bytes(op)
    }
}

pub open spec fn pop_bytes(op: Operand) -> Seq<u8> {
    if op is R {
        rexw(Operand::Empty, op) + seq![(0x58 + op.lo()) as u8]
    } else {
        rexw(Operand::Empty, op) + seq![0x8fu8] + modrm(Operand::Op(0), op)
    }
}

pub open spec fn ret_bytes(r: Operand) -> Seq<u8> {
    if r is Empty {
        seq![0xc3u8]
    } else {
        seq![0xc2u8] + imm_bytes(r)
    }
}

pub trait AsmX64Basic: AsmX64Helper + AsmHelper {
    fn movq(&mut self, dst: Operand, src: Operand)
        requires
            mov_shape(dst, src),
        ensures
            appended(old(self), final(self), mov_bytes(dst, src)),
    {
        if dst.is_reg() && src.is_rm() {
            self.emit_rex(REXKind::REXW, dst, src);
            self.emitb(0x8b);
            self.emit_modrm(dst, src);
        } else if dst.is_rm() && src.is_reg() {
            self.emit_rex(REXKind::REXW, src, dst);
            self.emitb(0x89);
            self.emit_modrm(src, dst);
        } else if dst.is_rm() && matches!(src, Operand::Long(_)) {
            self.emit_rex(REXKind::REXW, Operand::Empty, dst);
            self.emitb(0xc7);
            self.emit_modrm(Operand::Op(0), dst);
            emit_imm(self, src);
        } else {
            self.emit_rex(REXKind::REXW, Operand::Empty, dst);
            self.emitb(0xb8 + dst.low());
            emit_imm(self, src);
        }
    }

    /// Zero-extending load of a byte, `REX.W 0F B6 /r`.
    fn movqzx(&mut self, dst: Operand, src: Operand)
        requires
            dst is R,
            src.rm(),
        ensures
            appended(
                old(self),
                final(self),
                rexw(dst, src) + seq![0x0fu8, 0xb6u8] + modrm(dst, src),
            ),
    {
        self.emit_rex(REXKind::REXW, dst, src);
        self.emitb(0x0f);
        self.emitb(0xb6);
        self.emit_modrm(dst, src);
    }

    /// Loads the absolute address of `l` into `dst`: `REX.W B8+r` and an 8-byte slot.
    fn movq_proc(&mut self, dst: Operand, l: &mut Label)
        requires
            dst is R,
        ensures
            used_label(
                old(self),
                final(self),
                *old(l),
                *final(l),
                rexw(Operand::Empty, dst) + seq![(0xb8 + dst.lo()) as u8],
                RelocationKind::RelocAbsolute,
                RelocationSize::RelocQuad,
                0i64,
            ),
    {
        self.emit_rex(REXKind::REXW, Operand::Empty, dst);
        self.emitb(0xb8 + dst.low());
        self.emit_use(l, RelocationKind::RelocAbsolute, RelocationSize::RelocQuad, 0);
    }

    fn xchgq(&mut self, dst: Operand, src: Operand)
        requires
            xchg_shape(dst, src),
        ensures
            appended(old(self), final(self), xchg_bytes(dst, src)),
    {
        if dst == Operand::R(Register::rax) && src.is_reg() {
            self.emit_rex(REXKind::REXW, Operand::Empty, src);
            self.emitb(0x90 + src.low());
        } else if dst.is_reg() && src == Operand::R(Register::rax) {
            self.emit_rex(REXKind::REXW, Operand::Empty, dst);
            self.emitb(0x90 + dst.low());
        } else if dst.is_reg() && src.is_rm() {
            self.emit_rex(REXKind::REXW, dst, src);
            self.emitb(0x87);
            self.emit_modrm(dst, src);
        } else {
            self.emit_rex(REXKind::REXW, src, dst);
            self.emitb(0x87);
            self.emit_modrm(src, dst);
        }
    }

    fn pushq(&mut self, op: Operand)
        requires
            op.rm() || op is Byte || op is Long,
        ensures
            appended(old(self), final(self), push_bytes(op)),
    {
        if op.is_rm() {
            self.emit_rex(REXKind::REXW, Operand::Empty, op);
            self.emitb(0xff);
            self.emit_modrm(Operand::Op(6), op);
        } else if matches!(op, Operand::Byte(_)) {
            self.emitb(0x6a);
            emit_imm(self, op);
        } else {
            self.emitb(0x68);
            emit_imm(self, op);
        }
    }

    fn popq(&mut self, op: Operand)
        requires
            op.rm(),
        ensures
            appended(old(self), final(self), pop_bytes(op)),
    {
        if op.is_reg() {
            self.emit_rex(REXKind::REXW, Operand::Empty, op);
            self.emitb(0x58 + op.low());
        } else {
            self.emit_rex(REXKind::REXW, Operand::Empty, op);
            self.emitb(0x8f);
            self.emit_modrm(Operand::Op(0), op);
        }
    }

    /// Return, popping `w` more bytes when `r` is `Word(w)`.
    fn ret(&mut self, r: Operand)
        requires
            r is Empty || r is Word,
        ensures
            appended(old(self), final(self), ret_bytes(r)),
    {
        if matches!(r, Operand::Empty) {
            self.emitb(0xc3);
        } else {
            self.emitb(0xc2);
            emit_imm(self, r);
        }
    }
}

} // verus!
