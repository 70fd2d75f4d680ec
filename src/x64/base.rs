//! Registers and operands of x86-64, and the ModR/M and REX encoders.
use vstd::prelude::*;
use crate::bytes::{le_bytes, lemma_le_bytes_byte};
use crate::buffer::AsmBuffer;

verus! {

/// A general register; its index is its position in this list.
#[allow(non_camel_case_types)]
#[derive(Clone, Copy, Debug, PartialEq, Eq, Structural)]
pub enum Register {
    rax,
    rcx,
    rdx,
    rbx,
    rsp,
    rbp,
    rsi,
    rdi,
    r8,
    r9,
    r10,
    r11,
    r12,
    r13,
    r14,
    r15,
}

/// An XMM register; its index is its position in this list.
#[allow(non_camel_case_types)]
#[derive(Clone, Copy, Debug, PartialEq, Eq, Structural)]
pub enum DoubleRegister {
    xmm0,
    xmm1,
    xmm2,
    xmm3,
    xmm4,
    xmm5,
    xmm6,
    xmm7,
    xmm8,
    xmm9,
    xmm10,
    xmm11,
    xmm12,
    xmm13,
    xmm14,
    xmm15,
}

/// An instruction operand.
#[derive(Clone, Copy, Debug, PartialEq, Eq, Structural)]
pub enum Operand {
    /// No operand.
    Empty,
    /// The opcode extension `/n` that fills the ModR/M reg field of one-operand forms.
    Op(u8),
    R(Register),
    D(DoubleRegister),
    /// `[base + disp]`.
    M(Register, u32),
    Byte(u8),
    Word(u16),
    Long(u32),
    Quad(u64),
}

#[derive(Clone, Copy, Debug, PartialEq, Eq, Structural)]
pub enum JumpCondition {
    IfZero,
    IfNotZero,
    IfOverflow,
    IfNoOverflow,
    IfEqual,
    IfNotEqual,
    IfGreater,
    IfLess,
    IfGreaterOrEqual,
    IfLessOrEqual,
}

/// A REX prefix without or with the 64-bit operand size bit W.
#[derive(Clone, Copy, Debug, PartialEq, Eq, Structural)]
pub enum REXKind {
    REX,
    REXW,
}

impl Register {
    pub open spec fn index(self) -> u8 {
        match self {
            Register::rax => 0,
            Register::rcx => 1,
            Register::rdx => 2,
            Register::rbx => 3,
            Register::rsp => 4,
            Register::rbp => 5,
            Register::rsi => 6,
            Register::rdi => 7,
            Register::r8 => 8,
            Register::r9 => 9,
            Register::r10 => 10,
            Register::r11 => 11,
            Register::r12 => 12,
            Register::r13 => 13,
            Register::r14 => 14,
            Register::r15 => 15,
        }
    }

    pub fn code(&self) -> (r: u8)
        ensures
            r == self.index(),
    {
        match self {
            Register::rax => 0,
            Register::rcx => 1,
            Register::rdx => 2,
            Register::rbx => 3,
            Register::rsp => 4,
            Register::rbp => 5,
            Register::rsi => 6,
            Register::rdi => 7,
            Register::r8 => 8,
            Register::r9 => 9,
            Register::r10 => 10,
            Register::r11 => 11,
            Register::r12 => 12,
            Register::r13 => 13,
            Register::r14 => 14,
            Register::r15 => 15,
        }
    }

    /// The extension bit that REX carries.
    pub fn high(&self) -> (r: u8)
        ensures
            r == self.index() / 8,
    {
        self.code() / 8
    }

    /// The three bits that ModR/M or the opcode carries.
    pub fn low(&self) -> (r: u8)
        ensures
            r == self.index() % 8,
    {
        self.code() % 8
    }
}

impl DoubleRegister {
    pub open spec fn index(self) -> u8 {
        match self {
            DoubleRegister::xmm0 => 0,
            DoubleRegister::xmm1 => 1,
            DoubleRegister::xmm2 => 2,
            DoubleRegister::xmm3 => 3,
            DoubleRegister::xmm4 => 4,
            DoubleRegister::xmm5 => 5,
            DoubleRegister::xmm6 => 6,
            DoubleRegister::xmm7 => 7,
            DoubleRegister::xmm8 => 8,
            DoubleRegister::xmm9 => 9,
            DoubleRegister::xmm10 => 10,
            DoubleRegister::xmm11 => 11,
            DoubleRegister::xmm12 => 12,
            DoubleRegister::xmm13 => 13,
            DoubleRegister::xmm14 => 14,
            DoubleRegister::xmm15 => 15,
        }
    }

    pub fn code(&self) -> (r: u8)
        ensures
            r == self.index(),
    {
        match self {
            DoubleRegister::xmm0 => 0,
            DoubleRegister::xmm1 => 1,
            DoubleRegister::xmm2 => 2,
            DoubleRegister::xmm3 => 3,
            DoubleRegister::xmm4 => 4,
            DoubleRegister::xmm5 => 5,
            DoubleRegister::xmm6 => 6,
            DoubleRegister::xmm7 => 7,
            DoubleRegister::xmm8 => 8,
            DoubleRegister::xmm9 => 9,
            DoubleRegister::xmm10 => 10,
            DoubleRegister::xmm11 => 11,
            DoubleRegister::xmm12 => 12,
            DoubleRegister::xmm13 => 13,
            DoubleRegister::xmm14 => 14,
            DoubleRegister::xmm15 => 15,
        }
    }

    pub fn high(&self) -> (r: u8)
        ensures
            r == self.index() / 8,
    {
        self.code() / 8
    }

    pub fn low(&self) -> (r: u8)
        ensures
            r == self.index() % 8,
    {
        self.code() % 8
    }
}

impl Operand {
    /// The REX extension bit of the operand: that of its register, 0 for the others.
    pub open spec fn hi(self) -> u8 {
        match self {
            Operand::R(r) => r.index() / 8,
            Operand::M(r, _) => r.index() / 8,
            Operand::D(d) => d.index() / 8,
            _ => 0,
        }
    }

    /// The three low bits of the operand's register, or of an opcode extension.
    pub open spec fn lo(self) -> u8 {
        match self {
            Operand::R(r) => r.index() % 8,
            Operand::M(r, _) => r.index() % 8,
            Operand::D(d) => d.index() % 8,
            Operand::Op(n) => n % 8,
            _ => 0,
        }
    }

    /// May stand in the ModR/M reg field.
    pub open spec fn fits_reg_field(self) -> bool {
        self is R || self is D || self is Op
    }

    pub open spec fn rm(self) -> bool {
        self is R || self is M
    }

    pub open spec fn dm(self) -> bool {
        self is D || self is M
    }

    pub fn is_reg(&self) -> (r: bool)
        ensures
            r == self is R,
    {
        match self {
            Operand::R(_) => true,
            _ => false,
        }
    }

    pub fn is_dreg(&self) -> (r: bool)
        ensures
            r == self is D,
    {
        match self {
            Operand::D(_) => true,
            _ => false,
        }
    }

    pub fn is_mem(&self) -> (r: bool)
        ensures
            r == self is M,
    {
        match self {
            Operand::M(_, _) => true,
            _ => false,
        }
    }

    pub fn is_rm(&self) -> (r: bool)
        ensures
            r == self.rm(),
    {
        self.is_reg() || self.is_mem()
    }

    pub fn is_dm(&self) -> (r: bool)
        ensures
            r == self.dm(),
    {
        self.is_dreg() || self.is_mem()
    }

    pub fn is_operation(&self) -> (r: bool)
        ensures
            r == self is Op,
    {
        match self {
            Operand::Op(_) => true,
            _ => false,
        }
    }

    pub fn high(&self) -> (r: u8)
        ensures
            r == self.hi(),
    {
        match self {
            Operand::R(r) => r.high(),
            Operand::M(r, _) => r.high(),
            Operand::D(d) => d.high(),
            _ => 0,
        }
    }

    pub fn low(&self) -> (r: u8)
        ensures
            r == self.lo(),
    {
        match self {
            Operand::R(r) => r.low(),
            Operand::M(r, _) => r.low(),
            Operand::D(d) => d.low(),
            Operand::Op(n) => *n % 8,
            _ => 0,
        }
    }
}

/// The SIB byte that a memory operand on `rsp` or `r12` needs: no index, that base.
pub open spec fn sib(base: Register) -> Seq<u8> {
    if base.index() % 8 == 4 {
        seq![0x24u8]
    } else {
        Seq::empty()
    }
}

/// The ModR/M byte, with its SIB and displacement bytes, for reg field `r` and r/m field `rm`.
pub open spec fn modrm(r: Operand, rm: Operand) -> Seq<u8> {
    let reg = 8 * r.lo();
    match rm {
        Operand::M(b, d) => if d == 0 {
            seq![(reg + b.index() % 8) as u8] + sib(b)
        } else if d <= 0xff {
            seq![(0x40 + reg + b.index() % 8) as u8] + sib(b) + seq![d as u8]
        } else {
            seq![(0x80 + reg + b.index() % 8) as u8] + sib(b) + le_bytes(d as nat, 4)
        },
        Operand::R(x) => seq![(0xc0 + reg + x.index() % 8) as u8],
        Operand::D(x) => seq![(0xc0 + reg + x.index() % 8) as u8],
        _ => seq![reg as u8],
    }
}

/// The REX prefix `0100 W R 0 B`, R extending the reg field and B the r/m field.
pub open spec fn rex(w: bool, r: Operand, rm: Operand) -> u8 {
    (0x40 + (if w { 8int } else { 0int }) + 4 * r.hi() + rm.hi()) as u8
}

/// A REX prefix without W, present only where an operand needs an extension bit.
pub open spec fn opt_rex(r: Operand, rm: Operand) -> Seq<u8> {
    if r.hi() != 0 || rm.hi() != 0 {
        seq![rex(false, r, rm)]
    } else {
        Seq::empty()
    }
}

/// `a` and `b` are the same operand but for the REX extension bits of their registers.
pub open spec fn same_but_extension(a: Operand, b: Operand) -> bool {
    match a {
        Operand::R(x) => b matches Operand::R(y) && x.index() % 8 == y.index() % 8,
        Operand::D(x) => b matches Operand::D(y) && x.index() % 8 == y.index() % 8,
        Operand::M(x, d) => b matches Operand::M(y, e) && x.index() % 8 == y.index() % 8 && d == e,
        _ => a == b,
    }
}

/// The ModR/M bytes do not see the extension bits of the registers.
pub proof fn lemma_modrm_extension(r: Operand, rm: Operand, r2: Operand, rm2: Operand)
    requires
        same_but_extension(r, r2),
        same_but_extension(rm, rm2),
    ensures
        modrm(r, rm) == modrm(r2, rm2),
        r.lo() == r2.lo(),
        rm.lo() == rm2.lo(),
{
    match rm {
        Operand::M(b, d) => {
            let b2 = rm2->M_0;
            assert(sib(b) == sib(b2));
        },
        _ => {},
    }
}

/// `after` holds what `before` held followed by `bs`, and the same relocations.
pub open spec fn appended<A: AsmBuffer + ?Sized>(before: &A, after: &A, bs: Seq<u8>) -> bool {
    &&& after.bytes() =~= before.bytes() + bs
    &&& after.relocations() == before.relocations()
}

/// The value of an immediate operand.
pub open spec fn imm(op: Operand) -> nat {
    match op {
        Operand::Byte(b) => b as nat,
        Operand::Word(w) => w as nat,
        Operand::Long(l) => l as nat,
        Operand::Quad(q) => q as nat,
        _ => 0,
    }
}

/// The bytes of an immediate operand, little-endian at its own width; none for the others.
pub open spec fn imm_bytes(op: Operand) -> Seq<u8> {
    match op {
        Operand::Byte(_) => le_bytes(imm(op), 1),
        Operand::Word(_) => le_bytes(imm(op), 2),
        Operand::Long(_) => le_bytes(imm(op), 4),
        Operand::Quad(_) => le_bytes(imm(op), 8),
        _ => Seq::empty(),
    }
}

/// A REX prefix with W set.
pub open spec fn rexw(r: Operand, rm: Operand) -> Seq<u8> {
    seq![rex(true, r, rm)]
}

/// Appends the bytes of an immediate operand.
pub(crate) fn emit_imm<A: AsmBuffer + ?Sized>(a: &mut A, op: Operand)
    ensures
        appended(old(a), final(a), imm_bytes(op)),
{
    match op {
        Operand::Byte(b) => {
            a.emitb(b);
            proof {
                lemma_le_bytes_byte(b);
            }
        },
        Operand::Word(w) => a.emitw(w),
        Operand::Long(l) => a.emitl(l),
        Operand::Quad(q) => a.emitq(q),
        _ => {},
    }
}

pub trait AsmX64Helper: AsmBuffer {
    fn emit_modrm(&mut self, r: Operand, rm: Operand)
        requires
            r.fits_reg_field(),
            !(rm is Op),
        ensures
            appended(old(self), final(self), modrm(r, rm)),
    {
        let reg = r.low() * 8;
        match rm {
            Operand::M(b, d) => {
                let base = b.low();
                if d == 0 {
                    self.emitb(reg + base);
                } else if d <= 0xff {
                    self.emitb(0x40 + reg + base);
                } else {
                    self.emitb(0x80 + reg + base);
                }
                if base == 4 {
                    self.emitb(0x24);
                }
                if d != 0 && d <= 0xff {
                    self.emitb(d as u8);
                } else if d > 0xff {
                    self.emitl(d);
                }
                proof {
                    assert(final(self).bytes() =~= old(self).bytes() + modrm(r, rm));
                }
            },
            Operand::R(x) => self.emitb(0xc0 + reg + x.low()),
            Operand::D(x) => self.emitb(0xc0 + reg + x.low()),
            _ => self.emitb(reg),
        }
    }

    fn emit_rex(&mut self, kind: REXKind, r: Operand, rm: Operand)
        ensures
            appended(old(self), final(self), seq![rex(kind == REXKind::REXW, r, rm)]),
    {
        let w: u8 = match kind {
            REXKind::REX => 0x40,
            REXKind::REXW => 0x48,
        };
        self.emitb(w + r.high() * 4 + rm.high());
    }

    fn emit_opt_rex(&mut self, r: Operand, rm: Operand)
        ensures
            appended(old(self), final(self), opt_rex(r, rm)),
    {
        if r.high() != 0 || rm.high() != 0 {
            self.emit_rex(REXKind::REX, r, rm);
        } else {
            assert(old(self).bytes() + opt_rex(r, rm) =~= old(self).bytes());
        }
    }
}

pub trait AsmX64: AsmX64Helper {
    fn nop(&mut self)
        ensures
            appended(old(self), final(self), seq![0x90u8]),
    {
        self.emitb(0x90);
    }

    fn int3(&mut self)
        ensures
            appended(old(self), final(self), seq![0xccu8]),
    {
        self.emitb(0xcc);
    }
}

} // verus!
