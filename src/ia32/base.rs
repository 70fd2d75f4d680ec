//! Registers and operands of IA-32 and the ModR/M encoder. Their encodings are those of
//! x86-64 without a REX prefix, so the contracts state them through the 64-bit operands.
use vstd::prelude::*;
use crate::buffer::AsmBuffer;
use crate::x64::base as wide;
use crate::x64::base::{appended, emit_imm, imm_bytes, modrm};

verus! {

/// A general register; its index is its position in this list.
#[allow(non_camel_case_types)]
#[derive(Clone, Copy, Debug, PartialEq, Eq, Structural)]
pub enum Register {
    eax,
    ecx,
    edx,
    ebx,
    esp,
    ebp,
    esi,
    edi,
}

/// An XMM register of IA-32.
#[allow(non_camel_case_types)]
#[derive(Clone, Copy, Debug, PartialEq, Eq, Structural)]
pub enum DoubleRegister {
    xmm0,
    xmm1,
    xmm2,
    xmm3,
    xmm4,
    xmm5,
    xmm6,
    xmm7,
}

/// An instruction operand.
#[derive(Clone, Copy, Debug, PartialEq, Eq, Structural)]
pub enum Operand {
    /// No operand.
    Empty,
    /// The opcode extension `/n` that fills the ModR/M reg field of one-operand forms.
    Op(u8),
    R(Register),
    D(DoubleRegister),
    /// `[base + disp]`.
    M(Register, u32),
    Byte(u8),
    Word(u16),
    Long(u32),
}

impl Register {
    /// The 64-bit register with the same encoding.
    pub open spec fn widened(self) -> wide::Register {
        match self {
            Register::eax => wide::Register::rax,
            Register::ecx => wide::Register::rcx,
            Register::edx => wide::Register::rdx,
            Register::ebx => wide::Register::rbx,
            Register::esp => wide::Register::rsp,
            Register::ebp => wide::Register::rbp,
            Register::esi => wide::Register::rsi,
            Register::edi => wide::Register::rdi,
        }
    }

    pub fn wide(&self) -> (r: wide::Register)
        ensures
            r == self.widened(),
    {
        match self {
            Register::eax => wide::Register::rax,
            Register::ecx => wide::Register::rcx,
            Register::edx => wide::Register::rdx,
            Register::ebx => wide::Register::rbx,
            Register::esp => wide::Register::rsp,
            Register::ebp => wide::Register::rbp,
            Register::esi => wide::Register::rsi,
            Register::edi => wide::Register::rdi,
        }
    }

    /// The register's three-bit encoding.
    pub fn val(&self) -> (r: u8)
        ensures
            r == self.widened().index(),
            r < 8,
    {
        self.wide().code()
    }
}

impl DoubleRegister {
    pub open spec fn widened(self) -> wide::DoubleRegister {
        match self {
            DoubleRegister::xmm0 => wide::DoubleRegister::xmm0,
            DoubleRegister::xmm1 => wide::DoubleRegister::xmm1,
            DoubleRegister::xmm2 => wide::DoubleRegister::xmm2,
            DoubleRegister::xmm3 => wide::DoubleRegister::xmm3,
            DoubleRegister::xmm4 => wide::DoubleRegister::xmm4,
            DoubleRegister::xmm5 => wide::DoubleRegister::xmm5,
            DoubleRegister::xmm6 => wide::DoubleRegister::xmm6,
            DoubleRegister::xmm7 => wide::DoubleRegister::xmm7,
        }
    }

    pub fn wide(&self) -> (r: wide::DoubleRegister)
        ensures
            r == self.widened(),
    {
        match self {
            DoubleRegister::xmm0 => wide::DoubleRegister::xmm0,
            DoubleRegister::xmm1 => wide::DoubleRegister::xmm1,
            DoubleRegister::xmm2 => wide::DoubleRegister::xmm2,
            DoubleRegister::xmm3 => wide::DoubleRegister::xmm3,
            DoubleRegister::xmm4 => wide::DoubleRegister::xmm4,
            DoubleRegister::xmm5 => wide::DoubleRegister::xmm5,
            DoubleRegister::xmm6 => wide::DoubleRegister::xmm6,
            DoubleRegister::xmm7 => wide::DoubleRegister::xmm7,
        }
    }
}

impl Operand {
    /// The x86-64 operand with the same encoding.
    pub open spec fn widened(self) -> wide::Operand {
        match self {
            Operand::Empty => wide::Operand::Empty,
            Operand::Op(n) => wide::Operand::Op(n),
            Operand::R(r) => wide::Operand::R(r.widened()),
            Operand::D(d) => wide::Operand::D(d.widened()),
            Operand::M(r, d) => wide::Operand::M(r.widened(), d),
            Operand::Byte(b) => wide::Operand::Byte(b),
            Operand::Word(w) => wide::Operand::Word(w),
            Operand::Long(l) => wide::Operand::Long(l),
        }
    }

    pub fn wide(&self) -> (r: wide::Operand)
        ensures
            r == self.widened(),
    {
        match self {
            Operand::Empty => wide::Operand::Empty,
            Operand::Op(n) => wide::Operand::Op(*n),
            Operand::R(r) => wide::Operand::R(r.wide()),
            Operand::D(d) => wide::Operand::D(d.wide()),
            Operand::M(r, d) => wide::Operand::M(r.wide(), *d),
            Operand::Byte(b) => wide::Operand::Byte(*b),
            Operand::Word(w) => wide::Operand::Word(*w),
            Operand::Long(l) => wide::Operand::Long(*l),
        }
    }

    pub open spec fn rm(self) -> bool {
        self is R || self is M
    }

    pub open spec fn dm(self) -> bool {
        self is D || self is M
    }

    pub fn is_reg(&self) -> (r: bool)
        ensures
            r == self is R,
    {
        matches!(self, Operand::R(_))
    }

    pub fn is_mem(&self) -> (r: bool)
        ensures
            r == self is M,
    {
        matches!(self, Operand::M(_, _))
    }

    pub fn is_rm(&self) -> (r: bool)
        ensures
            r == self.rm(),
    {
        self.is_reg() || self.is_mem()
    }

    /// The three bits of the operand's register, or of an opcode extension.
    pub fn val(&self) -> (r: u8)
        ensures
            r == self.widened().lo(),
            r < 8,
    {
        self.wide().low()
    }
}

/// The ModR/M bytes of IA-32: those of the same operands in x86-64.
pub open spec fn modrm32(r: Operand, rm: Operand) -> Seq<u8> {
    modrm(r.widened(), rm.widened())
}

/// The bytes of an immediate operand.
pub open spec fn imm32_bytes(op: Operand) -> Seq<u8> {
    imm_bytes(op.widened())
}

pub trait AsmIA32Helper: AsmBuffer {
    fn emit_modrm(&mut self, r: Operand, rm: Operand)
        requires
            r is R || r is D || r is Op,
            !(rm is Op),
        ensures
            appended(old(self), final(self), modrm32(r, rm)),
    {
        let reg = r.val() * 8;
        match rm {
            Operand::M(b, d) => {
                let base = b.val();
                if d == 0 {
                    self.emitb(reg + base);
                } else if d <= 0xff {
                    self.emitb(0x40 + reg + base);
                } else {
                    self.emitb(0x80 + reg + base);
                }
                if base == 4 {
                    self.emitb(0x24);
                }
                if d != 0 && d <= 0xff {
                    self.emitb(d as u8);
                } else if d > 0xff {
                    self.emitl(d);
                }
                proof {
                    assert(final(self).bytes() =~= old(self).bytes() + modrm32(r, rm));
                }
            },
            Operand::R(_) | Operand::D(_) => self.emitb(0xc0 + reg + rm.val()),
            _ => self.emitb(reg),
        }
    }
}

/// Appends the bytes of an immediate operand.
pub(crate) fn emit_imm32<A: AsmBuffer + ?Sized>(a: &mut A, op: Operand)
    ensures
        appended(old(a), final(a), imm32_bytes(op)),
{
    emit_imm(a, op.wide());
}

pub trait AsmIA32: AsmIA32Helper {
    fn nop(&mut self)
        ensures
            appended(old(self), final(self), seq![0x90u8]),
    {
        self.emitb(0x90);
    }

    fn int3(&mut self)
        ensures
            appended(old(self), final(self), seq![0xccu8]),
    {
        self.emitb(0xcc);
    }
}

} // verus!
