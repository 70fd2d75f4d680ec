//! End-to-end scenarios for x86-64: each builds a function, links it and runs it on a small
//! interpreter of the instructions that the assembler emits.
use std::collections::HashMap;

use jitasm::x64::base::Operand::{Byte, Empty, Long, D, M, R};
use jitasm::x64::base::Register::{r13, r14, r15, rax, rbp, rbx, rcx, rsi, rsp};
use jitasm::x64::base::DoubleRegister::{xmm1, xmm2};
use jitasm::x64::base::{AsmX64, JumpCondition};
use jitasm::x64::basic::AsmX64Basic;
use jitasm::x64::branching::AsmX64Branching;
use jitasm::x64::fp::{AsmX64FP, RoundMode};
use jitasm::x64::math::AsmX64Math;
use jitasm::{Asm, AsmHelper, Label};

const BASE: u64 = 0x40_0000;
const STACK_TOP: u64 = 0x7fff_0000;
const RETURN_MARK: u64 = 0xdead_0000;

/// A minimal machine: general and XMM registers, flags and sparse memory.
struct Machine {
    wide: bool,
    regs: [u64; 16],
    xmm: [f64; 16],
    rip: u64,
    zf: bool,
    sf: bool,
    of: bool,
    mem: HashMap<u64, u8>,
}

enum Place {
    Reg(usize),
    Mem(u64),
}

impl Machine {
    fn new(wide: bool, image: &[u8]) -> Machine {
        let mut m = Machine {
            wide,
            regs: [0; 16],
            xmm: [0.0; 16],
            rip: BASE,
            zf: false,
            sf: false,
            of: false,
            mem: HashMap::new(),
        };
        for (i, b) in image.iter().enumerate() {
            m.mem.insert(BASE + i as u64, *b);
        }
        m
    }

    fn slot(&self) -> u64 {
        if self.wide { 8 } else { 4 }
    }

    fn mask(bits: u32) -> u64 {
        if bits == 64 { u64::MAX } else { (1u64 << bits) - 1 }
    }

    fn load(&self, addr: u64, n: u64) -> u64 {
        let mut v = 0u64;
        for k in 0..n {
            let b = *self.mem.get(&(addr.wrapping_add(k))).expect("read of unmapped memory");
            v |= (b as u64) << (8 * k);
        }
        v
    }

    fn store(&mut self, addr: u64, n: u64, v: u64) {
        for k in 0..n {
            self.mem.insert(addr.wrapping_add(k), (v >> (8 * k)) as u8);
        }
    }

    fn fetch(&mut self, n: u64) -> u64 {
        let v = self.load(self.rip, n);
        self.rip += n;
        v
    }

    fn fetch_signed(&mut self, n: u64) -> u64 {
        let v = self.fetch(n);
        let shift = 64 - 8 * n;
        (((v << shift) as i64) >> shift) as u64
    }

    fn push(&mut self, v: u64) {
        let n = self.slot();
        self.regs[4] = self.regs[4].wrapping_sub(n) & Self::mask(8 * n as u32);
        self.store(self.regs[4], n, v);
    }

    fn pop(&mut self) -> u64 {
        let n = self.slot();
        let v = self.load(self.regs[4], n);
        self.regs[4] = self.regs[4].wrapping_add(n) & Self::mask(8 * n as u32);
        v
    }

    /// Decodes a ModR/M byte: its reg field and the place its r/m field names.
    fn modrm(&mut self, rex: u8) -> (usize, Place) {
        let b = self.fetch(1) as u8;
        let md = b >> 6;
        let reg = (((b >> 3) & 7) | ((rex >> 2 & 1) << 3)) as usize;
        let mut rm = (b & 7) as usize;
        if md == 3 {
            return (reg, Place::Reg(rm | ((rex & 1) << 3) as usize));
        }
        if rm == 4 {
            let sib = self.fetch(1) as u8;
            assert_eq!(sib >> 3, 0b100, "only a SIB byte without index is expected");
            rm = (sib & 7) as usize;
        }
        assert!(!(md == 0 && rm == 5), "RIP-relative operands are not expected");
        let base = self.regs[rm | ((rex & 1) << 3) as usize];
        let disp = match md {
            0 => 0,
            1 => self.fetch_signed(1),
            _ => self.fetch_signed(4),
        };
        let addr = base.wrapping_add(disp) & Self::mask(if self.wide { 64 } else { 32 });
        (reg, Place::Mem(addr))
    }

    fn read(&self, p: &Place, bits: u32) -> u64 {
        match p {
            Place::Reg(r) => self.regs[*r] & Self::mask(bits),
            Place::Mem(a) => self.load(*a, bits as u64 / 8),
        }
    }

    fn write(&mut self, p: &Place, bits: u32, v: u64) {
        match p {
            Place::Reg(r) => self.regs[*r] = v & Self::mask(bits),
            Place::Mem(a) => self.store(*a, bits as u64 / 8, v),
        }
    }

    fn set_flags(&mut self, v: u64, bits: u32, of: bool) {
        let v = v & Self::mask(bits);
        self.zf = v == 0;
        self.sf = (v >> (bits - 1)) & 1 == 1;
        self.of = of;
    }

    /// Applies the arithmetic or logic operation `digit` and returns the result, or None for cmp.
    fn alu(&mut self, digit: u8, a: u64, b: u64, bits: u32) -> Option<u64> {
        let m = Self::mask(bits);
        let sign = |x: u64| (x >> (bits - 1)) & 1 == 1;
        let (r, of) = match digit {
            0 => {
                let r = a.wrapping_add(b) & m;
                (r, sign(a) == sign(b) && sign(r) != sign(a))
            },
            1 => (a | b, false),
            4 => (a & b, false),
            5 | 7 => {
                let r = a.wrapping_sub(b) & m;
                (r, sign(a) != sign(b) && sign(r) != sign(a))
            },
            6 => (a ^ b, false),
            _ => panic!("unexpected arithmetic operation {}", digit),
        };
        self.set_flags(r, bits, of);
        if digit == 7 { None } else { Some(r) }
    }

    fn condition(&self, cc: u8) -> bool {
        match cc {
            0x0 => self.of,
            0x1 => !self.of,
            0x4 => self.zf,
            0x5 => !self.zf,
            0xc => self.sf != self.of,
            0xd => self.sf == self.of,
            0xe => self.zf || self.sf != self.of,
            0xf => !self.zf && self.sf == self.of,
            _ => panic!("unexpected condition {}", cc),
        }
    }

    fn xmm_or_mem(&self, p: &Place) -> f64 {
        match p {
            Place::Reg(r) => self.xmm[*r],
            Place::Mem(a) => f64::from_bits(self.load(*a, 8)),
        }
    }

    fn step(&mut self) {
        let mut prefix = 0u8;
        let mut b = self.fetch(1) as u8;
        if b == 0x66 || b == 0xf2 || b == 0xf3 {
            prefix = b;
            b = self.fetch(1) as u8;
        }
        let mut rex = 0u8;
        if self.wide && b & 0xf0 == 0x40 {
            rex = b;
            b = self.fetch(1) as u8;
        }
        let bits = if rex & 8 != 0 { 64 } else { 32 };
        let stack_bits = if self.wide { 64 } else { 32 };
        match b {
            0x01 | 0x09 | 0x21 | 0x29 | 0x31 | 0x39 => {
                let (r, p) = self.modrm(rex);
                let a = self.read(&p, bits);
                let v = self.regs[r] & Self::mask(bits);
                if let Some(x) = self.alu(b >> 3, a, v, bits) {
                    self.write(&p, bits, x);
                }
            },
            0x03 | 0x0b | 0x23 | 0x2b | 0x33 | 0x3b => {
                let (r, p) = self.modrm(rex);
                let a = self.regs[r] & Self::mask(bits);
                let v = self.read(&p, bits);
                if let Some(x) = self.alu(b >> 3, a, v, bits) {
                    self.regs[r] = x;
                }
            },
            0x05 | 0x0d | 0x25 | 0x2d | 0x35 | 0x3d => {
                let v = self.fetch_signed(4) & Self::mask(bits);
                let a = self.regs[0] & Self::mask(bits);
                if let Some(x) = self.alu(b >> 3, a, v, bits) {
                    self.regs[0] = x;
                }
            },
            0x81 | 0x83 => {
                let (digit, p) = self.modrm(rex);
                let v = self.fetch_signed(if b == 0x81 { 4 } else { 1 }) & Self::mask(bits);
                let a = self.read(&p, bits);
                if let Some(x) = self.alu((digit & 7) as u8, a, v, bits) {
                    self.write(&p, bits, x);
                }
            },
            0x85 => {
                let (r, p) = self.modrm(rex);
                let v = self.read(&p, bits) & self.regs[r];
                self.set_flags(v, bits, false);
            },
            0xa9 => {
                let v = self.fetch_signed(4) & self.regs[0];
                self.set_flags(v, bits, false);
            },
            0x87 => {
                let (r, p) = self.modrm(rex);
                let a = self.read(&p, bits);
                let v = self.regs[r] & Self::mask(bits);
                self.write(&p, bits, v);
                self.regs[r] = a;
            },
            0x89 => {
                let (r, p) = self.modrm(rex);
                let v = self.regs[r] & Self::mask(bits);
                self.write(&p, bits, v);
            },
            0x8b => {
                let (r, p) = self.modrm(rex);
                self.regs[r] = self.read(&p, bits);
            },
            0x8f => {
                let (_, p) = self.modrm(rex);
                let v = self.pop();
                self.write(&p, stack_bits, v);
            },
            0x90..=0x97 => {
                let r = ((b & 7) | ((rex & 1) << 3)) as usize;
                let a = self.regs[0] & Self::mask(bits);
                self.regs[0] = self.regs[r] & Self::mask(bits);
                self.regs[r] = a;
            },
            0x58..=0x5f => {
                let r = ((b & 7) | ((rex & 1) << 3)) as usize;
                self.regs[r] = self.pop();
            },
            0x68 => {
                let v = self.fetch_signed(4) & Self::mask(stack_bits);
                self.push(v);
            },
            0x6a => {
                let v = self.fetch_signed(1) & Self::mask(stack_bits);
                self.push(v);
            },
            0xb8..=0xbf => {
                let r = ((b & 7) | ((rex & 1) << 3)) as usize;
                self.regs[r] = if bits == 64 { self.fetch(8) } else { self.fetch(4) };
            },
            0xc1 => {
                let (digit, p) = self.modrm(rex);
                let n = (self.fetch(1) as u32) & (bits - 1);
                let a = self.read(&p, bits);
                let v = match digit & 7 {
                    4 => a << n,
                    5 => a >> n,
                    7 => {
                        let shift = 64 - bits;
                        ((((a << shift) as i64) >> shift) >> n) as u64
                    },
                    _ => panic!("unexpected shift"),
                };
                self.write(&p, bits, v & Self::mask(bits));
                self.set_flags(v, bits, false);
            },
            0xc2 => {
                let n = self.fetch(2);
                self.rip = self.pop();
                self.regs[4] = self.regs[4].wrapping_add(n);
            },
            0xc3 => {
                self.rip = self.pop();
            },
            0xc7 => {
                let (_, p) = self.modrm(rex);
                let v = self.fetch_signed(4) & Self::mask(bits);
                self.write(&p, bits, v);
            },
            0xcc => panic!("breakpoint reached"),
            0xe9 => {
                let d = self.fetch_signed(4);
                self.rip = self.rip.wrapping_add(d) & Self::mask(stack_bits);
            },
            0xf7 => {
                let (digit, p) = self.modrm(rex);
                match digit & 7 {
                    0 => {
                        let v = self.fetch_signed(4) & self.read(&p, bits);
                        self.set_flags(v, bits, false);
                    },
                    4 => {
                        let v = (self.regs[0] & Self::mask(bits)) as u128 * self.read(&p, bits) as u128;
                        self.regs[0] = v as u64 & Self::mask(bits);
                        self.regs[2] = (v >> bits) as u64 & Self::mask(bits);
                    },
                    6 => {
                        let d = self.read(&p, bits) as u128;
                        let n = ((self.regs[2] & Self::mask(bits)) as u128) << bits
                            | (self.regs[0] & Self::mask(bits)) as u128;
                        self.regs[0] = (n / d) as u64;
                        self.regs[2] = (n % d) as u64;
                    },
                    _ => panic!("unexpected F7 form"),
                }
            },
            0xff => {
                let (digit, p) = self.modrm(rex);
                match digit & 7 {
                    0 | 1 => {
                        let a = self.read(&p, bits);
                        let r = if digit & 7 == 0 { self.alu(0, a, 1, bits) } else { self.alu(5, a, 1, bits) };
                        self.write(&p, bits, r.unwrap());
                    },
                    2 => {
                        let target = self.read(&p, stack_bits);
                        let back = self.rip;
                        self.push(back);
                        self.rip = target;
                    },
                    4 => self.rip = self.read(&p, stack_bits),
                    6 => {
                        let v = self.read(&p, stack_bits);
                        self.push(v);
                    },
                    _ => panic!("unexpected FF form"),
                }
            },
            0x0f => self.step_0f(prefix, rex, bits),
            _ => panic!("unexpected opcode {:#x} at {:#x}", b, self.rip - 1),
        }
    }

    fn step_0f(&mut self, prefix: u8, rex: u8, bits: u32) {
        let b = self.fetch(1) as u8;
        match (prefix, b) {
            (0, 0x80..=0x8f) => {
                let d = self.fetch_signed(4);
                if self.condition(b & 0xf) {
                    self.rip = self.rip.wrapping_add(d) & Self::mask(if self.wide { 64 } else { 32 });
                }
            },
            (0, 0xb6) | (0, 0xb7) => {
                let (r, p) = self.modrm(rex);
                self.regs[r] = self.read(&p, if b == 0xb6 { 8 } else { 16 });
            },
            (0xf2, 0x10) => {
                let (r, p) = self.modrm(rex);
                self.xmm[r] = self.xmm_or_mem(&p);
            },
            (0xf2, 0x11) => {
                let (r, p) = self.modrm(rex);
                let v = self.xmm[r];
                match p {
                    Place::Reg(x) => self.xmm[x] = v,
                    Place::Mem(a) => self.store(a, 8, v.to_bits()),
                }
            },
            (0xf2, 0x58) | (0xf2, 0x59) | (0xf2, 0x5c) | (0xf2, 0x5e) => {
                let (r, p) = self.modrm(rex);
                let v = self.xmm_or_mem(&p);
                let a = self.xmm[r];
                self.xmm[r] = match b {
                    0x58 => a + v,
                    0x59 => a * v,
                    0x5c => a - v,
                    _ => a / v,
                };
            },
            (0xf2, 0x2a) => {
                let (r, p) = self.modrm(rex);
                let v = self.read(&p, bits);
                self.xmm[r] = if bits == 64 { v as i64 as f64 } else { v as u32 as i32 as f64 };
            },
            (0xf2, 0x2c) | (0xf2, 0x2d) => {
                let (r, p) = self.modrm(rex);
                let v = self.xmm_or_mem(&p);
                let v = if b == 0x2c { v.trunc() } else { v.round_ties_even() };
                self.regs[r] = (v as i64 as u64) & Self::mask(bits);
            },
            (0x66, 0x3a) => {
                assert_eq!(self.fetch(1), 0x0b, "only roundsd is expected");
                let (r, p) = self.modrm(rex);
                let v = self.xmm_or_mem(&p);
                self.xmm[r] = match self.fetch(1) & 3 {
                    0 => v.round_ties_even(),
                    1 => v.floor(),
                    2 => v.ceil(),
                    _ => v.trunc(),
                };
            },
            _ => panic!("unexpected opcode 0F {:#x}", b),
        }
    }
}

/// Builds a function with `build`, links it at `BASE` and runs it with `arg` in the argument
/// register (rsi, as the scenarios read it), checking that it returns `expected`.
fn run_test(arg: u64, expected: u64, build: impl FnOnce(&mut Asm)) {
    let mut m = Asm::new();
    build(&mut m);
    let image = m.link(BASE).expect("the buffer links");
    let mut cpu = Machine::new(true, &image);
    cpu.regs[4] = STACK_TOP;
    cpu.store(STACK_TOP - 0x1_0000, 0x1_0000, 0);
    cpu.push(RETURN_MARK);
    cpu.regs[6] = arg;
    cpu.regs[7] = arg;
    let mut steps = 0;
    while cpu.rip != RETURN_MARK {
        cpu.step();
        steps += 1;
        assert!(steps < 1_000_000, "the function does not return");
    }
    assert_eq!(cpu.regs[0], expected);
}

#[test]
fn runner_in_and_out() {
    run_test(13589, 13589, |m| {
        m.pushq(R(rbp));
        m.movq(R(rbp), R(rsp));

        m.movq(R(rax), R(rsi));

        m.movq(R(rsp), R(rbp));
        m.popq(R(rbp));
        m.ret(Empty);
    });
}

#[test]
fn runner_math() {
    run_test(13589, 40789, |m| {
        m.pushq(R(rbp));
        m.movq(R(rbp), R(rsp));

        // Reserve some space on stack
        m.subq(R(rsp), Byte(8));

        // And work with it
        m.movq(M(rbp, -8i32 as u32), R(rsi));
        m.addq(M(rbp, -8i32 as u32), Long(5));
        m.movq(R(rbx), M(rbp, -8i32 as u32));
        m.addq(R(rbx), M(rbp, -8i32 as u32));
        m.addq(R(rbx), Byte(7));
        m.movq(R(rax), R(rbx));
        m.addq(R(rax), M(rbp, -8i32 as u32));

        m.movq(R(rsp), R(rbp));
        m.popq(R(rbp));
        m.ret(Empty);
    });
}

#[test]
fn runner_branching() {
    run_test(100, 400, |m| {
        m.pushq(R(rbp));
        m.movq(R(rbp), R(rsp));

        // Initialize output
        m.movq(R(rax), Long(0));
        m.movq(R(rcx), R(rsi));

        let mut loop_start = Label::new();
        let mut done = Label::new();

        // Loop start
        m.bind(&mut loop_start);
        m.cmpq(R(rcx), Long(0));
        m.jccl(JumpCondition::IfEqual, &mut done);

        // Loop body
        m.addq(R(rax), Byte(4));
        m.decq(R(rcx));

        // Loop end
        m.jmpl(&mut loop_start);
        m.bind(&mut done);

        m.movq(R(rsp), R(rbp));
        m.popq(R(rbp));
        m.ret(Empty);
    });
}

#[test]
fn runner_proc() {
    run_test(0, 123, |m| {
        let mut proc = Label::new();

        m.pushq(R(rbp));
        m.movq(R(rbp), R(rsp));

        m.movq_proc(R(rax), &mut proc);
        m.callq(R(rax));

        m.movq(R(rsp), R(rbp));
        m.popq(R(rbp));
        m.ret(Empty);

        m.int3();

        // Subproc
        m.bind(&mut proc);
        m.pushq(R(rbp));
        m.movq(R(rbp), R(rsp));

        m.movq(R(rax), Long(123));

        m.movq(R(rsp), R(rbp));
        m.popq(R(rbp));
        m.ret(Empty);
    });
}

#[test]
fn rex() {
    run_test(0x1234, 0x1234, |m| {
        m.pushq(R(rbp));
        m.movq(R(rbp), R(rsp));

        // Save registers
        m.pushq(R(r15));
        m.pushq(R(r14));
        m.pushq(R(r13));
        m.pushq(R(rsi));

        // r15 = arg
        m.movq(R(r15), R(rsi));

        // r14 = 0x00ff
        m.movq(R(r14), Long(0x00ff));
        // r13 = 0xff00
        m.movq(R(r13), Long(0xff00));
        // r15 &= r14
        m.andq(R(r15), R(r14));
        // rsi &= r13
        m.andq(R(rsi), R(r13));
        // r15 += rsi
        m.addq(R(r15), R(rsi));

        // r15 <-> rax
        m.xchgq(R(rax), R(r15));

        // Restore registers
        m.popq(R(rsi));
        m.popq(R(r13));
        m.popq(R(r14));
        m.popq(R(r15));

        m.movq(R(rsp), R(rbp));
        m.popq(R(rbp));
        m.ret(Empty);
    });
}

#[test]
fn runner_fp() {
    run_test(13589, 5959, |m| {
        m.pushq(R(rbp));
        m.movq(R(rbp), R(rsp));

        // x = arg
        m.movq(R(rax), R(rsi));
        m.cvtsi2sd(D(xmm1), R(rax));

        // x /= 23
        m.movq(R(rax), Long(23));
        m.cvtsi2sd(D(xmm2), R(rax));
        m.divsd(D(xmm1), D(xmm2));

        // x += 5
        m.movq(R(rax), Long(5));
        m.cvtsi2sd(D(xmm2), R(rax));
        m.addsd(D(xmm1), D(xmm2));

        // x *= 10
        m.movq(R(rax), Long(10));
        m.cvtsi2sd(D(xmm2), R(rax));
        m.mulsd(D(xmm1), D(xmm2));

        // x = ceil(x)
        m.roundsd(D(xmm1), D(xmm1), RoundMode::RoundUp);
        m.cvtsd2si(R(rax), D(xmm1));

        m.movq(R(rsp), R(rbp));
        m.popq(R(rbp));
        m.ret(Empty);
    });
}
