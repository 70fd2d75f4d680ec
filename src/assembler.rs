//! The concrete assembler: a growable byte buffer with its relocation log.
use vstd::prelude::*;
use crate::bytes::le_bytes;
use crate::buffer::{AsmBuffer, AsmHelper, AsmOffset, RelocationInfo};
use crate::link::{
    applicable, in_bounds, linked, overwrite_le, size_len, slot_value, value_of, LinkError,
};
use crate::x64::base::{AsmX64, AsmX64Helper};
use crate::x64::basic::AsmX64Basic;
use crate::x64::math::AsmX64Math;
use crate::x64::branching::AsmX64Branching;
use crate::x64::fp::AsmX64FP;
use crate::ia32::base::{AsmIA32, AsmIA32Helper};
use crate::ia32::basic::AsmIA32Basic;
use crate::ia32::branching::AsmIA32Branching;
use crate::ia32::fp::AsmIA32FP;
use crate::ia32::math::AsmIA32Math;

verus! {

/// An assembler for both instruction sets: the bytes emitted so far and the relocations
/// recorded for them. It implements every mnemonic surface through their default methods.
pub struct Asm {
    buffer: Vec<u8>,
    infos: Vec<RelocationInfo>,
}

impl Asm {
    pub fn new() -> (r: Asm)
        ensures
            r.bytes() == Seq::<u8>::empty(),
            r.relocations() == Seq::<RelocationInfo>::empty(),
    {
        Asm { buffer: Vec::new(), infos: Vec::new() }
    }

    /// The bytes emitted so far.
    pub fn code(&self) -> (r: &[u8])
        ensures
            r@ == self.bytes(),
    {
        self.buffer.as_slice()
    }

    /// The relocations recorded so far, in order.
    pub fn relocation_log(&self) -> (r: &[RelocationInfo])
        ensures
            r@ == self.relocations(),
    {
        self.infos.as_slice()
    }

    /// The buffer's bytes with every relocation applied, for a load at address `base`.
    pub fn link(&self, base: u64) -> (r: Result<Vec<u8>, LinkError>)
        ensures
            match r {
                Ok(img) => {
                    &&& forall|i: int|
                        0 <= i < self.relocations().len() ==> applicable(
                            #[trigger] self.relocations()[i],
                            base,
                            self.bytes().len(),
                        )
                    &&& img@ == linked(
                        self.bytes(),
                        self.relocations(),
                        base,
                        self.relocations().len(),
                    )
                },
                Err(LinkError::OutOfBounds(i)) => {
                    &&& i < self.relocations().len()
                    &&& !in_bounds(self.relocations()[i as int], self.bytes().len())
                    &&& forall|j: int|
                        0 <= j < i ==> applicable(
                            #[trigger] self.relocations()[j],
                            base,
                            self.bytes().len(),
                        )
                },
                Err(LinkError::OutOfRange(i)) => {
                    &&& i < self.relocations().len()
                    &&& in_bounds(self.relocations()[i as int], self.bytes().len())
                    &&& slot_value(self.relocations()[i as int], base) is None
                    &&& forall|j: int|
                        0 <= j < i ==> applicable(
                            #[trigger] self.relocations()[j],
                            base,
                            self.bytes().len(),
                        )
                },
            },
    {
        let mut img: Vec<u8> = Vec::new();
        let mut k: usize = 0;
        while k < self.buffer.len()
            invariant
                k <= self.buffer@.len(),
                img@ == self.buffer@.take(k as int),
            decreases self.buffer@.len() - k,
        {
            img.push(self.buffer[k]);
            assert(self.buffer@.take(k + 1) =~= self.buffer@.take(k as int).push(
                self.buffer@[k as int],
            ));
            k = k + 1;
        }
        assert(self.buffer@.take(k as int) =~= self.buffer@);
        let mut i: usize = 0;
        while i < self.infos.len()
            invariant
                i <= self.infos@.len(),
                img@ == linked(self.buffer@, self.infos@, base, i as nat),
                img@.len() == self.buffer@.len(),
                forall|j: int|
                    0 <= j < i ==> applicable(#[trigger] self.infos@[j], base, self.buffer@.len()),
            decreases self.infos@.len() - i,
        {
            let info = self.infos[i];
            let n = size_len(info.size);
            if info.from.0 > self.buffer.len() || n > self.buffer.len() - info.from.0 {
                return Err(LinkError::OutOfBounds(i));
            }
            match value_of(&info, base) {
                None => {
                    return Err(LinkError::OutOfRange(i));
                },
                Some(v) => {
                    overwrite_le(&mut img, info.from.0, v, n);
                    assert(img@ == linked(self.buffer@, self.infos@, base, (i + 1) as nat));
                },
            }
            i = i + 1;
        }
        Ok(img)
    }

    /// Appends the `n` low bytes of `v`, least significant first.
    fn emit_le(&mut self, v: u64, n: usize)
        requires
            n <= 8,
        ensures
            final(self).bytes() == old(self).bytes() + le_bytes(v as nat, n as nat),
            final(self).relocations() == old(self).relocations(),
    {
        let mut cur: u64 = v;
        let mut i: usize = 0;
        while i < n
            invariant
                i <= n,
                self.bytes() + le_bytes(cur as nat, (n - i) as nat) == old(self).bytes()
                    + le_bytes(v as nat, n as nat),
                self.relocations() == old(self).relocations(),
            decreases n - i,
        {
            let ghost before = self.bytes();
            self.buffer.push((cur % 256) as u8);
            proof {
                let k = (n - i) as nat;
                assert(le_bytes(cur as nat, k) == seq![(cur % 256) as u8].add(
                    le_bytes((cur / 256) as nat, (k - 1) as nat),
                ));
                assert(before + le_bytes(cur as nat, k) =~= self.bytes() + le_bytes(
                    (cur / 256) as nat,
                    (k - 1) as nat,
                ));
            }
            cur = cur / 256;
            i = i + 1;
        }
        assert(le_bytes(cur as nat, 0) =~= Seq::<u8>::empty());
        assert(self.bytes() =~= self.bytes() + le_bytes(cur as nat, 0));
    }
}

impl AsmBuffer for Asm {
    closed spec fn bytes(&self) -> Seq<u8> {
        self.buffer@
    }

    closed spec fn relocations(&self) -> Seq<RelocationInfo> {
        self.infos@
    }

    fn emitb(&mut self, b: u8) {
        self.buffer.push(b);
    }

    fn emitw(&mut self, w: u16) {
        self.emit_le(w as u64, 2);
    }

    fn emitl(&mut self, l: u32) {
        self.emit_le(l as u64, 4);
    }

    fn emitq(&mut self, q: u64) {
        self.emit_le(q, 8);
    }

    fn offset(&self) -> (r: AsmOffset) {
        AsmOffset(self.buffer.len())
    }

    fn relocate(&mut self, info: &RelocationInfo) {
        self.infos.push(*info);
    }
}

impl AsmHelper for Asm {}

impl AsmX64Helper for Asm {}

impl AsmX64 for Asm {}

impl AsmX64Basic for Asm {}

impl AsmX64Math for Asm {}

impl AsmX64Branching for Asm {}

impl AsmX64FP for Asm {}

impl AsmIA32Helper for Asm {}

impl AsmIA32 for Asm {}

impl AsmIA32Basic for Asm {}

impl AsmIA32Math for Asm {}

impl AsmIA32Branching for Asm {}

impl AsmIA32FP for Asm {}

} // verus!
