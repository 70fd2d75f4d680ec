//! Applying relocations: what a relocation writes for a given load address, the image of
//! a buffer once all of them are applied, and the laws of labels that follow from it.
use vstd::prelude::*;
use crate::bytes::{le_bytes, lemma_le_bytes_len};
use crate::buffer::{
    bound_here, used_label, AsmHelper, Label, LabelRef, RelocationInfo, RelocationKind,
    RelocationSize,
};
use crate::x64::base::{appended, rexw, Operand, Register};
use crate::x64::basic::ret_bytes;

verus! {

/// Why a buffer could not be linked; each names the index of the first relocation that failed.
#[derive(Clone, Copy, Debug, PartialEq, Eq, Structural)]
pub enum LinkError {
    /// The relocation's slot does not lie inside the buffer.
    OutOfBounds(usize),
    /// The value does not fit the slot: a relative distance too far for its width, an
    /// address too large, or an absolute slot narrower than 4 bytes.
    OutOfRange(usize),
}

/// Half the range of a slot of `size`: its signed values are `-half..half`.
pub open spec fn half_range(size: RelocationSize) -> int {
    match size {
        RelocationSize::RelocByte => 0x80,
        RelocationSize::RelocWord => 0x8000,
        RelocationSize::RelocLong => 0x8000_0000,
        RelocationSize::RelocQuad => 0x8000_0000_0000_0000,
    }
}

/// The two's complement of `v` in a slot of `size`.
pub open spec fn twos(v: int, size: RelocationSize) -> nat {
    if v < 0 {
        (2 * half_range(size) + v) as nat
    } else {
        v as nat
    }
}

/// The signed distance that a relative relocation encodes.
pub open spec fn delta(info: RelocationInfo) -> int {
    info.to.0 - info.from.0 + info.nudge
}

/// The value that `info` writes into its slot when the buffer is loaded at `base`, or
/// `None` where it does not fit.
pub open spec fn slot_value(info: RelocationInfo, base: u64) -> Option<nat> {
    match info.kind {
        RelocationKind::RelocRelative => {
            let d = delta(info);
            if -half_range(info.size) <= d < half_range(info.size) {
                Some(twos(d, info.size))
            } else {
                None
            }
        },
        RelocationKind::RelocAbsolute => {
            let a = base + info.to.0;
            match info.size {
                RelocationSize::RelocQuad => if a < 0x1_0000_0000_0000_0000 {
                    Some(a as nat)
                } else {
                    None
                },
                RelocationSize::RelocLong => if a < 0x1_0000_0000 {
                    Some(a as nat)
                } else {
                    None
                },
                _ => None,
            }
        },
    }
}

/// The slot of `info` lies inside a buffer of `len` bytes.
pub open spec fn in_bounds(info: RelocationInfo, len: nat) -> bool {
    info.from.0 + info.size.len() <= len
}

/// `info` can be applied to a buffer of `len` bytes loaded at `base`.
pub open spec fn applicable(info: RelocationInfo, base: u64, len: nat) -> bool {
    in_bounds(info, len) && slot_value(info, base) is Some
}

/// `img` with the bytes from `at` on replaced by `bs`.
pub open spec fn overwrite(img: Seq<u8>, at: int, bs: Seq<u8>) -> Seq<u8> {
    Seq::new(img.len(), |k: int| if at <= k < at + bs.len() { bs[k - at] } else { img[k] })
}

/// `bytes` after the first `n` of `relocs` were applied in order, for the load address `base`.
pub open spec fn linked(bytes: Seq<u8>, relocs: Seq<RelocationInfo>, base: u64, n: nat) -> Seq<u8>
    decreases n,
{
    if n == 0 || n > relocs.len() {
        bytes
    } else {
        let info = relocs[n - 1];
        overwrite(
            linked(bytes, relocs, base, (n - 1) as nat),
            info.from.0 as int,
            le_bytes(slot_value(info, base)->0, info.size.len()),
        )
    }
}

pub proof fn lemma_linked_len(bytes: Seq<u8>, relocs: Seq<RelocationInfo>, base: u64, n: nat)
    ensures
        linked(bytes, relocs, base, n).len() == bytes.len(),
    decreases n,
{
    if n > 0 && n <= relocs.len() {
        lemma_linked_len(bytes, relocs, base, (n - 1) as nat);
    }
}

/// Once the first `k` relocations are applied, the slot of the `k`-th holds its value.
pub proof fn lemma_slot_after(bytes: Seq<u8>, relocs: Seq<RelocationInfo>, base: u64, k: nat)
    requires
        0 < k <= relocs.len(),
        applicable(relocs[k - 1], base, bytes.len()),
    ensures
        ({
            let info = relocs[k - 1];
            linked(bytes, relocs, base, k).subrange(
                info.from.0 as int,
                info.from.0 + info.size.len(),
            ) == le_bytes(slot_value(info, base)->0, info.size.len())
        }),
{
    let info = relocs[k - 1];
    lemma_linked_len(bytes, relocs, base, (k - 1) as nat);
    lemma_le_bytes_len(slot_value(info, base)->0, info.size.len());
    let slot = linked(bytes, relocs, base, k).subrange(
        info.from.0 as int,
        info.from.0 + info.size.len(),
    );
    assert(slot =~= le_bytes(slot_value(info, base)->0, info.size.len()));
}

/// Relocations whose slots start at `hi` or later leave the bytes before `hi` as they were.
pub proof fn lemma_later_slots(
    bytes: Seq<u8>,
    relocs: Seq<RelocationInfo>,
    base: u64,
    k: nat,
    n: nat,
    hi: int,
)
    requires
        k <= n <= relocs.len(),
        0 <= hi <= bytes.len(),
        forall|j: int| k <= j < n ==> #[trigger] relocs[j].from.0 >= hi,
    ensures
        linked(bytes, relocs, base, n).subrange(0, hi) == linked(bytes, relocs, base, k).subrange(
            0,
            hi,
        ),
    decreases n - k,
{
    if n > k {
        lemma_later_slots(bytes, relocs, base, k, (n - 1) as nat, hi);
        lemma_linked_len(bytes, relocs, base, (n - 1) as nat);
        assert(relocs[n - 1].from.0 >= hi);
        assert(linked(bytes, relocs, base, n).subrange(0, hi) =~= linked(
            bytes,
            relocs,
            base,
            (n - 1) as nat,
        ).subrange(0, hi));
    }
}

/// A forward jump: after `jmp A; bind B; bind A` on unbound labels, the linked slot of the
/// jump holds the distance from the end of the slot to `A`, in two's complement.
pub proof fn lemma_forward_jump<A: AsmHelper>(
    a0: &A,
    a1: &A,
    a2: &A,
    a3: &A,
    la0: Label,
    la1: Label,
    la2: Label,
    lb0: Label,
    lb1: Label,
    base: u64,
)
    requires
        la0.offset is None,
        lb0.offset is None,
        used_label(
            a0,
            a1,
            la0,
            la1,
            seq![0xe9u8],
            RelocationKind::RelocRelative,
            RelocationSize::RelocLong,
            -4i64,
        ),
        bound_here(a1, a2, lb0, lb1),
        bound_here(a2, a3, la1, la2),
        forall|i: int|
            0 <= i < a3.relocations().len() ==> applicable(
                #[trigger] a3.relocations()[i],
                base,
                a3.bytes().len(),
            ),
    ensures
        linked(a3.bytes(), a3.relocations(), base, a3.relocations().len()).subrange(
            a0.bytes().len() + 1 as int,
            a0.bytes().len() + 5 as int,
        ) == le_bytes(
            twos(la2.target() - (a0.bytes().len() + 5), RelocationSize::RelocLong),
            4,
        ),
{
    let rs = a3.relocations();
    let f = la1.refs@.map_values(|r: LabelRef| r.resolved(la2.offset->0));
    assert(rs.last() == f.last());
    assert(applicable(rs[rs.len() - 1], base, a3.bytes().len()));
    lemma_slot_after(a3.bytes(), rs, base, rs.len());
}

/// Loading a procedure's address: after `movq_proc(reg, L); ret; bind L` on an unbound `L`,
/// followed by a body whose relocations patch only the body, the linked 8 bytes after the
/// `B8+r` opcode hold the load address plus the offset of `L`, where the body starts.
pub proof fn lemma_proc_address<A: AsmHelper>(
    a0: &A,
    a1: &A,
    a2: &A,
    a3: &A,
    a4: &A,
    reg: Register,
    l0: Label,
    l1: Label,
    l2: Label,
    base: u64,
)
    requires
        l0.offset is None,
        used_label(
            a0,
            a1,
            l0,
            l1,
            rexw(Operand::Empty, Operand::R(reg)) + seq![(0xb8 + Operand::R(reg).lo()) as u8],
            RelocationKind::RelocAbsolute,
            RelocationSize::RelocQuad,
            0i64,
        ),
        appended(a1, a2, ret_bytes(Operand::Empty)),
        bound_here(a2, a3, l1, l2),
        a3.bytes().is_prefix_of(a4.bytes()),
        a3.relocations().is_prefix_of(a4.relocations()),
        forall|j: int|
            a3.relocations().len() <= j < a4.relocations().len()
                ==> #[trigger] a4.relocations()[j].from.0 >= a3.bytes().len(),
        forall|i: int|
            0 <= i < a4.relocations().len() ==> applicable(
                #[trigger] a4.relocations()[i],
                base,
                a4.bytes().len(),
            ),
    ensures
        l2.target() == a2.bytes().len(),
        linked(a4.bytes(), a4.relocations(), base, a4.relocations().len()).subrange(
            a0.bytes().len() + 2 as int,
            a0.bytes().len() + 10 as int,
        ) == le_bytes((base + l2.target()) as nat, 8),
{
    let rs = a4.relocations();
    let k = a3.relocations().len();
    let f = l1.refs@.map_values(|r: LabelRef| r.resolved(l2.offset->0));
    assert(a3.relocations().last() == f.last());
    assert(rs[k - 1] == a3.relocations().subrange(0, k as int)[k - 1]);
    assert(applicable(rs[k - 1], base, a4.bytes().len()));
    lemma_slot_after(a4.bytes(), rs, base, k);
    lemma_later_slots(a4.bytes(), rs, base, k, rs.len(), a3.bytes().len() as int);
    let lo = a0.bytes().len() + 2int;
    let hi = a3.bytes().len() as int;
    assert(a1.bytes().len() == lo + 8);
    assert(lo + 8 <= hi);
    lemma_linked_len(a4.bytes(), rs, base, rs.len());
    lemma_linked_len(a4.bytes(), rs, base, k);
    assert(linked(a4.bytes(), rs, base, rs.len()).subrange(lo, lo + 8) =~= linked(
        a4.bytes(),
        rs,
        base,
        rs.len(),
    ).subrange(0, hi).subrange(lo, lo + 8));
    assert(linked(a4.bytes(), rs, base, k).subrange(lo, lo + 8) =~= linked(
        a4.bytes(),
        rs,
        base,
        k,
    ).subrange(0, hi).subrange(lo, lo + 8));
}

/// A relative one-byte slot can be patched exactly when its distance, nudge included, is a
/// signed byte.
pub proof fn lemma_byte_range(info: RelocationInfo, base: u64, len: nat)
    requires
        info.kind == RelocationKind::RelocRelative,
        info.size == RelocationSize::RelocByte,
        in_bounds(info, len),
    ensures
        applicable(info, base, len) <==> -128 <= info.to.0 - info.from.0 + info.nudge <= 127,
{
}

/// The number of bytes of a slot of `size`.
pub(crate) fn size_len(size: RelocationSize) -> (r: usize)
    ensures
        r == size.len(),
{
    match size {
        RelocationSize::RelocByte => 1,
        RelocationSize::RelocWord => 2,
        RelocationSize::RelocLong => 4,
        RelocationSize::RelocQuad => 8,
    }
}

/// The value that `info` writes for a load at `base`, as `slot_value` states it.
pub(crate) fn value_of(info: &RelocationInfo, base: u64) -> (r: Option<u64>)
    ensures
        match slot_value(*info, base) {
            Some(v) => r == Some(v as u64) && v < 0x1_0000_0000_0000_0000,
            None => r is None,
        },
{
    match info.kind {
        RelocationKind::RelocRelative => {
            let d: i128 = info.to.0 as i128 - info.from.0 as i128 + info.nudge as i128;
            let half: i128 = match info.size {
                RelocationSize::RelocByte => 0x80,
                RelocationSize::RelocWord => 0x8000,
                RelocationSize::RelocLong => 0x8000_0000,
                RelocationSize::RelocQuad => 0x8000_0000_0000_0000,
            };
            if -half <= d && d < half {
                if d < 0 {
                    Some((2 * half + d) as u64)
                } else {
                    Some(d as u64)
                }
            } else {
                None
            }
        },
        RelocationKind::RelocAbsolute => {
            let a: u128 = base as u128 + info.to.0 as u128;
            match info.size {
                RelocationSize::RelocQuad => if a < 0x1_0000_0000_0000_0000 {
                    Some(a as u64)
                } else {
                    None
                },
                RelocationSize::RelocLong => if a < 0x1_0000_0000 {
                    Some(a as u64)
                } else {
                    None
                },
                _ => None,
            }
        },
    }
}

/// Writes the `n` low bytes of `v`, least significant first, over `img` from `at` on.
pub(crate) fn overwrite_le(img: &mut Vec<u8>, at: usize, v: u64, n: usize)
    requires
        at + n <= old(img)@.len(),
    ensures
        final(img)@ == overwrite(old(img)@, at as int, le_bytes(v as nat, n as nat)),
{
    let ghost bs = le_bytes(v as nat, n as nat);
    proof {
        lemma_le_bytes_len(v as nat, n as nat);
    }
    let len = img.len();
    let mut cur: u64 = v;
    let mut k: usize = 0;
    while k < n
        invariant
            k <= n,
            at + n <= img@.len(),
            img@.len() == len,
            img@.len() == old(img)@.len(),
            bs.len() == n,
            bs == le_bytes(v as nat, n as nat),
            le_bytes(cur as nat, (n - k) as nat) == bs.skip(k as int),
            forall|j: int| 0 <= j < img@.len() && !(at <= j < at + k) ==> img@[j] == old(img)@[j],
            forall|j: int| 0 <= j < k ==> img@[at + j] == bs[j],
        decreases n - k,
    {
        proof {
            let m = (n - k) as nat;
            assert(le_bytes(cur as nat, m) == seq![(cur % 256) as u8].add(
                le_bytes((cur / 256) as nat, (m - 1) as nat),
            ));
            assert(bs.skip(k as int)[0] == bs[k as int]);
            assert(bs.skip(k + 1) =~= bs.skip(k as int).skip(1));
        }
        img.set(at + k, (cur % 256) as u8);
        cur = cur / 256;
        k = k + 1;
    }
    assert(img@ =~= overwrite(old(img)@, at as int, bs));
}

} // verus!
