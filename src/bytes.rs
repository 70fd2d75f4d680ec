//! Little-endian byte sequences, as the encoder and the linker write them.
use vstd::prelude::*;

verus! {

/// The `n` low bytes of `v`, least significant first.
pub open spec fn le_bytes(v: nat, n: nat) -> Seq<u8>
    decreases n,
{
    if n == 0 {
        Seq::empty()
    } else {
        seq![(v % 256) as u8].add(le_bytes(v / 256, (n - 1) as nat))
    }
}

/// `n` zero bytes: the placeholder of a slot that is patched later.
pub open spec fn zeros(n: nat) -> Seq<u8> {
    Seq::new(n, |i: int| 0u8)
}

pub proof fn lemma_le_bytes_len(v: nat, n: nat)
    ensures
        le_bytes(v, n).len() == n,
    decreases n,
{
    if n > 0 {
        lemma_le_bytes_len(v / 256, (n - 1) as nat);
    }
}

/// Zero is written as zero bytes.
pub proof fn lemma_le_bytes_zero(n: nat)
    ensures
        le_bytes(0, n) == zeros(n),
    decreases n,
{
    if n > 0 {
        lemma_le_bytes_zero((n - 1) as nat);
        assert(le_bytes(0, n) =~= zeros(n));
    }
}

/// A byte is written as itself.
pub proof fn lemma_le_bytes_byte(b: u8)
    ensures
        le_bytes(b as nat, 1) == seq![b],
{
    assert(le_bytes((b as nat) / 256, 0) =~= Seq::<u8>::empty());
    assert(le_bytes(b as nat, 1) =~= seq![b]);
}

} // verus!
