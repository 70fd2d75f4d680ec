//! The byte sink and the label / relocation machinery shared by both instruction sets.
use vstd::prelude::*;
use crate::bytes::{le_bytes, lemma_le_bytes_zero, zeros};

verus! {

/// A position in an assembler's buffer: the number of bytes emitted before it.
#[derive(Clone, Copy, Debug, PartialEq, Eq, Structural)]
pub struct AsmOffset(pub usize);

/// The width of a relocated slot.
#[derive(Clone, Copy, Debug, PartialEq, Eq, Structural)]
pub enum RelocationSize {
    RelocByte,
    RelocWord,
    RelocLong,
    RelocQuad,
}

/// Whether a slot receives the target's address or its distance from the slot.
#[derive(Clone, Copy, Debug, PartialEq, Eq, Structural)]
pub enum RelocationKind {
    RelocAbsolute,
    RelocRelative,
}

/// A deferred write: the slot at `from` refers to the buffer offset `to`.
#[derive(Clone, Copy, Debug, PartialEq, Eq, Structural)]
pub struct RelocationInfo {
    pub kind: RelocationKind,
    pub size: RelocationSize,
    pub nudge: i64,
    pub from: AsmOffset,
    pub to: AsmOffset,
}

/// A use of a label that was emitted before the label was bound.
#[derive(Clone, Copy, Debug, PartialEq, Eq, Structural)]
pub struct LabelRef {
    pub kind: RelocationKind,
    pub size: RelocationSize,
    pub nudge: i64,
    pub from: AsmOffset,
}

/// A jump or load target. Unbound, it collects the uses emitted so far; bound, it
/// holds its offset and its earlier uses have become relocations of the buffer.
pub struct Label {
    pub offset: Option<AsmOffset>,
    pub refs: Vec<LabelRef>,
}

impl RelocationSize {
    /// The number of bytes of a slot of this size.
    pub open spec fn len(self) -> nat {
        match self {
            RelocationSize::RelocByte => 1,
            RelocationSize::RelocWord => 2,
            RelocationSize::RelocLong => 4,
            RelocationSize::RelocQuad => 8,
        }
    }
}

impl LabelRef {
    /// The relocation that this use becomes once its label is bound at `to`.
    pub open spec fn resolved(self, to: AsmOffset) -> RelocationInfo {
        RelocationInfo { kind: self.kind, size: self.size, nudge: self.nudge, from: self.from, to }
    }
}

impl Label {
    /// The offset at which the label is bound, for a bound label.
    pub open spec fn target(self) -> int {
        match self.offset {
            Some(o) => o.0 as int,
            None => 0,
        }
    }

    pub fn new() -> (r: Label)
        ensures
            r.offset is None,
            r.refs@ == Seq::<LabelRef>::empty(),
    {
        Label { offset: None, refs: Vec::new() }
    }
}

/// An append-only byte buffer that keeps a log of relocations.
pub trait AsmBuffer {
    /// The bytes emitted so far.
    spec fn bytes(&self) -> Seq<u8>;

    /// The relocations recorded so far, in order.
    spec fn relocations(&self) -> Seq<RelocationInfo>;

    fn emitb(&mut self, b: u8)
        ensures
            final(self).bytes() == old(self).bytes().push(b),
            final(self).relocations() == old(self).relocations(),
    ;

    /// Appends `w` little-endian.
    fn emitw(&mut self, w: u16)
        ensures
            final(self).bytes() == old(self).bytes() + le_bytes(w as nat, 2),
            final(self).relocations() == old(self).relocations(),
    ;

    /// Appends `l` little-endian.
    fn emitl(&mut self, l: u32)
        ensures
            final(self).bytes() == old(self).bytes() + le_bytes(l as nat, 4),
            final(self).relocations() == old(self).relocations(),
    ;

    /// Appends `q` little-endian.
    fn emitq(&mut self, q: u64)
        ensures
            final(self).bytes() == old(self).bytes() + le_bytes(q as nat, 8),
            final(self).relocations() == old(self).relocations(),
    ;

    /// The number of bytes emitted so far.
    fn offset(&self) -> (r: AsmOffset)
        ensures
            r.0 == self.bytes().len(),
    ;

    fn relocate(&mut self, info: &RelocationInfo)
        ensures
            final(self).bytes() == old(self).bytes(),
            final(self).relocations() == old(self).relocations().push(*info),
    ;
}

/// After `before` emitted `head` followed by a zero slot of `size` bytes that refers to `l`
/// (see `AsmHelper::emit_use`), the buffer is `after` and the label is `l_after`.
pub open spec fn used_label<A: AsmBuffer + ?Sized>(
    before: &A,
    after: &A,
    l: Label,
    l_after: Label,
    head: Seq<u8>,
    kind: RelocationKind,
    size: RelocationSize,
    nudge: i64,
) -> bool {
    let from = AsmOffset((before.bytes().len() + head.len()) as usize);
    &&& after.bytes() =~= before.bytes() + head + zeros(size.len())
    &&& match l.offset {
        Some(to) => {
            &&& l_after == l
            &&& after.relocations() == before.relocations().push(
                RelocationInfo { kind, size, nudge, from, to },
            )
        },
        None => {
            &&& l_after.offset is None
            &&& l_after.refs@ == l.refs@.push(LabelRef { kind, size, nudge, from })
            &&& after.relocations() == before.relocations()
        },
    }
}

/// `l` was bound at the end of `before`'s bytes, becoming `l_after`, and its pending uses
/// were appended, in order, to the relocations.
pub open spec fn bound_here<A: AsmBuffer + ?Sized>(
    before: &A,
    after: &A,
    l: Label,
    l_after: Label,
) -> bool {
    &&& l_after.offset matches Some(o) && o.0 == before.bytes().len()
    &&& l_after.refs@ == Seq::<LabelRef>::empty()
    &&& after.bytes() == before.bytes()
    &&& after.relocations() == before.relocations() + l.refs@.map_values(
        |r: LabelRef| r.resolved(l_after.offset->0),
    )
}

/// Labels on top of a byte sink: recording uses and binding.
pub trait AsmHelper: AsmBuffer {
    /// Binds `l` at the current offset; each use recorded so far becomes a relocation.
    fn bind(&mut self, l: &mut Label)
        requires
            old(l).offset is None,
        ensures
            bound_here(old(self), final(self), *old(l), *final(l)),
    {
        let at = self.offset();
        let mut i: usize = 0;
        while i < l.refs.len()
            invariant
                i <= l.refs@.len(),
                at.0 == self.bytes().len(),
                *l == *old(l),
                self.bytes() == old(self).bytes(),
                self.relocations() == old(self).relocations() + l.refs@.take(i as int).map_values(
                    |r: LabelRef| r.resolved(at),
                ),
            decreases l.refs@.len() - i,
        {
            let r = l.refs[i];
            let info = RelocationInfo {
                kind: r.kind,
                size: r.size,
                nudge: r.nudge,
                from: r.from,
                to: at,
            };
            self.relocate(&info);
            proof {
                assert(l.refs@.take(i + 1) =~= l.refs@.take(i as int).push(r));
                assert(l.refs@.take(i + 1).map_values(|r: LabelRef| r.resolved(at))
                    =~= l.refs@.take(i as int).map_values(|r: LabelRef| r.resolved(at)).push(
                    r.resolved(at),
                ));
            }
            i = i + 1;
        }
        assert(l.refs@.take(i as int) =~= l.refs@);
        l.offset = Some(at);
        l.refs = Vec::new();
    }

    /// Emits a zero slot of `size` bytes that refers to `l`: a relocation of the buffer
    /// when `l` is bound, otherwise a pending use of `l`.
    fn emit_use(&mut self, l: &mut Label, kind: RelocationKind, size: RelocationSize, nudge: i64)
        ensures
            used_label(old(self), final(self), *old(l), *final(l), Seq::empty(), kind, size, nudge),
    {
        let from = self.offset();
        match l.offset {
            Some(to) => {
                let info = RelocationInfo { kind, size, nudge, from, to };
                self.relocate(&info);
            },
            None => {
                l.refs.push(LabelRef { kind, size, nudge, from });
            },
        }
        proof {
            lemma_le_bytes_zero(size.len());
        }
        match size {
            RelocationSize::RelocByte => self.emitb(0),
            RelocationSize::RelocWord => self.emitw(0),
            RelocationSize::RelocLong => self.emitl(0),
            RelocationSize::RelocQuad => self.emitq(0),
        }
        proof {
            if size == RelocationSize::RelocByte {
                assert(zeros(1) =~= seq![0u8]);
            }
        }
    }
}

} // verus!
