//! Labels: forward references to instructions, pinned once to their target.

use vstd::prelude::*;
use crate::error::TranslationError;

verus! {

/// A reference to an instruction of the function body under construction.
#[derive(Debug, Copy, Clone, PartialEq, Eq, Structural)]
pub struct Instr(pub u32);

impl Instr {
    /// Returns the inner `u32` value.
    pub fn into_inner(self) -> (r: u32)
        ensures
            r == self.0,
    {
        self.0
    }

    /// Creates an [`Instr`] from a raw `u32` value.
    pub fn from_inner(index: u32) -> (r: Self)
        ensures
            r.0 == index,
    {
        Self(index)
    }

    /// Creates an [`Instr`] from an index; `u32::MAX` stands for no instruction.
    pub fn from_usize(index: usize) -> (r: Self)
        requires
            index < u32::MAX,
        ensures
            r.0 == index,
    {
        Self(index as u32)
    }

    /// Returns the index of the instruction.
    pub fn into_usize(self) -> (r: usize)
        ensures
            r == self.0,
    {
        self.0 as usize
    }
}

/// A reference to a label of the [`LabelRegistry`].
#[derive(Debug, Copy, Clone, PartialEq, Eq, Structural)]
pub struct LabelRef(pub u32);

/// The state of a label.
#[derive(Debug, Copy, Clone, PartialEq, Eq, Structural)]
pub enum Label {
    /// The label is pinned to the instruction.
    Pinned(Instr),
    /// The label is not pinned yet: uses of it are forward references.
    Unpinned,
}

/// What pinning `label` to `instr` makes of the labels `before`, and its result.
pub open spec fn pin_post(
    before: Seq<Label>,
    after: Seq<Label>,
    label: LabelRef,
    instr: Instr,
    r: Result<(), TranslationError>,
) -> bool {
    if before[label.0 as int] is Pinned {
        &&& r == Err::<(), TranslationError>(TranslationError::LabelAlreadyPinned)
        &&& after == before
    } else {
        &&& r == Ok::<(), TranslationError>(())
        &&& after == before.update(label.0 as int, Label::Pinned(instr))
    }
}

/// What pinning `label` to `instr` if it is unpinned makes of the labels `before`.
pub open spec fn try_pin_post(before: Seq<Label>, after: Seq<Label>, label: LabelRef, instr: Instr) -> bool {
    if before[label.0 as int] is Pinned {
        after == before
    } else {
        after == before.update(label.0 as int, Label::Pinned(instr))
    }
}

/// The registry of all labels of a function body.
#[derive(Debug)]
pub struct LabelRegistry {
    labels: Vec<Label>,
}

impl LabelRegistry {
    /// The state of each label, by label index.
    pub closed spec fn view(&self) -> Seq<Label> {
        self.labels@
    }

    /// The label belongs to this registry.
    pub open spec fn contains(&self, label: LabelRef) -> bool {
        label.0 < self@.len()
    }

    /// The label is pinned to `instr`.
    pub open spec fn pinned_to(&self, label: LabelRef, instr: Instr) -> bool {
        self.contains(label) && self@[label.0 as int] == Label::Pinned(instr)
    }

    /// Creates an empty registry.
    pub fn new() -> (r: Self)
        ensures
            r@ == Seq::<Label>::empty(),
    {
        LabelRegistry { labels: Vec::new() }
    }

    /// Returns the number of labels.
    pub fn len(&self) -> (r: usize)
        ensures
            r == self@.len(),
    {
        self.labels.len()
    }

    /// Creates a new unpinned label and returns a reference to it.
    pub fn new_label(&mut self) -> (r: LabelRef)
        requires
            old(self)@.len() < u32::MAX,
        ensures
            r.0 == old(self)@.len(),
            final(self)@ == old(self)@.push(Label::Unpinned),
    {
        let index = self.labels.len() as u32;
        self.labels.push(Label::Unpinned);
        LabelRef(index)
    }

    /// Pins `label` to `instr`; fails if it is pinned already.
    pub fn pin_label(&mut self, label: LabelRef, instr: Instr) -> (r: Result<(), TranslationError>)
        requires
            old(self).contains(label),
        ensures
            pin_post(old(self)@, final(self)@, label, instr, r),
    {
        let index = label.0 as usize;
        match self.labels[index] {
            Label::Pinned(_) => Err(TranslationError::LabelAlreadyPinned),
            Label::Unpinned => {
                self.labels.set(index, Label::Pinned(instr));
                Ok(())
            },
        }
    }

    /// Pins `label` to `instr` unless it is pinned already.
    pub fn try_pin_label(&mut self, label: LabelRef, instr: Instr)
        requires
            old(self).contains(label),
        ensures
            try_pin_post(old(self)@, final(self)@, label, instr),
    {
        let index = label.0 as usize;
        if let Label::Unpinned = self.labels[index] {
            self.labels.set(index, Label::Pinned(instr));
        }
    }

    /// Returns the instruction that `label` is pinned to.
    pub fn resolve_label(&self, label: LabelRef) -> (r: Result<Instr, TranslationError>)
        ensures
            r matches Ok(i) ==> self.pinned_to(label, i),
            r is Err <==> !self.contains(label) || self@[label.0 as int] is Unpinned,
            r matches Err(e) ==> (!self.contains(label) ==> e == TranslationError::InvalidReference)
                && (self.contains(label) ==> e == TranslationError::UnpinnedLabel),
    {
        let index = label.0 as usize;
        if index >= self.labels.len() {
            return Err(TranslationError::InvalidReference);
        }
        match self.labels[index] {
            Label::Pinned(instr) => Ok(instr),
            Label::Unpinned => Err(TranslationError::UnpinnedLabel),
        }
    }
}

/// Pinning a label a second time fails and leaves the labels as they were.
pub proof fn lemma_pin_twice_fails(
    l0: Seq<Label>,
    l1: Seq<Label>,
    l2: Seq<Label>,
    label: LabelRef,
    first: Instr,
    second: Instr,
    r2: Result<(), TranslationError>,
)
    requires
        label.0 < l0.len(),
        pin_post(l0, l1, label, first, Ok(())),
        pin_post(l1, l2, label, second, r2),
    ensures
        r2 == Err::<(), TranslationError>(TranslationError::LabelAlreadyPinned),
        l2 == l1,
        l1[label.0 as int] == Label::Pinned(first),
{
}

/// Pinning a label with `try_pin_label` a second time changes nothing.
pub proof fn lemma_try_pin_idempotent(
    l0: Seq<Label>,
    l1: Seq<Label>,
    l2: Seq<Label>,
    label: LabelRef,
    first: Instr,
    second: Instr,
)
    requires
        label.0 < l0.len(),
        try_pin_post(l0, l1, label, first),
        try_pin_post(l1, l2, label, second),
    ensures
        l2 == l1,
        l1[label.0 as int] is Pinned,
{
}

} // verus!
