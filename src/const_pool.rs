//! The constant pool: an append-only, deduplicating table of 64-bit untyped values.

use vstd::prelude::*;
use crate::error::TranslationError;

verus! {

/// The largest number of constants that the pool holds, so that every
/// [`ConstRef`] can be encoded in a provider.
pub const MAX_CONSTS: usize = 0x7FFF_FFFE;

/// A reference to a constant value in the [`ConstPool`].
#[derive(Debug, Copy, Clone, PartialEq, Eq, Structural)]
pub struct ConstRef(pub u32);

impl ConstRef {
    /// Returns the index of the constant.
    pub fn into_inner(self) -> (r: u32)
        ensures
            r == self.0,
    {
        self.0
    }

    /// Creates a [`ConstRef`] from an index.
    pub fn from_usize(index: usize) -> (r: Self)
        requires
            index <= u32::MAX,
        ensures
            r.0 == index,
    {
        Self(index as u32)
    }
}

/// An append-only table of untyped 64-bit values (stored as their bits).
///
/// Equal values share one entry, so a value keeps its reference for the
/// lifetime of the pool.
#[derive(Debug)]
pub struct ConstPool {
    values: Vec<u64>,
}

impl ConstPool {
    /// The values in the pool, by reference index.
    pub closed spec fn view(&self) -> Seq<u64> {
        self.values@
    }

    /// The pool holds each value once and no more than [`MAX_CONSTS`] values.
    pub open spec fn wf(&self) -> bool {
        &&& self@.len() <= MAX_CONSTS
        &&& forall|i: int, j: int| 0 <= i < j < self@.len() ==> self@[i] != self@[j]
    }

    /// Creates an empty pool.
    pub fn new() -> (r: Self)
        ensures
            r@ == Seq::<u64>::empty(),
            r.wf(),
    {
        ConstPool { values: Vec::new() }
    }

    /// Returns the reference of `value`, adding it to the pool if it is new.
    pub fn alloc_const(&mut self, value: u64) -> (r: Result<ConstRef, TranslationError>)
        requires
            old(self).wf(),
        ensures
            final(self).wf(),
            (exists|i: int| 0 <= i < old(self)@.len() && old(self)@[i] == value) ==> {
                &&& r matches Ok(c) && c.0 < old(self)@.len() && old(self)@[c.0 as int] == value
                &&& final(self)@ == old(self)@
            },
            (forall|i: int| 0 <= i < old(self)@.len() ==> old(self)@[i] != value) ==> {
                if old(self)@.len() < MAX_CONSTS {
                    &&& r == Ok::<ConstRef, TranslationError>(ConstRef(old(self)@.len() as u32))
                    &&& final(self)@ == old(self)@.push(value)
                } else {
                    &&& r == Err::<ConstRef, TranslationError>(TranslationError::ConstPoolOverflow)
                    &&& final(self)@ == old(self)@
                }
            },
    {
        let mut i: usize = 0;
        while i < self.values.len()
            invariant
                i <= self.values@.len(),
                old(self).wf(),
                self.values@ == old(self).values@,
                forall|j: int| 0 <= j < i ==> self.values@[j] != value,
            decreases self.values@.len() - i,
        {
            if self.values[i] == value {
                return Ok(ConstRef(i as u32));
            }
            i += 1;
        }
        if self.values.len() >= MAX_CONSTS {
            return Err(TranslationError::ConstPoolOverflow);
        }
        let index = self.values.len() as u32;
        self.values.push(value);
        Ok(ConstRef(index))
    }

    /// Returns the value of `cref`, if it refers to an entry of the pool.
    pub fn resolve(&self, cref: ConstRef) -> (r: Option<u64>)
        ensures
            cref.0 < self@.len() ==> r == Some(self@[cref.0 as int]),
            cref.0 >= self@.len() ==> r.is_none(),
    {
        if (cref.0 as usize) < self.values.len() {
            Some(self.values[cref.0 as usize])
        } else {
            None
        }
    }

    /// Returns the number of values in the pool.
    pub fn len(&self) -> (r: usize)
        ensures
            r == self@.len(),
    {
        self.values.len()
    }
}

} // verus!
