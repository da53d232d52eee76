//! Registers of the executable bytecode and of the translation-time IR.

use vstd::prelude::*;

verus! {

/// A register of the executable bytecode: an index into the register window
/// of the current stack frame.
#[derive(Debug, Copy, Clone, PartialEq, Eq, Structural)]
pub struct ExecRegister(pub u16);

impl ExecRegister {
    /// Creates an [`ExecRegister`] from its raw index.
    pub fn from_inner(index: u16) -> (r: Self)
        ensures
            r.0 == index,
    {
        Self(index)
    }

    /// Returns the raw index of the [`ExecRegister`].
    pub fn into_inner(self) -> (r: u16)
        ensures
            r == self.0,
    {
        self.0
    }
}

/// A contiguous span of executable registers: `first, first + 1, ..., first + len - 1`.
#[derive(Debug, Copy, Clone, PartialEq, Eq, Structural)]
pub struct ExecRegisterSlice {
    pub first: ExecRegister,
    pub len: u16,
}

impl ExecRegisterSlice {
    /// The register index at position `k` of the slice.
    pub open spec fn nth(self, k: int) -> int {
        self.first.0 + k
    }

    /// Creates a new [`ExecRegisterSlice`] starting at `first` with `len` registers.
    pub fn new(first: ExecRegister, len: u16) -> (r: Self)
        ensures
            r.first == first,
            r.len == len,
    {
        Self { first, len }
    }

    /// Creates an empty [`ExecRegisterSlice`].
    pub fn empty() -> (r: Self)
        ensures
            r.first.0 == 0,
            r.len == 0,
    {
        Self { first: ExecRegister(0), len: 0 }
    }

    /// The registers holding the first `len` parameters of a function frame.
    pub fn params(len: u16) -> (r: Self)
        ensures
            r.first.0 == 0,
            r.len == len,
    {
        Self { first: ExecRegister(0), len }
    }

    /// Returns the number of registers in the slice.
    pub fn len(&self) -> (r: u16)
        ensures
            r == self.len,
    {
        self.len
    }
}

/// A register of the translation-time IR.
///
/// Locals occupy the lowest registers of a frame; dynamic registers are
/// bump-allocated above them. The mapping to executable registers is made by
/// the compile context.
#[derive(Debug, Copy, Clone, PartialEq, Eq, Structural)]
pub enum IrRegister {
    /// The register of the local variable with the given index.
    Local(usize),
    /// The dynamic register with the given index.
    Dynamic(usize),
}

impl IrRegister {
    /// The index of the register within its kind.
    pub open spec fn index(self) -> usize {
        match self {
            IrRegister::Local(i) => i,
            IrRegister::Dynamic(i) => i,
        }
    }

    /// The register of the same kind `k` positions further.
    pub open spec fn offset(self, k: int) -> IrRegister {
        match self {
            IrRegister::Local(i) => IrRegister::Local((i + k) as usize),
            IrRegister::Dynamic(i) => IrRegister::Dynamic((i + k) as usize),
        }
    }

    /// Returns the register of the same kind `k` positions further.
    pub fn offset_by(self, k: usize) -> (r: IrRegister)
        requires
            self.index() + k <= usize::MAX,
        ensures
            r == self.offset(k as int),
    {
        match self {
            IrRegister::Local(i) => IrRegister::Local(i + k),
            IrRegister::Dynamic(i) => IrRegister::Dynamic(i + k),
        }
    }

    /// Returns `true` if both registers are the same.
    pub fn same_as(&self, other: &IrRegister) -> (r: bool)
        ensures
            r == (*self == *other),
    {
        match (*self, *other) {
            (IrRegister::Local(a), IrRegister::Local(b)) => a == b,
            (IrRegister::Dynamic(a), IrRegister::Dynamic(b)) => a == b,
            _ => false,
        }
    }
}

/// A contiguous span of IR registers of one kind.
#[derive(Debug, Copy, Clone, PartialEq, Eq, Structural)]
pub struct IrRegisterSlice {
    pub start: IrRegister,
    pub len: u16,
}

impl IrRegisterSlice {
    /// The slice does not run past the largest register index.
    pub open spec fn wf(self) -> bool {
        self.start.index() + self.len <= usize::MAX
    }

    /// The register at position `k` of the slice.
    pub open spec fn nth(self, k: int) -> IrRegister {
        self.start.offset(k)
    }

    /// The registers of the slice in order.
    pub open spec fn view(self) -> Seq<IrRegister> {
        Seq::new(self.len as nat, |k: int| self.nth(k))
    }

    /// Creates a new [`IrRegisterSlice`] starting at `start` with `len` registers.
    pub fn new(start: IrRegister, len: u16) -> (r: Self)
        ensures
            r.start == start,
            r.len == len,
    {
        Self { start, len }
    }

    /// The empty slice.
    pub open spec fn empty_spec() -> Self {
        IrRegisterSlice { start: IrRegister::Dynamic(0), len: 0 }
    }

    /// Creates an empty [`IrRegisterSlice`].
    pub fn empty() -> (r: Self)
        ensures
            r == Self::empty_spec(),
    {
        Self { start: IrRegister::Dynamic(0), len: 0 }
    }

    /// Returns the number of registers in the slice.
    pub fn len(&self) -> (r: u16)
        ensures
            r == self.len,
    {
        self.len
    }

    /// Returns the first register of the slice, if it is not empty.
    pub fn first(&self) -> (r: Option<IrRegister>)
        ensures
            self.len == 0 ==> r.is_none(),
            self.len > 0 ==> r == Some(self.start),
    {
        if self.len == 0 {
            None
        } else {
            Some(self.start)
        }
    }

    /// Returns the register at position `k`.
    pub fn get(&self, k: usize) -> (r: IrRegister)
        requires
            self.wf(),
            k < self.len,
        ensures
            r == self.nth(k as int),
    {
        self.start.offset_by(k)
    }

    /// Returns the sub-slice of the positions `start..end`, if they lie within the slice.
    pub fn sub_slice(&self, start: usize, end: usize) -> (r: Option<IrRegisterSlice>)
        requires
            self.wf(),
        ensures
            r.is_some() <==> start <= end <= self.len,
            r matches Some(s) ==> s.start == self.nth(start as int) && s.len == end - start,
    {
        if start <= end && end <= self.len as usize {
            Some(IrRegisterSlice { start: self.start.offset_by(start), len: (end - start) as u16 })
        } else {
            None
        }
    }
}

} // verus!
