//! Providers: instruction operands that are either a register or a constant,
//! and the arenas that hold sequences of them.

use vstd::prelude::*;
use crate::const_pool::ConstRef;
use crate::error::TranslationError;
use crate::registers::{ExecRegister, IrRegister};

verus! {

/// Either an [`ExecRegister`] or a [`ConstRef`], decoded.
#[derive(Debug, Copy, Clone, PartialEq, Eq, Structural)]
pub enum RegisterOrImmediate {
    Register(ExecRegister),
    Immediate(ConstRef),
}

/// Either an [`ExecRegister`] or a [`ConstRef`] input value, in one `i32`.
///
/// Non-negative numbers are register indices; a negative number `n` refers to
/// the constant with index `-n - 1`.
#[derive(Debug, Copy, Clone, PartialEq, Eq, PartialOrd, Ord)]
pub struct ExecProvider(i32);

impl ExecProvider {
    #[verifier::type_invariant]
    spec fn inv(self) -> bool {
        i32::MIN < self.0 <= u16::MAX
    }

    /// The raw encoding.
    pub closed spec fn raw(self) -> i32 {
        self.0
    }

    /// The raw encoding is a register index or the encoding of a constant index.
    pub open spec fn wf(self) -> bool {
        i32::MIN < self.raw() <= u16::MAX
    }

    /// Two well-formed providers that refer to the same thing are equal.
    pub proof fn lemma_view_injective(a: Self, b: Self)
        requires
            a.wf(),
            b.wf(),
            a@ == b@,
        ensures
            a == b,
    {
        if a.raw() < 0 {
            assert(b.raw() < 0);
        } else {
            assert(b.raw() >= 0);
        }
    }

    /// What the provider refers to.
    pub open spec fn view(self) -> RegisterOrImmediate {
        if self.raw() < 0 {
            RegisterOrImmediate::Immediate(ConstRef((-self.raw() - 1) as u32))
        } else {
            RegisterOrImmediate::Register(ExecRegister(self.raw() as u16))
        }
    }

    /// Creates a provider that refers to `register`.
    pub fn from_register(register: ExecRegister) -> (r: Self)
        ensures
            r@ == RegisterOrImmediate::Register(register),
            r.wf(),
    {
        ExecProvider(register.0 as i32)
    }

    /// Creates a provider that refers to the constant `immediate`.
    pub fn from_immediate(immediate: ConstRef) -> (r: Self)
        requires
            immediate.0 < i32::MAX,
        ensures
            r@ == RegisterOrImmediate::Immediate(immediate),
            r.wf(),
    {
        let index = immediate.into_inner() as i32;
        ExecProvider(-(index + 1))
    }

    /// Decodes the provider into a register or a constant reference.
    pub fn decode(self) -> (r: RegisterOrImmediate)
        ensures
            r == self@,
    {
        proof {
            use_type_invariant(self);
        }
        if self.0 < 0 {
            RegisterOrImmediate::Immediate(ConstRef::from_usize((-(self.0 + 1)) as usize))
        } else {
            RegisterOrImmediate::Register(ExecRegister::from_inner(self.0 as u16))
        }
    }

    /// Returns `true` if both providers are the same.
    pub fn same_as(&self, other: &ExecProvider) -> (r: bool)
        ensures
            r == (*self == *other),
    {
        self.0 == other.0
    }
}

/// A slice of the [`DedupProviderSliceArena`]: `len` providers from `first` on.
#[derive(Debug, Copy, Clone, PartialEq, Eq, Structural)]
pub struct ExecProviderSlice {
    pub first: u16,
    pub len: u16,
}

impl ExecProviderSlice {
    /// Creates a new [`ExecProviderSlice`] with the given properties.
    pub fn new(first: u16, len: u16) -> (r: Self)
        ensures
            r.first == first,
            r.len == len,
    {
        Self { first, len }
    }

    /// Creates a new empty [`ExecProviderSlice`].
    pub fn empty() -> (r: Self)
        ensures
            r.first == 0,
            r.len == 0,
    {
        Self::new(0, 0)
    }

    /// Returns the number of [`ExecProvider`]s in the [`ExecProviderSlice`].
    pub fn len(&self) -> (r: usize)
        ensures
            r == self.len,
    {
        self.len as usize
    }
}

/// A deduplicating arena of provider sequences.
///
/// Equal sequences are stored once and get the same [`ExecProviderSlice`].
#[derive(Debug)]
pub struct DedupProviderSliceArena {
    slices: Vec<ExecProviderSlice>,
    providers: Vec<ExecProvider>,
}

impl DedupProviderSliceArena {
    /// All providers of the arena, in the order they were stored.
    pub closed spec fn providers(&self) -> Seq<ExecProvider> {
        self.providers@
    }

    /// The slices handed out so far, in the order they were handed out.
    pub closed spec fn slices(&self) -> Seq<ExecProviderSlice> {
        self.slices@
    }

    /// The slice lies within the stored providers.
    pub open spec fn in_bounds(&self, s: ExecProviderSlice) -> bool {
        s.first + s.len <= self.providers().len()
    }

    /// The providers that `s` refers to.
    pub open spec fn contents(&self, s: ExecProviderSlice) -> Seq<ExecProvider> {
        self.providers().subrange(s.first as int, s.first + s.len)
    }

    /// Each slice handed out lies within the arena, and no two of them hold the same sequence.
    pub open spec fn wf(&self) -> bool {
        &&& forall|i: int| 0 <= i < self.slices().len() ==> self.in_bounds(#[trigger] self.slices()[i])
        &&& forall|i: int, j: int|
            0 <= i < self.slices().len() && 0 <= j < self.slices().len() && i != j
                ==> self.contents(#[trigger] self.slices()[i]) != self.contents(#[trigger] self.slices()[j])
    }

    /// A slice of the arena holds the sequence `xs`.
    pub open spec fn holds(&self, xs: Seq<ExecProvider>) -> bool {
        exists|i: int| 0 <= i < self.slices().len() && self.contents(#[trigger] self.slices()[i]) == xs
    }

    /// Creates an empty arena.
    pub fn new() -> (r: Self)
        ensures
            r.wf(),
            r.providers().len() == 0,
            r.slices().len() == 0,
    {
        DedupProviderSliceArena { slices: Vec::new(), providers: Vec::new() }
    }

    fn slice_equals(&self, s: ExecProviderSlice, xs: &[ExecProvider]) -> (r: bool)
        requires
            self.in_bounds(s),
        ensures
            r == (self.contents(s) == xs@),
    {
        if s.len as usize != xs.len() {
            return false;
        }
        let first = s.first as usize;
        let mut k: usize = 0;
        while k < xs.len()
            invariant
                k <= xs@.len(),
                xs@.len() == s.len,
                first == s.first,
                self.in_bounds(s),
                forall|j: int| 0 <= j < k ==> self.providers()[first + j] == xs@[j],
            decreases xs@.len() - k,
        {
            if !self.providers[first + k].same_as(&xs[k]) {
                assert(self.contents(s)[k as int] != xs@[k as int]);
                return false;
            }
            k += 1;
        }
        assert(self.contents(s) =~= xs@);
        true
    }

    /// Returns the position of the slice that holds `xs`, if any.
    fn find(&self, xs: &[ExecProvider]) -> (r: Option<usize>)
        requires
            self.wf(),
        ensures
            r matches Some(i) ==> i < self.slices().len() && self.contents(self.slices()[i as int]) == xs@,
            r.is_none() ==> !self.holds(xs@),
    {
        let mut i: usize = 0;
        while i < self.slices.len()
            invariant
                self.wf(),
                i <= self.slices().len(),
                forall|j: int| 0 <= j < i ==> self.contents(#[trigger] self.slices()[j]) != xs@,
            decreases self.slices().len() - i,
        {
            if self.slice_equals(self.slices[i], xs) {
                return Some(i);
            }
            i += 1;
        }
        None
    }

    /// What [`Self::alloc_slice`] does: it returns the slice that already holds `xs`;
    /// otherwise it appends `xs` as a new slice, unless the new slice's start or
    /// length does not fit in 16 bits, in which case it fails and changes nothing.
    pub open spec fn alloc_post(
        before: DedupProviderSliceArena,
        after: DedupProviderSliceArena,
        xs: Seq<ExecProvider>,
        r: Result<ExecProviderSlice, TranslationError>,
    ) -> bool {
        if before.holds(xs) {
            &&& r matches Ok(s) && before.slices().contains(s) && before.contents(s) == xs
            &&& after == before
        } else if before.providers().len() > u16::MAX || xs.len() > u16::MAX {
            &&& r == Err::<ExecProviderSlice, TranslationError>(TranslationError::ProviderSliceOverflow)
            &&& after == before
        } else {
            let s = ExecProviderSlice { first: before.providers().len() as u16, len: xs.len() as u16 };
            &&& r == Ok::<ExecProviderSlice, TranslationError>(s)
            &&& after.providers() == before.providers() + xs
            &&& after.slices() == before.slices().push(s)
        }
    }

    /// Returns the slice that holds `providers`, storing them first if no slice holds them yet.
    ///
    /// Fails when the start or the length of a new slice does not fit the 16-bit encoding.
    pub fn alloc_slice(&mut self, providers: &[ExecProvider]) -> (r: Result<ExecProviderSlice, TranslationError>)
        requires
            old(self).wf(),
        ensures
            final(self).wf(),
            Self::alloc_post(*old(self), *final(self), providers@, r),
    {
        match self.find(providers) {
            Some(i) => {
                let s = self.slices[i];
                assert(self.slices()[i as int] == s);
                assert(self.holds(providers@));
                Ok(s)
            },
            None => {
                if self.providers.len() > u16::MAX as usize || providers.len() > u16::MAX as usize {
                    return Err(TranslationError::ProviderSliceOverflow);
                }
                let s = ExecProviderSlice { first: self.providers.len() as u16, len: providers.len() as u16 };
                let ghost old_arena = *self;
                let mut k: usize = 0;
                while k < providers.len()
                    invariant
                        k <= providers@.len(),
                        self.slices@ == old_arena.slices@,
                        self.providers@ == old_arena.providers@ + providers@.subrange(0, k as int),
                    decreases providers@.len() - k,
                {
                    self.providers.push(providers[k]);
                    assert(providers@.subrange(0, k + 1) =~= providers@.subrange(0, k as int).push(providers@[k as int]));
                    k += 1;
                }
                assert(providers@.subrange(0, providers@.len() as int) =~= providers@);
                assert forall|i: int| 0 <= i < old_arena.slices().len() implies
                    self.contents(#[trigger] old_arena.slices()[i]) == old_arena.contents(old_arena.slices()[i]) by {
                    let t = old_arena.slices()[i];
                    assert(old_arena.in_bounds(t));
                    assert(self.contents(t) =~= old_arena.contents(t));
                }
                assert(self.contents(s) =~= providers@);
                self.slices.push(s);
                assert(self.providers() == old_arena.providers() + providers@);
                assert forall|i: int| 0 <= i < self.slices().len() implies self.in_bounds(#[trigger] self.slices()[i]) by {
                    if i < old_arena.slices().len() {
                        assert(old_arena.in_bounds(old_arena.slices()[i]));
                    }
                }
                assert forall|i: int, j: int|
                    0 <= i < self.slices().len() && 0 <= j < self.slices().len() && i != j
                    implies self.contents(#[trigger] self.slices()[i]) != self.contents(#[trigger] self.slices()[j]) by {
                    if i < old_arena.slices().len() && j < old_arena.slices().len() {
                        assert(self.slices()[i] == old_arena.slices()[i]);
                        assert(self.slices()[j] == old_arena.slices()[j]);
                    } else if i < old_arena.slices().len() {
                        assert(self.slices()[i] == old_arena.slices()[i]);
                        assert(self.slices()[j] == s);
                    } else {
                        assert(self.slices()[j] == old_arena.slices()[j]);
                        assert(self.slices()[i] == s);
                    }
                }
                Ok(s)
            },
        }
    }

    /// Returns the providers that `slice` refers to.
    pub fn resolve(&self, slice: ExecProviderSlice) -> (r: &[ExecProvider])
        requires
            self.in_bounds(slice),
        ensures
            r@ == self.contents(slice),
    {
        let total = self.providers.len();
        let first = slice.first as usize;
        let len = slice.len as usize;
        assert(first + len <= total);
        &self.providers.as_slice()[first..first + len]
    }
}

/// A slice handed out by the arena keeps its contents while the arena grows.
proof fn lemma_alloc_keeps_contents(
    before: DedupProviderSliceArena,
    after: DedupProviderSliceArena,
    xs: Seq<ExecProvider>,
    r: Result<ExecProviderSlice, TranslationError>,
    t: ExecProviderSlice,
)
    requires
        before.wf(),
        DedupProviderSliceArena::alloc_post(before, after, xs, r),
        before.slices().contains(t),
    ensures
        after.slices().contains(t),
        after.contents(t) == before.contents(t),
{
    let i = choose|i: int| 0 <= i < before.slices().len() && before.slices()[i] == t;
    assert(before.in_bounds(before.slices()[i]));
    if !before.holds(xs) && before.providers().len() <= u16::MAX && xs.len() <= u16::MAX {
        assert(after.slices()[i] == t);
        assert(after.contents(t) =~= before.contents(t));
    }
}

/// Interning law: two allocations in a row return the same slice exactly
/// when the two sequences are equal.
pub proof fn lemma_alloc_interning(
    a0: DedupProviderSliceArena,
    a1: DedupProviderSliceArena,
    a2: DedupProviderSliceArena,
    xs: Seq<ExecProvider>,
    ys: Seq<ExecProvider>,
    s1: ExecProviderSlice,
    s2: ExecProviderSlice,
)
    requires
        a0.wf(),
        a1.wf(),
        DedupProviderSliceArena::alloc_post(a0, a1, xs, Ok(s1)),
        DedupProviderSliceArena::alloc_post(a1, a2, ys, Ok(s2)),
    ensures
        (s1 == s2) <==> (xs == ys),
{
    // After the first allocation, `s1` is a slice of `a1` that holds `xs`.
    if a0.holds(xs) {
        assert(a1.slices().contains(s1) && a1.contents(s1) == xs);
    } else {
        assert(a1.slices().last() == s1);
        assert(a1.slices().contains(s1));
        assert(a1.contents(s1) =~= xs);
    }
    // After the second, `s2` is a slice of `a2` that holds `ys`.
    lemma_alloc_keeps_contents(a1, a2, ys, Ok(s2), s1);
    if a1.holds(ys) {
        assert(a2.contents(s2) == ys);
    } else {
        assert(a2.contents(s2) =~= ys);
    }
    if xs == ys {
        assert(a1.holds(ys));
        let i = choose|i: int| 0 <= i < a1.slices().len() && a1.slices()[i] == s1;
        let j = choose|j: int| 0 <= j < a1.slices().len() && a1.slices()[j] == s2;
        assert(a1.contents(a1.slices()[i]) == a1.contents(a1.slices()[j]));
    }
}

/// An operand of the translation-time IR: a register or an immediate value.
#[derive(Debug, Copy, Clone, PartialEq, Eq, Structural)]
pub enum IrProvider {
    /// The value of a register.
    Register(IrRegister),
    /// An immediate untyped value, given by its bits.
    Immediate(u64),
}

/// A slice of the [`ProviderSliceArena`]: `len` providers from `first` on.
#[derive(Debug, Copy, Clone, PartialEq, Eq, Structural)]
pub struct IrProviderSlice {
    pub first: u32,
    pub len: u16,
}

impl IrProviderSlice {
    /// Returns the number of providers in the slice.
    pub fn len(&self) -> (r: u16)
        ensures
            r == self.len,
    {
        self.len
    }

    /// Returns the slice without its first `n` providers (empty if it has fewer).
    pub fn skip(self, n: u16) -> (r: Self)
        requires
            self.first + self.len <= u32::MAX,
        ensures
            n <= self.len ==> r.first == self.first + n && r.len == self.len - n,
            n > self.len ==> r.first == self.first + self.len && r.len == 0,
    {
        let n = if n <= self.len { n } else { self.len };
        IrProviderSlice { first: self.first + n as u32, len: self.len - n }
    }

    /// Returns the first `n` providers of the slice (all if it has fewer).
    pub fn take(self, n: u16) -> (r: Self)
        ensures
            r.first == self.first,
            n <= self.len ==> r.len == n,
            n > self.len ==> r.len == self.len,
    {
        let n = if n <= self.len { n } else { self.len };
        IrProviderSlice { first: self.first, len: n }
    }
}

/// The arena of IR provider sequences built during translation.
#[derive(Debug)]
pub struct ProviderSliceArena {
    providers: Vec<IrProvider>,
}

impl ProviderSliceArena {
    /// All providers of the arena, in the order they were stored.
    pub closed spec fn view(&self) -> Seq<IrProvider> {
        self.providers@
    }

    /// The arena holds no more providers than a 32-bit slice start addresses.
    pub open spec fn wf(&self) -> bool {
        self@.len() <= u32::MAX
    }

    /// Returns the number of providers in the arena.
    pub fn len(&self) -> (r: usize)
        ensures
            r == self@.len(),
    {
        self.providers.len()
    }

    /// The slice lies within the stored providers.
    pub open spec fn in_bounds(&self, s: IrProviderSlice) -> bool {
        s.first + s.len <= self@.len()
    }

    /// The providers that `s` refers to.
    pub open spec fn contents(&self, s: IrProviderSlice) -> Seq<IrProvider> {
        self@.subrange(s.first as int, s.first + s.len)
    }

    /// Creates an empty arena.
    pub fn new() -> (r: Self)
        ensures
            r@.len() == 0,
            r.wf(),
    {
        ProviderSliceArena { providers: Vec::new() }
    }

    /// Stores `providers` and returns the slice that refers to them.
    pub fn alloc_slice(&mut self, providers: &[IrProvider]) -> (r: IrProviderSlice)
        requires
            old(self)@.len() + providers@.len() <= u32::MAX,
            providers@.len() <= u16::MAX,
        ensures
            r.first == old(self)@.len(),
            r.len == providers@.len(),
            final(self)@ == old(self)@ + providers@,
            final(self).contents(r) == providers@,
            final(self).wf(),
    {
        let first = self.providers.len() as u32;
        let ghost old_view = self@;
        let mut k: usize = 0;
        while k < providers.len()
            invariant
                k <= providers@.len(),
                self@ == old_view + providers@.subrange(0, k as int),
            decreases providers@.len() - k,
        {
            self.providers.push(providers[k]);
            assert(providers@.subrange(0, k + 1) =~= providers@.subrange(0, k as int).push(providers@[k as int]));
            k += 1;
        }
        assert(providers@.subrange(0, providers@.len() as int) =~= providers@);
        let r = IrProviderSlice { first, len: providers.len() as u16 };
        assert(self.contents(r) =~= providers@);
        r
    }

    /// Returns the providers that `slice` refers to.
    pub fn resolve(&self, slice: IrProviderSlice) -> (r: &[IrProvider])
        requires
            self.in_bounds(slice),
        ensures
            r@ == self.contents(slice),
    {
        let total = self.providers.len();
        let first = slice.first as usize;
        let len = slice.len as usize;
        assert(first + len <= total);
        &self.providers.as_slice()[first..first + len]
    }
}

} // verus!
