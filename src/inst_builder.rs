//! Abstractions to build up instructions forming Wasm function bodies.

use vstd::prelude::*;
use crate::bytecode::{Instruction, IrInstruction};
use crate::compile::{
    compilable, compiles_to, exec_target, ir_target, lemma_branch_lands_on_pinned_label, total_const_demand, total_slice_demand, CompileContext, EngineInner, FuncBody,
    RegisterLayout,
};
use crate::const_pool::MAX_CONSTS;
use crate::error::TranslationError;
use crate::labels::{Instr, Label, LabelRef, LabelRegistry};
use crate::provider::{IrProvider, IrProviderSlice, ProviderSliceArena};
use crate::registers::{IrRegister, IrRegisterSlice};

verus! {

/// The relative depth of a Wasm branching target.
#[derive(Debug, Copy, Clone, PartialEq, Eq, Structural)]
pub struct RelativeDepth(pub u32);

impl RelativeDepth {
    /// Returns the relative depth as `u32`.
    pub fn into_u32(self) -> (r: u32)
        ensures
            r == self.0,
    {
        self.0
    }

    /// Creates a relative depth from the given `u32` value.
    pub fn from_u32(relative_depth: u32) -> (r: Self)
        ensures
            r.0 == relative_depth,
    {
        Self(relative_depth)
    }
}

/// The copy `result <- input` moves a value: the input is not the result register itself.
pub open spec fn is_true_copy(result: IrRegister, input: IrProvider) -> bool {
    input != IrProvider::Register(result)
}

/// The copy at position `k` of `results <- inputs` is a true copy.
pub open spec fn true_copy_at(results: IrRegisterSlice, inputs: Seq<IrProvider>, k: int) -> bool {
    is_true_copy(results.nth(k), inputs[k])
}

/// The result of a `CopyMany` optimization.
#[derive(Debug, Copy, Clone, PartialEq, Eq, Structural)]
pub enum TrueCopies {
    /// There are no true copies.
    Noop,
    /// There is only a single true copy.
    Single {
        /// The single result of the true copy.
        result: IrRegister,
        /// The single input of the true copy.
        input: IrProvider,
    },
    /// There are many true copies.
    ///
    /// This case might also include non-true copies
    /// since `IrRegisterSlice` can only represent
    /// contiguous registers.
    Many {
        /// The results of the copies.
        results: IrRegisterSlice,
        /// The inputs of the copies.
        inputs: IrProviderSlice,
    },
}

impl TrueCopies {
    /// `self` is the analysis of `results <- inputs`, where `many_inputs` are the
    /// providers that the inputs of a [`TrueCopies::Many`] refer to.
    ///
    /// - `None`: no position is a true copy.
    /// - `Single`: exactly one position is, and the pair is that position's.
    /// - `Many`: the span from the first to the last true copy (at least two
    ///   positions apart), with the no-op copies inside it kept.
    pub open spec fn describes(self, results: IrRegisterSlice, inputs: Seq<IrProvider>, many_inputs: Seq<IrProvider>) -> bool {
        let n = inputs.len() as int;
        match self {
            TrueCopies::Noop => forall|k: int| 0 <= k < n ==> !true_copy_at(results, inputs, k),
            TrueCopies::Single { result, input } => exists|k: int| {
                &&& 0 <= k < n
                &&& true_copy_at(results, inputs, k)
                &&& forall|j: int| 0 <= j < n && j != k ==> !true_copy_at(results, inputs, j)
                &&& result == results.nth(k)
                &&& input == inputs[k]
            },
            TrueCopies::Many { results: rs, inputs: _ } => exists|f: int, l: int| {
                &&& 0 <= f < l < n
                &&& true_copy_at(results, inputs, f)
                &&& true_copy_at(results, inputs, l)
                &&& forall|k: int| 0 <= k < f ==> !true_copy_at(results, inputs, k)
                &&& forall|k: int| l < k < n ==> !true_copy_at(results, inputs, k)
                &&& rs == IrRegisterSlice { start: results.nth(f), len: (l + 1 - f) as u16 }
                &&& many_inputs == inputs.subrange(f, l + 1)
            },
        }
    }

    fn is_true_copy(result: IrRegister, input: IrProvider) -> (r: bool)
        ensures
            r == is_true_copy(result, input),
    {
        match input {
            IrProvider::Register(input) => !input.same_as(&result),
            IrProvider::Immediate(_) => true,
        }
    }

    /// Returns the positions of the first and of the last true copy, if there is one.
    fn true_copies_bounds(results: IrRegisterSlice, inputs: &[IrProvider]) -> (r: Option<(usize, usize)>)
        requires
            results.wf(),
            results.len == inputs@.len(),
        ensures
            r.is_none() ==> forall|k: int| 0 <= k < inputs@.len() ==> !true_copy_at(results, inputs@, k),
            r matches Some((f, l)) ==> {
                &&& f <= l < inputs@.len()
                &&& true_copy_at(results, inputs@, f as int)
                &&& true_copy_at(results, inputs@, l as int)
                &&& forall|k: int| 0 <= k < f ==> !true_copy_at(results, inputs@, k)
                &&& forall|k: int| l < k < inputs@.len() ==> !true_copy_at(results, inputs@, k)
            },
    {
        let mut first: Option<usize> = None;
        let mut last: usize = 0;
        let mut i: usize = 0;
        while i < inputs.len()
            invariant
                results.wf(),
                results.len == inputs@.len(),
                i <= inputs@.len(),
                first.is_none() ==> forall|k: int| 0 <= k < i ==> !true_copy_at(results, inputs@, k),
                first matches Some(f) ==> {
                    &&& f <= last < i
                    &&& true_copy_at(results, inputs@, f as int)
                    &&& true_copy_at(results, inputs@, last as int)
                    &&& forall|k: int| 0 <= k < f ==> !true_copy_at(results, inputs@, k)
                    &&& forall|k: int| last < k < i ==> !true_copy_at(results, inputs@, k)
                },
            decreases inputs@.len() - i,
        {
            let result = results.get(i);
            if Self::is_true_copy(result, inputs[i]) {
                if first.is_none() {
                    first = Some(i);
                }
                last = i;
            }
            i += 1;
        }
        match first {
            Some(f) => Some((f, last)),
            None => None,
        }
    }

    /// Analyzes the given `results` and `inputs` with respect to true copies.
    ///
    /// True copies are when result and input registers are not the same.
    /// This filters out any non-true copies at the start and end of the
    /// register slices.
    /// The [`TrueCopies::Many`] case might include non-true copies due to the
    /// way [`IrRegisterSlice`] can only represent contiguous registers.
    pub fn analyze_slice(
        arena: &mut ProviderSliceArena,
        results: IrRegisterSlice,
        inputs: IrProviderSlice,
    ) -> (r: Self)
        requires
            results.wf(),
            old(arena).wf(),
            old(arena).in_bounds(inputs),
            results.len == inputs.len,
        ensures
            *final(arena) == *old(arena),
            r.describes(results, old(arena).contents(inputs), match r {
                TrueCopies::Many { results: _, inputs: many } => old(arena).contents(many),
                _ => Seq::empty(),
            }),
            r matches TrueCopies::Many { results: _, inputs: many } ==> old(arena).in_bounds(many),
            r matches TrueCopies::Many { results: rs, inputs: many } ==> {
                let f = many.first - inputs.first;
                let l = f + many.len - 1;
                let xs = old(arena).contents(inputs);
                &&& inputs.first <= many.first
                &&& 0 <= f < l < inputs.len
                &&& many == IrProviderSlice { first: (inputs.first + f) as u32, len: (l + 1 - f) as u16 }
                &&& rs == IrRegisterSlice { start: results.nth(f), len: (l + 1 - f) as u16 }
                &&& true_copy_at(results, xs, f)
                &&& true_copy_at(results, xs, l)
                &&& forall|k: int| 0 <= k < f ==> !true_copy_at(results, xs, k)
                &&& forall|k: int| l < k < inputs.len ==> !true_copy_at(results, xs, k)
            },
    {
        let slice = arena.resolve(inputs);
        match Self::true_copies_bounds(results, slice) {
            None => TrueCopies::Noop,
            Some((f, l)) => {
                if f == l {
                    let result = results.get(f);
                    TrueCopies::Single { result, input: slice[f] }
                } else {
                    let len = (l + 1 - f) as u16;
                    let many = inputs.skip(f as u16).take(len);
                    let rs = results.sub_slice(f, l + 1);
                    let rs = match rs {
                        Some(rs) => rs,
                        None => IrRegisterSlice::empty(),
                    };
                    assert(arena.contents(many) =~= arena.contents(inputs).subrange(f as int, l + 1));
                    TrueCopies::Many { results: rs, inputs: many }
                }
            },
        }
    }

    /// Analyzes the given `results` and `inputs` with respect to true copies.
    ///
    /// True copies are when result and input registers are not the same.
    /// This filters out any non-true copies at the start and end of the
    /// register slices.
    /// The [`TrueCopies::Many`] case might include non-true copies due to the
    /// way [`IrRegisterSlice`] can only represent contiguous registers; its
    /// inputs are stored in `arena`.
    pub fn analyze(
        arena: &mut ProviderSliceArena,
        results: IrRegisterSlice,
        inputs: &[IrProvider],
    ) -> (r: Self)
        requires
            results.wf(),
            results.len == inputs@.len(),
            old(arena)@.len() + inputs@.len() <= u32::MAX,
        ensures
            final(arena).wf(),
            r.describes(results, inputs@, match r {
                TrueCopies::Many { results: _, inputs: many } => final(arena).contents(many),
                _ => Seq::empty(),
            }),
            r matches TrueCopies::Many { results: _, inputs: many } ==> {
                &&& final(arena).in_bounds(many)
                &&& many.first == old(arena)@.len()
                &&& final(arena)@ == old(arena)@ + final(arena).contents(many)
            },
            !(r is Many) ==> *final(arena) == *old(arena),
            final(arena)@.len() <= old(arena)@.len() + inputs@.len(),
    {
        match Self::true_copies_bounds(results, inputs) {
            None => TrueCopies::Noop,
            Some((f, l)) => {
                if f == l {
                    let result = results.get(f);
                    TrueCopies::Single { result, input: inputs[f] }
                } else {
                    let mut span: Vec<IrProvider> = Vec::new();
                    let mut k: usize = f;
                    while k <= l
                        invariant
                            f <= k <= l + 1,
                            l < inputs@.len(),
                            span@ == inputs@.subrange(f as int, k as int),
                        decreases l + 1 - k,
                    {
                        span.push(inputs[k]);
                        assert(inputs@.subrange(f as int, k + 1) =~= inputs@.subrange(f as int, k as int).push(inputs@[k as int]));
                        k += 1;
                    }
                    let many = arena.alloc_slice(span.as_slice());
                    let rs = results.sub_slice(f, l + 1);
                    let rs = match rs {
                        Some(rs) => rs,
                        None => IrRegisterSlice::empty(),
                    };
                    TrueCopies::Many { results: rs, inputs: many }
                }
            },
        }
    }
}

/// `copies` is the analysis of `results <- inputs`, where the inputs of a
/// [`TrueCopies::Many`] are held by `arena`.
pub open spec fn analyzed(copies: TrueCopies, results: IrRegisterSlice, inputs: Seq<IrProvider>, arena: ProviderSliceArena) -> bool {
    copies.describes(results, inputs, match copies {
        TrueCopies::Many { results: _, inputs: many } => arena.contents(many),
        _ => Seq::empty(),
    })
}

/// The instruction that copies `input` into `result`.
pub open spec fn copy_instr(result: IrRegister, input: IrProvider) -> IrInstruction {
    match input {
        IrProvider::Register(input) => Instruction::Copy { result, input },
        IrProvider::Immediate(input) => Instruction::CopyImm { result, input },
    }
}

/// The instructions that an unconditional branch to `target` with the copies `copies` emits.
pub open spec fn br_instrs(copies: TrueCopies, target: LabelRef) -> Seq<IrInstruction> {
    match copies {
        TrueCopies::Noop => seq![Instruction::Br { target }],
        TrueCopies::Single { result, input } => seq![copy_instr(result, input), Instruction::Br { target }],
        TrueCopies::Many { results, inputs } => seq![Instruction::BrMulti { target, results, returned: inputs }],
    }
}

/// The instruction that a branch to `target` on a non-zero `condition` with the copies `copies` emits.
pub open spec fn br_nez_instr(copies: TrueCopies, target: LabelRef, condition: IrRegister) -> IrInstruction {
    match copies {
        TrueCopies::Noop => Instruction::BrNez { target, condition },
        TrueCopies::Single { result, input } => Instruction::BrNezSingle { target, condition, result, returned: input },
        TrueCopies::Many { results, inputs } => Instruction::BrNezMulti { target, condition, results, returned: inputs },
    }
}

/// The largest number of instructions of a function body.
pub const MAX_INSTRS: usize = 0xFFFF_FFF0;

/// An instruction builder.
///
/// Allows to incrementally and efficiently build up the instructions
/// of a Wasm function body.
#[derive(Debug)]
pub struct InstructionsBuilder {
    /// The instructions of the partially constructed function body.
    insts: Vec<IrInstruction>,
    /// All labels and their uses.
    labels: LabelRegistry,
}

impl InstructionsBuilder {
    /// The instructions pushed so far.
    pub closed spec fn insts(&self) -> Seq<IrInstruction> {
        self.insts@
    }

    /// The state of each label.
    pub closed spec fn labels(&self) -> Seq<Label> {
        self.labels@
    }

    /// The label registry of the builder.
    pub closed spec fn registry(&self) -> LabelRegistry {
        self.labels
    }

    /// Every pinned label points at an instruction pushed so far or at the next one.
    pub open spec fn wf(&self) -> bool {
        &&& self.insts().len() <= MAX_INSTRS
        &&& self.registry()@ == self.labels()
        &&& forall|l: int| 0 <= l < self.labels().len() ==>
            (#[trigger] self.labels()[l] matches Label::Pinned(i) ==> i.0 <= self.insts().len())
    }

    /// Creates an empty builder.
    pub fn new() -> (r: Self)
        ensures
            r.wf(),
            r.insts().len() == 0,
            r.labels().len() == 0,
    {
        InstructionsBuilder { insts: Vec::new(), labels: LabelRegistry::new() }
    }

    /// Returns the number of instructions pushed so far.
    pub fn len_insts(&self) -> (r: usize)
        ensures
            r == self.insts().len(),
    {
        self.insts.len()
    }

    /// Returns the number of labels created so far.
    pub fn len_labels(&self) -> (r: usize)
        requires
            self.wf(),
        ensures
            r == self.labels().len(),
    {
        self.labels.len()
    }

    /// Returns the current instruction pointer as index.
    pub fn current_pc(&self) -> (r: Instr)
        requires
            self.wf(),
        ensures
            r.0 == self.insts().len(),
    {
        Instr::from_usize(self.insts.len())
    }

    /// Creates a new unresolved label and returns an index to it.
    pub fn new_label(&mut self) -> (r: LabelRef)
        requires
            old(self).wf(),
            old(self).labels().len() < u32::MAX,
        ensures
            final(self).wf(),
            r.0 == old(self).labels().len(),
            final(self).labels() == old(self).labels().push(Label::Unpinned),
            final(self).insts() == old(self).insts(),
    {
        let r = self.labels.new_label();
        assert forall|l: int| 0 <= l < self.labels().len() implies
            (#[trigger] self.labels()[l] matches Label::Pinned(i) ==> i.0 <= self.insts().len()) by {
            if l < old(self).labels().len() {
                assert(self.labels()[l] == old(self).labels()[l]);
            }
        }
        r
    }

    /// Pins the `label` to the next pushed instruction.
    ///
    /// The label must not be pinned yet.
    pub fn pin_label(&mut self, label: LabelRef)
        requires
            old(self).wf(),
            label.0 < old(self).labels().len(),
            old(self).labels()[label.0 as int] is Unpinned,
        ensures
            final(self).wf(),
            final(self).labels() == old(self).labels().update(label.0 as int, Label::Pinned(Instr(old(self).insts().len() as u32))),
            final(self).insts() == old(self).insts(),
    {
        let instr = self.current_pc();
        let _ = self.labels.pin_label(label, instr);
    }

    /// Pins a `label` to the next pushed instruction if unpinned.
    pub fn try_pin_label(&mut self, label: LabelRef)
        requires
            old(self).wf(),
            label.0 < old(self).labels().len(),
        ensures
            final(self).wf(),
            final(self).labels() == (if old(self).labels()[label.0 as int] is Pinned {
                old(self).labels()
            } else {
                old(self).labels().update(label.0 as int, Label::Pinned(Instr(old(self).insts().len() as u32)))
            }),
            final(self).insts() == old(self).insts(),
    {
        let instr = self.current_pc();
        self.labels.try_pin_label(label, instr);
    }

    /// Pushes the internal instruction bytecode to the [`InstructionsBuilder`].
    ///
    /// Returns an [`Instr`] to refer to the pushed instruction.
    pub fn push_inst(&mut self, inst: IrInstruction) -> (r: Instr)
        requires
            old(self).wf(),
            old(self).insts().len() < MAX_INSTRS,
        ensures
            final(self).wf(),
            r.0 == old(self).insts().len(),
            final(self).insts() == old(self).insts().push(inst),
            final(self).labels() == old(self).labels(),
    {
        let idx = self.current_pc();
        self.insts.push(inst);
        idx
    }

    /// Pushes a `copy` instruction to the [`InstructionsBuilder`].
    ///
    /// Does not push a `copy` instruction if the `result` and `input`
    /// registers are equal and thereby the `copy` would be a no-op. In
    /// this case this function returns `None`.
    ///
    /// Otherwise this function returns a reference to the created `copy`
    /// instruction.
    pub fn push_copy_instr(&mut self, result: IrRegister, input: IrProvider) -> (r: Option<Instr>)
        requires
            old(self).wf(),
            old(self).insts().len() < MAX_INSTRS,
        ensures
            final(self).wf(),
            final(self).labels() == old(self).labels(),
            !is_true_copy(result, input) ==> r.is_none() && final(self).insts() == old(self).insts(),
            is_true_copy(result, input) ==> {
                &&& r == Some(Instr(old(self).insts().len() as u32))
                &&& final(self).insts() == old(self).insts().push(copy_instr(result, input))
            },
    {
        match input {
            IrProvider::Register(input) => {
                if result.same_as(&input) {
                    None
                } else {
                    Some(self.push_inst(Instruction::Copy { result, input }))
                }
            },
            IrProvider::Immediate(input) => Some(self.push_inst(Instruction::CopyImm { result, input })),
        }
    }

    /// Pushes a `copy_many` instruction to the [`InstructionsBuilder`].
    ///
    /// This filters out any non-true copies at the `results` start or end;
    /// with a single true copy a `copy` is pushed, with none nothing.
    pub fn push_copy_many_instr(
        &mut self,
        arena: &mut ProviderSliceArena,
        results: IrRegisterSlice,
        inputs: &[IrProvider],
    ) -> (r: Option<Instr>)
        requires
            old(self).wf(),
            old(self).insts().len() < MAX_INSTRS,
            results.wf(),
            results.len == inputs@.len(),
            old(arena)@.len() + inputs@.len() <= u32::MAX,
        ensures
            final(self).wf(),
            final(arena).wf(),
            final(arena)@.len() <= old(arena)@.len() + inputs@.len(),
            final(self).labels() == old(self).labels(),
            exists|copies: TrueCopies| {
                &&& #[trigger] analyzed(copies, results, inputs@, *final(arena))
                &&& match copies {
                    TrueCopies::Noop => r.is_none() && final(self).insts() == old(self).insts() && *final(arena) == *old(arena),
                    TrueCopies::Single { result, input } => {
                        &&& r == Some(Instr(old(self).insts().len() as u32))
                        &&& final(self).insts() == old(self).insts().push(copy_instr(result, input))
                        &&& *final(arena) == *old(arena)
                    },
                    TrueCopies::Many { results, inputs } => {
                        &&& r == Some(Instr(old(self).insts().len() as u32))
                        &&& final(self).insts() == old(self).insts().push(Instruction::CopyMany { results, inputs })
                        &&& inputs.first == old(arena)@.len()
                        &&& final(arena)@ == old(arena)@ + final(arena).contents(inputs)
                    },
                }
            },
    {
        let copies = TrueCopies::analyze(arena, results, inputs);
        assert(analyzed(copies, results, inputs@, *arena));
        match copies {
            TrueCopies::Noop => None,
            TrueCopies::Single { result, input } => self.push_copy_instr(result, input),
            TrueCopies::Many { results, inputs } => Some(self.push_inst(Instruction::CopyMany { results, inputs })),
        }
    }

    /// Pushes a `br` instruction to the [`InstructionsBuilder`].
    ///
    /// Depending on the actual amount of true copies this pushes one of the
    /// following sequences of instructions to the [`InstructionsBuilder`].
    ///
    /// 1. **No true copies:** `br` instruction.
    /// 2. **Single true copy:** `copy` + `br` instruction
    /// 3. **Many true copies:** `br_multi` instruction
    ///
    /// Returns the branch instruction.
    pub fn push_br(
        &mut self,
        arena: &mut ProviderSliceArena,
        target: LabelRef,
        results: IrRegisterSlice,
        inputs: IrProviderSlice,
    ) -> (r: Instr)
        requires
            old(self).wf(),
            old(self).insts().len() + 1 < MAX_INSTRS,
            results.wf(),
            old(arena).wf(),
            old(arena).in_bounds(inputs),
            results.len == inputs.len,
        ensures
            final(self).wf(),
            *final(arena) == *old(arena),
            final(self).labels() == old(self).labels(),
            r.0 == final(self).insts().len() - 1,
            exists|copies: TrueCopies| {
                &&& #[trigger] analyzed(copies, results, old(arena).contents(inputs), *old(arena))
                &&& final(self).insts() == old(self).insts() + br_instrs(copies, target)
            },
    {
        let copies = TrueCopies::analyze_slice(arena, results, inputs);
        assert(analyzed(copies, results, arena.contents(inputs), *arena));
        let r = match copies {
            TrueCopies::Noop => self.push_inst(Instruction::Br { target }),
            TrueCopies::Single { result, input } => {
                let _ = self.push_copy_instr(result, input);
                self.push_inst(Instruction::Br { target })
            },
            TrueCopies::Many { results, inputs } => self.push_inst(
                Instruction::BrMulti { target, results, returned: inputs },
            ),
        };
        assert(self.insts() =~= old(self).insts() + br_instrs(copies, target));
        r
    }

    /// Pushes a `br_nez` instruction to the [`InstructionsBuilder`].
    ///
    /// Depending on the actual amount of true copies this pushes one of the
    /// following instructions to the [`InstructionsBuilder`].
    ///
    /// 1. **No true copies:** `br_nez` instruction.
    /// 2. **Single true copy:** `br_nez_single` instruction
    /// 3. **Many true copies:** `br_nez_multi` instruction
    pub fn push_br_nez(
        &mut self,
        arena: &mut ProviderSliceArena,
        target: LabelRef,
        condition: IrRegister,
        results: IrRegisterSlice,
        inputs: IrProviderSlice,
    ) -> (r: Instr)
        requires
            old(self).wf(),
            old(self).insts().len() < MAX_INSTRS,
            results.wf(),
            old(arena).wf(),
            old(arena).in_bounds(inputs),
            results.len == inputs.len,
        ensures
            final(self).wf(),
            *final(arena) == *old(arena),
            final(self).labels() == old(self).labels(),
            r.0 == old(self).insts().len(),
            exists|copies: TrueCopies| {
                &&& #[trigger] analyzed(copies, results, old(arena).contents(inputs), *old(arena))
                &&& final(self).insts() == old(self).insts().push(br_nez_instr(copies, target, condition))
            },
    {
        let copies = TrueCopies::analyze_slice(arena, results, inputs);
        assert(analyzed(copies, results, arena.contents(inputs), *arena));
        match copies {
            TrueCopies::Noop => self.push_inst(Instruction::BrNez { target, condition }),
            TrueCopies::Single { result, input } => self.push_inst(
                Instruction::BrNezSingle { target, condition, result, returned: input },
            ),
            TrueCopies::Many { results, inputs } => self.push_inst(
                Instruction::BrNezMulti { target, condition, results, returned: inputs },
            ),
        }
    }

    /// Peeks the last instruction pushed to the instruction builder if any.
    pub fn peek_mut(&mut self) -> (r: Option<&mut IrInstruction>)
        ensures
            old(self).insts().len() == 0 ==> r.is_none() && final(self).insts() == old(self).insts(),
            old(self).insts().len() != 0 ==> r.is_some() && *r.unwrap() == old(self).insts().last()
                && final(self).insts() == old(self).insts().update(old(self).insts().len() - 1, *final(r.unwrap())),
            final(self).labels() == old(self).labels(),
            final(self).registry() == old(self).registry(),
    {
        self.insts.as_mut_slice().last_mut()
    }

    /// Finishes construction of the function body instructions.
    ///
    /// Compiles the built-up instructions into a new function body of
    /// `engine` and returns its handle; the builder is left empty for the
    /// next function. On success every branch of the body targets a pinned
    /// label. On failure the engine holds no new body.
    pub fn finish(
        &mut self,
        engine: &mut EngineInner,
        reg_slices: &ProviderSliceArena,
        layout: RegisterLayout,
    ) -> (r: Result<FuncBody, TranslationError>)
        requires
            old(self).wf(),
            old(engine).wf(),
            layout.wf(),
            reg_slices.wf(),
        ensures
            final(self).wf(),
            final(self).insts().len() == 0,
            final(self).labels().len() == 0,
            final(engine).wf(),
            r matches Ok(body) ==> {
                let entry = final(engine).code_map.bodies().last();
                let env = CompileContext { layout, provider_slices: reg_slices, labels: &old(self).registry() }.spec_env();
                &&& body.0 == old(engine).code_map.bodies().len()
                &&& final(engine).code_map.bodies() == old(engine).code_map.bodies().push(entry)
                &&& entry.len_regs == layout.len_locals + layout.len_dynamic
                &&& entry.insts@.len() == old(self).insts().len()
                &&& forall|i: int| 0 <= i < old(self).insts().len() ==> compiles_to(
                    env,
                    final(engine).res.const_pool@,
                    final(engine).res.provider_pool,
                    i,
                    old(self).insts()[i],
                    #[trigger] entry.insts@[i],
                )
                &&& forall|i: int| 0 <= i < old(self).insts().len() ==>
                    (#[trigger] ir_target(old(self).insts()[i]) matches Some(l) ==> l.0 < old(self).labels().len() && old(self).labels()[l.0 as int] is Pinned)
                &&& forall|i: int| 0 <= i < entry.insts@.len() ==>
                    (#[trigger] exec_target(entry.insts@[i]) matches Some(t) ==> 0 <= i + t.0 <= entry.insts@.len())
            },
            r is Err ==> final(engine).code_map == old(engine).code_map,
            r matches Err(e) ==> ((forall|i: int| 0 <= i < old(self).insts().len() ==> compilable(
                CompileContext { layout, provider_slices: reg_slices, labels: &old(self).registry() }.spec_env(),
                i,
                #[trigger] old(self).insts()[i],
            )) ==> e == TranslationError::ConstPoolOverflow || e == TranslationError::ProviderSliceOverflow
                || e == TranslationError::FuncBodyOverflow),
            (forall|i: int| 0 <= i < old(self).insts().len() ==> compilable(
                CompileContext { layout, provider_slices: reg_slices, labels: &old(self).registry() }.spec_env(),
                i,
                #[trigger] old(self).insts()[i],
            ))
                && old(engine).res.const_pool@.len() + total_const_demand(old(self).insts()) <= MAX_CONSTS
                && old(engine).res.provider_pool.providers().len() + total_slice_demand(old(self).insts()) <= u16::MAX
                && old(engine).code_map.bodies().len() < u32::MAX ==> r is Ok,
    {
        let r = {
            let context = CompileContext { layout, provider_slices: reg_slices, labels: &self.labels };
            let r = engine.compile(&context, self.insts.as_slice());
            proof {
                if r is Ok {
                    let entry = engine.code_map.bodies().last();
                    assert forall|i: int| 0 <= i < entry.insts@.len() implies
                        (#[trigger] exec_target(entry.insts@[i]) matches Some(t) ==> 0 <= i + t.0 <= entry.insts@.len()) by {
                        if exec_target(entry.insts@[i]) is Some {
                            lemma_branch_lands_on_pinned_label(
                                context.spec_env(),
                                engine.res.const_pool@,
                                engine.res.provider_pool,
                                i,
                                self.insts@[i],
                                entry.insts@[i],
                                self.insts@.len() as int,
                            );
                        }
                    }
                    assert forall|i: int| 0 <= i < old(self).insts().len() implies
                        (#[trigger] ir_target(old(self).insts()[i]) matches Some(l) ==> l.0 < old(self).labels().len() && old(self).labels()[l.0 as int] is Pinned) by {
                        assert(compilable(context.spec_env(), i, self.insts@[i]));
                    }
                }
            }
            r
        };
        self.insts = Vec::new();
        self.labels = LabelRegistry::new();
        r
    }
}

} // verus!
