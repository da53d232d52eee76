//! The translator: turns the operators of a Wasm function body, a stack
//! machine, into register-machine IR, tracking the operand stack as providers
//! and the structured control flow as control frames.

use vstd::prelude::*;
use crate::bytecode::{Instruction, IrInstruction};
use crate::compile::ir_target;
use crate::labels::{Label, LabelRef};
use crate::compile::{
    compilable, compiles_to, total_const_demand, total_slice_demand, CompileEnv, EngineInner, FuncBody, RegisterLayout,
};
use crate::const_pool::MAX_CONSTS;
use crate::control_frame::{
    BlockControlFrame, BlockType, ControlFrame, ControlFrameKind, IfControlFrame, IfReachability, LoopControlFrame,
    StackCheckpoint, UnreachableControlFrame,
};
use crate::error::{TranslationError, TrapCode};
use crate::inst_builder::{analyzed, br_instrs, copy_instr, true_copy_at, InstructionsBuilder, TrueCopies, MAX_INSTRS};
use crate::provider::{IrProvider, IrProviderSlice, ProviderSliceArena};
use crate::registers::{IrRegister, IrRegisterSlice};

verus! {

/// The operators of a Wasm function body that the translator handles.
#[derive(Debug, Copy, Clone, PartialEq, Eq, Structural)]
pub enum Operator {
    /// `local.get`: pushes the local with the given index.
    LocalGet(u32),
    /// `i32.const`: pushes a constant.
    I32Const(i32),
    /// `i64.const`: pushes a constant.
    I64Const(i64),
    /// `f32.const`: pushes the constant with the given bits.
    F32Const(u32),
    /// `f64.const`: pushes the constant with the given bits.
    F64Const(u64),
    /// `block` of the given type.
    Block(BlockType),
    /// `loop` of the given type.
    Loop(BlockType),
    /// `if` of the given type: pops the condition.
    If(BlockType),
    /// `else` of the innermost `if`.
    Else,
    /// `end` of the innermost frame, or of the function body.
    End,
    /// `br` to the frame at the given relative depth.
    Br(u32),
    /// `br_if` to the frame at the given relative depth: pops the condition.
    BrIf(u32),
    /// `return`.
    Return,
    /// `drop`: pops a value.
    Drop,
    /// `unreachable`: traps.
    Unreachable,
}

/// The largest number of values on the operand stack and of block arities.
pub const MAX_STACK: usize = 0x7FFF;

/// The labels of a frame belong to the registry `labels`, a loop's head is
/// pinned, and its register slices have 16-bit positions.
pub open spec fn frame_ok(cf: ControlFrame, labels: Seq<Label>) -> bool {
    let n = labels.len();
    match cf {
        ControlFrame::Block(f) => f.end_label.0 < n && f.results.wf() && f.results.len <= MAX_STACK,
        ControlFrame::Loop(f) => f.head_label.0 < n && labels[f.head_label.0 as int] is Pinned
            && f.branch_results.wf() && f.end_results.wf()
            && f.branch_results.len <= MAX_STACK && f.end_results.len <= MAX_STACK,
        ControlFrame::If(f) => f.end_label.0 < n && f.results.wf() && f.results.len <= MAX_STACK
            && (f.reachability matches IfReachability::Both(b) ==> b.else_label.0 < n),
        ControlFrame::Unreachable(_) => true,
    }
}

/// The frame owns the label: branches to the frame, or to its `else`, target it.
pub open spec fn owns(cf: ControlFrame, l: LabelRef) -> bool {
    match cf {
        ControlFrame::Block(f) => f.end_label == l,
        ControlFrame::Loop(f) => f.head_label == l,
        ControlFrame::If(f) => f.end_label == l || (f.reachability matches IfReachability::Both(b) && b.else_label == l),
        ControlFrame::Unreachable(_) => false,
    }
}

/// The label is pinned.
pub open spec fn label_pinned(labels: Seq<Label>, l: LabelRef) -> bool {
    l.0 < labels.len() && labels[l.0 as int] is Pinned
}

/// A frame enclosing the current code, other than the function body, owns the label.
pub open spec fn owned_by(control: Seq<ControlFrame>, l: LabelRef) -> bool {
    exists|j: int| 1 <= j < control.len() && owns(#[trigger] control[j], l)
}

/// A branch to the label is resolved: the label is pinned, or an enclosing
/// frame owns it and pins it at the latest when it ends.
pub open spec fn target_covered(labels: Seq<Label>, control: Seq<ControlFrame>, l: LabelRef) -> bool {
    label_pinned(labels, l) || owned_by(control, l)
}

/// Every branch emitted so far targets a pinned label or one that an
/// enclosing frame owns.
pub open spec fn targets_ok(insts: Seq<IrInstruction>, labels: Seq<Label>, control: Seq<ControlFrame>) -> bool {
    forall|i: int| 0 <= i < insts.len() ==>
        (#[trigger] ir_target(insts[i]) matches Some(l) ==> target_covered(labels, control, l))
}

/// Labels pinned in `l1` are pinned in `l2`, which has at least as many labels.
pub open spec fn pins_kept(l1: Seq<Label>, l2: Seq<Label>) -> bool {
    l1.len() <= l2.len() && forall|l: int| 0 <= l < l1.len() ==> (#[trigger] l1[l] is Pinned ==> l2[l] is Pinned)
}

/// Branch targets stay resolved while labels get pinned, instructions are
/// appended and frames change, as long as what the old frames owned stays
/// resolved.
proof fn lemma_targets_step(
    insts1: Seq<IrInstruction>,
    labels1: Seq<Label>,
    c1: Seq<ControlFrame>,
    insts2: Seq<IrInstruction>,
    labels2: Seq<Label>,
    c2: Seq<ControlFrame>,
)
    requires
        targets_ok(insts1, labels1, c1),
        pins_kept(labels1, labels2),
        insts1.len() <= insts2.len(),
        forall|i: int| 0 <= i < insts1.len() ==> insts2[i] == insts1[i],
        forall|i: int| insts1.len() <= i < insts2.len() ==>
            (#[trigger] ir_target(insts2[i]) matches Some(l) ==> target_covered(labels2, c2, l)),
        forall|l: LabelRef| owned_by(c1, l) ==> #[trigger] target_covered(labels2, c2, l),
    ensures
        targets_ok(insts2, labels2, c2),
{
    assert forall|i: int| 0 <= i < insts2.len() implies
        (#[trigger] ir_target(insts2[i]) matches Some(l) ==> target_covered(labels2, c2, l)) by {
        if i < insts1.len() {
            assert(insts2[i] == insts1[i]);
            if let Some(l) = ir_target(insts1[i]) {
                assert(target_covered(labels1, c1, l));
                if label_pinned(labels1, l) {
                    assert(labels1[l.0 as int] is Pinned);
                    assert(label_pinned(labels2, l));
                } else {
                    assert(owned_by(c1, l));
                }
            }
        }
    }
}

/// What the frames own stays owned when a frame is pushed.
proof fn lemma_owned_push(c1: Seq<ControlFrame>, f: ControlFrame, labels: Seq<Label>)
    ensures
        forall|l: LabelRef| owned_by(c1, l) ==> #[trigger] target_covered(labels, c1.push(f), l),
{
    assert forall|l: LabelRef| owned_by(c1, l) implies #[trigger] target_covered(labels, c1.push(f), l) by {
        let j = choose|j: int| 1 <= j < c1.len() && owns(#[trigger] c1[j], l);
        assert(c1.push(f)[j] == c1[j]);
    }
}

/// What the frames own stays resolved when the innermost frame is popped,
/// where its own labels are pinned.
proof fn lemma_owned_pop(c1: Seq<ControlFrame>, labels: Seq<Label>)
    requires
        c1.len() >= 1,
        c1.len() == 1 || forall|l: LabelRef| owns(c1.last(), l) ==> #[trigger] label_pinned(labels, l),
    ensures
        forall|l: LabelRef| owned_by(c1, l) ==> #[trigger] target_covered(labels, c1.drop_last(), l),
{
    assert forall|l: LabelRef| owned_by(c1, l) implies #[trigger] target_covered(labels, c1.drop_last(), l) by {
        let j = choose|j: int| 1 <= j < c1.len() && owns(#[trigger] c1[j], l);
        if j < c1.len() - 1 {
            assert(c1.drop_last()[j] == c1[j]);
        } else {
            assert(owns(c1.last(), l));
        }
    }
}

/// What the frames own stays owned when a frame is replaced by one that owns
/// the same labels.
proof fn lemma_owned_set(c1: Seq<ControlFrame>, k: int, f: ControlFrame, labels: Seq<Label>)
    requires
        0 <= k < c1.len(),
        forall|l: LabelRef| owns(c1[k], l) ==> #[trigger] owns(f, l),
    ensures
        forall|l: LabelRef| owned_by(c1, l) ==> #[trigger] target_covered(labels, c1.update(k, f), l),
{
    assert forall|l: LabelRef| owned_by(c1, l) implies #[trigger] target_covered(labels, c1.update(k, f), l) by {
        let j = choose|j: int| 1 <= j < c1.len() && owns(#[trigger] c1[j], l);
        if j == k {
            assert(owns(f, l));
            assert(c1.update(k, f)[j] == f);
        } else {
            assert(c1.update(k, f)[j] == c1[j]);
        }
    }
}

/// Frames stay well-formed while labels are added and pinned.
proof fn lemma_frames_kept(c: Seq<ControlFrame>, l1: Seq<Label>, l2: Seq<Label>)
    requires
        pins_kept(l1, l2),
        forall|j: int| 0 <= j < c.len() ==> frame_ok(#[trigger] c[j], l1),
    ensures
        forall|j: int| 0 <= j < c.len() ==> frame_ok(#[trigger] c[j], l2),
{
    assert forall|j: int| 0 <= j < c.len() implies frame_ok(#[trigger] c[j], l2) by {
        assert(frame_ok(c[j], l1));
        if let ControlFrame::Loop(f) = c[j] {
            assert(l1[f.head_label.0 as int] is Pinned);
        }
    }
}

/// The top `n` values of the stack `s`, the deepest first.
pub open spec fn top(s: Seq<IrProvider>, n: int) -> Seq<IrProvider> {
    s.subrange(s.len() - n, s.len() as int)
}

/// The providers that the slice `s` refers to in `arena`.
pub open spec fn slice_of(arena: Seq<IrProvider>, s: IrProviderSlice) -> Seq<IrProvider> {
    arena.subrange(s.first as int, s.first + s.len)
}

/// `copies` is the analysis of `results <- xs`, its `Many` inputs held by `arena`.
pub open spec fn analysis(copies: TrueCopies, results: IrRegisterSlice, xs: Seq<IrProvider>, arena: Seq<IrProvider>) -> bool {
    copies.describes(results, xs, match copies {
        TrueCopies::Many { results: _, inputs: m } => slice_of(arena, m),
        _ => Seq::empty(),
    })
}

/// The registers of `results` as operands.
pub open spec fn result_regs(results: IrRegisterSlice) -> Seq<IrProvider> {
    Seq::new(results.len as nat, |k: int| IrProvider::Register(results.nth(k)))
}

/// The `return` of the `len` providers stored from `first` on in the slice arena.
pub open spec fn return_of(first: nat, len: u16) -> IrInstruction {
    Instruction::Return { results: IrProviderSlice { first: first as u32, len } }
}

/// `labels` with `l` pinned to the instruction `at`, unless it is pinned already.
pub open spec fn pinned_at(labels: Seq<Label>, l: LabelRef, at: int) -> Seq<Label> {
    if labels[l.0 as int] is Pinned {
        labels
    } else {
        labels.update(l.0 as int, Label::Pinned(crate::labels::Instr(at as u32)))
    }
}

/// The instructions and arena after emitting the copies `copies`: nothing, one
/// copy, or a `copy_many` whose inputs are appended to the arena.
pub open spec fn copies_emitted(
    copies: TrueCopies,
    insts: Seq<IrInstruction>,
    arena: Seq<IrProvider>,
    insts2: Seq<IrInstruction>,
    arena2: Seq<IrProvider>,
) -> bool {
    match copies {
        TrueCopies::Noop => insts2 == insts && arena2 == arena,
        TrueCopies::Single { result, input } => insts2 == insts.push(copy_instr(result, input)) && arena2 == arena,
        TrueCopies::Many { results, inputs } => {
            &&& insts2 == insts.push(Instruction::CopyMany { results, inputs })
            &&& inputs.first == arena.len()
            &&& arena2 == arena + slice_of(arena2, inputs)
        },
    }
}

/// The registers that receive the values of a branch to the frame.
pub open spec fn frame_branch_results(cf: ControlFrame) -> IrRegisterSlice {
    match cf {
        ControlFrame::Block(f) => f.results,
        ControlFrame::Loop(f) => f.branch_results,
        ControlFrame::If(f) => f.results,
        ControlFrame::Unreachable(_) => IrRegisterSlice::empty_spec(),
    }
}

/// `b` is `a` with nothing changed but possibly the operand stack, which is `ops`.
pub open spec fn same_but_operands(a: FunctionBuilder, b: FunctionBuilder, ops: Seq<IrProvider>) -> bool {
    &&& b.operands() == ops
    &&& b.insts() == a.insts()
    &&& b.labels() == a.labels()
    &&& b.slice_arena() == a.slice_arena()
    &&& b.frames() == a.frames()
    &&& b.branch_flags() == a.branch_flags()
    &&& b.if_state() == a.if_state()
    &&& b.layout() == a.layout()
    &&& b.is_reachable() == a.is_reachable()
}

/// `b` is `a` after returning the top providers of `ops` from the function:
/// they are stored in the slice arena and a `return` of them is appended.
pub open spec fn returned(a: FunctionBuilder, ops: Seq<IrProvider>, b: FunctionBuilder) -> bool {
    let n = a.layout().1;
    &&& b.slice_arena() == a.slice_arena() + top(ops, n as int)
    &&& b.insts() == a.insts().push(return_of(a.slice_arena().len(), n))
    &&& b.operands() == ops
    &&& b.labels() == a.labels()
    &&& b.frames() == a.frames()
    &&& b.branch_flags() == a.branch_flags()
    &&& b.if_state() == a.if_state()
    &&& b.layout() == a.layout()
    &&& !b.is_reachable()
}

/// `b` is `a` after an unconditional branch with the operands `ops` to the
/// enclosing frame at `index` (not the function body): the top providers are
/// stored, then copied into the frame's branch registers as coalesced, and the
/// code that follows is unreachable.
pub open spec fn branched_to(a: FunctionBuilder, ops: Seq<IrProvider>, b: FunctionBuilder, index: int) -> bool {
    let frame = a.frames()[index];
    let results = frame_branch_results(frame);
    let xs = top(ops, results.len as int);
    &&& b.slice_arena() == a.slice_arena() + xs
    &&& exists|copies: TrueCopies| {
        &&& #[trigger] analysis(copies, results, xs, b.slice_arena())
        &&& b.insts() == a.insts() + br_instrs(copies, frame.spec_branch_destination())
    }
    &&& b.operands() == ops
    &&& b.labels() == a.labels()
    &&& b.frames() == a.frames()
    &&& b.branch_flags() == a.branch_flags().update(index, true)
    &&& b.if_state() == a.if_state()
    &&& b.layout() == a.layout()
    &&& !b.is_reachable()
}

/// The index of the frame at relative depth `depth`.
pub open spec fn frame_index(a: FunctionBuilder, depth: u32) -> int {
    a.frames().len() - 1 - depth
}

/// `b` is `a` after `br depth` with the operands `ops`: a branch to the
/// function body returns.
pub open spec fn br_post(a: FunctionBuilder, ops: Seq<IrProvider>, b: FunctionBuilder, depth: u32) -> bool {
    if !a.is_reachable() {
        same_but_operands(a, b, ops)
    } else if frame_index(a, depth) == 0 {
        returned(a, ops, b)
    } else {
        branched_to(a, ops, b, frame_index(a, depth))
    }
}

/// `br depth` with the operands `ops` succeeds: the frame exists and enough values are on the stack.
pub open spec fn br_valid(a: FunctionBuilder, ops: Seq<IrProvider>, depth: u32) -> bool {
    a.is_reachable() ==> {
        &&& depth < a.frames().len()
        &&& frame_index(a, depth) == 0 ==> a.layout().1 <= ops.len()
        &&& frame_index(a, depth) > 0 ==> !(a.frames()[frame_index(a, depth)] is Unreachable)
            && frame_branch_results(a.frames()[frame_index(a, depth)]).len <= ops.len()
    }
}

/// `b` is `a` after `br_if depth`.
///
/// It pops the condition. A constant condition branches as `br` does or not
/// at all. Otherwise a branch to the function body is a `return_nez`; one to
/// another frame is a `br_nez` where no value needs a copy, and otherwise a
/// `br_eqz` over the copies and the branch to a new label pinned after them.
pub open spec fn br_if_post(a: FunctionBuilder, b: FunctionBuilder, depth: u32) -> bool {
    let ops = a.operands().drop_last();
    if a.operands().len() == 0 {
        same_but_operands(a, b, a.operands())
    } else if !a.is_reachable() {
        same_but_operands(a, b, ops)
    } else {
        match a.operands().last() {
            IrProvider::Immediate(bits) => if bits != 0 {
                br_post(a, ops, b, depth)
            } else {
                same_but_operands(a, b, ops)
            },
            IrProvider::Register(c) => {
                let index = frame_index(a, depth);
                if index == 0 {
                    let n = a.layout().1;
                    &&& b.slice_arena() == a.slice_arena() + top(ops, n as int)
                    &&& b.insts() == a.insts().push(Instruction::ReturnNez {
                        results: IrProviderSlice { first: a.slice_arena().len() as u32, len: n },
                        condition: c,
                    })
                    &&& b.labels() == a.labels()
                    &&& b.operands() == ops
                    &&& b.frames() == a.frames()
                    &&& b.branch_flags() == a.branch_flags()
                    &&& b.if_state() == a.if_state()
                    &&& b.layout() == a.layout()
                    &&& b.is_reachable()
                } else {
                    let frame = a.frames()[index];
                    let results = frame_branch_results(frame);
                    let dest = frame.spec_branch_destination();
                    let xs = top(ops, results.len as int);
                    let skip = LabelRef(a.labels().len() as u32);
                    &&& b.slice_arena() == a.slice_arena() + xs
                    &&& if forall|k: int| 0 <= k < results.len ==> !true_copy_at(results, xs, k) {
                        b.insts() == a.insts().push(Instruction::BrNez { target: dest, condition: c })
                            && b.labels() == a.labels()
                    } else {
                        &&& exists|copies: TrueCopies| {
                            &&& #[trigger] analysis(copies, results, xs, b.slice_arena())
                            &&& b.insts() == a.insts().push(Instruction::BrEqz { target: skip, condition: c })
                                + br_instrs(copies, dest)
                        }
                        &&& b.labels() == a.labels().push(Label::Pinned(crate::labels::Instr(b.insts().len() as u32)))
                    }
                    &&& b.operands() == ops
                    &&& b.frames() == a.frames()
                    &&& b.branch_flags() == a.branch_flags().update(index, true)
                    &&& b.if_state() == a.if_state()
                    &&& b.layout() == a.layout()
                    &&& b.is_reachable()
                }
            },
        }
    }
}

/// `br_if depth` succeeds.
pub open spec fn br_if_valid(a: FunctionBuilder, depth: u32) -> bool {
    let ops = a.operands().drop_last();
    a.is_reachable() ==> {
        &&& a.operands().len() >= 1
        &&& match a.operands().last() {
            IrProvider::Immediate(bits) => bits != 0 ==> br_valid(a, ops, depth),
            IrProvider::Register(_) => {
                &&& depth < a.frames().len()
                &&& frame_index(a, depth) == 0 ==> a.layout().1 <= ops.len()
                &&& frame_index(a, depth) > 0 ==> !(a.frames()[frame_index(a, depth)] is Unreachable)
                    && frame_branch_results(a.frames()[frame_index(a, depth)]).len <= ops.len()
            },
        }
    }
}

/// `b` is `a` after entering a `block` of type `bt`: its results go to the
/// dynamic registers at the stack height below its parameters, and its end
/// label is new.
pub open spec fn block_post(a: FunctionBuilder, b: FunctionBuilder, bt: BlockType) -> bool {
    let h = a.operands().len() - bt.len_params;
    let (locals, results, dynamic) = a.layout();
    &&& b.insts() == a.insts()
    &&& b.slice_arena() == a.slice_arena()
    &&& b.operands() == a.operands()
    &&& b.if_state() == a.if_state()
    &&& b.is_reachable() == a.is_reachable()
    &&& b.branch_flags() == a.branch_flags().push(false)
    &&& if a.is_reachable() {
        &&& b.labels() == a.labels().push(Label::Unpinned)
        &&& b.frames() == a.frames().push(ControlFrame::Block(BlockControlFrame {
            block_type: bt,
            stack_height: h as u32,
            results: IrRegisterSlice { start: IrRegister::Dynamic(h as usize), len: bt.len_results as u16 },
            end_label: LabelRef(a.labels().len() as u32),
        }))
        &&& b.layout() == (locals, results, if dynamic >= h + bt.len_results { dynamic } else { (h + bt.len_results) as u16 })
    } else {
        &&& b.labels() == a.labels()
        &&& b.frames() == a.frames().push(ControlFrame::Unreachable(
            UnreachableControlFrame { block_type: bt, kind: ControlFrameKind::Block },
        ))
        &&& b.layout() == a.layout()
    }
}

/// Entering a `block` of type `bt` succeeds.
pub open spec fn block_valid(a: FunctionBuilder, bt: BlockType) -> bool {
    a.is_reachable() ==> bt.len_params <= MAX_STACK && bt.len_results <= MAX_STACK && bt.len_params <= a.operands().len()
}

/// `b` is `a` after entering a `loop` of type `bt`: its parameters are copied
/// into the registers that branches to its head refill, which replace them on
/// the stack, and its head label is pinned after the copies.
pub open spec fn loop_post(a: FunctionBuilder, b: FunctionBuilder, bt: BlockType) -> bool {
    let h = a.operands().len() - bt.len_params;
    let (locals, results, dynamic) = a.layout();
    let params_regs = IrRegisterSlice { start: IrRegister::Dynamic(h as usize), len: bt.len_params as u16 };
    let end_regs = IrRegisterSlice { start: IrRegister::Dynamic(h as usize), len: bt.len_results as u16 };
    let d1: int = if dynamic >= h + bt.len_params { dynamic as int } else { h + bt.len_params };
    let d2: int = if d1 >= h + bt.len_results { d1 } else { h + bt.len_results };
    &&& b.if_state() == a.if_state()
    &&& b.is_reachable() == a.is_reachable()
    &&& b.branch_flags() == a.branch_flags().push(false)
    &&& if a.is_reachable() {
        &&& exists|copies: TrueCopies| {
            &&& #[trigger] analysis(copies, params_regs, top(a.operands(), bt.len_params as int), b.slice_arena())
            &&& copies_emitted(copies, a.insts(), a.slice_arena(), b.insts(), b.slice_arena())
        }
        &&& b.operands() == a.operands().subrange(0, h) + result_regs(params_regs)
        &&& b.labels() == a.labels().push(Label::Pinned(crate::labels::Instr(b.insts().len() as u32)))
        &&& b.frames() == a.frames().push(ControlFrame::Loop(LoopControlFrame {
            block_type: bt,
            stack_height: h as u32,
            branch_results: params_regs,
            end_results: end_regs,
            head_label: LabelRef(a.labels().len() as u32),
        }))
        &&& b.layout() == (locals, results, d2 as u16)
    } else {
        &&& b.insts() == a.insts()
        &&& b.slice_arena() == a.slice_arena()
        &&& b.operands() == a.operands()
        &&& b.labels() == a.labels()
        &&& b.frames() == a.frames().push(ControlFrame::Unreachable(
            UnreachableControlFrame { block_type: bt, kind: ControlFrameKind::Loop },
        ))
        &&& b.layout() == a.layout()
    }
}

/// `b` is `a` after entering an `if` of type `bt`: it pops the condition. A
/// constant condition leaves one arm reachable; any other condition emits a
/// `br_eqz` to a new `else` label. The `if`'s inputs are kept for its `else`.
pub open spec fn if_post(a: FunctionBuilder, b: FunctionBuilder, bt: BlockType) -> bool {
    let ops = a.operands().drop_last();
    let h = ops.len() - bt.len_params;
    let (locals, results, dynamic) = a.layout();
    let regs = IrRegisterSlice { start: IrRegister::Dynamic(h as usize), len: bt.len_results as u16 };
    let end_label = LabelRef(a.labels().len() as u32);
    &&& b.slice_arena() == a.slice_arena()
    &&& b.branch_flags() == a.branch_flags().push(false)
    &&& if !a.is_reachable() {
        &&& b.insts() == a.insts()
        &&& b.labels() == a.labels()
        &&& b.operands() == if a.operands().len() > 0 { ops } else { a.operands() }
        &&& b.frames() == a.frames().push(ControlFrame::Unreachable(
            UnreachableControlFrame { block_type: bt, kind: ControlFrameKind::If },
        ))
        &&& b.if_state() == (a.if_state().0.push(Seq::empty()), a.if_state().1.push(false))
        &&& b.layout() == a.layout()
        &&& !b.is_reachable()
    } else {
        &&& b.operands() == ops
        &&& b.if_state() == (a.if_state().0.push(top(ops, bt.len_params as int)), a.if_state().1.push(false))
        &&& b.layout() == (locals, results, if dynamic >= h + bt.len_results { dynamic } else { (h + bt.len_results) as u16 })
        &&& match a.operands().last() {
            IrProvider::Immediate(bits) => {
                &&& b.insts() == a.insts()
                &&& b.labels() == a.labels().push(Label::Unpinned)
                &&& b.frames() == a.frames().push(ControlFrame::If(IfControlFrame {
                    block_type: bt,
                    stack_height: h as u32,
                    results: regs,
                    end_label,
                    reachability: if bits != 0 { IfReachability::OnlyThen } else { IfReachability::OnlyElse },
                }))
                &&& b.is_reachable() == (bits != 0)
            },
            IrProvider::Register(c) => {
                let else_label = LabelRef((a.labels().len() + 1) as u32);
                &&& b.insts() == a.insts().push(Instruction::BrEqz { target: else_label, condition: c })
                &&& b.labels() == a.labels().push(Label::Unpinned).push(Label::Unpinned)
                &&& b.frames() == a.frames().push(ControlFrame::If(IfControlFrame {
                    block_type: bt,
                    stack_height: h as u32,
                    results: regs,
                    end_label,
                    reachability: IfReachability::Both(crate::control_frame::IfReachabilityBoth {
                        else_label,
                        end_of_then_is_reachable: None,
                        else_checkpoint: StackCheckpoint(h as u32),
                    }),
                }))
                &&& b.is_reachable()
            },
        }
    }
}

/// Entering an `if` of type `bt` succeeds.
pub open spec fn if_valid(a: FunctionBuilder, bt: BlockType) -> bool {
    a.is_reachable() ==> {
        &&& a.operands().len() >= 1
        &&& bt.len_params <= MAX_STACK && bt.len_results <= MAX_STACK
        &&& bt.len_params <= a.operands().len() - 1
    }
}

/// `b` is `a` after the `else` of its innermost `if`: where the end of the
/// `then` arm is reachable, its results are copied into the `if`'s registers
/// by a branch to the end label; the `else` label is pinned; the `if`'s
/// inputs replace the operands above its stack height; and the `else` arm is
/// reachable unless the condition was a true constant.
pub open spec fn else_post(a: FunctionBuilder, b: FunctionBuilder) -> bool {
    let index = a.frames().len() - 1;
    match a.frames()[index] {
        ControlFrame::Unreachable(_) => same_but_operands(a, b, a.operands()),
        ControlFrame::If(f) => {
            let n = f.results.len as int;
            let xs = top(a.operands(), n);
            let saved = a.if_state().0.last();
            let li = a.if_state().1.len() - 1;
            &&& if a.is_reachable() {
                &&& b.slice_arena() == a.slice_arena() + xs
                &&& exists|copies: TrueCopies| {
                    &&& #[trigger] analysis(copies, f.results, xs, b.slice_arena())
                    &&& b.insts() == a.insts() + br_instrs(copies, f.end_label)
                }
                &&& b.branch_flags() == a.branch_flags().update(index, true)
            } else {
                &&& b.slice_arena() == a.slice_arena()
                &&& b.insts() == a.insts()
                &&& b.branch_flags() == a.branch_flags()
            }
            &&& b.labels() == match f.reachability {
                IfReachability::Both(info) => pinned_at(a.labels(), info.else_label, b.insts().len() as int),
                _ => a.labels(),
            }
            &&& b.frames() == a.frames().update(index, ControlFrame::If(IfControlFrame {
                reachability: match f.reachability {
                    IfReachability::Both(info) => IfReachability::Both(crate::control_frame::IfReachabilityBoth {
                        end_of_then_is_reachable: Some(a.is_reachable()),
                        ..info
                    }),
                    other => other,
                },
                ..f
            }))
            &&& b.operands() == a.operands().subrange(0, f.stack_height as int) + saved
            &&& b.if_state() == (a.if_state().0, a.if_state().1.update(li, true))
            &&& b.layout() == a.layout()
            &&& b.is_reachable() == !(f.reachability is OnlyThen)
        },
        _ => false,
    }
}

/// The `else` succeeds: its innermost frame is an `if` whose `else` was not
/// seen, and the operands fit.
pub open spec fn else_valid(a: FunctionBuilder) -> bool {
    let index = a.frames().len() - 1;
    match a.frames()[index] {
        ControlFrame::Unreachable(f) => f.kind is If,
        ControlFrame::If(f) => {
            &&& !(f.reachability matches IfReachability::Both(info) && info.end_of_then_is_reachable is Some)
            &&& f.stack_height <= a.operands().len()
            &&& a.if_state().0.len() > 0 && a.if_state().1.len() > 0
            &&& f.stack_height + a.if_state().0.last().len() <= MAX_STACK
            &&& a.is_reachable() ==> f.results.len <= a.operands().len()
        },
        _ => false,
    }
}

/// `b` is `a` after the `end` of its innermost frame, where that frame is the
/// function body, a `block`, a `loop` or a frame that cannot be reached.
///
/// - The body: a reachable end returns the top values; the function is complete.
/// - A `block`: where a branch targeted it and its end is reachable, the top
///   values are copied into its result registers. Its end label is pinned
///   after that. Where a branch targeted it or its end is unreachable, its
///   result registers replace the operands above its stack height.
/// - A `loop`: where its end is unreachable, its result registers replace the
///   operands above its stack height.
pub open spec fn end_post(a: FunctionBuilder, b: FunctionBuilder) -> bool {
    let index = a.frames().len() - 1;
    let frame = a.frames()[index];
    let flagged = a.branch_flags()[index];
    &&& b.frames() == a.frames().drop_last()
    &&& b.branch_flags() == a.branch_flags().drop_last()
    &&& b.layout() == a.layout()
    &&& if index == 0 {
        &&& b.labels() == a.labels()
        &&& b.operands() == a.operands()
        &&& b.if_state() == a.if_state()
        &&& !b.is_reachable()
        &&& if a.is_reachable() {
            b.slice_arena() == a.slice_arena() + top(a.operands(), a.layout().1 as int)
                && b.insts() == a.insts().push(return_of(a.slice_arena().len(), a.layout().1))
        } else {
            b.slice_arena() == a.slice_arena() && b.insts() == a.insts()
        }
    } else {
        match frame {
            ControlFrame::Block(f) => {
                let h = f.stack_height as int;
                let n = f.results.len as int;
                &&& if flagged && a.is_reachable() {
                    exists|copies: TrueCopies| {
                        &&& #[trigger] analysis(copies, f.results, top(a.operands(), n), b.slice_arena())
                        &&& copies_emitted(copies, a.insts(), a.slice_arena(), b.insts(), b.slice_arena())
                    }
                } else {
                    b.insts() == a.insts() && b.slice_arena() == a.slice_arena()
                }
                &&& b.labels() == pinned_at(a.labels(), f.end_label, b.insts().len() as int)
                &&& b.operands() == if flagged || !a.is_reachable() {
                    a.operands().subrange(0, h) + result_regs(f.results)
                } else {
                    a.operands()
                }
                &&& b.is_reachable() == (a.is_reachable() || flagged)
                &&& b.if_state() == a.if_state()
            },
            ControlFrame::Loop(f) => {
                &&& b.insts() == a.insts()
                &&& b.slice_arena() == a.slice_arena()
                &&& b.labels() == a.labels()
                &&& b.operands() == if !a.is_reachable() {
                    a.operands().subrange(0, f.stack_height as int) + result_regs(f.end_results)
                } else {
                    a.operands()
                }
                &&& b.is_reachable() == a.is_reachable()
                &&& b.if_state() == a.if_state()
            },
            ControlFrame::Unreachable(f) => {
                &&& b.insts() == a.insts()
                &&& b.slice_arena() == a.slice_arena()
                &&& b.labels() == a.labels()
                &&& b.operands() == a.operands()
                &&& b.is_reachable() == a.is_reachable()
                &&& b.if_state() == if f.kind is If {
                    (a.if_state().0.drop_last(), a.if_state().1.drop_last())
                } else {
                    a.if_state()
                }
            },
            ControlFrame::If(f) => if_end_post(a, b, f, flagged),
        }
    }
}

/// `labels` with the end label of `f`, and its `else` label if it has one,
/// pinned to the instruction `at` unless already pinned.
pub open spec fn if_pins(f: IfControlFrame, labels: Seq<Label>, at: int) -> Seq<Label> {
    let p = pinned_at(labels, f.end_label, at);
    match f.reachability {
        IfReachability::Both(info) => pinned_at(p, info.else_label, at),
        _ => p,
    }
}

/// `b` is `a` after the `end` of the `if` frame `f`, targeted by a branch where `flagged`.
///
/// The result registers replace the operands above the stack height. Without
/// an `else` whose condition was not a true constant, the end is reachable and
/// code is only appended. With an `else`, or where only the `then` arm
/// exists, a reachable end copies the top values into the result registers,
/// and the end label, and the `else` label, are pinned after that.
pub open spec fn if_end_post(a: FunctionBuilder, b: FunctionBuilder, f: IfControlFrame, flagged: bool) -> bool {
    let n = f.results.len as int;
    let xs = top(a.operands(), n);
    let saved = a.if_state().0.last();
    let no_else = !a.if_state().1.last();
    let only_then = f.reachability is OnlyThen;
    &&& b.operands() == a.operands().subrange(0, f.stack_height as int) + result_regs(f.results)
    &&& b.if_state() == (a.if_state().0.drop_last(), a.if_state().1.drop_last())
    &&& if no_else && !only_then {
        &&& b.is_reachable()
        &&& a.insts().is_prefix_of(b.insts())
        &&& a.slice_arena().is_prefix_of(b.slice_arena())
    } else {
        &&& b.is_reachable() == (a.is_reachable() || flagged)
        &&& if a.is_reachable() {
            exists|c: TrueCopies| {
                &&& #[trigger] analysis(c, f.results, xs, b.slice_arena())
                &&& copies_emitted(c, a.insts(), a.slice_arena(), b.insts(), b.slice_arena())
            }
        } else {
            b.insts() == a.insts() && b.slice_arena() == a.slice_arena()
        }
        &&& b.labels() == if_pins(f, a.labels(), b.insts().len() as int)
    }
}

/// The `end` of the innermost frame succeeds.
pub open spec fn end_valid(a: FunctionBuilder) -> bool {
    let index = a.frames().len() - 1;
    let frame = a.frames()[index];
    if index == 0 {
        a.is_reachable() ==> a.layout().1 <= a.operands().len()
    } else {
        match frame {
            ControlFrame::Block(f) => {
                &&& f.stack_height <= a.operands().len()
                &&& f.stack_height + f.results.len <= MAX_STACK
                &&& a.branch_flags()[index] && a.is_reachable() ==> f.results.len <= a.operands().len()
            },
            ControlFrame::Loop(f) => f.stack_height <= a.operands().len() && f.stack_height + f.end_results.len <= MAX_STACK,
            ControlFrame::Unreachable(f) => !(f.kind is If) || (a.if_state().0.len() > 0 && a.if_state().1.len() > 0),
            ControlFrame::If(f) => {
                let no_else = !a.if_state().1.last();
                &&& f.stack_height <= a.operands().len()
                &&& f.stack_height + f.results.len <= MAX_STACK
                &&& a.if_state().0.len() > 0 && a.if_state().1.len() > 0
                &&& no_else ==> a.if_state().0.last().len() == f.results.len
                &&& a.is_reachable() ==> f.results.len <= a.operands().len()
            },
        }
    }
}

/// `b` is `a` after translating `op`.
///
/// It states the exact instructions, labels, slice arena, operand stack and
/// frames for every operator, except the `end` of an `if` without `else`
/// whose condition is not a true constant: there it states the operands, the
/// frames, that the end is reachable, and that instructions and slice arena
/// are only appended to.
pub open spec fn translated(a: FunctionBuilder, op: Operator, b: FunctionBuilder) -> bool {
    match op {
        Operator::LocalGet(i) => same_but_operands(a, b, a.operands().push(IrProvider::Register(IrRegister::Local(i as usize)))),
        Operator::I32Const(v) => same_but_operands(a, b, a.operands().push(IrProvider::Immediate((v as u32) as u64))),
        Operator::I64Const(v) => same_but_operands(a, b, a.operands().push(IrProvider::Immediate(v as u64))),
        Operator::F32Const(bits) => same_but_operands(a, b, a.operands().push(IrProvider::Immediate(bits as u64))),
        Operator::F64Const(bits) => same_but_operands(a, b, a.operands().push(IrProvider::Immediate(bits))),
        Operator::Drop => same_but_operands(a, b, if a.operands().len() > 0 { a.operands().drop_last() } else { a.operands() }),
        Operator::Unreachable => if a.is_reachable() {
            &&& b.insts() == a.insts().push(Instruction::Trap { trap_code: TrapCode::Unreachable })
            &&& b.labels() == a.labels()
            &&& b.slice_arena() == a.slice_arena()
            &&& b.operands() == a.operands()
            &&& b.frames() == a.frames()
            &&& b.branch_flags() == a.branch_flags()
            &&& b.if_state() == a.if_state()
            &&& b.layout() == a.layout()
            &&& !b.is_reachable()
        } else {
            same_but_operands(a, b, a.operands())
        },
        Operator::Return => if a.is_reachable() { returned(a, a.operands(), b) } else { same_but_operands(a, b, a.operands()) },
        Operator::Br(depth) => br_post(a, a.operands(), b, depth),
        Operator::BrIf(depth) => br_if_post(a, b, depth),
        Operator::Block(bt) => block_post(a, b, bt),
        Operator::End => end_post(a, b),
        Operator::Loop(bt) => loop_post(a, b, bt),
        Operator::If(bt) => if_post(a, b, bt),
        Operator::Else => else_post(a, b),
    }
}

/// Translating `op` in the state `a` succeeds: the function is not complete,
/// the limits leave room, and the operator finds what it needs.
pub open spec fn op_valid(a: FunctionBuilder, op: Operator) -> bool {
    &&& a.frames().len() > 0
    &&& a.has_room_spec()
    &&& match op {
        Operator::LocalGet(i) => i < a.layout().0 && a.operands().len() < MAX_STACK,
        Operator::I32Const(_) | Operator::I64Const(_) | Operator::F32Const(_) | Operator::F64Const(_) =>
            a.operands().len() < MAX_STACK,
        Operator::Drop => a.is_reachable() ==> a.operands().len() > 0,
        Operator::Unreachable => true,
        Operator::Return => a.is_reachable() ==> a.layout().1 <= a.operands().len(),
        Operator::Br(depth) => br_valid(a, a.operands(), depth),
        Operator::BrIf(depth) => br_if_valid(a, depth),
        Operator::Block(bt) => block_valid(a, bt),
        Operator::End => end_valid(a),
        Operator::Loop(bt) => block_valid(a, bt),
        Operator::If(bt) => if_valid(a, bt),
        Operator::Else => else_valid(a),
    }
}

/// Translates the operators of one Wasm function body into IR.
///
/// The outermost control frame is the function body itself: a branch to it
/// returns. After the `end` of the body the function is complete and
/// [`FunctionBuilder::finish`] compiles it.
#[derive(Debug)]
pub struct FunctionBuilder {
    inst_builder: InstructionsBuilder,
    arena: ProviderSliceArena,
    providers: Vec<IrProvider>,
    control: Vec<ControlFrame>,
    branched: Vec<bool>,
    if_inputs: Vec<Vec<IrProvider>>,
    else_seen: Vec<bool>,
    len_locals: u16,
    len_results: u16,
    max_dynamic: u16,
    reachable: bool,
}

impl FunctionBuilder {
    /// The builder's parts agree with each other and stay within the encoding's limits.
    pub closed spec fn wf(&self) -> bool {
        &&& self.inst_builder.wf()
        &&& self.arena.wf()
        &&& self.providers@.len() <= MAX_STACK
        &&& self.branched@.len() == self.control@.len()
        &&& self.len_results <= MAX_STACK
        &&& self.max_dynamic <= 2 * MAX_STACK
        &&& forall|j: int| 0 <= j < self.control@.len() ==> frame_ok(#[trigger] self.control@[j], self.inst_builder.labels())
        &&& self.control@.len() > 0 ==> self.control@[0] is Block
        &&& targets_ok(self.inst_builder.insts(), self.inst_builder.labels(), self.control@)
    }

    /// The `end` of the function body has been translated.
    pub closed spec fn is_complete(&self) -> bool {
        self.control@.len() == 0
    }

    /// The control frames enclosing the current code, the function body first.
    pub closed spec fn frames(&self) -> Seq<ControlFrame> {
        self.control@
    }

    /// The state of the function's labels.
    pub closed spec fn labels(&self) -> Seq<Label> {
        self.inst_builder.labels()
    }

    /// What compiling the translated function reads: the register layout, the
    /// labels and the IR provider slices.
    pub closed spec fn compile_env(&self) -> CompileEnv {
        CompileEnv {
            layout: RegisterLayout { len_locals: self.len_locals, len_dynamic: self.max_dynamic },
            labels: self.inst_builder.registry(),
            ir_arena: self.arena,
        }
    }

    /// The compile environment holds the layout, the labels and the slice arena of the builder.
    pub proof fn lemma_compile_env(&self)
        requires
            self.wf(),
        ensures
            self.compile_env().layout == (RegisterLayout { len_locals: self.layout().0, len_dynamic: self.layout().2 }),
            self.compile_env().labels@ == self.labels(),
            self.compile_env().ir_arena@ == self.slice_arena(),
    {
    }

    /// The IR instructions translated so far.
    pub closed spec fn insts(&self) -> Seq<IrInstruction> {
        self.inst_builder.insts()
    }

    /// The providers that the IR provider slices refer to.
    pub closed spec fn slice_arena(&self) -> Seq<IrProvider> {
        self.arena@
    }

    /// The operand stack, the bottom first.
    pub closed spec fn operands(&self) -> Seq<IrProvider> {
        self.providers@
    }

    /// Whether each enclosing frame has been the target of a branch.
    pub closed spec fn branch_flags(&self) -> Seq<bool> {
        self.branched@
    }

    /// The inputs of each open `if`, and whether its `else` was seen.
    pub closed spec fn if_state(&self) -> (Seq<Seq<IrProvider>>, Seq<bool>) {
        (self.if_inputs@.map_values(|v: Vec<IrProvider>| v@), self.else_seen@)
    }

    /// The number of locals, of results, and of dynamic registers in use.
    pub closed spec fn layout(&self) -> (u16, u16, u16) {
        (self.len_locals, self.len_results, self.max_dynamic)
    }

    /// The code at the current position can be reached.
    pub closed spec fn is_reachable(&self) -> bool {
        self.reachable
    }

    /// Starts the translation of a function with `len_locals` locals (its
    /// parameters first) and `len_results` results.
    pub fn new(len_locals: u16, len_results: u16) -> (r: Result<Self, TranslationError>)
        ensures
            r matches Ok(b) ==> {
                &&& b.wf()
                &&& b.insts().len() == 0
                &&& b.labels() == seq![Label::Unpinned]
                &&& b.slice_arena().len() == 0
                &&& b.operands().len() == 0
                &&& b.frames() == seq![ControlFrame::Block(BlockControlFrame {
                    block_type: BlockType { len_params: 0, len_results: len_results as u32 },
                    stack_height: 0,
                    results: IrRegisterSlice { start: IrRegister::Dynamic(0), len: len_results },
                    end_label: LabelRef(0),
                })]
                &&& b.branch_flags() == seq![false]
                &&& b.if_state().0.len() == 0 && b.if_state().1.len() == 0
                &&& b.layout() == (len_locals, len_results, len_results)
                &&& b.is_reachable()
            },
            r is Err <==> len_results > MAX_STACK,
    {
        if len_results as usize > MAX_STACK {
            return Err(TranslationError::LimitExceeded);
        }
        let mut inst_builder = InstructionsBuilder::new();
        let end_label = inst_builder.new_label();
        let results = IrRegisterSlice::new(IrRegister::Dynamic(0), len_results);
        let body = BlockControlFrame::new(results, BlockType { len_params: 0, len_results: len_results as u32 }, end_label, 0);
        let mut control: Vec<ControlFrame> = Vec::new();
        control.push(ControlFrame::Block(body));
        let mut branched: Vec<bool> = Vec::new();
        branched.push(false);
        Ok(FunctionBuilder {
            inst_builder,
            arena: ProviderSliceArena::new(),
            providers: Vec::new(),
            control,
            branched,
            if_inputs: Vec::new(),
            else_seen: Vec::new(),
            len_locals,
            len_results,
            max_dynamic: len_results,
            reachable: true,
        })
    }

    /// There is room for a few more instructions, labels and providers.
    fn has_room(&self) -> (r: bool)
        requires
            self.wf(),
        ensures
            r == self.has_room_spec(),
    {
        self.inst_builder.len_insts() < MAX_INSTRS - 8 && self.inst_builder.len_labels() < u32::MAX as usize - 8
            && self.arena.len() < u32::MAX as usize - 2 * MAX_STACK - 8
    }

    /// Returns the top `n` providers, the deepest first.
    fn top_providers(&self, n: usize) -> (r: Vec<IrProvider>)
        requires
            n <= self.providers@.len(),
        ensures
            r@ == self.providers@.subrange(self.providers@.len() - n, self.providers@.len() as int),
    {
        let len = self.providers.len();
        let base = len - n;
        let mut out: Vec<IrProvider> = Vec::new();
        let mut k: usize = 0;
        while k < n
            invariant
                k <= n,
                base + n == len,
                len == self.providers@.len(),
                out@ == self.providers@.subrange(base as int, base + k),
            decreases n - k,
        {
            out.push(self.providers[base + k]);
            proof {
                assert(self.providers@.subrange(base as int, base + k + 1) =~= self.providers@.subrange(base as int, base + k).push(self.providers@[base + k]));
            }
            k += 1;
        }
        out
    }

    /// Replaces the stack above `height` by the `n` registers of `results`.
    fn push_results(&mut self, height: usize, results: IrRegisterSlice)
        requires
            old(self).wf(),
            height <= old(self).providers@.len(),
            height + results.len <= MAX_STACK,
            results.wf(),
        ensures
            final(self).wf(),
            final(self).providers@.len() == height + results.len,
            final(self).providers@ == old(self).providers@.subrange(0, height as int) + result_regs(results),
            final(self).same_code(*old(self)),
            final(self).same_rest(*old(self)),
            final(self).inst_builder == old(self).inst_builder,
            final(self).arena == old(self).arena,
            final(self).control == old(self).control,
            final(self).len_results == old(self).len_results,
            final(self).max_dynamic == old(self).max_dynamic,
            final(self).reachable == old(self).reachable,
    {
        self.providers.truncate(height);
        let mut k: usize = 0;
        while k < results.len as usize
            invariant
                k <= results.len,
                results.wf(),
                self.providers@.len() == height + k,
                self.providers@ == old(self).providers@.subrange(0, height as int) + result_regs(results).subrange(0, k as int),
                height <= old(self).providers@.len(),
                self.inst_builder == old(self).inst_builder,
                self.arena == old(self).arena,
                self.control == old(self).control,
                self.branched == old(self).branched,
                self.if_inputs == old(self).if_inputs,
                self.else_seen == old(self).else_seen,
                self.len_locals == old(self).len_locals,
                self.len_results == old(self).len_results,
                self.max_dynamic == old(self).max_dynamic,
                self.reachable == old(self).reachable,
            decreases results.len - k,
        {
            self.providers.push(IrProvider::Register(results.get(k)));
            proof {
                assert(result_regs(results).subrange(0, k + 1) =~= result_regs(results).subrange(0, k as int).push(
                    IrProvider::Register(results.nth(k as int)),
                ));
            }
            k += 1;
        }
        proof {
            assert(result_regs(results).subrange(0, results.len as int) =~= result_regs(results));
        }
    }

    /// Pushes `return` with the top `len_results` providers.
    fn emit_return(&mut self) -> (r: Result<(), TranslationError>)
        requires
            old(self).wf(),
            old(self).has_room_spec(),
        ensures
            final(self).wf(),
            r is Ok <==> old(self).len_results <= old(self).providers@.len(),
            r is Err ==> *final(self) == *old(self),
            r is Ok ==> {
                &&& final(self).same_frames(*old(self))
                &&& final(self).arena@ == old(self).arena@ + top(old(self).providers@, old(self).len_results as int)
                &&& final(self).inst_builder.insts() == old(self).inst_builder.insts().push(
                    return_of(old(self).arena@.len(), old(self).len_results),
                )
                &&& final(self).inst_builder.labels() == old(self).inst_builder.labels()
            },
    {
        let n = self.len_results as usize;
        if n > self.providers.len() {
            return Err(TranslationError::MalformedInput);
        }
        let values = self.top_providers(n);
        let results = self.arena.alloc_slice(values.as_slice());
        self.emit(Instruction::Return { results });
        Ok(())
    }

    /// The spec form of [`Self::has_room`].
    pub closed spec fn has_room_spec(&self) -> bool {
        &&& self.inst_builder.insts().len() + 8 < MAX_INSTRS
        &&& self.inst_builder.labels().len() + 8 < u32::MAX
        &&& self.arena@.len() + 2 * MAX_STACK + 8 < u32::MAX
    }

    /// Pops the top provider; in unreachable code the stack may be empty.
    fn pop_provider(&mut self) -> (r: Result<Option<IrProvider>, TranslationError>)
        requires
            old(self).wf(),
        ensures
            final(self).wf(),
            final(self).same_code(*old(self)),
            final(self).same_rest(*old(self)),
            old(self).providers@.len() > 0 ==> r == Ok::<Option<IrProvider>, TranslationError>(Some(old(self).providers@.last()))
                && final(self).providers@ == old(self).providers@.drop_last(),
            old(self).providers@.len() == 0 ==> final(self).providers@ == old(self).providers@
                && r == (if old(self).reachable {
                    Err::<Option<IrProvider>, TranslationError>(TranslationError::MalformedInput)
                } else {
                    Ok::<Option<IrProvider>, TranslationError>(None)
                }),
    {
        match self.providers.pop() {
            Some(p) => Ok(Some(p)),
            None => if self.reachable {
                Err(TranslationError::MalformedInput)
            } else {
                Ok(None)
            },
        }
    }

    /// Pushes a provider onto the operand stack.
    fn push_provider(&mut self, p: IrProvider) -> (r: Result<(), TranslationError>)
        requires
            old(self).wf(),
        ensures
            final(self).wf(),
            final(self).same_code(*old(self)),
            final(self).same_rest(*old(self)),
            r is Ok <==> old(self).providers@.len() < MAX_STACK,
            r is Ok ==> final(self).providers@ == old(self).providers@.push(p),
            r is Err ==> final(self).providers@ == old(self).providers@,
    {
        if self.providers.len() >= MAX_STACK {
            return Err(TranslationError::LimitExceeded);
        }
        self.providers.push(p);
        Ok(())
    }

    /// Stores the top `n` providers in the arena.
    fn alloc_top(&mut self, n: usize) -> (r: Result<IrProviderSlice, TranslationError>)
        requires
            old(self).wf(),
            old(self).has_room_spec(),
            n <= MAX_STACK,
        ensures
            final(self).wf(),
            final(self).inst_builder == old(self).inst_builder,
            final(self).same_rest(*old(self)),
            final(self).providers == old(self).providers,
            r is Ok <==> n <= old(self).providers@.len(),
            r is Err ==> final(self).arena == old(self).arena,
            r matches Ok(s) ==> s == (IrProviderSlice { first: old(self).arena@.len() as u32, len: n as u16 })
                && final(self).arena@ == old(self).arena@ + top(old(self).providers@, n as int)
                && final(self).arena.in_bounds(s),
    {
        if n > self.providers.len() {
            return Err(TranslationError::MalformedInput);
        }
        let values = self.top_providers(n);
        Ok(self.arena.alloc_slice(values.as_slice()))
    }

    /// The instructions, labels and slice arena are those of `other`.
    spec fn same_code(self, other: Self) -> bool {
        self.inst_builder == other.inst_builder && self.arena == other.arena
    }

    /// Everything but the operand stack and the code is that of `other`.
    spec fn same_rest(self, other: Self) -> bool {
        &&& self.control == other.control
        &&& self.branched == other.branched
        &&& self.if_inputs == other.if_inputs
        &&& self.else_seen == other.else_seen
        &&& self.len_locals == other.len_locals
        &&& self.len_results == other.len_results
        &&& self.max_dynamic == other.max_dynamic
        &&& self.reachable == other.reachable
    }

    /// The operand stack, the frames and the register bounds are those of `other`.
    spec fn same_frames(self, other: Self) -> bool {
        &&& self.providers == other.providers
        &&& self.control == other.control
        &&& self.branched == other.branched
        &&& self.if_inputs == other.if_inputs
        &&& self.else_seen == other.else_seen
        &&& self.len_locals == other.len_locals
        &&& self.len_results == other.len_results
        &&& self.max_dynamic == other.max_dynamic
        &&& self.reachable == other.reachable
    }

    /// Appends an instruction whose branch target, if any, is resolved.
    fn emit(&mut self, inst: IrInstruction)
        requires
            old(self).wf(),
            old(self).inst_builder.insts().len() + 1 < MAX_INSTRS,
            ir_target(inst) matches Some(l) ==> target_covered(old(self).inst_builder.labels(), old(self).control@, l),
        ensures
            final(self).wf(),
            final(self).same_frames(*old(self)),
            final(self).arena == old(self).arena,
            final(self).inst_builder.insts() == old(self).inst_builder.insts().push(inst),
            final(self).inst_builder.labels() == old(self).inst_builder.labels(),
    {
        let ghost before = *self;
        self.inst_builder.push_inst(inst);
        proof {
            lemma_targets_step(
                before.inst_builder.insts(), before.inst_builder.labels(), before.control@,
                self.inst_builder.insts(), self.inst_builder.labels(), self.control@,
            );
        }
    }

    /// Appends a branch to the resolved label `target` that first copies `inputs` into `results`.
    fn emit_br(&mut self, target: LabelRef, results: IrRegisterSlice, inputs: IrProviderSlice)
        requires
            old(self).wf(),
            old(self).inst_builder.insts().len() + 2 < MAX_INSTRS,
            results.wf(),
            old(self).arena.in_bounds(inputs),
            results.len == inputs.len,
            target_covered(old(self).inst_builder.labels(), old(self).control@, target),
        ensures
            final(self).wf(),
            final(self).same_frames(*old(self)),
            final(self).arena == old(self).arena,
            final(self).inst_builder.insts().len() <= old(self).inst_builder.insts().len() + 2,
            final(self).inst_builder.labels() == old(self).inst_builder.labels(),
            exists|copies: TrueCopies| {
                &&& #[trigger] analysis(copies, results, slice_of(old(self).arena@, inputs), old(self).arena@)
                &&& final(self).inst_builder.insts() == old(self).inst_builder.insts() + br_instrs(copies, target)
            },
    {
        let ghost before = *self;
        self.inst_builder.push_br(&mut self.arena, target, results, inputs);
        proof {
            let copies = choose|copies: TrueCopies| {
                &&& #[trigger] analyzed(copies, results, before.arena.contents(inputs), before.arena)
                &&& self.inst_builder.insts() == before.inst_builder.insts() + br_instrs(copies, target)
            };
            assert forall|i: int| before.inst_builder.insts().len() <= i < self.inst_builder.insts().len() implies
                (#[trigger] ir_target(self.inst_builder.insts()[i]) matches Some(l)
                    ==> target_covered(self.inst_builder.labels(), self.control@, l)) by {
                let k = i - before.inst_builder.insts().len();
                assert(self.inst_builder.insts()[i] == br_instrs(copies, target)[k]);
            }
            assert(analysis(copies, results, slice_of(before.arena@, inputs), before.arena@));
            lemma_targets_step(
                before.inst_builder.insts(), before.inst_builder.labels(), before.control@,
                self.inst_builder.insts(), self.inst_builder.labels(), self.control@,
            );
        }
    }

    /// Appends the copies of `values` into `results`, as few as the true copies need.
    fn emit_copies(&mut self, results: IrRegisterSlice, values: &[IrProvider])
        requires
            old(self).wf(),
            old(self).inst_builder.insts().len() + 1 < MAX_INSTRS,
            results.wf(),
            results.len == values@.len(),
            old(self).arena@.len() + values@.len() <= u32::MAX,
        ensures
            final(self).wf(),
            final(self).same_frames(*old(self)),
            final(self).arena@.len() <= old(self).arena@.len() + values@.len(),
            final(self).inst_builder.insts().len() <= old(self).inst_builder.insts().len() + 1,
            final(self).inst_builder.labels() == old(self).inst_builder.labels(),
            exists|copies: TrueCopies| {
                &&& #[trigger] analysis(copies, results, values@, final(self).arena@)
                &&& copies_emitted(copies, old(self).inst_builder.insts(), old(self).arena@,
                    final(self).inst_builder.insts(), final(self).arena@)
            },
    {
        let ghost before = *self;
        let r = self.inst_builder.push_copy_many_instr(&mut self.arena, results, values);
        proof {
            let copies = choose|copies: TrueCopies| {
                &&& #[trigger] analyzed(copies, results, values@, self.arena)
                &&& match copies {
                    TrueCopies::Noop => r.is_none() && self.inst_builder.insts() == before.inst_builder.insts() && self.arena == before.arena,
                    TrueCopies::Single { result, input } => {
                        &&& r == Some(crate::labels::Instr(before.inst_builder.insts().len() as u32))
                        &&& self.inst_builder.insts() == before.inst_builder.insts().push(copy_instr(result, input))
                        &&& self.arena == before.arena
                    },
                    TrueCopies::Many { results, inputs } => {
                        &&& r == Some(crate::labels::Instr(before.inst_builder.insts().len() as u32))
                        &&& self.inst_builder.insts() == before.inst_builder.insts().push(Instruction::CopyMany { results, inputs })
                        &&& inputs.first == before.arena@.len()
                        &&& self.arena@ == before.arena@ + self.arena.contents(inputs)
                    },
                }
            };
            assert(analysis(copies, results, values@, self.arena@));
            assert(copies_emitted(copies, before.inst_builder.insts(), before.arena@, self.inst_builder.insts(), self.arena@));
            lemma_targets_step(
                before.inst_builder.insts(), before.inst_builder.labels(), before.control@,
                self.inst_builder.insts(), self.inst_builder.labels(), self.control@,
            );
        }
    }

    /// Creates a new unpinned label.
    fn fresh_label(&mut self) -> (r: LabelRef)
        requires
            old(self).wf(),
            old(self).inst_builder.labels().len() + 1 < u32::MAX,
        ensures
            final(self).wf(),
            final(self).same_frames(*old(self)),
            final(self).arena == old(self).arena,
            final(self).inst_builder.insts() == old(self).inst_builder.insts(),
            final(self).inst_builder.labels() == old(self).inst_builder.labels().push(Label::Unpinned),
            r.0 == old(self).inst_builder.labels().len(),
    {
        let ghost before = *self;
        let r = self.inst_builder.new_label();
        proof {
            assert(pins_kept(before.inst_builder.labels(), self.inst_builder.labels()));
            lemma_frames_kept(self.control@, before.inst_builder.labels(), self.inst_builder.labels());
            lemma_targets_step(
                before.inst_builder.insts(), before.inst_builder.labels(), before.control@,
                self.inst_builder.insts(), self.inst_builder.labels(), self.control@,
            );
        }
        r
    }

    /// Pins `label` to the next instruction, unless it is pinned already.
    fn pin(&mut self, label: LabelRef)
        requires
            old(self).wf(),
            label.0 < old(self).inst_builder.labels().len(),
        ensures
            final(self).wf(),
            final(self).same_frames(*old(self)),
            final(self).arena == old(self).arena,
            final(self).inst_builder.insts() == old(self).inst_builder.insts(),
            pins_kept(old(self).inst_builder.labels(), final(self).inst_builder.labels()),
            final(self).inst_builder.labels().len() == old(self).inst_builder.labels().len(),
            label_pinned(final(self).inst_builder.labels(), label),
            final(self).inst_builder.labels() == pinned_at(
                old(self).inst_builder.labels(), label, old(self).inst_builder.insts().len() as int),
    {
        let ghost before = *self;
        self.inst_builder.try_pin_label(label);
        proof {
            assert(pins_kept(before.inst_builder.labels(), self.inst_builder.labels()));
            lemma_frames_kept(self.control@, before.inst_builder.labels(), self.inst_builder.labels());
            lemma_targets_step(
                before.inst_builder.insts(), before.inst_builder.labels(), before.control@,
                self.inst_builder.insts(), self.inst_builder.labels(), self.control@,
            );
        }
    }

    /// Enters the frame `cf`.
    fn push_frame(&mut self, cf: ControlFrame)
        requires
            old(self).wf(),
            old(self).control@.len() > 0,
            frame_ok(cf, old(self).inst_builder.labels()),
        ensures
            final(self).wf(),
            final(self).control@ == old(self).control@.push(cf),
            final(self).branched@ == old(self).branched@.push(false),
            final(self).inst_builder == old(self).inst_builder,
            final(self).arena == old(self).arena,
            final(self).providers == old(self).providers,
            final(self).reachable == old(self).reachable,
            final(self).len_results == old(self).len_results,
            final(self).max_dynamic == old(self).max_dynamic,
            final(self).if_inputs == old(self).if_inputs,
            final(self).else_seen == old(self).else_seen,
            final(self).len_locals == old(self).len_locals,
    {
        let ghost before = *self;
        self.control.push(cf);
        self.branched.push(false);
        proof {
            lemma_owned_push(before.control@, cf, self.inst_builder.labels());
            lemma_targets_step(
                before.inst_builder.insts(), before.inst_builder.labels(), before.control@,
                self.inst_builder.insts(), self.inst_builder.labels(), self.control@,
            );
            assert forall|j: int| 0 <= j < self.control@.len() implies frame_ok(#[trigger] self.control@[j], self.inst_builder.labels()) by {
                if j < before.control@.len() {
                    assert(self.control@[j] == before.control@[j]);
                }
            }
        }
    }

    /// Replaces the frame at `index` by one that owns the same labels.
    fn set_frame(&mut self, index: usize, cf: ControlFrame)
        requires
            old(self).wf(),
            1 <= index < old(self).control@.len(),
            frame_ok(cf, old(self).inst_builder.labels()),
            forall|l: LabelRef| owns(old(self).control@[index as int], l) ==> #[trigger] owns(cf, l),
        ensures
            final(self).wf(),
            final(self).control@ == old(self).control@.update(index as int, cf),
            final(self).branched == old(self).branched,
            final(self).if_inputs == old(self).if_inputs,
            final(self).else_seen == old(self).else_seen,
            final(self).len_locals == old(self).len_locals,
            final(self).inst_builder == old(self).inst_builder,
            final(self).arena == old(self).arena,
            final(self).providers == old(self).providers,
            final(self).reachable == old(self).reachable,
            final(self).len_results == old(self).len_results,
            final(self).max_dynamic == old(self).max_dynamic,
    {
        let ghost before = *self;
        self.control.set(index, cf);
        proof {
            lemma_owned_set(before.control@, index as int, cf, self.inst_builder.labels());
            lemma_targets_step(
                before.inst_builder.insts(), before.inst_builder.labels(), before.control@,
                self.inst_builder.insts(), self.inst_builder.labels(), self.control@,
            );
            assert forall|j: int| 0 <= j < self.control@.len() implies frame_ok(#[trigger] self.control@[j], self.inst_builder.labels()) by {
                if j != index {
                    assert(self.control@[j] == before.control@[j]);
                }
            }
        }
    }

    /// Leaves the innermost frame, whose labels are pinned unless it is the function body.
    fn pop_frame(&mut self)
        requires
            old(self).wf(),
            old(self).control@.len() > 0,
            old(self).control@.len() == 1 || forall|l: LabelRef|
                owns(old(self).control@.last(), l) ==> #[trigger] label_pinned(old(self).inst_builder.labels(), l),
        ensures
            final(self).wf(),
            final(self).control@ == old(self).control@.drop_last(),
            final(self).branched@ == old(self).branched@.drop_last(),
            final(self).inst_builder == old(self).inst_builder,
            final(self).arena == old(self).arena,
            final(self).providers == old(self).providers,
            final(self).reachable == old(self).reachable,
            final(self).len_results == old(self).len_results,
            final(self).max_dynamic == old(self).max_dynamic,
            final(self).if_inputs == old(self).if_inputs,
            final(self).else_seen == old(self).else_seen,
            final(self).len_locals == old(self).len_locals,
    {
        let ghost before = *self;
        self.control.pop();
        self.branched.pop();
        proof {
            assert(self.control@ =~= before.control@.drop_last());
            lemma_owned_pop(before.control@, self.inst_builder.labels());
            lemma_targets_step(
                before.inst_builder.insts(), before.inst_builder.labels(), before.control@,
                self.inst_builder.insts(), self.inst_builder.labels(), self.control@,
            );
            assert forall|j: int| 0 <= j < self.control@.len() implies frame_ok(#[trigger] self.control@[j], self.inst_builder.labels()) by {
                assert(self.control@[j] == before.control@[j]);
            }
            if self.control@.len() > 0 {
                assert(self.control@[0] == before.control@[0]);
            }
        }
    }

    /// Translates a `block`, `loop` or `if` frame that cannot be reached.
    fn push_unreachable_frame(&mut self, kind: ControlFrameKind, block_type: BlockType)
        requires
            old(self).wf(),
            old(self).control@.len() > 0,
        ensures
            final(self).wf(),
            final(self).inst_builder == old(self).inst_builder,
            final(self).arena == old(self).arena,
            final(self).control@.len() == old(self).control@.len() + 1,
            final(self).control@ == old(self).control@.push(ControlFrame::Unreachable(
                UnreachableControlFrame { block_type, kind },
            )),
            final(self).branched@ == old(self).branched@.push(false),
            final(self).providers == old(self).providers,
            final(self).reachable == old(self).reachable,
            final(self).len_results == old(self).len_results,
            final(self).max_dynamic == old(self).max_dynamic,
            final(self).if_inputs == old(self).if_inputs,
            final(self).else_seen == old(self).else_seen,
            final(self).len_locals == old(self).len_locals,
    {
        self.push_frame(ControlFrame::Unreachable(UnreachableControlFrame::new(kind, block_type)));
    }

    /// Checks a block type against the limits and returns the stack height
    /// below the block's parameters.
    fn block_height(&self, block_type: BlockType) -> (r: Result<usize, TranslationError>)
        requires
            self.wf(),
        ensures
            r matches Ok(h) ==> h + block_type.len_params == self.providers@.len()
                && block_type.len_params <= MAX_STACK && block_type.len_results <= MAX_STACK,
            r is Ok <==> block_type.len_params <= MAX_STACK && block_type.len_results <= MAX_STACK
                && block_type.len_params <= self.providers@.len(),
    {
        if block_type.len_params as usize > MAX_STACK || block_type.len_results as usize > MAX_STACK {
            return Err(TranslationError::LimitExceeded);
        }
        if (block_type.len_params as usize) > self.providers.len() {
            return Err(TranslationError::MalformedInput);
        }
        Ok(self.providers.len() - block_type.len_params as usize)
    }

    /// Registers `n` dynamic registers from `height` on as in use.
    fn use_dynamic(&mut self, height: usize, n: u32)
        requires
            old(self).wf(),
            height <= MAX_STACK,
            n <= MAX_STACK,
        ensures
            final(self).wf(),
            final(self).max_dynamic >= height + n,
            final(self).max_dynamic == if old(self).max_dynamic >= height + n { old(self).max_dynamic } else { (height + n) as u16 },
            final(self).if_inputs == old(self).if_inputs,
            final(self).else_seen == old(self).else_seen,
            final(self).len_locals == old(self).len_locals,
            final(self).inst_builder == old(self).inst_builder,
            final(self).arena == old(self).arena,
            final(self).providers == old(self).providers,
            final(self).control == old(self).control,
            final(self).branched == old(self).branched,
            final(self).len_results == old(self).len_results,
            final(self).reachable == old(self).reachable,
    {
        let top = (height + n as usize) as u16;
        if top > self.max_dynamic {
            self.max_dynamic = top;
        }
    }

    /// Translates a `block`: its results go to the dynamic registers at the
    /// stack height below its parameters.
    fn translate_block(&mut self, block_type: BlockType) -> (r: Result<(), TranslationError>)
        requires
            old(self).wf(),
            old(self).has_room_spec(),
            old(self).control@.len() > 0,
        ensures
            final(self).wf(),
            r is Ok ==> block_post(*old(self), *final(self), block_type),
            block_valid(*old(self), block_type) ==> r is Ok,
    {
        if !self.reachable {
            self.push_unreachable_frame(ControlFrameKind::Block, block_type);
            return Ok(());
        }
        let height = self.block_height(block_type)?;
        let results = IrRegisterSlice::new(IrRegister::Dynamic(height), block_type.len_results as u16);
        self.use_dynamic(height, block_type.len_results);
        let end_label = self.fresh_label();
        self.push_frame(ControlFrame::Block(BlockControlFrame::new(results, block_type, end_label, height as u32)));
        Ok(())
    }

    /// Translates a `loop`: its parameters are copied into the registers that
    /// branches to its head refill, and its head label is pinned.
    fn translate_loop(&mut self, block_type: BlockType) -> (r: Result<(), TranslationError>)
        requires
            old(self).wf(),
            old(self).has_room_spec(),
            old(self).control@.len() > 0,
        ensures
            final(self).wf(),
            r is Ok ==> loop_post(*old(self), *final(self), block_type),
            block_valid(*old(self), block_type) ==> r is Ok,
    {
        if !self.reachable {
            self.push_unreachable_frame(ControlFrameKind::Loop, block_type);
            return Ok(());
        }
        let height = self.block_height(block_type)?;
        let len_params = block_type.len_params as usize;
        let branch_results = IrRegisterSlice::new(IrRegister::Dynamic(height), block_type.len_params as u16);
        let end_results = IrRegisterSlice::new(IrRegister::Dynamic(height), block_type.len_results as u16);
        self.use_dynamic(height, block_type.len_params);
        self.use_dynamic(height, block_type.len_results);
        let inputs = self.top_providers(len_params);
        let ghost pre = *self;
        self.emit_copies(branch_results, inputs.as_slice());
        let ghost copies = choose|copies: TrueCopies| {
            &&& #[trigger] analysis(copies, branch_results, inputs@, self.arena@)
            &&& copies_emitted(copies, pre.inst_builder.insts(), pre.arena@, self.inst_builder.insts(), self.arena@)
        };
        self.push_results(height, branch_results);
        let ghost labels0 = self.inst_builder.labels();
        let head_label = self.fresh_label();
        self.pin(head_label);
        let frame = LoopControlFrame::new(branch_results, end_results, block_type, head_label, height as u32);
        self.push_frame(ControlFrame::Loop(frame));
        proof {
            let a = *old(self);
            assert(inputs@ == top(a.operands(), block_type.len_params as int));
            assert(analysis(copies, branch_results, top(a.operands(), block_type.len_params as int), self.slice_arena()));
            assert(copies_emitted(copies, a.insts(), a.slice_arena(), self.insts(), self.slice_arena()));
            assert(self.labels() =~= a.labels().push(Label::Pinned(crate::labels::Instr(self.insts().len() as u32))));
        }
        Ok(())
    }

    /// Translates an `if`: a constant condition leaves one arm reachable; any
    /// other condition branches to the `else` label when it is zero.
    fn translate_if(&mut self, block_type: BlockType) -> (r: Result<(), TranslationError>)
        requires
            old(self).wf(),
            old(self).has_room_spec(),
            old(self).control@.len() > 0,
        ensures
            final(self).wf(),
            r is Ok ==> if_post(*old(self), *final(self), block_type),
            if_valid(*old(self), block_type) ==> r is Ok,
    {
        if !self.reachable {
            let _ = self.pop_provider()?;
            self.push_unreachable_frame(ControlFrameKind::If, block_type);
            let ghost before_inputs = self.if_inputs@;
            self.if_inputs.push(Vec::new());
            self.else_seen.push(false);
            proof {
                let a = *old(self);
                assert(self.if_state().0 =~= a.if_state().0.push(Seq::empty()));
            }
            return Ok(());
        }
        let condition = match self.pop_provider()? {
            Some(c) => c,
            None => return Err(TranslationError::MalformedInput),
        };
        let height = self.block_height(block_type)?;
        let results = IrRegisterSlice::new(IrRegister::Dynamic(height), block_type.len_results as u16);
        self.use_dynamic(height, block_type.len_results);
        let inputs = self.top_providers(block_type.len_params as usize);
        let end_label = self.fresh_label();
        match condition {
            IrProvider::Immediate(bits) => {
                let reachability = if bits != 0 {
                    IfReachability::OnlyThen
                } else {
                    IfReachability::OnlyElse
                };
                let frame = IfControlFrame::new(results, block_type, end_label, height as u32, reachability);
                self.push_frame(ControlFrame::If(frame));
                if bits == 0 {
                    self.reachable = false;
                }
            },
            IrProvider::Register(condition) => {
                let else_label = self.fresh_label();
                let reachability = IfReachability::both(else_label, StackCheckpoint(height as u32));
                let frame = IfControlFrame::new(results, block_type, end_label, height as u32, reachability);
                self.push_frame(ControlFrame::If(frame));
                proof {
                    let top = self.control@.len() - 1;
                    assert(owns(self.control@[top], else_label));
                    assert(owned_by(self.control@, else_label));
                }
                self.emit(Instruction::BrEqz { target: else_label, condition });
            },
        }
        let ghost inputs_view = inputs@;
        self.if_inputs.push(inputs);
        self.else_seen.push(false);
        proof {
            let a = *old(self);
            assert(inputs_view == top(a.operands().drop_last(), block_type.len_params as int));
            assert(self.if_state().0 =~= a.if_state().0.push(inputs_view));
        }
        Ok(())
    }

    /// Marks the frame at `index` as the target of a branch.
    fn mark_branched(&mut self, index: usize)
        requires
            old(self).wf(),
            index < old(self).control@.len(),
        ensures
            final(self).wf(),
            final(self).inst_builder == old(self).inst_builder,
            final(self).arena == old(self).arena,
            final(self).control == old(self).control,
            final(self).providers == old(self).providers,
            final(self).reachable == old(self).reachable,
            final(self).branched@ == old(self).branched@.update(index as int, true),
            final(self).if_inputs == old(self).if_inputs,
            final(self).else_seen == old(self).else_seen,
            final(self).len_locals == old(self).len_locals,
            final(self).len_results == old(self).len_results,
            final(self).max_dynamic == old(self).max_dynamic,
    {
        self.branched.set(index, true);
    }

    /// Translates a `br` to the frame at relative depth `depth`.
    fn translate_br(&mut self, depth: u32) -> (r: Result<(), TranslationError>)
        requires
            old(self).wf(),
            old(self).has_room_spec(),
        ensures
            final(self).wf(),
            r is Ok ==> br_post(*old(self), old(self).operands(), *final(self), depth),
            br_valid(*old(self), old(self).operands(), depth) ==> r is Ok,
    {
        if !self.reachable {
            return Ok(());
        }
        if depth as usize >= self.control.len() {
            return Err(TranslationError::MalformedInput);
        }
        let index = self.control.len() - 1 - depth as usize;
        if index == 0 {
            self.emit_return()?;
            self.reachable = false;
            return Ok(());
        }
        let target = self.control[index];
        if let ControlFrame::Unreachable(_) = target {
            return Err(TranslationError::MalformedInput);
        }
        let results = target.branch_results();
        let destination = target.branch_destination();
        proof {
            assert(frame_ok(self.control@[index as int], self.inst_builder.labels()));
            assert(owns(self.control@[index as int], destination));
        }
        let ghost start = *self;
        let inputs = self.alloc_top(results.len() as usize)?;
        let ghost mid = *self;
        self.emit_br(destination, results, inputs);
        proof {
            let xs = top(start.providers@, results.len as int);
            assert(slice_of(mid.arena@, inputs) =~= xs);
            let copies = choose|copies: TrueCopies| {
                &&& #[trigger] analysis(copies, results, slice_of(mid.arena@, inputs), mid.arena@)
                &&& self.inst_builder.insts() == mid.inst_builder.insts() + br_instrs(copies, destination)
            };
            assert(analysis(copies, results, xs, self.arena@));
        }
        self.mark_branched(index);
        self.reachable = false;
        proof {
            let a = *old(self);
            let ix = frame_index(a, depth);
            assert(ix == index);
            assert(results == frame_branch_results(a.frames()[ix]));
            assert(destination == a.frames()[ix].spec_branch_destination());
            assert(self.slice_arena() == a.slice_arena() + top(a.operands(), results.len as int));
            assert(self.if_state() == a.if_state());
            assert(self.layout() == a.layout());
            assert(self.branch_flags() == a.branch_flags().update(ix, true));
        }
        Ok(())
    }

    /// Translates a `br_if` to the frame at relative depth `depth`.
    ///
    /// A branch that copies values becomes a `br_eqz` over the copies and a `br`.
    fn translate_br_if(&mut self, depth: u32) -> (r: Result<(), TranslationError>)
        requires
            old(self).wf(),
            old(self).has_room_spec(),
        ensures
            final(self).wf(),
            r is Ok ==> br_if_post(*old(self), *final(self), depth),
            br_if_valid(*old(self), depth) ==> r is Ok,
    {
        let condition = self.pop_provider()?;
        if !self.reachable {
            return Ok(());
        }
        let condition = match condition {
            Some(IrProvider::Register(c)) => c,
            Some(IrProvider::Immediate(bits)) => {
                if bits != 0 {
                    return self.translate_br(depth);
                }
                return Ok(());
            },
            None => return Err(TranslationError::MalformedInput),
        };
        if depth as usize >= self.control.len() {
            return Err(TranslationError::MalformedInput);
        }
        let index = self.control.len() - 1 - depth as usize;
        if index == 0 {
            let results = self.alloc_top(self.len_results as usize)?;
            self.emit(Instruction::ReturnNez { results, condition });
            return Ok(());
        }
        let target = self.control[index];
        if let ControlFrame::Unreachable(_) = target {
            return Err(TranslationError::MalformedInput);
        }
        let results = target.branch_results();
        let destination = target.branch_destination();
        proof {
            assert(frame_ok(self.control@[index as int], self.inst_builder.labels()));
            assert(owns(self.control@[index as int], destination));
        }
        let ghost popped = *self;
        let inputs = self.alloc_top(results.len() as usize)?;
        let ghost mid = *self;
        let xs = Ghost(top(popped.providers@, results.len as int));
        proof {
            assert(slice_of(mid.arena@, inputs) =~= xs@);
            assert(mid.arena.contents(inputs) == xs@);
        }
        let copies = TrueCopies::analyze_slice(&mut self.arena, results, inputs);
        match copies {
            TrueCopies::Noop => {
                self.emit(Instruction::BrNez { target: destination, condition });
                proof {
                    assert(forall|k: int| 0 <= k < results.len ==> !true_copy_at(results, xs@, k));
                }
            },
            _ => {
                proof {
                    assert(copies.describes(results, xs@, match copies {
                        TrueCopies::Many { results: _, inputs: many } => mid.arena.contents(many),
                        _ => Seq::empty(),
                    }));
                    assert(!forall|k: int| 0 <= k < results.len ==> !true_copy_at(results, xs@, k));
                }
                self.emit_guarded_br(condition, destination, results, inputs);
                proof {
                    let copies2 = choose|c: TrueCopies| {
                        &&& #[trigger] analysis(c, results, slice_of(mid.arena@, inputs), mid.arena@)
                        &&& self.inst_builder.insts() == mid.inst_builder.insts().push(
                            Instruction::BrEqz { target: LabelRef(mid.inst_builder.labels().len() as u32), condition },
                        ) + br_instrs(c, destination)
                    };
                    assert(analysis(copies2, results, xs@, self.arena@));
                }
            },
        }
        self.mark_branched(index);
        proof {
            let a = *old(self);
            let ix = frame_index(a, depth);
            assert(ix == index);
            assert(a.operands().drop_last() == popped.providers@);
            assert(results == frame_branch_results(a.frames()[ix]));
            assert(destination == a.frames()[ix].spec_branch_destination());
            assert(self.slice_arena() == a.slice_arena() + xs@);
            assert(self.if_state() == a.if_state());
            assert(self.layout() == a.layout());
            assert(self.branch_flags() == a.branch_flags().update(ix, true));
        }
        Ok(())
    }

    /// Appends a branch to `destination` with copies taken only where
    /// `condition` is non-zero: a `br_eqz` over the copies and the branch.
    fn emit_guarded_br(&mut self, condition: IrRegister, destination: LabelRef, results: IrRegisterSlice, inputs: IrProviderSlice)
        requires
            old(self).wf(),
            old(self).inst_builder.insts().len() + 3 < MAX_INSTRS,
            old(self).inst_builder.labels().len() + 1 < u32::MAX,
            results.wf(),
            old(self).arena.in_bounds(inputs),
            results.len == inputs.len,
            target_covered(old(self).inst_builder.labels(), old(self).control@, destination),
        ensures
            final(self).wf(),
            final(self).same_frames(*old(self)),
            final(self).arena == old(self).arena,
            final(self).inst_builder.labels() == old(self).inst_builder.labels().push(
                Label::Pinned(crate::labels::Instr(final(self).inst_builder.insts().len() as u32)),
            ),
            exists|copies: TrueCopies| {
                &&& #[trigger] analysis(copies, results, slice_of(old(self).arena@, inputs), old(self).arena@)
                &&& final(self).inst_builder.insts() == old(self).inst_builder.insts().push(
                    Instruction::BrEqz { target: LabelRef(old(self).inst_builder.labels().len() as u32), condition },
                ) + br_instrs(copies, destination)
            },
    {
        let ghost before = *self;
        let skip = self.inst_builder.new_label();
        self.inst_builder.push_inst(Instruction::BrEqz { target: skip, condition });
        let ghost mid = self.inst_builder.insts();
        self.inst_builder.push_br(&mut self.arena, destination, results, inputs);
        self.inst_builder.try_pin_label(skip);
        proof {
            let labels0 = before.inst_builder.labels();
            let labels1 = self.inst_builder.labels();
            assert(pins_kept(labels0, labels1));
            lemma_frames_kept(self.control@, labels0, labels1);
            assert(label_pinned(labels1, skip));
            let copies = choose|copies: TrueCopies| {
                &&& #[trigger] analyzed(copies, results, before.arena.contents(inputs), before.arena)
                &&& self.inst_builder.insts() == mid + br_instrs(copies, destination)
            };
            let n0 = before.inst_builder.insts().len();
            assert forall|i: int| n0 <= i < self.inst_builder.insts().len() implies
                (#[trigger] ir_target(self.inst_builder.insts()[i]) matches Some(l)
                    ==> target_covered(labels1, self.control@, l)) by {
                if i == n0 {
                    assert(self.inst_builder.insts()[i] == mid[i]);
                } else {
                    assert(self.inst_builder.insts()[i] == br_instrs(copies, destination)[i - n0 - 1]);
                    if label_pinned(labels0, destination) {
                        assert(labels0[destination.0 as int] is Pinned);
                    }
                }
            }
            lemma_targets_step(
                before.inst_builder.insts(), labels0, before.control@,
                self.inst_builder.insts(), labels1, self.control@,
            );
            assert(labels1 =~= labels0.push(Label::Pinned(crate::labels::Instr(self.inst_builder.insts().len() as u32))));
            assert(analysis(copies, results, slice_of(before.arena@, inputs), before.arena@));
        }
    }

    /// Translates the `else` of the innermost `if`.
    fn translate_else(&mut self) -> (r: Result<(), TranslationError>)
        requires
            old(self).wf(),
            old(self).has_room_spec(),
            old(self).control@.len() > 0,
        ensures
            final(self).wf(),
            r is Ok ==> else_post(*old(self), *final(self)),
            else_valid(*old(self)) ==> r is Ok,
    {
        let index = self.control.len() - 1;
        let mut frame = match self.control[index] {
            ControlFrame::If(frame) => frame,
            ControlFrame::Unreachable(frame) => {
                return match frame.kind() {
                    ControlFrameKind::If => Ok(()),
                    _ => Err(TranslationError::MalformedInput),
                };
            },
            _ => return Err(TranslationError::MalformedInput),
        };
        if frame.visited_else() && matches!(frame.reachability, IfReachability::Both(_)) {
            return Err(TranslationError::MalformedInput);
        }
        let height = frame.stack_height() as usize;
        if height > self.providers.len() {
            return Err(TranslationError::MalformedInput);
        }
        if self.if_inputs.len() == 0 || self.else_seen.len() == 0 {
            return Err(TranslationError::MalformedInput);
        }
        let li = self.if_inputs.len() - 1;
        let n_saved = self.if_inputs[li].len();
        if n_saved > MAX_STACK - height {
            return Err(TranslationError::LimitExceeded);
        }
        let mut saved: Vec<IrProvider> = Vec::new();
        let mut k: usize = 0;
        while k < n_saved
            invariant
                li < self.if_inputs@.len(),
                n_saved == self.if_inputs@[li as int]@.len(),
                k <= n_saved,
                saved@ == self.if_inputs@[li as int]@.subrange(0, k as int),
            decreases n_saved - k,
        {
            saved.push(self.if_inputs[li][k]);
            proof {
                assert(self.if_inputs@[li as int]@.subrange(0, k + 1) =~= saved@);
            }
            k += 1;
        }
        proof {
            assert(self.if_inputs@[li as int]@.subrange(0, n_saved as int) =~= self.if_inputs@[li as int]@);
            assert(frame_ok(self.control@[index as int], self.inst_builder.labels()));
            assert(index >= 1);
            assert(owns(self.control@[index as int], frame.end_label));
        }
        let ghost start = *self;
        let ghost mut chosen = TrueCopies::Noop;
        if self.reachable {
            let inputs = self.alloc_top(frame.results.len() as usize)?;
            let ghost mid = *self;
            self.emit_br(frame.end_label(), frame.results, inputs);
            proof {
                let xs = top(start.providers@, frame.results.len as int);
                assert(slice_of(mid.arena@, inputs) =~= xs);
                chosen = choose|copies: TrueCopies| {
                    &&& #[trigger] analysis(copies, frame.results, slice_of(mid.arena@, inputs), mid.arena@)
                    &&& self.inst_builder.insts() == mid.inst_builder.insts() + br_instrs(copies, frame.end_label)
                };
                assert(analysis(chosen, frame.results, xs, self.arena@));
            }
            self.mark_branched(index);
        }
        let ghost after_br = *self;
        if let IfReachability::Both(info) = frame.reachability {
            self.pin(info.else_label());
        }
        frame.update_end_of_then_reachability(self.reachable);
        self.set_frame(index, ControlFrame::If(frame));
        self.truncate_providers(height);
        let ghost truncated = self.providers@;
        let ghost pre_push = *self;
        let mut k: usize = 0;
        while k < saved.len()
            invariant
                self.wf(),
                k <= saved@.len(),
                height + saved@.len() <= MAX_STACK,
                truncated.len() == height,
                self.providers@ == truncated + saved@.subrange(0, k as int),
                self.same_code(pre_push),
                self.same_rest(pre_push),
            decreases saved@.len() - k,
        {
            self.push_provider(saved[k])?;
            proof {
                assert(saved@.subrange(0, k + 1) =~= saved@.subrange(0, k as int).push(saved@[k as int]));
            }
            k += 1;
        }
        let last = self.else_seen.len();
        if last == 0 {
            return Err(TranslationError::MalformedInput);
        }
        self.else_seen.set(last - 1, true);
        self.reachable = !matches!(frame.reachability, IfReachability::OnlyThen);
        proof {
            let a = *old(self);
            let f = match a.frames()[index as int] { ControlFrame::If(f) => f, _ => frame };
            assert(f.stack_height == frame.stack_height);
            assert(saved@.subrange(0, saved@.len() as int) =~= saved@);
            assert(self.operands() == a.operands().subrange(0, f.stack_height as int) + a.if_state().0.last());
            if a.is_reachable() {
                assert(analysis(chosen, f.results, top(a.operands(), f.results.len as int), self.slice_arena()));
                assert(self.insts() == a.insts() + br_instrs(chosen, f.end_label));
                assert(self.slice_arena() == a.slice_arena() + top(a.operands(), f.results.len as int));
                assert(self.branch_flags() == a.branch_flags().update(index as int, true));
            } else {
                assert(self.insts() == a.insts());
            }
            assert(self.if_state().0 == a.if_state().0);
            assert(self.if_state().1 == a.if_state().1.update(a.if_state().1.len() - 1, true));
            assert(self.layout() == a.layout());
        }
        Ok(())
    }

    /// Drops the operands above `height`.
    fn truncate_providers(&mut self, height: usize)
        requires
            old(self).wf(),
        ensures
            final(self).wf(),
            final(self).providers@.len() <= old(self).providers@.len(),
            height <= old(self).providers@.len() ==> final(self).providers@ == old(self).providers@.subrange(0, height as int),
            final(self).same_code(*old(self)),
            final(self).same_rest(*old(self)),
    {
        self.providers.truncate(height);
    }

    /// Copies the top values into `results` at the fall-through end of a frame.
    fn emit_fallthrough(&mut self, results: IrRegisterSlice) -> (r: Result<(), TranslationError>)
        requires
            old(self).wf(),
            old(self).inst_builder.insts().len() + 1 < MAX_INSTRS,
            old(self).arena@.len() + MAX_STACK <= u32::MAX,
            results.wf(),
            results.len <= MAX_STACK,
        ensures
            final(self).wf(),
            final(self).control == old(self).control,
            final(self).providers == old(self).providers,
            final(self).reachable == old(self).reachable,
            final(self).len_results == old(self).len_results,
            final(self).max_dynamic == old(self).max_dynamic,
            final(self).arena@.len() <= old(self).arena@.len() + MAX_STACK,
            final(self).inst_builder.insts().len() <= old(self).inst_builder.insts().len() + 1,
            final(self).inst_builder.labels() == old(self).inst_builder.labels(),
            r is Ok <==> results.len <= old(self).providers@.len(),
            r is Err ==> *final(self) == *old(self),
            r is Ok ==> final(self).same_frames(*old(self)) && exists|copies: TrueCopies| {
                &&& #[trigger] analysis(copies, results, top(old(self).providers@, results.len as int), final(self).arena@)
                &&& copies_emitted(copies, old(self).inst_builder.insts(), old(self).arena@,
                    final(self).inst_builder.insts(), final(self).arena@)
            },
    {
        let n = results.len() as usize;
        if n > self.providers.len() {
            return Err(TranslationError::MalformedInput);
        }
        let values = self.top_providers(n);
        let ghost before = *self;
        self.emit_copies(results, values.as_slice());
        proof {
            let copies = choose|copies: TrueCopies| {
                &&& #[trigger] analysis(copies, results, values@, self.arena@)
                &&& copies_emitted(copies, before.inst_builder.insts(), before.arena@,
                    self.inst_builder.insts(), self.arena@)
            };
            assert(values@ == top(before.providers@, results.len as int));
            assert(analysis(copies, results, top(old(self).providers@, results.len as int), self.arena@));
        }
        Ok(())
    }

    /// Translates the `end` of the innermost frame.
    fn translate_end(&mut self) -> (r: Result<(), TranslationError>)
        requires
            old(self).wf(),
            old(self).has_room_spec(),
            old(self).control@.len() > 0,
        ensures
            final(self).wf(),
            r is Ok ==> end_post(*old(self), *final(self)),
            end_valid(*old(self)) ==> r is Ok,
    {
        let index = self.control.len() - 1;
        let frame = self.control[index];
        let branched = self.branched[index];
        let ghost mut chosen = TrueCopies::Noop;
        let ghost mut chosen_br = TrueCopies::Noop;
        proof {
            assert(frame_ok(frame, self.inst_builder.labels()));
        }
        if index == 0 {
            if self.reachable {
                self.emit_return()?;
            }
            self.pop_frame();
            self.reachable = false;
            return Ok(());
        }
        match frame {
            ControlFrame::Block(f) => {
                let height = f.stack_height() as usize;
                if height > self.providers.len() {
                    return Err(TranslationError::MalformedInput);
                }
                self.check_results(height, f.results)?;
                let ghost pre = *self;
                let ghost mut copies = TrueCopies::Noop;
                if branched && self.reachable {
                    self.emit_fallthrough(f.results)?;
                    proof {
                        copies = choose|copies: TrueCopies| {
                            &&& #[trigger] analysis(copies, f.results, top(pre.providers@, f.results.len as int), self.arena@)
                            &&& copies_emitted(copies, pre.inst_builder.insts(), pre.arena@,
                                self.inst_builder.insts(), self.arena@)
                        };
                    }
                }
                let ghost post_copies = *self;
                self.pin(f.end_label());
                if branched || !self.reachable {
                    self.push_results(height, f.results);
                }
                self.reachable = self.reachable || branched;
                proof {
                    chosen = copies;
                    if branched && old(self).reachable {
                        assert(analysis(copies, f.results, top(old(self).providers@, f.results.len as int), self.arena@));
                        assert(copies_emitted(copies, old(self).inst_builder.insts(), old(self).arena@,
                            self.inst_builder.insts(), self.arena@));
                    }
                }
            },
            ControlFrame::Loop(f) => {
                let height = f.stack_height() as usize;
                if height > self.providers.len() {
                    return Err(TranslationError::MalformedInput);
                }
                self.check_results(height, f.end_results)?;
                if !self.reachable {
                    self.push_results(height, f.end_results);
                }
            },
            ControlFrame::If(f) => {
                let height = f.stack_height() as usize;
                if height > self.providers.len() {
                    return Err(TranslationError::MalformedInput);
                }
                self.check_results(height, f.results)?;
                if self.if_inputs.len() == 0 || self.else_seen.len() == 0 {
                    return Err(TranslationError::MalformedInput);
                }
                let li = self.if_inputs.len() - 1;
                let no_else = !self.else_seen[self.else_seen.len() - 1];
                let n_saved = self.if_inputs[li].len();
                let mut saved: Vec<IrProvider> = Vec::new();
                let mut k: usize = 0;
                while k < n_saved
                    invariant
                        li < self.if_inputs@.len(),
                        n_saved == self.if_inputs@[li as int]@.len(),
                        k <= n_saved,
                        saved@ == self.if_inputs@[li as int]@.subrange(0, k as int),
                    decreases n_saved - k,
                {
                    saved.push(self.if_inputs[li][k]);
                    proof {
                        assert(self.if_inputs@[li as int]@.subrange(0, k + 1) =~= saved@);
                    }
                    k += 1;
                }
                proof {
                    assert(self.if_inputs@[li as int]@.subrange(0, n_saved as int) =~= saved@);
                    assert(self.if_inputs == old(self).if_inputs);
                    assert(old(self).if_state().0[li as int] == old(self).if_inputs@[li as int]@);
                    assert(old(self).if_state().0.last() == saved@);
                }
                if no_else && saved.len() != f.results.len() as usize {
                    return Err(TranslationError::MalformedInput);
                }
                proof {
                    assert(owns(self.control@[index as int], f.end_label));
                }
                let only_then = matches!(f.reachability, IfReachability::OnlyThen);
                if no_else && !only_then {
                    if let IfReachability::Both(info) = f.reachability {
                        if self.reachable {
                            let ghost start = *self;
                            let inputs = self.alloc_top(f.results.len() as usize)?;
                            let ghost mid = *self;
                            self.emit_br(f.end_label(), f.results, inputs);
                            proof {
                                let xs = top(start.providers@, f.results.len as int);
                                assert(slice_of(mid.arena@, inputs) =~= xs);
                                chosen_br = choose|copies: TrueCopies| {
                                    &&& #[trigger] analysis(copies, f.results, slice_of(mid.arena@, inputs), mid.arena@)
                                    &&& self.inst_builder.insts() == mid.inst_builder.insts() + br_instrs(copies, f.end_label)
                                };
                                assert(analysis(chosen_br, f.results, xs, self.arena@));
                            }
                        }
                        self.pin(info.else_label());
                    }
                    let ghost pre = *self;
                    self.emit_copies(f.results, saved.as_slice());
                    proof {
                        chosen = choose|copies: TrueCopies| {
                            &&& #[trigger] analysis(copies, f.results, saved@, self.arena@)
                            &&& copies_emitted(copies, pre.inst_builder.insts(), pre.arena@, self.inst_builder.insts(), self.arena@)
                        };
                    }
                    self.reachable = true;
                } else if self.reachable {
                    let ghost pre = *self;
                    self.emit_fallthrough(f.results)?;
                    proof {
                        chosen = choose|copies: TrueCopies| {
                            &&& #[trigger] analysis(copies, f.results, top(pre.providers@, f.results.len as int), self.arena@)
                            &&& copies_emitted(copies, pre.inst_builder.insts(), pre.arena@, self.inst_builder.insts(), self.arena@)
                        };
                    }
                    self.reachable = self.reachable || branched;
                } else {
                    self.reachable = branched;
                }
                let ghost before_pins = *self;
                self.pin(f.end_label());
                if let IfReachability::Both(info) = f.reachability {
                    self.pin(info.else_label());
                }
                self.push_results(height, f.results);
                let ghost inputs_before = self.if_inputs@;
                let ghost seen_before = self.else_seen@;
                self.if_inputs.pop();
                self.else_seen.pop();
                proof {
                    assert(self.if_inputs@ =~= inputs_before.drop_last());
                    assert(self.else_seen@ =~= seen_before.drop_last());
                }
            },
            ControlFrame::Unreachable(f) => {
                if let ControlFrameKind::If = f.kind() {
                    if self.if_inputs.len() == 0 || self.else_seen.len() == 0 {
                        return Err(TranslationError::MalformedInput);
                    }
                    let ghost inputs_before = self.if_inputs@;
                    self.if_inputs.pop();
                    self.else_seen.pop();
                    proof {
                        assert(self.if_inputs@ =~= inputs_before.drop_last());
                    }
                }
            },
        }
        proof {
            assert(self.control@ == old(self).control@);
            assert forall|l: LabelRef| owns(self.control@.last(), l) implies #[trigger] label_pinned(self.inst_builder.labels(), l) by {
                match frame {
                    ControlFrame::Loop(f) => {
                        assert(frame_ok(self.control@.last(), self.inst_builder.labels()));
                    },
                    _ => {},
                }
            }
        }
        self.pop_frame();
        proof {
            let a = *old(self);
            match frame {
                ControlFrame::Unreachable(f) => {
                    if f.kind is If {
                        assert(self.if_state().0 =~= a.if_state().0.drop_last());
                        assert(self.if_state().1 =~= a.if_state().1.drop_last());
                    }
                    assert(self.if_state() == a.if_state() || f.kind is If);
                    assert(end_post(a, *self));
                },
                ControlFrame::Block(f) => {
                    assert(self.labels() == pinned_at(a.labels(), f.end_label, self.insts().len() as int));
                    assert(self.if_state() == a.if_state());
                    assert(self.layout() == a.layout());
                    assert(self.branch_flags() == a.branch_flags().drop_last());
                    assert(self.operands() == if a.branch_flags()[index as int] || !a.is_reachable() {
                        a.operands().subrange(0, f.stack_height as int) + result_regs(f.results)
                    } else {
                        a.operands()
                    });
                    assert(self.is_reachable() == (a.is_reachable() || a.branch_flags()[index as int]));
                    let flagged = a.branch_flags()[index as int];
                    if flagged && a.is_reachable() {
                        assert(analysis(chosen, f.results, top(a.operands(), f.results.len as int), self.slice_arena()));
                        assert(copies_emitted(chosen, a.insts(), a.slice_arena(), self.insts(), self.slice_arena()));
                    } else {
                        assert(self.insts() == a.insts());
                        assert(self.slice_arena() == a.slice_arena());
                    }
                    assert(a.frames()[a.frames().len() - 1] == frame);
                    assert(end_post(a, *self));
                },
                ControlFrame::Loop(f) => {
                    assert(self.if_state() == a.if_state());
                    assert(self.insts() == a.insts());
                    assert(self.labels() == a.labels());
                    assert(end_post(a, *self));
                },
                ControlFrame::If(f) => {
                    let flagged = a.branch_flags()[index as int];
                    let n = f.results.len as int;
                    let xs = top(a.operands(), n);
                    let saved = a.if_state().0.last();
                    let no_else = !a.if_state().1.last();
                    assert(self.if_state().0 =~= a.if_state().0.drop_last());
                    assert(self.if_state().1 =~= a.if_state().1.drop_last());
                    if no_else && !(f.reachability is OnlyThen) {
                        let both = a.is_reachable() && f.reachability is Both;
                        let insts1 = if both { a.insts() + br_instrs(chosen_br, f.end_label) } else { a.insts() };
                        let arena1 = if both { a.slice_arena() + xs } else { a.slice_arena() };
                        if both {
                            assert(analysis(chosen_br, f.results, xs, arena1));
                        }
                        assert(analysis(chosen, f.results, saved, self.slice_arena()));
                        assert(copies_emitted(chosen, insts1, arena1, self.insts(), self.slice_arena()));
                        let labels1 = match f.reachability {
                            IfReachability::Both(info) => pinned_at(a.labels(), info.else_label, insts1.len() as int),
                            _ => a.labels(),
                        };
                        assert(self.is_reachable());
                        let p = pinned_at(labels1, f.end_label, self.insts().len() as int);
                        assert(self.labels() == match f.reachability {
                            IfReachability::Both(info) => pinned_at(p, info.else_label, self.insts().len() as int),
                            _ => p,
                        });
                        assert(a.insts().is_prefix_of(self.insts()));
                        assert(a.slice_arena().is_prefix_of(self.slice_arena()));
                    } else if a.is_reachable() {
                        assert(analysis(chosen, f.results, xs, self.slice_arena()));
                        assert(copies_emitted(chosen, a.insts(), a.slice_arena(), self.insts(), self.slice_arena()));
                    }
                    assert(self.operands() == a.operands().subrange(0, f.stack_height as int) + result_regs(f.results));
                    if !(no_else && !(f.reachability is OnlyThen)) {
                        assert(self.is_reachable() == (a.is_reachable() || flagged));
                        assert(self.labels() == if_pins(f, a.labels(), self.insts().len() as int));
                        if !a.is_reachable() {
                            assert(self.insts() == a.insts());
                            assert(self.slice_arena() == a.slice_arena());
                        }
                    }
                    assert(self.if_state() == (a.if_state().0.drop_last(), a.if_state().1.drop_last()));
                    assert(if_end_post(a, *self, f, flagged));
                    assert(end_post(a, *self));
                },
                _ => {
                    assert(end_post(a, *self));
                },
            }
        }
        Ok(())
    }

    /// Checks that the results of a frame fit the operand stack above `height`.
    fn check_results(&self, height: usize, results: IrRegisterSlice) -> (r: Result<(), TranslationError>)
        ensures
            r is Ok <==> height <= MAX_STACK && height + results.len <= MAX_STACK,
    {
        if height > MAX_STACK || results.len() as usize > MAX_STACK - height {
            return Err(TranslationError::LimitExceeded);
        }
        Ok(())
    }

    /// Translates one operator.
    ///
    /// Fails where the operators are not a well-formed function body (an
    /// operator after the final `end`, a value missing on the stack, a branch
    /// beyond the outermost frame, a local that does not exist), or where the
    /// function outgrows the encoding's limits.
    pub fn translate(&mut self, op: Operator) -> (r: Result<(), TranslationError>)
        requires
            old(self).wf(),
        ensures
            final(self).wf(),
            old(self).is_complete() ==> r == Err::<(), TranslationError>(TranslationError::MalformedInput),
            targets_ok(final(self).insts(), final(self).labels(), final(self).frames()),
            r is Ok ==> translated(*old(self), op, *final(self)),
            op_valid(*old(self), op) ==> r is Ok,
    {
        if self.control.len() == 0 {
            return Err(TranslationError::MalformedInput);
        }
        if !self.has_room() {
            return Err(TranslationError::LimitExceeded);
        }
        match op {
            Operator::LocalGet(index) => {
                if index >= self.len_locals as u32 {
                    return Err(TranslationError::MalformedInput);
                }
                self.push_provider(IrProvider::Register(IrRegister::Local(index as usize)))
            },
            Operator::I32Const(value) => self.push_provider(IrProvider::Immediate((value as u32) as u64)),
            Operator::I64Const(value) => self.push_provider(IrProvider::Immediate(value as u64)),
            Operator::F32Const(bits) => self.push_provider(IrProvider::Immediate(bits as u64)),
            Operator::F64Const(bits) => self.push_provider(IrProvider::Immediate(bits)),
            Operator::Block(block_type) => self.translate_block(block_type),
            Operator::Loop(block_type) => self.translate_loop(block_type),
            Operator::If(block_type) => self.translate_if(block_type),
            Operator::Else => self.translate_else(),
            Operator::End => self.translate_end(),
            Operator::Br(depth) => self.translate_br(depth),
            Operator::BrIf(depth) => self.translate_br_if(depth),
            Operator::Return => {
                if self.reachable {
                    self.emit_return()?;
                    self.reachable = false;
                }
                Ok(())
            },
            Operator::Drop => {
                let _ = self.pop_provider()?;
                Ok(())
            },
            Operator::Unreachable => {
                if self.reachable {
                    self.inst_builder.push_inst(Instruction::Trap { trap_code: TrapCode::Unreachable });
                    self.reachable = false;
                }
                Ok(())
            },
        }
    }

    /// Compiles the translated function into a new body of `engine`.
    ///
    /// Fails where the final `end` has not been translated, and otherwise as
    /// [`InstructionsBuilder::finish`] does; on success every branch of the
    /// function targets a pinned label.
    pub fn finish(&mut self, engine: &mut EngineInner) -> (r: Result<FuncBody, TranslationError>)
        requires
            old(self).wf(),
            old(engine).wf(),
        ensures
            final(engine).wf(),
            !old(self).is_complete() ==> r == Err::<FuncBody, TranslationError>(TranslationError::MalformedInput),
            r matches Ok(body) ==> {
                let entry = final(engine).code_map.bodies().last();
                &&& body.0 == old(engine).code_map.bodies().len()
                &&& final(engine).code_map.bodies() == old(engine).code_map.bodies().push(entry)
                &&& entry.len_regs == old(self).layout().0 + old(self).layout().2
                &&& entry.insts@.len() == old(self).insts().len()
                &&& forall|i: int| 0 <= i < old(self).insts().len() ==> compiles_to(
                    old(self).compile_env(),
                    final(engine).res.const_pool@,
                    final(engine).res.provider_pool,
                    i,
                    old(self).insts()[i],
                    #[trigger] entry.insts@[i],
                )
                &&& forall|i: int| 0 <= i < old(self).insts().len() ==>
                    (#[trigger] ir_target(old(self).insts()[i]) matches Some(l)
                        ==> l.0 < old(self).labels().len() && old(self).labels()[l.0 as int] is Pinned)
            },
            r is Err ==> final(engine).code_map == old(engine).code_map,
            old(self).is_complete()
                && old(self).layout().0 + old(self).layout().2 <= u16::MAX
                && (forall|i: int| 0 <= i < old(self).insts().len() ==>
                    compilable(old(self).compile_env(), i, #[trigger] old(self).insts()[i]))
                && old(engine).res.const_pool@.len() + total_const_demand(old(self).insts()) <= MAX_CONSTS
                && old(engine).res.provider_pool.providers().len() + total_slice_demand(old(self).insts()) <= u16::MAX
                && old(engine).code_map.bodies().len() < u32::MAX ==> r is Ok,
    {
        if self.control.len() != 0 {
            return Err(TranslationError::MalformedInput);
        }
        let layout = RegisterLayout { len_locals: self.len_locals, len_dynamic: self.max_dynamic };
        if self.len_locals as usize + self.max_dynamic as usize > u16::MAX as usize {
            return Err(TranslationError::LimitExceeded);
        }
        self.inst_builder.finish(engine, &self.arena, layout)
    }
}

/// Every branch that the translator emits targets a pinned label once the
/// function body is complete: while it is open, the target is pinned or owned
/// by an enclosing frame, and a frame pins its labels when it ends.
pub proof fn lemma_complete_branches_pinned(b: FunctionBuilder)
    requires
        b.wf(),
        b.is_complete(),
    ensures
        forall|i: int| 0 <= i < b.insts().len() ==>
            (#[trigger] ir_target(b.insts()[i]) matches Some(l) ==> l.0 < b.labels().len() && b.labels()[l.0 as int] is Pinned),
{
    assert forall|i: int| 0 <= i < b.insts().len() implies
        (#[trigger] ir_target(b.insts()[i]) matches Some(l) ==> l.0 < b.labels().len() && b.labels()[l.0 as int] is Pinned) by {
        if let Some(l) = ir_target(b.insts()[i]) {
            assert(target_covered(b.labels(), b.frames(), l));
            assert(!owned_by(b.frames(), l));
        }
    }
}

} // verus!
