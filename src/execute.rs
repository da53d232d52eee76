//! The dispatcher's control part: executing the branches, returns, traps and
//! register copies of the executable bytecode on the frame's registers.
//!
//! Instructions that compute values or reach memory, globals, tables or other
//! functions are handed back for evaluation against the instance.

use vstd::prelude::*;
use crate::bytecode::{ExecInstruction, Instruction};
use crate::const_pool::ConstPool;
use crate::error::TrapCode;
use crate::provider::{DedupProviderSliceArena, ExecProvider, ExecProviderSlice};
use crate::registers::{ExecRegister, ExecRegisterSlice};
use crate::stack::{provider_in, provider_value, writes, FrameRegion, Stack, StackFrameRef};

verus! {

/// What executing one instruction leads to.
#[derive(Debug, Copy, Clone, PartialEq, Eq)]
pub enum Outcome {
    /// Execution continues at the instruction with this index of the same function.
    Continue(usize),
    /// The frame returns the values of these providers.
    Return(ExecProviderSlice),
    /// Execution traps.
    Trap(TrapCode),
    /// The instruction computes a value or reaches memory, globals, tables or
    /// another function: it is evaluated against the instance.
    Evaluate(ExecInstruction),
}

/// A 32-bit condition read from a register holds when its low 32 bits are not zero.
pub open spec fn condition_holds(value: u64) -> bool {
    value % 0x1_0000_0000 != 0
}

/// The register lies in the frame's region.
pub open spec fn reg_in(region: FrameRegion, r: ExecRegister) -> bool {
    r.0 < region.len
}

/// The registers of the slice lie in the frame's region.
pub open spec fn rslice_in(region: FrameRegion, s: ExecRegisterSlice) -> bool {
    s.first.0 + s.len <= region.len
}

/// The providers of the slice lie in the arena and refer to the region's
/// registers or to the pool's constants; there are `n` of them.
pub open spec fn pslice_in(region: FrameRegion, consts: Seq<u64>, arena: DedupProviderSliceArena, s: ExecProviderSlice, n: int) -> bool {
    &&& arena.in_bounds(s)
    &&& s.len == n
    &&& forall|k: int| 0 <= k < s.len ==> provider_in(region, consts, #[trigger] arena.contents(s)[k])
}

/// The values that the providers of `s` hold.
pub open spec fn slice_values(values: Seq<u64>, region: FrameRegion, consts: Seq<u64>, arena: DedupProviderSliceArena, s: ExecProviderSlice) -> Seq<u64> {
    Seq::new(s.len as nat, |k: int| provider_value(values, region, consts, arena.contents(s)[k]))
}

/// The index `pc + offset`.
pub open spec fn branch_to(pc: usize, offset: i32) -> int {
    pc + offset
}

/// The instruction refers only to registers of `region`, constants of the
/// pool and slices of the arena, and its branch lands within the function.
pub open spec fn executable(inst: ExecInstruction, region: FrameRegion, consts: Seq<u64>, arena: DedupProviderSliceArena, pc: usize) -> bool {
    let ok_target = |t: crate::bytecode::Target| 0 <= branch_to(pc, t.0) <= usize::MAX;
    match inst {
        Instruction::Br { target } => ok_target(target),
        Instruction::BrMulti { target, results, returned } =>
            ok_target(target) && rslice_in(region, results) && pslice_in(region, consts, arena, returned, results.len as int),
        Instruction::BrEqz { target, condition } => ok_target(target) && reg_in(region, condition) && pc < usize::MAX,
        Instruction::BrNez { target, condition } => ok_target(target) && reg_in(region, condition) && pc < usize::MAX,
        Instruction::BrNezSingle { target, condition, result, returned } =>
            ok_target(target) && reg_in(region, condition) && pc < usize::MAX && reg_in(region, result)
                && provider_in(region, consts, returned),
        Instruction::BrNezMulti { target, condition, results, returned } =>
            ok_target(target) && reg_in(region, condition) && pc < usize::MAX && rslice_in(region, results)
                && pslice_in(region, consts, arena, returned, results.len as int),
        Instruction::ReturnNez { results, condition } => reg_in(region, condition) && pc < usize::MAX,
        Instruction::BrTable { case, len_targets } =>
            reg_in(region, case) && 1 <= len_targets && pc + 1 + len_targets <= usize::MAX,
        Instruction::Copy { result, input } => reg_in(region, result) && reg_in(region, input) && pc < usize::MAX,
        Instruction::CopyImm { result, input } => reg_in(region, result) && input.0 < consts.len() && pc < usize::MAX,
        Instruction::CopyMany { results, inputs } =>
            rslice_in(region, results) && pslice_in(region, consts, arena, inputs, results.len as int) && pc < usize::MAX,
        Instruction::Select { result, condition, if_true, if_false } =>
            reg_in(region, result) && reg_in(region, condition) && provider_in(region, consts, if_true)
                && provider_in(region, consts, if_false) && pc < usize::MAX,
        _ => true,
    }
}

/// What executing `inst` at `pc` in a frame with registers `region` does to
/// the register values `before`, giving `after`, and where it leads.
pub open spec fn step_post(
    inst: ExecInstruction,
    region: FrameRegion,
    consts: Seq<u64>,
    arena: DedupProviderSliceArena,
    pc: usize,
    before: Seq<u64>,
    after: Seq<u64>,
    r: Outcome,
) -> bool {
    let reg = |x: ExecRegister| before[region.start + x.0];
    let next = Outcome::Continue((pc + 1) as usize);
    let jump = |t: crate::bytecode::Target| Outcome::Continue(branch_to(pc, t.0) as usize);
    match inst {
        Instruction::Br { target } => r == jump(target) && after == before,
        Instruction::BrMulti { target, results, returned } => r == jump(target)
            && after == writes(before, region.start + results.first.0, slice_values(before, region, consts, arena, returned)),
        Instruction::BrEqz { target, condition } =>
            r == (if !condition_holds(reg(condition)) { jump(target) } else { next }) && after == before,
        Instruction::BrNez { target, condition } =>
            r == (if condition_holds(reg(condition)) { jump(target) } else { next }) && after == before,
        Instruction::BrNezSingle { target, condition, result, returned } => if condition_holds(reg(condition)) {
            r == jump(target) && after == before.update(region.start + result.0, provider_value(before, region, consts, returned))
        } else {
            r == next && after == before
        },
        Instruction::BrNezMulti { target, condition, results, returned } => if condition_holds(reg(condition)) {
            r == jump(target)
                && after == writes(before, region.start + results.first.0, slice_values(before, region, consts, arena, returned))
        } else {
            r == next && after == before
        },
        Instruction::Return { results } => r == Outcome::Return(results) && after == before,
        Instruction::ReturnNez { results, condition } =>
            r == (if condition_holds(reg(condition)) { Outcome::Return(results) } else { next }) && after == before,
        Instruction::BrTable { case, len_targets } => {
            let index = (reg(case) % 0x1_0000_0000) as int;
            let chosen = if index < len_targets { index } else { (len_targets - 1) as int };
            r == Outcome::Continue((pc + 1 + chosen) as usize) && after == before
        },
        Instruction::Trap { trap_code } => r == Outcome::Trap(trap_code) && after == before,
        Instruction::Copy { result, input } => r == next && after == before.update(region.start + result.0, reg(input)),
        Instruction::CopyImm { result, input } => r == next && after == before.update(region.start + result.0, consts[input.0 as int]),
        Instruction::CopyMany { results, inputs } => r == next
            && after == writes(before, region.start + results.first.0, slice_values(before, region, consts, arena, inputs)),
        Instruction::Select { result, condition, if_true, if_false } => r == next && after == before.update(
            region.start + result.0,
            provider_value(before, region, consts, if condition_holds(reg(condition)) { if_true } else { if_false }),
        ),
        _ => r == Outcome::Evaluate(inst) && after == before,
    }
}

/// Returns `pc + offset`.
fn jump(pc: usize, offset: i32) -> (r: Outcome)
    requires
        0 <= branch_to(pc, offset) <= usize::MAX,
    ensures
        r == Outcome::Continue(branch_to(pc, offset) as usize),
{
    if offset >= 0 {
        Outcome::Continue(pc + offset as usize)
    } else {
        let back = (-(offset as i64)) as usize;
        Outcome::Continue(pc - back)
    }
}

/// Returns the values of the providers of `s` in the frame.
fn load_slice(
    stack: &Stack,
    frame_ref: StackFrameRef,
    consts: &ConstPool,
    arena: &DedupProviderSliceArena,
    s: ExecProviderSlice,
) -> (r: Vec<u64>)
    requires
        stack.wf(),
        frame_ref.0 < stack.frames().len(),
        pslice_in(stack.frames()[frame_ref.0 as int].region, consts@, *arena, s, s.len as int),
    ensures
        r@ == slice_values(stack.values(), stack.frames()[frame_ref.0 as int].region, consts@, *arena, s),
{
    let providers = arena.resolve(s);
    let mut out: Vec<u64> = Vec::new();
    let mut k: usize = 0;
    while k < providers.len()
        invariant
            stack.wf(),
            frame_ref.0 < stack.frames().len(),
            providers@ == arena.contents(s),
            providers@.len() == s.len,
            pslice_in(stack.frames()[frame_ref.0 as int].region, consts@, *arena, s, s.len as int),
            k <= providers@.len(),
            out@ =~= slice_values(stack.values(), stack.frames()[frame_ref.0 as int].region, consts@, *arena, s).subrange(0, k as int),
        decreases providers@.len() - k,
    {
        let v = stack.provider_value_at(frame_ref, providers[k], consts);
        out.push(v);
        k += 1;
    }
    out
}

/// Executes the control or copy instruction `inst` at `pc` in the frame at
/// `frame_ref`: branches, returns, traps, copies and `select`. Any other
/// instruction is handed back as [`Outcome::Evaluate`] without effect.
pub fn execute_control(
    stack: &mut Stack,
    frame_ref: StackFrameRef,
    pc: usize,
    inst: ExecInstruction,
    consts: &ConstPool,
    arena: &DedupProviderSliceArena,
) -> (r: Outcome)
    requires
        old(stack).wf(),
        frame_ref.0 < old(stack).frames().len(),
        executable(inst, old(stack).frames()[frame_ref.0 as int].region, consts@, *arena, pc),
    ensures
        final(stack).wf(),
        final(stack).frames() == old(stack).frames(),
        final(stack).limits() == old(stack).limits(),
        step_post(inst, old(stack).frames()[frame_ref.0 as int].region, consts@, *arena, pc, old(stack).values(), final(stack).values(), r),
{
    let ghost region = stack.frames()[frame_ref.0 as int].region;
    match inst {
        Instruction::Br { target } => jump(pc, target.0),
        Instruction::BrMulti { target, results, returned } => {
            let vals = load_slice(stack, frame_ref, consts, arena, returned);
            stack.set_many(frame_ref, results.first.0, vals.as_slice());
            jump(pc, target.0)
        },
        Instruction::BrEqz { target, condition } => {
            if stack.get(frame_ref, condition.0) % 0x1_0000_0000 == 0 {
                jump(pc, target.0)
            } else {
                Outcome::Continue(pc + 1)
            }
        },
        Instruction::BrNez { target, condition } => {
            if stack.get(frame_ref, condition.0) % 0x1_0000_0000 != 0 {
                jump(pc, target.0)
            } else {
                Outcome::Continue(pc + 1)
            }
        },
        Instruction::BrNezSingle { target, condition, result, returned } => {
            if stack.get(frame_ref, condition.0) % 0x1_0000_0000 != 0 {
                let v = stack.provider_value_at(frame_ref, returned, consts);
                stack.set(frame_ref, result.0, v);
                jump(pc, target.0)
            } else {
                Outcome::Continue(pc + 1)
            }
        },
        Instruction::BrNezMulti { target, condition, results, returned } => {
            if stack.get(frame_ref, condition.0) % 0x1_0000_0000 != 0 {
                let vals = load_slice(stack, frame_ref, consts, arena, returned);
                stack.set_many(frame_ref, results.first.0, vals.as_slice());
                jump(pc, target.0)
            } else {
                Outcome::Continue(pc + 1)
            }
        },
        Instruction::Return { results } => Outcome::Return(results),
        Instruction::ReturnNez { results, condition } => {
            if stack.get(frame_ref, condition.0) % 0x1_0000_0000 != 0 {
                Outcome::Return(results)
            } else {
                Outcome::Continue(pc + 1)
            }
        },
        Instruction::BrTable { case, len_targets } => {
            let index = stack.get(frame_ref, case.0) % 0x1_0000_0000;
            let chosen = if (index as usize) < len_targets { index as usize } else { len_targets - 1 };
            Outcome::Continue(pc + 1 + chosen)
        },
        Instruction::Trap { trap_code } => Outcome::Trap(trap_code),
        Instruction::Copy { result, input } => {
            let v = stack.get(frame_ref, input.0);
            stack.set(frame_ref, result.0, v);
            Outcome::Continue(pc + 1)
        },
        Instruction::CopyImm { result, input } => {
            let v = match consts.resolve(input) {
                Some(v) => v,
                None => 0,
            };
            stack.set(frame_ref, result.0, v);
            Outcome::Continue(pc + 1)
        },
        Instruction::CopyMany { results, inputs } => {
            let vals = load_slice(stack, frame_ref, consts, arena, inputs);
            stack.set_many(frame_ref, results.first.0, vals.as_slice());
            Outcome::Continue(pc + 1)
        },
        Instruction::Select { result, condition, if_true, if_false } => {
            let chosen = if stack.get(frame_ref, condition.0) % 0x1_0000_0000 != 0 { if_true } else { if_false };
            let v = stack.provider_value_at(frame_ref, chosen, consts);
            stack.set(frame_ref, result.0, v);
            Outcome::Continue(pc + 1)
        },
        _ => Outcome::Evaluate(inst),
    }
}

} // verus!
