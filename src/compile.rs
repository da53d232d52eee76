//! The compiler from translation-time IR to executable bytecode, and the
//! code map that holds compiled function bodies.

use vstd::prelude::*;
use crate::bytecode::{ExecInstruction, Instruction, IrInstruction, Target};
use crate::const_pool::{ConstPool, ConstRef, MAX_CONSTS};
use crate::error::TranslationError;
use crate::inst_builder::MAX_INSTRS;
use crate::labels::{Label, LabelRef, LabelRegistry};
use crate::provider::{
    DedupProviderSliceArena, ExecProvider, ExecProviderSlice, IrProvider, IrProviderSlice,
    ProviderSliceArena, RegisterOrImmediate,
};
use crate::registers::{ExecRegister, ExecRegisterSlice, IrRegister, IrRegisterSlice};

verus! {

/// How IR registers map onto the register window of a frame: the locals
/// first, the dynamic registers above them.
#[derive(Debug, Copy, Clone, PartialEq, Eq, Structural)]
pub struct RegisterLayout {
    pub len_locals: u16,
    pub len_dynamic: u16,
}

impl RegisterLayout {
    /// All registers of the layout have a 16-bit index.
    pub open spec fn wf(self) -> bool {
        self.len_locals + self.len_dynamic <= u16::MAX
    }

    /// The IR register belongs to the layout.
    pub open spec fn valid(self, r: IrRegister) -> bool {
        match r {
            IrRegister::Local(i) => i < self.len_locals,
            IrRegister::Dynamic(i) => i < self.len_dynamic,
        }
    }

    /// The index of the executable register that the IR register maps to.
    pub open spec fn index_of(self, r: IrRegister) -> int {
        match r {
            IrRegister::Local(i) => i as int,
            IrRegister::Dynamic(i) => self.len_locals + i,
        }
    }

    /// Returns the number of registers of a frame with this layout.
    pub fn len_registers(&self) -> (r: u16)
        requires
            self.wf(),
        ensures
            r == self.len_locals + self.len_dynamic,
    {
        self.len_locals + self.len_dynamic
    }

    /// Returns the executable register that `register` maps to.
    pub fn compile_register(&self, register: IrRegister) -> (r: Result<ExecRegister, TranslationError>)
        requires
            self.wf(),
        ensures
            r is Ok <==> self.valid(register),
            r matches Ok(e) ==> e.0 == self.index_of(register),
            r matches Err(e) ==> e == TranslationError::InvalidReference,
    {
        match register {
            IrRegister::Local(i) => {
                if i < self.len_locals as usize {
                    Ok(ExecRegister(i as u16))
                } else {
                    Err(TranslationError::InvalidReference)
                }
            },
            IrRegister::Dynamic(i) => {
                if i < self.len_dynamic as usize {
                    Ok(ExecRegister(self.len_locals + i as u16))
                } else {
                    Err(TranslationError::InvalidReference)
                }
            },
        }
    }
}

/// What compiling a function body reads: its register layout, its labels and
/// the IR provider slices.
pub struct CompileEnv {
    pub layout: RegisterLayout,
    pub labels: LabelRegistry,
    pub ir_arena: ProviderSliceArena,
}

/// The context that compiling a function body reads.
pub struct CompileContext<'a> {
    /// The register layout of the function's frames.
    pub layout: RegisterLayout,
    /// The IR provider slices that the instructions refer to.
    pub provider_slices: &'a ProviderSliceArena,
    /// The labels that the instructions refer to.
    pub labels: &'a LabelRegistry,
}

impl<'a> CompileContext<'a> {
    /// The context as a value.
    pub open spec fn spec_env(&self) -> CompileEnv {
        CompileEnv { layout: self.layout, labels: *self.labels, ir_arena: *self.provider_slices }
    }

    /// The layout and the IR arena are well-formed.
    pub open spec fn wf(&self) -> bool {
        self.layout.wf() && self.provider_slices.wf()
    }
}

/// `e` is the executable form of the IR register `r`.
pub open spec fn reg_ok(layout: RegisterLayout, r: IrRegister, e: ExecRegister) -> bool {
    layout.valid(r) && e.0 == layout.index_of(r)
}

/// All registers of the IR register slice belong to the layout.
pub open spec fn rslice_valid(layout: RegisterLayout, s: IrRegisterSlice) -> bool {
    s.len == 0 || (layout.valid(s.start) && layout.valid(s.nth(s.len - 1)))
}

/// `e` is the executable form of the IR register slice `s`.
pub open spec fn rslice_ok(layout: RegisterLayout, s: IrRegisterSlice, e: ExecRegisterSlice) -> bool {
    &&& rslice_valid(layout, s)
    &&& if s.len == 0 {
        e == ExecRegisterSlice { first: ExecRegister(0), len: 0 }
    } else {
        e.first.0 == layout.index_of(s.start) && e.len == s.len
    }
}

/// The IR provider refers to a register of the layout or to an immediate.
pub open spec fn prov_valid(layout: RegisterLayout, p: IrProvider) -> bool {
    p matches IrProvider::Register(r) ==> layout.valid(r)
}

/// The constant `c` of `pool` holds the bits `v`.
pub open spec fn imm_ok(pool: Seq<u64>, v: u64, c: ConstRef) -> bool {
    c.0 < pool.len() && pool[c.0 as int] == v
}

/// `e` is the executable form of the IR provider `p`.
pub open spec fn prov_ok(layout: RegisterLayout, pool: Seq<u64>, p: IrProvider, e: ExecProvider) -> bool {
    &&& e.wf()
    &&& match p {
        IrProvider::Register(r) => layout.valid(r) && e@ == RegisterOrImmediate::Register(
            ExecRegister(layout.index_of(r) as u16),
        ),
        IrProvider::Immediate(v) => e@ matches RegisterOrImmediate::Immediate(c) && imm_ok(pool, v, c),
    }
}

/// The IR provider slice lies in the IR arena and all its providers are valid.
pub open spec fn pslice_valid(env: CompileEnv, s: IrProviderSlice) -> bool {
    &&& env.ir_arena.in_bounds(s)
    &&& forall|k: int| 0 <= k < s.len ==> prov_valid(env.layout, #[trigger] env.ir_arena.contents(s)[k])
}

/// `e` is a slice of `arena` that holds the executable forms of the providers of `s`.
pub open spec fn pslice_ok(
    env: CompileEnv,
    pool: Seq<u64>,
    arena: DedupProviderSliceArena,
    s: IrProviderSlice,
    e: ExecProviderSlice,
) -> bool {
    &&& pslice_valid(env, s)
    &&& arena.slices().contains(e)
    &&& arena.contents(e).len() == s.len
    &&& forall|k: int| 0 <= k < s.len ==> prov_ok(env.layout, pool, env.ir_arena.contents(s)[k], #[trigger] arena.contents(e)[k])
}

/// The label is pinned and its distance from `pc` fits a branch offset.
pub open spec fn target_valid(labels: LabelRegistry, l: LabelRef, pc: int) -> bool {
    &&& labels.contains(l)
    &&& labels@[l.0 as int] matches Label::Pinned(i) && i32::MIN <= i.0 - pc <= i32::MAX
}

/// `t` is the distance from `pc` to the instruction that `l` is pinned to.
pub open spec fn target_ok(labels: LabelRegistry, l: LabelRef, pc: int, t: Target) -> bool {
    &&& labels.contains(l)
    &&& labels@[l.0 as int] matches Label::Pinned(i) && t.0 == i.0 - pc
}

/// The branch target of an IR instruction, if it has one.
pub open spec fn ir_target(ir: IrInstruction) -> Option<LabelRef> {
    match ir {
        Instruction::Br { target } => Some(target),
        Instruction::BrMulti { target, .. } => Some(target),
        Instruction::BrEqz { target, .. } => Some(target),
        Instruction::BrNez { target, .. } => Some(target),
        Instruction::BrNezSingle { target, .. } => Some(target),
        Instruction::BrNezMulti { target, .. } => Some(target),
        _ => None,
    }
}

/// The branch offset of an executable instruction, if it has one.
pub open spec fn exec_target(ex: ExecInstruction) -> Option<Target> {
    match ex {
        Instruction::Br { target } => Some(target),
        Instruction::BrMulti { target, .. } => Some(target),
        Instruction::BrEqz { target, .. } => Some(target),
        Instruction::BrNez { target, .. } => Some(target),
        Instruction::BrNezSingle { target, .. } => Some(target),
        Instruction::BrNezMulti { target, .. } => Some(target),
        _ => None,
    }
}


/// `ex` is the executable form of the IR instruction `ir` at position `pc`:
/// registers are mapped by `ctx`, immediates are the pool's constants of the
/// same bits, provider slices are arena slices of the compiled providers, and
/// labels became the distance from `pc` to the instruction they are pinned to.
pub open spec fn compiles_to(env: CompileEnv, pool: Seq<u64>, arena: DedupProviderSliceArena, pc: int, ir: IrInstruction, ex: ExecInstruction) -> bool {
    match ir {
        Instruction::Br { target } => match ex {
            Instruction::Br { target: target_x } => target_ok(env.labels, target, pc, target_x),
            _ => false,
        },
        Instruction::BrMulti { target, results, returned } => match ex {
            Instruction::BrMulti { target: target_x, results: results_x, returned: returned_x } => target_ok(env.labels, target, pc, target_x) && rslice_ok(env.layout, results, results_x) && pslice_ok(env, pool, arena, returned, returned_x),
            _ => false,
        },
        Instruction::BrEqz { target, condition } => match ex {
            Instruction::BrEqz { target: target_x, condition: condition_x } => target_ok(env.labels, target, pc, target_x) && reg_ok(env.layout, condition, condition_x),
            _ => false,
        },
        Instruction::BrNez { target, condition } => match ex {
            Instruction::BrNez { target: target_x, condition: condition_x } => target_ok(env.labels, target, pc, target_x) && reg_ok(env.layout, condition, condition_x),
            _ => false,
        },
        Instruction::BrNezSingle { target, condition, result, returned } => match ex {
            Instruction::BrNezSingle { target: target_x, condition: condition_x, result: result_x, returned: returned_x } => target_ok(env.labels, target, pc, target_x) && reg_ok(env.layout, condition, condition_x) && reg_ok(env.layout, result, result_x) && prov_ok(env.layout, pool, returned, returned_x),
            _ => false,
        },
        Instruction::BrNezMulti { target, condition, results, returned } => match ex {
            Instruction::BrNezMulti { target: target_x, condition: condition_x, results: results_x, returned: returned_x } => target_ok(env.labels, target, pc, target_x) && reg_ok(env.layout, condition, condition_x) && rslice_ok(env.layout, results, results_x) && pslice_ok(env, pool, arena, returned, returned_x),
            _ => false,
        },
        Instruction::ReturnNez { results, condition } => match ex {
            Instruction::ReturnNez { results: results_x, condition: condition_x } => pslice_ok(env, pool, arena, results, results_x) && reg_ok(env.layout, condition, condition_x),
            _ => false,
        },
        Instruction::BrTable { case, len_targets } => match ex {
            Instruction::BrTable { case: case_x, len_targets: len_targets_x } => reg_ok(env.layout, case, case_x) && len_targets == len_targets_x,
            _ => false,
        },
        Instruction::Trap { trap_code } => match ex {
            Instruction::Trap { trap_code: trap_code_x } => trap_code == trap_code_x,
            _ => false,
        },
        Instruction::Return { results } => match ex {
            Instruction::Return { results: results_x } => pslice_ok(env, pool, arena, results, results_x),
            _ => false,
        },
        Instruction::Call { func_idx, results, params } => match ex {
            Instruction::Call { func_idx: func_idx_x, results: results_x, params: params_x } => func_idx == func_idx_x && rslice_ok(env.layout, results, results_x) && pslice_ok(env, pool, arena, params, params_x),
            _ => false,
        },
        Instruction::CallIndirect { func_type_idx, results, index, params } => match ex {
            Instruction::CallIndirect { func_type_idx: func_type_idx_x, results: results_x, index: index_x, params: params_x } => func_type_idx == func_type_idx_x && rslice_ok(env.layout, results, results_x) && prov_ok(env.layout, pool, index, index_x) && pslice_ok(env, pool, arena, params, params_x),
            _ => false,
        },
        Instruction::Copy { result, input } => match ex {
            Instruction::Copy { result: result_x, input: input_x } => reg_ok(env.layout, result, result_x) && reg_ok(env.layout, input, input_x),
            _ => false,
        },
        Instruction::CopyImm { result, input } => match ex {
            Instruction::CopyImm { result: result_x, input: input_x } => reg_ok(env.layout, result, result_x) && imm_ok(pool, input, input_x),
            _ => false,
        },
        Instruction::CopyMany { results, inputs } => match ex {
            Instruction::CopyMany { results: results_x, inputs: inputs_x } => rslice_ok(env.layout, results, results_x) && pslice_ok(env, pool, arena, inputs, inputs_x),
            _ => false,
        },
        Instruction::Select { result, condition, if_true, if_false } => match ex {
            Instruction::Select { result: result_x, condition: condition_x, if_true: if_true_x, if_false: if_false_x } => reg_ok(env.layout, result, result_x) && reg_ok(env.layout, condition, condition_x) && prov_ok(env.layout, pool, if_true, if_true_x) && prov_ok(env.layout, pool, if_false, if_false_x),
            _ => false,
        },
        Instruction::GlobalGet { result, global } => match ex {
            Instruction::GlobalGet { result: result_x, global: global_x } => reg_ok(env.layout, result, result_x) && global == global_x,
            _ => false,
        },
        Instruction::GlobalSet { global, value } => match ex {
            Instruction::GlobalSet { global: global_x, value: value_x } => global == global_x && prov_ok(env.layout, pool, value, value_x),
            _ => false,
        },
        Instruction::I32Load { result, ptr, offset } => match ex {
            Instruction::I32Load { result: result_x, ptr: ptr_x, offset: offset_x } => reg_ok(env.layout, result, result_x) && reg_ok(env.layout, ptr, ptr_x) && offset == offset_x,
            _ => false,
        },
        Instruction::I64Load { result, ptr, offset } => match ex {
            Instruction::I64Load { result: result_x, ptr: ptr_x, offset: offset_x } => reg_ok(env.layout, result, result_x) && reg_ok(env.layout, ptr, ptr_x) && offset == offset_x,
            _ => false,
        },
        Instruction::F32Load { result, ptr, offset } => match ex {
            Instruction::F32Load { result: result_x, ptr: ptr_x, offset: offset_x } => reg_ok(env.layout, result, result_x) && reg_ok(env.layout, ptr, ptr_x) && offset == offset_x,
            _ => false,
        },
        Instruction::F64Load { result, ptr, offset } => match ex {
            Instruction::F64Load { result: result_x, ptr: ptr_x, offset: offset_x } => reg_ok(env.layout, result, result_x) && reg_ok(env.layout, ptr, ptr_x) && offset == offset_x,
            _ => false,
        },
        Instruction::I32Load8S { result, ptr, offset } => match ex {
            Instruction::I32Load8S { result: result_x, ptr: ptr_x, offset: offset_x } => reg_ok(env.layout, result, result_x) && reg_ok(env.layout, ptr, ptr_x) && offset == offset_x,
            _ => false,
        },
        Instruction::I32Load8U { result, ptr, offset } => match ex {
            Instruction::I32Load8U { result: result_x, ptr: ptr_x, offset: offset_x } => reg_ok(env.layout, result, result_x) && reg_ok(env.layout, ptr, ptr_x) && offset == offset_x,
            _ => false,
        },
        Instruction::I32Load16S { result, ptr, offset } => match ex {
            Instruction::I32Load16S { result: result_x, ptr: ptr_x, offset: offset_x } => reg_ok(env.layout, result, result_x) && reg_ok(env.layout, ptr, ptr_x) && offset == offset_x,
            _ => false,
        },
        Instruction::I32Load16U { result, ptr, offset } => match ex {
            Instruction::I32Load16U { result: result_x, ptr: ptr_x, offset: offset_x } => reg_ok(env.layout, result, result_x) && reg_ok(env.layout, ptr, ptr_x) && offset == offset_x,
            _ => false,
        },
        Instruction::I64Load8S { result, ptr, offset } => match ex {
            Instruction::I64Load8S { result: result_x, ptr: ptr_x, offset: offset_x } => reg_ok(env.layout, result, result_x) && reg_ok(env.layout, ptr, ptr_x) && offset == offset_x,
            _ => false,
        },
        Instruction::I64Load8U { result, ptr, offset } => match ex {
            Instruction::I64Load8U { result: result_x, ptr: ptr_x, offset: offset_x } => reg_ok(env.layout, result, result_x) && reg_ok(env.layout, ptr, ptr_x) && offset == offset_x,
            _ => false,
        },
        Instruction::I64Load16S { result, ptr, offset } => match ex {
            Instruction::I64Load16S { result: result_x, ptr: ptr_x, offset: offset_x } => reg_ok(env.layout, result, result_x) && reg_ok(env.layout, ptr, ptr_x) && offset == offset_x,
            _ => false,
        },
        Instruction::I64Load16U { result, ptr, offset } => match ex {
            Instruction::I64Load16U { result: result_x, ptr: ptr_x, offset: offset_x } => reg_ok(env.layout, result, result_x) && reg_ok(env.layout, ptr, ptr_x) && offset == offset_x,
            _ => false,
        },
        Instruction::I64Load32S { result, ptr, offset } => match ex {
            Instruction::I64Load32S { result: result_x, ptr: ptr_x, offset: offset_x } => reg_ok(env.layout, result, result_x) && reg_ok(env.layout, ptr, ptr_x) && offset == offset_x,
            _ => false,
        },
        Instruction::I64Load32U { result, ptr, offset } => match ex {
            Instruction::I64Load32U { result: result_x, ptr: ptr_x, offset: offset_x } => reg_ok(env.layout, result, result_x) && reg_ok(env.layout, ptr, ptr_x) && offset == offset_x,
            _ => false,
        },
        Instruction::I32Store { ptr, offset, value } => match ex {
            Instruction::I32Store { ptr: ptr_x, offset: offset_x, value: value_x } => reg_ok(env.layout, ptr, ptr_x) && offset == offset_x && prov_ok(env.layout, pool, value, value_x),
            _ => false,
        },
        Instruction::I64Store { ptr, offset, value } => match ex {
            Instruction::I64Store { ptr: ptr_x, offset: offset_x, value: value_x } => reg_ok(env.layout, ptr, ptr_x) && offset == offset_x && prov_ok(env.layout, pool, value, value_x),
            _ => false,
        },
        Instruction::F32Store { ptr, offset, value } => match ex {
            Instruction::F32Store { ptr: ptr_x, offset: offset_x, value: value_x } => reg_ok(env.layout, ptr, ptr_x) && offset == offset_x && prov_ok(env.layout, pool, value, value_x),
            _ => false,
        },
        Instruction::F64Store { ptr, offset, value } => match ex {
            Instruction::F64Store { ptr: ptr_x, offset: offset_x, value: value_x } => reg_ok(env.layout, ptr, ptr_x) && offset == offset_x && prov_ok(env.layout, pool, value, value_x),
            _ => false,
        },
        Instruction::I32Store8 { ptr, offset, value } => match ex {
            Instruction::I32Store8 { ptr: ptr_x, offset: offset_x, value: value_x } => reg_ok(env.layout, ptr, ptr_x) && offset == offset_x && prov_ok(env.layout, pool, value, value_x),
            _ => false,
        },
        Instruction::I32Store16 { ptr, offset, value } => match ex {
            Instruction::I32Store16 { ptr: ptr_x, offset: offset_x, value: value_x } => reg_ok(env.layout, ptr, ptr_x) && offset == offset_x && prov_ok(env.layout, pool, value, value_x),
            _ => false,
        },
        Instruction::I64Store8 { ptr, offset, value } => match ex {
            Instruction::I64Store8 { ptr: ptr_x, offset: offset_x, value: value_x } => reg_ok(env.layout, ptr, ptr_x) && offset == offset_x && prov_ok(env.layout, pool, value, value_x),
            _ => false,
        },
        Instruction::I64Store16 { ptr, offset, value } => match ex {
            Instruction::I64Store16 { ptr: ptr_x, offset: offset_x, value: value_x } => reg_ok(env.layout, ptr, ptr_x) && offset == offset_x && prov_ok(env.layout, pool, value, value_x),
            _ => false,
        },
        Instruction::I64Store32 { ptr, offset, value } => match ex {
            Instruction::I64Store32 { ptr: ptr_x, offset: offset_x, value: value_x } => reg_ok(env.layout, ptr, ptr_x) && offset == offset_x && prov_ok(env.layout, pool, value, value_x),
            _ => false,
        },
        Instruction::MemorySize { result } => match ex {
            Instruction::MemorySize { result: result_x } => reg_ok(env.layout, result, result_x),
            _ => false,
        },
        Instruction::MemoryGrow { result, amount } => match ex {
            Instruction::MemoryGrow { result: result_x, amount: amount_x } => reg_ok(env.layout, result, result_x) && prov_ok(env.layout, pool, amount, amount_x),
            _ => false,
        },
        Instruction::I32Eq { result, lhs, rhs } => match ex {
            Instruction::I32Eq { result: result_x, lhs: lhs_x, rhs: rhs_x } => reg_ok(env.layout, result, result_x) && reg_ok(env.layout, lhs, lhs_x) && prov_ok(env.layout, pool, rhs, rhs_x),
            _ => false,
        },
        Instruction::I32Ne { result, lhs, rhs } => match ex {
            Instruction::I32Ne { result: result_x, lhs: lhs_x, rhs: rhs_x } => reg_ok(env.layout, result, result_x) && reg_ok(env.layout, lhs, lhs_x) && prov_ok(env.layout, pool, rhs, rhs_x),
            _ => false,
        },
        Instruction::I32LtS { result, lhs, rhs } => match ex {
            Instruction::I32LtS { result: result_x, lhs: lhs_x, rhs: rhs_x } => reg_ok(env.layout, result, result_x) && reg_ok(env.layout, lhs, lhs_x) && prov_ok(env.layout, pool, rhs, rhs_x),
            _ => false,
        },
        Instruction::I32LtU { result, lhs, rhs } => match ex {
            Instruction::I32LtU { result: result_x, lhs: lhs_x, rhs: rhs_x } => reg_ok(env.layout, result, result_x) && reg_ok(env.layout, lhs, lhs_x) && prov_ok(env.layout, pool, rhs, rhs_x),
            _ => false,
        },
        Instruction::I32GtS { result, lhs, rhs } => match ex {
            Instruction::I32GtS { result: result_x, lhs: lhs_x, rhs: rhs_x } => reg_ok(env.layout, result, result_x) && reg_ok(env.layout, lhs, lhs_x) && prov_ok(env.layout, pool, rhs, rhs_x),
            _ => false,
        },
        Instruction::I32GtU { result, lhs, rhs } => match ex {
            Instruction::I32GtU { result: result_x, lhs: lhs_x, rhs: rhs_x } => reg_ok(env.layout, result, result_x) && reg_ok(env.layout, lhs, lhs_x) && prov_ok(env.layout, pool, rhs, rhs_x),
            _ => false,
        },
        Instruction::I32LeS { result, lhs, rhs } => match ex {
            Instruction::I32LeS { result: result_x, lhs: lhs_x, rhs: rhs_x } => reg_ok(env.layout, result, result_x) && reg_ok(env.layout, lhs, lhs_x) && prov_ok(env.layout, pool, rhs, rhs_x),
            _ => false,
        },
        Instruction::I32LeU { result, lhs, rhs } => match ex {
            Instruction::I32LeU { result: result_x, lhs: lhs_x, rhs: rhs_x } => reg_ok(env.layout, result, result_x) && reg_ok(env.layout, lhs, lhs_x) && prov_ok(env.layout, pool, rhs, rhs_x),
            _ => false,
        },
        Instruction::I32GeS { result, lhs, rhs } => match ex {
            Instruction::I32GeS { result: result_x, lhs: lhs_x, rhs: rhs_x } => reg_ok(env.layout, result, result_x) && reg_ok(env.layout, lhs, lhs_x) && prov_ok(env.layout, pool, rhs, rhs_x),
            _ => false,
        },
        Instruction::I32GeU { result, lhs, rhs } => match ex {
            Instruction::I32GeU { result: result_x, lhs: lhs_x, rhs: rhs_x } => reg_ok(env.layout, result, result_x) && reg_ok(env.layout, lhs, lhs_x) && prov_ok(env.layout, pool, rhs, rhs_x),
            _ => false,
        },
        Instruction::I64Eq { result, lhs, rhs } => match ex {
            Instruction::I64Eq { result: result_x, lhs: lhs_x, rhs: rhs_x } => reg_ok(env.layout, result, result_x) && reg_ok(env.layout, lhs, lhs_x) && prov_ok(env.layout, pool, rhs, rhs_x),
            _ => false,
        },
        Instruction::I64Ne { result, lhs, rhs } => match ex {
            Instruction::I64Ne { result: result_x, lhs: lhs_x, rhs: rhs_x } => reg_ok(env.layout, result, result_x) && reg_ok(env.layout, lhs, lhs_x) && prov_ok(env.layout, pool, rhs, rhs_x),
            _ => false,
        },
        Instruction::I64LtS { result, lhs, rhs } => match ex {
            Instruction::I64LtS { result: result_x, lhs: lhs_x, rhs: rhs_x } => reg_ok(env.layout, result, result_x) && reg_ok(env.layout, lhs, lhs_x) && prov_ok(env.layout, pool, rhs, rhs_x),
            _ => false,
        },
        Instruction::I64LtU { result, lhs, rhs } => match ex {
            Instruction::I64LtU { result: result_x, lhs: lhs_x, rhs: rhs_x } => reg_ok(env.layout, result, result_x) && reg_ok(env.layout, lhs, lhs_x) && prov_ok(env.layout, pool, rhs, rhs_x),
            _ => false,
        },
        Instruction::I64GtS { result, lhs, rhs } => match ex {
            Instruction::I64GtS { result: result_x, lhs: lhs_x, rhs: rhs_x } => reg_ok(env.layout, result, result_x) && reg_ok(env.layout, lhs, lhs_x) && prov_ok(env.layout, pool, rhs, rhs_x),
            _ => false,
        },
        Instruction::I64GtU { result, lhs, rhs } => match ex {
            Instruction::I64GtU { result: result_x, lhs: lhs_x, rhs: rhs_x } => reg_ok(env.layout, result, result_x) && reg_ok(env.layout, lhs, lhs_x) && prov_ok(env.layout, pool, rhs, rhs_x),
            _ => false,
        },
        Instruction::I64LeS { result, lhs, rhs } => match ex {
            Instruction::I64LeS { result: result_x, lhs: lhs_x, rhs: rhs_x } => reg_ok(env.layout, result, result_x) && reg_ok(env.layout, lhs, lhs_x) && prov_ok(env.layout, pool, rhs, rhs_x),
            _ => false,
        },
        Instruction::I64LeU { result, lhs, rhs } => match ex {
            Instruction::I64LeU { result: result_x, lhs: lhs_x, rhs: rhs_x } => reg_ok(env.layout, result, result_x) && reg_ok(env.layout, lhs, lhs_x) && prov_ok(env.layout, pool, rhs, rhs_x),
            _ => false,
        },
        Instruction::I64GeS { result, lhs, rhs } => match ex {
            Instruction::I64GeS { result: result_x, lhs: lhs_x, rhs: rhs_x } => reg_ok(env.layout, result, result_x) && reg_ok(env.layout, lhs, lhs_x) && prov_ok(env.layout, pool, rhs, rhs_x),
            _ => false,
        },
        Instruction::I64GeU { result, lhs, rhs } => match ex {
            Instruction::I64GeU { result: result_x, lhs: lhs_x, rhs: rhs_x } => reg_ok(env.layout, result, result_x) && reg_ok(env.layout, lhs, lhs_x) && prov_ok(env.layout, pool, rhs, rhs_x),
            _ => false,
        },
        Instruction::F32Eq { result, lhs, rhs } => match ex {
            Instruction::F32Eq { result: result_x, lhs: lhs_x, rhs: rhs_x } => reg_ok(env.layout, result, result_x) && reg_ok(env.layout, lhs, lhs_x) && prov_ok(env.layout, pool, rhs, rhs_x),
            _ => false,
        },
        Instruction::F32Ne { result, lhs, rhs } => match ex {
            Instruction::F32Ne { result: result_x, lhs: lhs_x, rhs: rhs_x } => reg_ok(env.layout, result, result_x) && reg_ok(env.layout, lhs, lhs_x) && prov_ok(env.layout, pool, rhs, rhs_x),
            _ => false,
        },
        Instruction::F32Lt { result, lhs, rhs } => match ex {
            Instruction::F32Lt { result: result_x, lhs: lhs_x, rhs: rhs_x } => reg_ok(env.layout, result, result_x) && reg_ok(env.layout, lhs, lhs_x) && prov_ok(env.layout, pool, rhs, rhs_x),
            _ => false,
        },
        Instruction::F32Gt { result, lhs, rhs } => match ex {
            Instruction::F32Gt { result: result_x, lhs: lhs_x, rhs: rhs_x } => reg_ok(env.layout, result, result_x) && reg_ok(env.layout, lhs, lhs_x) && prov_ok(env.layout, pool, rhs, rhs_x),
            _ => false,
        },
        Instruction::F32Le { result, lhs, rhs } => match ex {
            Instruction::F32Le { result: result_x, lhs: lhs_x, rhs: rhs_x } => reg_ok(env.layout, result, result_x) && reg_ok(env.layout, lhs, lhs_x) && prov_ok(env.layout, pool, rhs, rhs_x),
            _ => false,
        },
        Instruction::F32Ge { result, lhs, rhs } => match ex {
            Instruction::F32Ge { result: result_x, lhs: lhs_x, rhs: rhs_x } => reg_ok(env.layout, result, result_x) && reg_ok(env.layout, lhs, lhs_x) && prov_ok(env.layout, pool, rhs, rhs_x),
            _ => false,
        },
        Instruction::F64Eq { result, lhs, rhs } => match ex {
            Instruction::F64Eq { result: result_x, lhs: lhs_x, rhs: rhs_x } => reg_ok(env.layout, result, result_x) && reg_ok(env.layout, lhs, lhs_x) && prov_ok(env.layout, pool, rhs, rhs_x),
            _ => false,
        },
        Instruction::F64Ne { result, lhs, rhs } => match ex {
            Instruction::F64Ne { result: result_x, lhs: lhs_x, rhs: rhs_x } => reg_ok(env.layout, result, result_x) && reg_ok(env.layout, lhs, lhs_x) && prov_ok(env.layout, pool, rhs, rhs_x),
            _ => false,
        },
        Instruction::F64Lt { result, lhs, rhs } => match ex {
            Instruction::F64Lt { result: result_x, lhs: lhs_x, rhs: rhs_x } => reg_ok(env.layout, result, result_x) && reg_ok(env.layout, lhs, lhs_x) && prov_ok(env.layout, pool, rhs, rhs_x),
            _ => false,
        },
        Instruction::F64Gt { result, lhs, rhs } => match ex {
            Instruction::F64Gt { result: result_x, lhs: lhs_x, rhs: rhs_x } => reg_ok(env.layout, result, result_x) && reg_ok(env.layout, lhs, lhs_x) && prov_ok(env.layout, pool, rhs, rhs_x),
            _ => false,
        },
        Instruction::F64Le { result, lhs, rhs } => match ex {
            Instruction::F64Le { result: result_x, lhs: lhs_x, rhs: rhs_x } => reg_ok(env.layout, result, result_x) && reg_ok(env.layout, lhs, lhs_x) && prov_ok(env.layout, pool, rhs, rhs_x),
            _ => false,
        },
        Instruction::F64Ge { result, lhs, rhs } => match ex {
            Instruction::F64Ge { result: result_x, lhs: lhs_x, rhs: rhs_x } => reg_ok(env.layout, result, result_x) && reg_ok(env.layout, lhs, lhs_x) && prov_ok(env.layout, pool, rhs, rhs_x),
            _ => false,
        },
        Instruction::I32Clz { result, input } => match ex {
            Instruction::I32Clz { result: result_x, input: input_x } => reg_ok(env.layout, result, result_x) && reg_ok(env.layout, input, input_x),
            _ => false,
        },
        Instruction::I32Ctz { result, input } => match ex {
            Instruction::I32Ctz { result: result_x, input: input_x } => reg_ok(env.layout, result, result_x) && reg_ok(env.layout, input, input_x),
            _ => false,
        },
        Instruction::I32Popcnt { result, input } => match ex {
            Instruction::I32Popcnt { result: result_x, input: input_x } => reg_ok(env.layout, result, result_x) && reg_ok(env.layout, input, input_x),
            _ => false,
        },
        Instruction::I32Add { result, lhs, rhs } => match ex {
            Instruction::I32Add { result: result_x, lhs: lhs_x, rhs: rhs_x } => reg_ok(env.layout, result, result_x) && reg_ok(env.layout, lhs, lhs_x) && prov_ok(env.layout, pool, rhs, rhs_x),
            _ => false,
        },
        Instruction::I32Sub { result, lhs, rhs } => match ex {
            Instruction::I32Sub { result: result_x, lhs: lhs_x, rhs: rhs_x } => reg_ok(env.layout, result, result_x) && reg_ok(env.layout, lhs, lhs_x) && prov_ok(env.layout, pool, rhs, rhs_x),
            _ => false,
        },
        Instruction::I32Mul { result, lhs, rhs } => match ex {
            Instruction::I32Mul { result: result_x, lhs: lhs_x, rhs: rhs_x } => reg_ok(env.layout, result, result_x) && reg_ok(env.layout, lhs, lhs_x) && prov_ok(env.layout, pool, rhs, rhs_x),
            _ => false,
        },
        Instruction::I32DivS { result, lhs, rhs } => match ex {
            Instruction::I32DivS { result: result_x, lhs: lhs_x, rhs: rhs_x } => reg_ok(env.layout, result, result_x) && reg_ok(env.layout, lhs, lhs_x) && prov_ok(env.layout, pool, rhs, rhs_x),
            _ => false,
        },
        Instruction::I32DivU { result, lhs, rhs } => match ex {
            Instruction::I32DivU { result: result_x, lhs: lhs_x, rhs: rhs_x } => reg_ok(env.layout, result, result_x) && reg_ok(env.layout, lhs, lhs_x) && prov_ok(env.layout, pool, rhs, rhs_x),
            _ => false,
        },
        Instruction::I32RemS { result, lhs, rhs } => match ex {
            Instruction::I32RemS { result: result_x, lhs: lhs_x, rhs: rhs_x } => reg_ok(env.layout, result, result_x) && reg_ok(env.layout, lhs, lhs_x) && prov_ok(env.layout, pool, rhs, rhs_x),
            _ => false,
        },
        Instruction::I32RemU { result, lhs, rhs } => match ex {
            Instruction::I32RemU { result: result_x, lhs: lhs_x, rhs: rhs_x } => reg_ok(env.layout, result, result_x) && reg_ok(env.layout, lhs, lhs_x) && prov_ok(env.layout, pool, rhs, rhs_x),
            _ => false,
        },
        Instruction::I32And { result, lhs, rhs } => match ex {
            Instruction::I32And { result: result_x, lhs: lhs_x, rhs: rhs_x } => reg_ok(env.layout, result, result_x) && reg_ok(env.layout, lhs, lhs_x) && prov_ok(env.layout, pool, rhs, rhs_x),
            _ => false,
        },
        Instruction::I32Or { result, lhs, rhs } => match ex {
            Instruction::I32Or { result: result_x, lhs: lhs_x, rhs: rhs_x } => reg_ok(env.layout, result, result_x) && reg_ok(env.layout, lhs, lhs_x) && prov_ok(env.layout, pool, rhs, rhs_x),
            _ => false,
        },
        Instruction::I32Xor { result, lhs, rhs } => match ex {
            Instruction::I32Xor { result: result_x, lhs: lhs_x, rhs: rhs_x } => reg_ok(env.layout, result, result_x) && reg_ok(env.layout, lhs, lhs_x) && prov_ok(env.layout, pool, rhs, rhs_x),
            _ => false,
        },
        Instruction::I32Shl { result, lhs, rhs } => match ex {
            Instruction::I32Shl { result: result_x, lhs: lhs_x, rhs: rhs_x } => reg_ok(env.layout, result, result_x) && reg_ok(env.layout, lhs, lhs_x) && prov_ok(env.layout, pool, rhs, rhs_x),
            _ => false,
        },
        Instruction::I32ShrS { result, lhs, rhs } => match ex {
            Instruction::I32ShrS { result: result_x, lhs: lhs_x, rhs: rhs_x } => reg_ok(env.layout, result, result_x) && reg_ok(env.layout, lhs, lhs_x) && prov_ok(env.layout, pool, rhs, rhs_x),
            _ => false,
        },
        Instruction::I32ShrU { result, lhs, rhs } => match ex {
            Instruction::I32ShrU { result: result_x, lhs: lhs_x, rhs: rhs_x } => reg_ok(env.layout, result, result_x) && reg_ok(env.layout, lhs, lhs_x) && prov_ok(env.layout, pool, rhs, rhs_x),
            _ => false,
        },
        Instruction::I32Rotl { result, lhs, rhs } => match ex {
            Instruction::I32Rotl { result: result_x, lhs: lhs_x, rhs: rhs_x } => reg_ok(env.layout, result, result_x) && reg_ok(env.layout, lhs, lhs_x) && prov_ok(env.layout, pool, rhs, rhs_x),
            _ => false,
        },
        Instruction::I32Rotr { result, lhs, rhs } => match ex {
            Instruction::I32Rotr { result: result_x, lhs: lhs_x, rhs: rhs_x } => reg_ok(env.layout, result, result_x) && reg_ok(env.layout, lhs, lhs_x) && prov_ok(env.layout, pool, rhs, rhs_x),
            _ => false,
        },
        Instruction::I64Clz { result, input } => match ex {
            Instruction::I64Clz { result: result_x, input: input_x } => reg_ok(env.layout, result, result_x) && reg_ok(env.layout, input, input_x),
            _ => false,
        },
        Instruction::I64Ctz { result, input } => match ex {
            Instruction::I64Ctz { result: result_x, input: input_x } => reg_ok(env.layout, result, result_x) && reg_ok(env.layout, input, input_x),
            _ => false,
        },
        Instruction::I64Popcnt { result, input } => match ex {
            Instruction::I64Popcnt { result: result_x, input: input_x } => reg_ok(env.layout, result, result_x) && reg_ok(env.layout, input, input_x),
            _ => false,
        },
        Instruction::I64Add { result, lhs, rhs } => match ex {
            Instruction::I64Add { result: result_x, lhs: lhs_x, rhs: rhs_x } => reg_ok(env.layout, result, result_x) && reg_ok(env.layout, lhs, lhs_x) && prov_ok(env.layout, pool, rhs, rhs_x),
            _ => false,
        },
        Instruction::I64Sub { result, lhs, rhs } => match ex {
            Instruction::I64Sub { result: result_x, lhs: lhs_x, rhs: rhs_x } => reg_ok(env.layout, result, result_x) && reg_ok(env.layout, lhs, lhs_x) && prov_ok(env.layout, pool, rhs, rhs_x),
            _ => false,
        },
        Instruction::I64Mul { result, lhs, rhs } => match ex {
            Instruction::I64Mul { result: result_x, lhs: lhs_x, rhs: rhs_x } => reg_ok(env.layout, result, result_x) && reg_ok(env.layout, lhs, lhs_x) && prov_ok(env.layout, pool, rhs, rhs_x),
            _ => false,
        },
        Instruction::I64DivS { result, lhs, rhs } => match ex {
            Instruction::I64DivS { result: result_x, lhs: lhs_x, rhs: rhs_x } => reg_ok(env.layout, result, result_x) && reg_ok(env.layout, lhs, lhs_x) && prov_ok(env.layout, pool, rhs, rhs_x),
            _ => false,
        },
        Instruction::I64DivU { result, lhs, rhs } => match ex {
            Instruction::I64DivU { result: result_x, lhs: lhs_x, rhs: rhs_x } => reg_ok(env.layout, result, result_x) && reg_ok(env.layout, lhs, lhs_x) && prov_ok(env.layout, pool, rhs, rhs_x),
            _ => false,
        },
        Instruction::I64RemS { result, lhs, rhs } => match ex {
            Instruction::I64RemS { result: result_x, lhs: lhs_x, rhs: rhs_x } => reg_ok(env.layout, result, result_x) && reg_ok(env.layout, lhs, lhs_x) && prov_ok(env.layout, pool, rhs, rhs_x),
            _ => false,
        },
        Instruction::I64RemU { result, lhs, rhs } => match ex {
            Instruction::I64RemU { result: result_x, lhs: lhs_x, rhs: rhs_x } => reg_ok(env.layout, result, result_x) && reg_ok(env.layout, lhs, lhs_x) && prov_ok(env.layout, pool, rhs, rhs_x),
            _ => false,
        },
        Instruction::I64And { result, lhs, rhs } => match ex {
            Instruction::I64And { result: result_x, lhs: lhs_x, rhs: rhs_x } => reg_ok(env.layout, result, result_x) && reg_ok(env.layout, lhs, lhs_x) && prov_ok(env.layout, pool, rhs, rhs_x),
            _ => false,
        },
        Instruction::I64Or { result, lhs, rhs } => match ex {
            Instruction::I64Or { result: result_x, lhs: lhs_x, rhs: rhs_x } => reg_ok(env.layout, result, result_x) && reg_ok(env.layout, lhs, lhs_x) && prov_ok(env.layout, pool, rhs, rhs_x),
            _ => false,
        },
        Instruction::I64Xor { result, lhs, rhs } => match ex {
            Instruction::I64Xor { result: result_x, lhs: lhs_x, rhs: rhs_x } => reg_ok(env.layout, result, result_x) && reg_ok(env.layout, lhs, lhs_x) && prov_ok(env.layout, pool, rhs, rhs_x),
            _ => false,
        },
        Instruction::I64Shl { result, lhs, rhs } => match ex {
            Instruction::I64Shl { result: result_x, lhs: lhs_x, rhs: rhs_x } => reg_ok(env.layout, result, result_x) && reg_ok(env.layout, lhs, lhs_x) && prov_ok(env.layout, pool, rhs, rhs_x),
            _ => false,
        },
        Instruction::I64ShrS { result, lhs, rhs } => match ex {
            Instruction::I64ShrS { result: result_x, lhs: lhs_x, rhs: rhs_x } => reg_ok(env.layout, result, result_x) && reg_ok(env.layout, lhs, lhs_x) && prov_ok(env.layout, pool, rhs, rhs_x),
            _ => false,
        },
        Instruction::I64ShrU { result, lhs, rhs } => match ex {
            Instruction::I64ShrU { result: result_x, lhs: lhs_x, rhs: rhs_x } => reg_ok(env.layout, result, result_x) && reg_ok(env.layout, lhs, lhs_x) && prov_ok(env.layout, pool, rhs, rhs_x),
            _ => false,
        },
        Instruction::I64Rotl { result, lhs, rhs } => match ex {
            Instruction::I64Rotl { result: result_x, lhs: lhs_x, rhs: rhs_x } => reg_ok(env.layout, result, result_x) && reg_ok(env.layout, lhs, lhs_x) && prov_ok(env.layout, pool, rhs, rhs_x),
            _ => false,
        },
        Instruction::I64Rotr { result, lhs, rhs } => match ex {
            Instruction::I64Rotr { result: result_x, lhs: lhs_x, rhs: rhs_x } => reg_ok(env.layout, result, result_x) && reg_ok(env.layout, lhs, lhs_x) && prov_ok(env.layout, pool, rhs, rhs_x),
            _ => false,
        },
        Instruction::F32Abs { result, input } => match ex {
            Instruction::F32Abs { result: result_x, input: input_x } => reg_ok(env.layout, result, result_x) && reg_ok(env.layout, input, input_x),
            _ => false,
        },
        Instruction::F32Neg { result, input } => match ex {
            Instruction::F32Neg { result: result_x, input: input_x } => reg_ok(env.layout, result, result_x) && reg_ok(env.layout, input, input_x),
            _ => false,
        },
        Instruction::F32Ceil { result, input } => match ex {
            Instruction::F32Ceil { result: result_x, input: input_x } => reg_ok(env.layout, result, result_x) && reg_ok(env.layout, input, input_x),
            _ => false,
        },
        Instruction::F32Floor { result, input } => match ex {
            Instruction::F32Floor { result: result_x, input: input_x } => reg_ok(env.layout, result, result_x) && reg_ok(env.layout, input, input_x),
            _ => false,
        },
        Instruction::F32Trunc { result, input } => match ex {
            Instruction::F32Trunc { result: result_x, input: input_x } => reg_ok(env.layout, result, result_x) && reg_ok(env.layout, input, input_x),
            _ => false,
        },
        Instruction::F32Nearest { result, input } => match ex {
            Instruction::F32Nearest { result: result_x, input: input_x } => reg_ok(env.layout, result, result_x) && reg_ok(env.layout, input, input_x),
            _ => false,
        },
        Instruction::F32Sqrt { result, input } => match ex {
            Instruction::F32Sqrt { result: result_x, input: input_x } => reg_ok(env.layout, result, result_x) && reg_ok(env.layout, input, input_x),
            _ => false,
        },
        Instruction::F32Add { result, lhs, rhs } => match ex {
            Instruction::F32Add { result: result_x, lhs: lhs_x, rhs: rhs_x } => reg_ok(env.layout, result, result_x) && reg_ok(env.layout, lhs, lhs_x) && prov_ok(env.layout, pool, rhs, rhs_x),
            _ => false,
        },
        Instruction::F32Sub { result, lhs, rhs } => match ex {
            Instruction::F32Sub { result: result_x, lhs: lhs_x, rhs: rhs_x } => reg_ok(env.layout, result, result_x) && reg_ok(env.layout, lhs, lhs_x) && prov_ok(env.layout, pool, rhs, rhs_x),
            _ => false,
        },
        Instruction::F32Mul { result, lhs, rhs } => match ex {
            Instruction::F32Mul { result: result_x, lhs: lhs_x, rhs: rhs_x } => reg_ok(env.layout, result, result_x) && reg_ok(env.layout, lhs, lhs_x) && prov_ok(env.layout, pool, rhs, rhs_x),
            _ => false,
        },
        Instruction::F32Div { result, lhs, rhs } => match ex {
            Instruction::F32Div { result: result_x, lhs: lhs_x, rhs: rhs_x } => reg_ok(env.layout, result, result_x) && reg_ok(env.layout, lhs, lhs_x) && prov_ok(env.layout, pool, rhs, rhs_x),
            _ => false,
        },
        Instruction::F32Min { result, lhs, rhs } => match ex {
            Instruction::F32Min { result: result_x, lhs: lhs_x, rhs: rhs_x } => reg_ok(env.layout, result, result_x) && reg_ok(env.layout, lhs, lhs_x) && prov_ok(env.layout, pool, rhs, rhs_x),
            _ => false,
        },
        Instruction::F32Max { result, lhs, rhs } => match ex {
            Instruction::F32Max { result: result_x, lhs: lhs_x, rhs: rhs_x } => reg_ok(env.layout, result, result_x) && reg_ok(env.layout, lhs, lhs_x) && prov_ok(env.layout, pool, rhs, rhs_x),
            _ => false,
        },
        Instruction::F32Copysign { result, lhs, rhs } => match ex {
            Instruction::F32Copysign { result: result_x, lhs: lhs_x, rhs: rhs_x } => reg_ok(env.layout, result, result_x) && reg_ok(env.layout, lhs, lhs_x) && prov_ok(env.layout, pool, rhs, rhs_x),
            _ => false,
        },
        Instruction::F64Abs { result, input } => match ex {
            Instruction::F64Abs { result: result_x, input: input_x } => reg_ok(env.layout, result, result_x) && reg_ok(env.layout, input, input_x),
            _ => false,
        },
        Instruction::F64Neg { result, input } => match ex {
            Instruction::F64Neg { result: result_x, input: input_x } => reg_ok(env.layout, result, result_x) && reg_ok(env.layout, input, input_x),
            _ => false,
        },
        Instruction::F64Ceil { result, input } => match ex {
            Instruction::F64Ceil { result: result_x, input: input_x } => reg_ok(env.layout, result, result_x) && reg_ok(env.layout, input, input_x),
            _ => false,
        },
        Instruction::F64Floor { result, input } => match ex {
            Instruction::F64Floor { result: result_x, input: input_x } => reg_ok(env.layout, result, result_x) && reg_ok(env.layout, input, input_x),
            _ => false,
        },
        Instruction::F64Trunc { result, input } => match ex {
            Instruction::F64Trunc { result: result_x, input: input_x } => reg_ok(env.layout, result, result_x) && reg_ok(env.layout, input, input_x),
            _ => false,
        },
        Instruction::F64Nearest { result, input } => match ex {
            Instruction::F64Nearest { result: result_x, input: input_x } => reg_ok(env.layout, result, result_x) && reg_ok(env.layout, input, input_x),
            _ => false,
        },
        Instruction::F64Sqrt { result, input } => match ex {
            Instruction::F64Sqrt { result: result_x, input: input_x } => reg_ok(env.layout, result, result_x) && reg_ok(env.layout, input, input_x),
            _ => false,
        },
        Instruction::F64Add { result, lhs, rhs } => match ex {
            Instruction::F64Add { result: result_x, lhs: lhs_x, rhs: rhs_x } => reg_ok(env.layout, result, result_x) && reg_ok(env.layout, lhs, lhs_x) && prov_ok(env.layout, pool, rhs, rhs_x),
            _ => false,
        },
        Instruction::F64Sub { result, lhs, rhs } => match ex {
            Instruction::F64Sub { result: result_x, lhs: lhs_x, rhs: rhs_x } => reg_ok(env.layout, result, result_x) && reg_ok(env.layout, lhs, lhs_x) && prov_ok(env.layout, pool, rhs, rhs_x),
            _ => false,
        },
        Instruction::F64Mul { result, lhs, rhs } => match ex {
            Instruction::F64Mul { result: result_x, lhs: lhs_x, rhs: rhs_x } => reg_ok(env.layout, result, result_x) && reg_ok(env.layout, lhs, lhs_x) && prov_ok(env.layout, pool, rhs, rhs_x),
            _ => false,
        },
        Instruction::F64Div { result, lhs, rhs } => match ex {
            Instruction::F64Div { result: result_x, lhs: lhs_x, rhs: rhs_x } => reg_ok(env.layout, result, result_x) && reg_ok(env.layout, lhs, lhs_x) && prov_ok(env.layout, pool, rhs, rhs_x),
            _ => false,
        },
        Instruction::F64Min { result, lhs, rhs } => match ex {
            Instruction::F64Min { result: result_x, lhs: lhs_x, rhs: rhs_x } => reg_ok(env.layout, result, result_x) && reg_ok(env.layout, lhs, lhs_x) && prov_ok(env.layout, pool, rhs, rhs_x),
            _ => false,
        },
        Instruction::F64Max { result, lhs, rhs } => match ex {
            Instruction::F64Max { result: result_x, lhs: lhs_x, rhs: rhs_x } => reg_ok(env.layout, result, result_x) && reg_ok(env.layout, lhs, lhs_x) && prov_ok(env.layout, pool, rhs, rhs_x),
            _ => false,
        },
        Instruction::F64Copysign { result, lhs, rhs } => match ex {
            Instruction::F64Copysign { result: result_x, lhs: lhs_x, rhs: rhs_x } => reg_ok(env.layout, result, result_x) && reg_ok(env.layout, lhs, lhs_x) && prov_ok(env.layout, pool, rhs, rhs_x),
            _ => false,
        },
        Instruction::I32WrapI64 { result, input } => match ex {
            Instruction::I32WrapI64 { result: result_x, input: input_x } => reg_ok(env.layout, result, result_x) && reg_ok(env.layout, input, input_x),
            _ => false,
        },
        Instruction::I32TruncSF32 { result, input } => match ex {
            Instruction::I32TruncSF32 { result: result_x, input: input_x } => reg_ok(env.layout, result, result_x) && reg_ok(env.layout, input, input_x),
            _ => false,
        },
        Instruction::I32TruncUF32 { result, input } => match ex {
            Instruction::I32TruncUF32 { result: result_x, input: input_x } => reg_ok(env.layout, result, result_x) && reg_ok(env.layout, input, input_x),
            _ => false,
        },
        Instruction::I32TruncSF64 { result, input } => match ex {
            Instruction::I32TruncSF64 { result: result_x, input: input_x } => reg_ok(env.layout, result, result_x) && reg_ok(env.layout, input, input_x),
            _ => false,
        },
        Instruction::I32TruncUF64 { result, input } => match ex {
            Instruction::I32TruncUF64 { result: result_x, input: input_x } => reg_ok(env.layout, result, result_x) && reg_ok(env.layout, input, input_x),
            _ => false,
        },
        Instruction::I64ExtendSI32 { result, input } => match ex {
            Instruction::I64ExtendSI32 { result: result_x, input: input_x } => reg_ok(env.layout, result, result_x) && reg_ok(env.layout, input, input_x),
            _ => false,
        },
        Instruction::I64ExtendUI32 { result, input } => match ex {
            Instruction::I64ExtendUI32 { result: result_x, input: input_x } => reg_ok(env.layout, result, result_x) && reg_ok(env.layout, input, input_x),
            _ => false,
        },
        Instruction::I64TruncSF32 { result, input } => match ex {
            Instruction::I64TruncSF32 { result: result_x, input: input_x } => reg_ok(env.layout, result, result_x) && reg_ok(env.layout, input, input_x),
            _ => false,
        },
        Instruction::I64TruncUF32 { result, input } => match ex {
            Instruction::I64TruncUF32 { result: result_x, input: input_x } => reg_ok(env.layout, result, result_x) && reg_ok(env.layout, input, input_x),
            _ => false,
        },
        Instruction::I64TruncSF64 { result, input } => match ex {
            Instruction::I64TruncSF64 { result: result_x, input: input_x } => reg_ok(env.layout, result, result_x) && reg_ok(env.layout, input, input_x),
            _ => false,
        },
        Instruction::I64TruncUF64 { result, input } => match ex {
            Instruction::I64TruncUF64 { result: result_x, input: input_x } => reg_ok(env.layout, result, result_x) && reg_ok(env.layout, input, input_x),
            _ => false,
        },
        Instruction::F32ConvertSI32 { result, input } => match ex {
            Instruction::F32ConvertSI32 { result: result_x, input: input_x } => reg_ok(env.layout, result, result_x) && reg_ok(env.layout, input, input_x),
            _ => false,
        },
        Instruction::F32ConvertUI32 { result, input } => match ex {
            Instruction::F32ConvertUI32 { result: result_x, input: input_x } => reg_ok(env.layout, result, result_x) && reg_ok(env.layout, input, input_x),
            _ => false,
        },
        Instruction::F32ConvertSI64 { result, input } => match ex {
            Instruction::F32ConvertSI64 { result: result_x, input: input_x } => reg_ok(env.layout, result, result_x) && reg_ok(env.layout, input, input_x),
            _ => false,
        },
        Instruction::F32ConvertUI64 { result, input } => match ex {
            Instruction::F32ConvertUI64 { result: result_x, input: input_x } => reg_ok(env.layout, result, result_x) && reg_ok(env.layout, input, input_x),
            _ => false,
        },
        Instruction::F32DemoteF64 { result, input } => match ex {
            Instruction::F32DemoteF64 { result: result_x, input: input_x } => reg_ok(env.layout, result, result_x) && reg_ok(env.layout, input, input_x),
            _ => false,
        },
        Instruction::F64ConvertSI32 { result, input } => match ex {
            Instruction::F64ConvertSI32 { result: result_x, input: input_x } => reg_ok(env.layout, result, result_x) && reg_ok(env.layout, input, input_x),
            _ => false,
        },
        Instruction::F64ConvertUI32 { result, input } => match ex {
            Instruction::F64ConvertUI32 { result: result_x, input: input_x } => reg_ok(env.layout, result, result_x) && reg_ok(env.layout, input, input_x),
            _ => false,
        },
        Instruction::F64ConvertSI64 { result, input } => match ex {
            Instruction::F64ConvertSI64 { result: result_x, input: input_x } => reg_ok(env.layout, result, result_x) && reg_ok(env.layout, input, input_x),
            _ => false,
        },
        Instruction::F64ConvertUI64 { result, input } => match ex {
            Instruction::F64ConvertUI64 { result: result_x, input: input_x } => reg_ok(env.layout, result, result_x) && reg_ok(env.layout, input, input_x),
            _ => false,
        },
        Instruction::F64PromoteF32 { result, input } => match ex {
            Instruction::F64PromoteF32 { result: result_x, input: input_x } => reg_ok(env.layout, result, result_x) && reg_ok(env.layout, input, input_x),
            _ => false,
        },
        Instruction::I32Extend8S { result, input } => match ex {
            Instruction::I32Extend8S { result: result_x, input: input_x } => reg_ok(env.layout, result, result_x) && reg_ok(env.layout, input, input_x),
            _ => false,
        },
        Instruction::I32Extend16S { result, input } => match ex {
            Instruction::I32Extend16S { result: result_x, input: input_x } => reg_ok(env.layout, result, result_x) && reg_ok(env.layout, input, input_x),
            _ => false,
        },
        Instruction::I64Extend8S { result, input } => match ex {
            Instruction::I64Extend8S { result: result_x, input: input_x } => reg_ok(env.layout, result, result_x) && reg_ok(env.layout, input, input_x),
            _ => false,
        },
        Instruction::I64Extend16S { result, input } => match ex {
            Instruction::I64Extend16S { result: result_x, input: input_x } => reg_ok(env.layout, result, result_x) && reg_ok(env.layout, input, input_x),
            _ => false,
        },
        Instruction::I64Extend32S { result, input } => match ex {
            Instruction::I64Extend32S { result: result_x, input: input_x } => reg_ok(env.layout, result, result_x) && reg_ok(env.layout, input, input_x),
            _ => false,
        },
        Instruction::I32TruncSatF32S { result, input } => match ex {
            Instruction::I32TruncSatF32S { result: result_x, input: input_x } => reg_ok(env.layout, result, result_x) && reg_ok(env.layout, input, input_x),
            _ => false,
        },
        Instruction::I32TruncSatF32U { result, input } => match ex {
            Instruction::I32TruncSatF32U { result: result_x, input: input_x } => reg_ok(env.layout, result, result_x) && reg_ok(env.layout, input, input_x),
            _ => false,
        },
        Instruction::I32TruncSatF64S { result, input } => match ex {
            Instruction::I32TruncSatF64S { result: result_x, input: input_x } => reg_ok(env.layout, result, result_x) && reg_ok(env.layout, input, input_x),
            _ => false,
        },
        Instruction::I32TruncSatF64U { result, input } => match ex {
            Instruction::I32TruncSatF64U { result: result_x, input: input_x } => reg_ok(env.layout, result, result_x) && reg_ok(env.layout, input, input_x),
            _ => false,
        },
        Instruction::I64TruncSatF32S { result, input } => match ex {
            Instruction::I64TruncSatF32S { result: result_x, input: input_x } => reg_ok(env.layout, result, result_x) && reg_ok(env.layout, input, input_x),
            _ => false,
        },
        Instruction::I64TruncSatF32U { result, input } => match ex {
            Instruction::I64TruncSatF32U { result: result_x, input: input_x } => reg_ok(env.layout, result, result_x) && reg_ok(env.layout, input, input_x),
            _ => false,
        },
        Instruction::I64TruncSatF64S { result, input } => match ex {
            Instruction::I64TruncSatF64S { result: result_x, input: input_x } => reg_ok(env.layout, result, result_x) && reg_ok(env.layout, input, input_x),
            _ => false,
        },
        Instruction::I64TruncSatF64U { result, input } => match ex {
            Instruction::I64TruncSatF64U { result: result_x, input: input_x } => reg_ok(env.layout, result, result_x) && reg_ok(env.layout, input, input_x),
            _ => false,
        },
    }
}

/// The IR instruction `ir` at position `pc` refers only to registers of the
/// context, to slices of the IR arena and to pinned labels within reach.
pub open spec fn compilable(env: CompileEnv, pc: int, ir: IrInstruction) -> bool {
    match ir {
        Instruction::Br { target } => target_valid(env.labels, target, pc),
        Instruction::BrMulti { target, results, returned } => target_valid(env.labels, target, pc) && rslice_valid(env.layout, results) && pslice_valid(env, returned),
        Instruction::BrEqz { target, condition } => target_valid(env.labels, target, pc) && env.layout.valid(condition),
        Instruction::BrNez { target, condition } => target_valid(env.labels, target, pc) && env.layout.valid(condition),
        Instruction::BrNezSingle { target, condition, result, returned } => target_valid(env.labels, target, pc) && env.layout.valid(condition) && env.layout.valid(result) && prov_valid(env.layout, returned),
        Instruction::BrNezMulti { target, condition, results, returned } => target_valid(env.labels, target, pc) && env.layout.valid(condition) && rslice_valid(env.layout, results) && pslice_valid(env, returned),
        Instruction::ReturnNez { results, condition } => pslice_valid(env, results) && env.layout.valid(condition),
        Instruction::BrTable { case, len_targets: _ } => env.layout.valid(case),
        Instruction::Trap { trap_code: _ } => true,
        Instruction::Return { results } => pslice_valid(env, results),
        Instruction::Call { func_idx: _, results, params } => rslice_valid(env.layout, results) && pslice_valid(env, params),
        Instruction::CallIndirect { func_type_idx: _, results, index, params } => rslice_valid(env.layout, results) && prov_valid(env.layout, index) && pslice_valid(env, params),
        Instruction::Copy { result, input } => env.layout.valid(result) && env.layout.valid(input),
        Instruction::CopyImm { result, input: _ } => env.layout.valid(result),
        Instruction::CopyMany { results, inputs } => rslice_valid(env.layout, results) && pslice_valid(env, inputs),
        Instruction::Select { result, condition, if_true, if_false } => env.layout.valid(result) && env.layout.valid(condition) && prov_valid(env.layout, if_true) && prov_valid(env.layout, if_false),
        Instruction::GlobalGet { result, global: _ } => env.layout.valid(result),
        Instruction::GlobalSet { global: _, value } => prov_valid(env.layout, value),
        Instruction::I32Load { result, ptr, offset: _ } => env.layout.valid(result) && env.layout.valid(ptr),
        Instruction::I64Load { result, ptr, offset: _ } => env.layout.valid(result) && env.layout.valid(ptr),
        Instruction::F32Load { result, ptr, offset: _ } => env.layout.valid(result) && env.layout.valid(ptr),
        Instruction::F64Load { result, ptr, offset: _ } => env.layout.valid(result) && env.layout.valid(ptr),
        Instruction::I32Load8S { result, ptr, offset: _ } => env.layout.valid(result) && env.layout.valid(ptr),
        Instruction::I32Load8U { result, ptr, offset: _ } => env.layout.valid(result) && env.layout.valid(ptr),
        Instruction::I32Load16S { result, ptr, offset: _ } => env.layout.valid(result) && env.layout.valid(ptr),
        Instruction::I32Load16U { result, ptr, offset: _ } => env.layout.valid(result) && env.layout.valid(ptr),
        Instruction::I64Load8S { result, ptr, offset: _ } => env.layout.valid(result) && env.layout.valid(ptr),
        Instruction::I64Load8U { result, ptr, offset: _ } => env.layout.valid(result) && env.layout.valid(ptr),
        Instruction::I64Load16S { result, ptr, offset: _ } => env.layout.valid(result) && env.layout.valid(ptr),
        Instruction::I64Load16U { result, ptr, offset: _ } => env.layout.valid(result) && env.layout.valid(ptr),
        Instruction::I64Load32S { result, ptr, offset: _ } => env.layout.valid(result) && env.layout.valid(ptr),
        Instruction::I64Load32U { result, ptr, offset: _ } => env.layout.valid(result) && env.layout.valid(ptr),
        Instruction::I32Store { ptr, offset: _, value } => env.layout.valid(ptr) && prov_valid(env.layout, value),
        Instruction::I64Store { ptr, offset: _, value } => env.layout.valid(ptr) && prov_valid(env.layout, value),
        Instruction::F32Store { ptr, offset: _, value } => env.layout.valid(ptr) && prov_valid(env.layout, value),
        Instruction::F64Store { ptr, offset: _, value } => env.layout.valid(ptr) && prov_valid(env.layout, value),
        Instruction::I32Store8 { ptr, offset: _, value } => env.layout.valid(ptr) && prov_valid(env.layout, value),
        Instruction::I32Store16 { ptr, offset: _, value } => env.layout.valid(ptr) && prov_valid(env.layout, value),
        Instruction::I64Store8 { ptr, offset: _, value } => env.layout.valid(ptr) && prov_valid(env.layout, value),
        Instruction::I64Store16 { ptr, offset: _, value } => env.layout.valid(ptr) && prov_valid(env.layout, value),
        Instruction::I64Store32 { ptr, offset: _, value } => env.layout.valid(ptr) && prov_valid(env.layout, value),
        Instruction::MemorySize { result } => env.layout.valid(result),
        Instruction::MemoryGrow { result, amount } => env.layout.valid(result) && prov_valid(env.layout, amount),
        Instruction::I32Eq { result, lhs, rhs } => env.layout.valid(result) && env.layout.valid(lhs) && prov_valid(env.layout, rhs),
        Instruction::I32Ne { result, lhs, rhs } => env.layout.valid(result) && env.layout.valid(lhs) && prov_valid(env.layout, rhs),
        Instruction::I32LtS { result, lhs, rhs } => env.layout.valid(result) && env.layout.valid(lhs) && prov_valid(env.layout, rhs),
        Instruction::I32LtU { result, lhs, rhs } => env.layout.valid(result) && env.layout.valid(lhs) && prov_valid(env.layout, rhs),
        Instruction::I32GtS { result, lhs, rhs } => env.layout.valid(result) && env.layout.valid(lhs) && prov_valid(env.layout, rhs),
        Instruction::I32GtU { result, lhs, rhs } => env.layout.valid(result) && env.layout.valid(lhs) && prov_valid(env.layout, rhs),
        Instruction::I32LeS { result, lhs, rhs } => env.layout.valid(result) && env.layout.valid(lhs) && prov_valid(env.layout, rhs),
        Instruction::I32LeU { result, lhs, rhs } => env.layout.valid(result) && env.layout.valid(lhs) && prov_valid(env.layout, rhs),
        Instruction::I32GeS { result, lhs, rhs } => env.layout.valid(result) && env.layout.valid(lhs) && prov_valid(env.layout, rhs),
        Instruction::I32GeU { result, lhs, rhs } => env.layout.valid(result) && env.layout.valid(lhs) && prov_valid(env.layout, rhs),
        Instruction::I64Eq { result, lhs, rhs } => env.layout.valid(result) && env.layout.valid(lhs) && prov_valid(env.layout, rhs),
        Instruction::I64Ne { result, lhs, rhs } => env.layout.valid(result) && env.layout.valid(lhs) && prov_valid(env.layout, rhs),
        Instruction::I64LtS { result, lhs, rhs } => env.layout.valid(result) && env.layout.valid(lhs) && prov_valid(env.layout, rhs),
        Instruction::I64LtU { result, lhs, rhs } => env.layout.valid(result) && env.layout.valid(lhs) && prov_valid(env.layout, rhs),
        Instruction::I64GtS { result, lhs, rhs } => env.layout.valid(result) && env.layout.valid(lhs) && prov_valid(env.layout, rhs),
        Instruction::I64GtU { result, lhs, rhs } => env.layout.valid(result) && env.layout.valid(lhs) && prov_valid(env.layout, rhs),
        Instruction::I64LeS { result, lhs, rhs } => env.layout.valid(result) && env.layout.valid(lhs) && prov_valid(env.layout, rhs),
        Instruction::I64LeU { result, lhs, rhs } => env.layout.valid(result) && env.layout.valid(lhs) && prov_valid(env.layout, rhs),
        Instruction::I64GeS { result, lhs, rhs } => env.layout.valid(result) && env.layout.valid(lhs) && prov_valid(env.layout, rhs),
        Instruction::I64GeU { result, lhs, rhs } => env.layout.valid(result) && env.layout.valid(lhs) && prov_valid(env.layout, rhs),
        Instruction::F32Eq { result, lhs, rhs } => env.layout.valid(result) && env.layout.valid(lhs) && prov_valid(env.layout, rhs),
        Instruction::F32Ne { result, lhs, rhs } => env.layout.valid(result) && env.layout.valid(lhs) && prov_valid(env.layout, rhs),
        Instruction::F32Lt { result, lhs, rhs } => env.layout.valid(result) && env.layout.valid(lhs) && prov_valid(env.layout, rhs),
        Instruction::F32Gt { result, lhs, rhs } => env.layout.valid(result) && env.layout.valid(lhs) && prov_valid(env.layout, rhs),
        Instruction::F32Le { result, lhs, rhs } => env.layout.valid(result) && env.layout.valid(lhs) && prov_valid(env.layout, rhs),
        Instruction::F32Ge { result, lhs, rhs } => env.layout.valid(result) && env.layout.valid(lhs) && prov_valid(env.layout, rhs),
        Instruction::F64Eq { result, lhs, rhs } => env.layout.valid(result) && env.layout.valid(lhs) && prov_valid(env.layout, rhs),
        Instruction::F64Ne { result, lhs, rhs } => env.layout.valid(result) && env.layout.valid(lhs) && prov_valid(env.layout, rhs),
        Instruction::F64Lt { result, lhs, rhs } => env.layout.valid(result) && env.layout.valid(lhs) && prov_valid(env.layout, rhs),
        Instruction::F64Gt { result, lhs, rhs } => env.layout.valid(result) && env.layout.valid(lhs) && prov_valid(env.layout, rhs),
        Instruction::F64Le { result, lhs, rhs } => env.layout.valid(result) && env.layout.valid(lhs) && prov_valid(env.layout, rhs),
        Instruction::F64Ge { result, lhs, rhs } => env.layout.valid(result) && env.layout.valid(lhs) && prov_valid(env.layout, rhs),
        Instruction::I32Clz { result, input } => env.layout.valid(result) && env.layout.valid(input),
        Instruction::I32Ctz { result, input } => env.layout.valid(result) && env.layout.valid(input),
        Instruction::I32Popcnt { result, input } => env.layout.valid(result) && env.layout.valid(input),
        Instruction::I32Add { result, lhs, rhs } => env.layout.valid(result) && env.layout.valid(lhs) && prov_valid(env.layout, rhs),
        Instruction::I32Sub { result, lhs, rhs } => env.layout.valid(result) && env.layout.valid(lhs) && prov_valid(env.layout, rhs),
        Instruction::I32Mul { result, lhs, rhs } => env.layout.valid(result) && env.layout.valid(lhs) && prov_valid(env.layout, rhs),
        Instruction::I32DivS { result, lhs, rhs } => env.layout.valid(result) && env.layout.valid(lhs) && prov_valid(env.layout, rhs),
        Instruction::I32DivU { result, lhs, rhs } => env.layout.valid(result) && env.layout.valid(lhs) && prov_valid(env.layout, rhs),
        Instruction::I32RemS { result, lhs, rhs } => env.layout.valid(result) && env.layout.valid(lhs) && prov_valid(env.layout, rhs),
        Instruction::I32RemU { result, lhs, rhs } => env.layout.valid(result) && env.layout.valid(lhs) && prov_valid(env.layout, rhs),
        Instruction::I32And { result, lhs, rhs } => env.layout.valid(result) && env.layout.valid(lhs) && prov_valid(env.layout, rhs),
        Instruction::I32Or { result, lhs, rhs } => env.layout.valid(result) && env.layout.valid(lhs) && prov_valid(env.layout, rhs),
        Instruction::I32Xor { result, lhs, rhs } => env.layout.valid(result) && env.layout.valid(lhs) && prov_valid(env.layout, rhs),
        Instruction::I32Shl { result, lhs, rhs } => env.layout.valid(result) && env.layout.valid(lhs) && prov_valid(env.layout, rhs),
        Instruction::I32ShrS { result, lhs, rhs } => env.layout.valid(result) && env.layout.valid(lhs) && prov_valid(env.layout, rhs),
        Instruction::I32ShrU { result, lhs, rhs } => env.layout.valid(result) && env.layout.valid(lhs) && prov_valid(env.layout, rhs),
        Instruction::I32Rotl { result, lhs, rhs } => env.layout.valid(result) && env.layout.valid(lhs) && prov_valid(env.layout, rhs),
        Instruction::I32Rotr { result, lhs, rhs } => env.layout.valid(result) && env.layout.valid(lhs) && prov_valid(env.layout, rhs),
        Instruction::I64Clz { result, input } => env.layout.valid(result) && env.layout.valid(input),
        Instruction::I64Ctz { result, input } => env.layout.valid(result) && env.layout.valid(input),
        Instruction::I64Popcnt { result, input } => env.layout.valid(result) && env.layout.valid(input),
        Instruction::I64Add { result, lhs, rhs } => env.layout.valid(result) && env.layout.valid(lhs) && prov_valid(env.layout, rhs),
        Instruction::I64Sub { result, lhs, rhs } => env.layout.valid(result) && env.layout.valid(lhs) && prov_valid(env.layout, rhs),
        Instruction::I64Mul { result, lhs, rhs } => env.layout.valid(result) && env.layout.valid(lhs) && prov_valid(env.layout, rhs),
        Instruction::I64DivS { result, lhs, rhs } => env.layout.valid(result) && env.layout.valid(lhs) && prov_valid(env.layout, rhs),
        Instruction::I64DivU { result, lhs, rhs } => env.layout.valid(result) && env.layout.valid(lhs) && prov_valid(env.layout, rhs),
        Instruction::I64RemS { result, lhs, rhs } => env.layout.valid(result) && env.layout.valid(lhs) && prov_valid(env.layout, rhs),
        Instruction::I64RemU { result, lhs, rhs } => env.layout.valid(result) && env.layout.valid(lhs) && prov_valid(env.layout, rhs),
        Instruction::I64And { result, lhs, rhs } => env.layout.valid(result) && env.layout.valid(lhs) && prov_valid(env.layout, rhs),
        Instruction::I64Or { result, lhs, rhs } => env.layout.valid(result) && env.layout.valid(lhs) && prov_valid(env.layout, rhs),
        Instruction::I64Xor { result, lhs, rhs } => env.layout.valid(result) && env.layout.valid(lhs) && prov_valid(env.layout, rhs),
        Instruction::I64Shl { result, lhs, rhs } => env.layout.valid(result) && env.layout.valid(lhs) && prov_valid(env.layout, rhs),
        Instruction::I64ShrS { result, lhs, rhs } => env.layout.valid(result) && env.layout.valid(lhs) && prov_valid(env.layout, rhs),
        Instruction::I64ShrU { result, lhs, rhs } => env.layout.valid(result) && env.layout.valid(lhs) && prov_valid(env.layout, rhs),
        Instruction::I64Rotl { result, lhs, rhs } => env.layout.valid(result) && env.layout.valid(lhs) && prov_valid(env.layout, rhs),
        Instruction::I64Rotr { result, lhs, rhs } => env.layout.valid(result) && env.layout.valid(lhs) && prov_valid(env.layout, rhs),
        Instruction::F32Abs { result, input } => env.layout.valid(result) && env.layout.valid(input),
        Instruction::F32Neg { result, input } => env.layout.valid(result) && env.layout.valid(input),
        Instruction::F32Ceil { result, input } => env.layout.valid(result) && env.layout.valid(input),
        Instruction::F32Floor { result, input } => env.layout.valid(result) && env.layout.valid(input),
        Instruction::F32Trunc { result, input } => env.layout.valid(result) && env.layout.valid(input),
        Instruction::F32Nearest { result, input } => env.layout.valid(result) && env.layout.valid(input),
        Instruction::F32Sqrt { result, input } => env.layout.valid(result) && env.layout.valid(input),
        Instruction::F32Add { result, lhs, rhs } => env.layout.valid(result) && env.layout.valid(lhs) && prov_valid(env.layout, rhs),
        Instruction::F32Sub { result, lhs, rhs } => env.layout.valid(result) && env.layout.valid(lhs) && prov_valid(env.layout, rhs),
        Instruction::F32Mul { result, lhs, rhs } => env.layout.valid(result) && env.layout.valid(lhs) && prov_valid(env.layout, rhs),
        Instruction::F32Div { result, lhs, rhs } => env.layout.valid(result) && env.layout.valid(lhs) && prov_valid(env.layout, rhs),
        Instruction::F32Min { result, lhs, rhs } => env.layout.valid(result) && env.layout.valid(lhs) && prov_valid(env.layout, rhs),
        Instruction::F32Max { result, lhs, rhs } => env.layout.valid(result) && env.layout.valid(lhs) && prov_valid(env.layout, rhs),
        Instruction::F32Copysign { result, lhs, rhs } => env.layout.valid(result) && env.layout.valid(lhs) && prov_valid(env.layout, rhs),
        Instruction::F64Abs { result, input } => env.layout.valid(result) && env.layout.valid(input),
        Instruction::F64Neg { result, input } => env.layout.valid(result) && env.layout.valid(input),
        Instruction::F64Ceil { result, input } => env.layout.valid(result) && env.layout.valid(input),
        Instruction::F64Floor { result, input } => env.layout.valid(result) && env.layout.valid(input),
        Instruction::F64Trunc { result, input } => env.layout.valid(result) && env.layout.valid(input),
        Instruction::F64Nearest { result, input } => env.layout.valid(result) && env.layout.valid(input),
        Instruction::F64Sqrt { result, input } => env.layout.valid(result) && env.layout.valid(input),
        Instruction::F64Add { result, lhs, rhs } => env.layout.valid(result) && env.layout.valid(lhs) && prov_valid(env.layout, rhs),
        Instruction::F64Sub { result, lhs, rhs } => env.layout.valid(result) && env.layout.valid(lhs) && prov_valid(env.layout, rhs),
        Instruction::F64Mul { result, lhs, rhs } => env.layout.valid(result) && env.layout.valid(lhs) && prov_valid(env.layout, rhs),
        Instruction::F64Div { result, lhs, rhs } => env.layout.valid(result) && env.layout.valid(lhs) && prov_valid(env.layout, rhs),
        Instruction::F64Min { result, lhs, rhs } => env.layout.valid(result) && env.layout.valid(lhs) && prov_valid(env.layout, rhs),
        Instruction::F64Max { result, lhs, rhs } => env.layout.valid(result) && env.layout.valid(lhs) && prov_valid(env.layout, rhs),
        Instruction::F64Copysign { result, lhs, rhs } => env.layout.valid(result) && env.layout.valid(lhs) && prov_valid(env.layout, rhs),
        Instruction::I32WrapI64 { result, input } => env.layout.valid(result) && env.layout.valid(input),
        Instruction::I32TruncSF32 { result, input } => env.layout.valid(result) && env.layout.valid(input),
        Instruction::I32TruncUF32 { result, input } => env.layout.valid(result) && env.layout.valid(input),
        Instruction::I32TruncSF64 { result, input } => env.layout.valid(result) && env.layout.valid(input),
        Instruction::I32TruncUF64 { result, input } => env.layout.valid(result) && env.layout.valid(input),
        Instruction::I64ExtendSI32 { result, input } => env.layout.valid(result) && env.layout.valid(input),
        Instruction::I64ExtendUI32 { result, input } => env.layout.valid(result) && env.layout.valid(input),
        Instruction::I64TruncSF32 { result, input } => env.layout.valid(result) && env.layout.valid(input),
        Instruction::I64TruncUF32 { result, input } => env.layout.valid(result) && env.layout.valid(input),
        Instruction::I64TruncSF64 { result, input } => env.layout.valid(result) && env.layout.valid(input),
        Instruction::I64TruncUF64 { result, input } => env.layout.valid(result) && env.layout.valid(input),
        Instruction::F32ConvertSI32 { result, input } => env.layout.valid(result) && env.layout.valid(input),
        Instruction::F32ConvertUI32 { result, input } => env.layout.valid(result) && env.layout.valid(input),
        Instruction::F32ConvertSI64 { result, input } => env.layout.valid(result) && env.layout.valid(input),
        Instruction::F32ConvertUI64 { result, input } => env.layout.valid(result) && env.layout.valid(input),
        Instruction::F32DemoteF64 { result, input } => env.layout.valid(result) && env.layout.valid(input),
        Instruction::F64ConvertSI32 { result, input } => env.layout.valid(result) && env.layout.valid(input),
        Instruction::F64ConvertUI32 { result, input } => env.layout.valid(result) && env.layout.valid(input),
        Instruction::F64ConvertSI64 { result, input } => env.layout.valid(result) && env.layout.valid(input),
        Instruction::F64ConvertUI64 { result, input } => env.layout.valid(result) && env.layout.valid(input),
        Instruction::F64PromoteF32 { result, input } => env.layout.valid(result) && env.layout.valid(input),
        Instruction::I32Extend8S { result, input } => env.layout.valid(result) && env.layout.valid(input),
        Instruction::I32Extend16S { result, input } => env.layout.valid(result) && env.layout.valid(input),
        Instruction::I64Extend8S { result, input } => env.layout.valid(result) && env.layout.valid(input),
        Instruction::I64Extend16S { result, input } => env.layout.valid(result) && env.layout.valid(input),
        Instruction::I64Extend32S { result, input } => env.layout.valid(result) && env.layout.valid(input),
        Instruction::I32TruncSatF32S { result, input } => env.layout.valid(result) && env.layout.valid(input),
        Instruction::I32TruncSatF32U { result, input } => env.layout.valid(result) && env.layout.valid(input),
        Instruction::I32TruncSatF64S { result, input } => env.layout.valid(result) && env.layout.valid(input),
        Instruction::I32TruncSatF64U { result, input } => env.layout.valid(result) && env.layout.valid(input),
        Instruction::I64TruncSatF32S { result, input } => env.layout.valid(result) && env.layout.valid(input),
        Instruction::I64TruncSatF32U { result, input } => env.layout.valid(result) && env.layout.valid(input),
        Instruction::I64TruncSatF64S { result, input } => env.layout.valid(result) && env.layout.valid(input),
        Instruction::I64TruncSatF64U { result, input } => env.layout.valid(result) && env.layout.valid(input),
    }
}

/// How many constants compiling `ir` may add to the pool.
pub open spec fn const_demand(ir: IrInstruction) -> nat {
    match ir {
        Instruction::Br { target: _ } => 0,
        Instruction::BrMulti { target: _, results: _, returned } => (returned.len as nat),
        Instruction::BrEqz { target: _, condition: _ } => 0,
        Instruction::BrNez { target: _, condition: _ } => 0,
        Instruction::BrNezSingle { target: _, condition: _, result: _, returned } => 1,
        Instruction::BrNezMulti { target: _, condition: _, results: _, returned } => (returned.len as nat),
        Instruction::ReturnNez { results, condition: _ } => (results.len as nat),
        Instruction::BrTable { case: _, len_targets: _ } => 0,
        Instruction::Trap { trap_code: _ } => 0,
        Instruction::Return { results } => (results.len as nat),
        Instruction::Call { func_idx: _, results: _, params } => (params.len as nat),
        Instruction::CallIndirect { func_type_idx: _, results: _, index, params } => 1 + (params.len as nat),
        Instruction::Copy { result: _, input: _ } => 0,
        Instruction::CopyImm { result: _, input } => 1,
        Instruction::CopyMany { results: _, inputs } => (inputs.len as nat),
        Instruction::Select { result: _, condition: _, if_true, if_false } => 1 + 1,
        Instruction::GlobalGet { result: _, global: _ } => 0,
        Instruction::GlobalSet { global: _, value } => 1,
        Instruction::I32Load { result: _, ptr: _, offset: _ } => 0,
        Instruction::I64Load { result: _, ptr: _, offset: _ } => 0,
        Instruction::F32Load { result: _, ptr: _, offset: _ } => 0,
        Instruction::F64Load { result: _, ptr: _, offset: _ } => 0,
        Instruction::I32Load8S { result: _, ptr: _, offset: _ } => 0,
        Instruction::I32Load8U { result: _, ptr: _, offset: _ } => 0,
        Instruction::I32Load16S { result: _, ptr: _, offset: _ } => 0,
        Instruction::I32Load16U { result: _, ptr: _, offset: _ } => 0,
        Instruction::I64Load8S { result: _, ptr: _, offset: _ } => 0,
        Instruction::I64Load8U { result: _, ptr: _, offset: _ } => 0,
        Instruction::I64Load16S { result: _, ptr: _, offset: _ } => 0,
        Instruction::I64Load16U { result: _, ptr: _, offset: _ } => 0,
        Instruction::I64Load32S { result: _, ptr: _, offset: _ } => 0,
        Instruction::I64Load32U { result: _, ptr: _, offset: _ } => 0,
        Instruction::I32Store { ptr: _, offset: _, value } => 1,
        Instruction::I64Store { ptr: _, offset: _, value } => 1,
        Instruction::F32Store { ptr: _, offset: _, value } => 1,
        Instruction::F64Store { ptr: _, offset: _, value } => 1,
        Instruction::I32Store8 { ptr: _, offset: _, value } => 1,
        Instruction::I32Store16 { ptr: _, offset: _, value } => 1,
        Instruction::I64Store8 { ptr: _, offset: _, value } => 1,
        Instruction::I64Store16 { ptr: _, offset: _, value } => 1,
        Instruction::I64Store32 { ptr: _, offset: _, value } => 1,
        Instruction::MemorySize { result: _ } => 0,
        Instruction::MemoryGrow { result: _, amount } => 1,
        Instruction::I32Eq { result: _, lhs: _, rhs } => 1,
        Instruction::I32Ne { result: _, lhs: _, rhs } => 1,
        Instruction::I32LtS { result: _, lhs: _, rhs } => 1,
        Instruction::I32LtU { result: _, lhs: _, rhs } => 1,
        Instruction::I32GtS { result: _, lhs: _, rhs } => 1,
        Instruction::I32GtU { result: _, lhs: _, rhs } => 1,
        Instruction::I32LeS { result: _, lhs: _, rhs } => 1,
        Instruction::I32LeU { result: _, lhs: _, rhs } => 1,
        Instruction::I32GeS { result: _, lhs: _, rhs } => 1,
        Instruction::I32GeU { result: _, lhs: _, rhs } => 1,
        Instruction::I64Eq { result: _, lhs: _, rhs } => 1,
        Instruction::I64Ne { result: _, lhs: _, rhs } => 1,
        Instruction::I64LtS { result: _, lhs: _, rhs } => 1,
        Instruction::I64LtU { result: _, lhs: _, rhs } => 1,
        Instruction::I64GtS { result: _, lhs: _, rhs } => 1,
        Instruction::I64GtU { result: _, lhs: _, rhs } => 1,
        Instruction::I64LeS { result: _, lhs: _, rhs } => 1,
        Instruction::I64LeU { result: _, lhs: _, rhs } => 1,
        Instruction::I64GeS { result: _, lhs: _, rhs } => 1,
        Instruction::I64GeU { result: _, lhs: _, rhs } => 1,
        Instruction::F32Eq { result: _, lhs: _, rhs } => 1,
        Instruction::F32Ne { result: _, lhs: _, rhs } => 1,
        Instruction::F32Lt { result: _, lhs: _, rhs } => 1,
        Instruction::F32Gt { result: _, lhs: _, rhs } => 1,
        Instruction::F32Le { result: _, lhs: _, rhs } => 1,
        Instruction::F32Ge { result: _, lhs: _, rhs } => 1,
        Instruction::F64Eq { result: _, lhs: _, rhs } => 1,
        Instruction::F64Ne { result: _, lhs: _, rhs } => 1,
        Instruction::F64Lt { result: _, lhs: _, rhs } => 1,
        Instruction::F64Gt { result: _, lhs: _, rhs } => 1,
        Instruction::F64Le { result: _, lhs: _, rhs } => 1,
        Instruction::F64Ge { result: _, lhs: _, rhs } => 1,
        Instruction::I32Clz { result: _, input: _ } => 0,
        Instruction::I32Ctz { result: _, input: _ } => 0,
        Instruction::I32Popcnt { result: _, input: _ } => 0,
        Instruction::I32Add { result: _, lhs: _, rhs } => 1,
        Instruction::I32Sub { result: _, lhs: _, rhs } => 1,
        Instruction::I32Mul { result: _, lhs: _, rhs } => 1,
        Instruction::I32DivS { result: _, lhs: _, rhs } => 1,
        Instruction::I32DivU { result: _, lhs: _, rhs } => 1,
        Instruction::I32RemS { result: _, lhs: _, rhs } => 1,
        Instruction::I32RemU { result: _, lhs: _, rhs } => 1,
        Instruction::I32And { result: _, lhs: _, rhs } => 1,
        Instruction::I32Or { result: _, lhs: _, rhs } => 1,
        Instruction::I32Xor { result: _, lhs: _, rhs } => 1,
        Instruction::I32Shl { result: _, lhs: _, rhs } => 1,
        Instruction::I32ShrS { result: _, lhs: _, rhs } => 1,
        Instruction::I32ShrU { result: _, lhs: _, rhs } => 1,
        Instruction::I32Rotl { result: _, lhs: _, rhs } => 1,
        Instruction::I32Rotr { result: _, lhs: _, rhs } => 1,
        Instruction::I64Clz { result: _, input: _ } => 0,
        Instruction::I64Ctz { result: _, input: _ } => 0,
        Instruction::I64Popcnt { result: _, input: _ } => 0,
        Instruction::I64Add { result: _, lhs: _, rhs } => 1,
        Instruction::I64Sub { result: _, lhs: _, rhs } => 1,
        Instruction::I64Mul { result: _, lhs: _, rhs } => 1,
        Instruction::I64DivS { result: _, lhs: _, rhs } => 1,
        Instruction::I64DivU { result: _, lhs: _, rhs } => 1,
        Instruction::I64RemS { result: _, lhs: _, rhs } => 1,
        Instruction::I64RemU { result: _, lhs: _, rhs } => 1,
        Instruction::I64And { result: _, lhs: _, rhs } => 1,
        Instruction::I64Or { result: _, lhs: _, rhs } => 1,
        Instruction::I64Xor { result: _, lhs: _, rhs } => 1,
        Instruction::I64Shl { result: _, lhs: _, rhs } => 1,
        Instruction::I64ShrS { result: _, lhs: _, rhs } => 1,
        Instruction::I64ShrU { result: _, lhs: _, rhs } => 1,
        Instruction::I64Rotl { result: _, lhs: _, rhs } => 1,
        Instruction::I64Rotr { result: _, lhs: _, rhs } => 1,
        Instruction::F32Abs { result: _, input: _ } => 0,
        Instruction::F32Neg { result: _, input: _ } => 0,
        Instruction::F32Ceil { result: _, input: _ } => 0,
        Instruction::F32Floor { result: _, input: _ } => 0,
        Instruction::F32Trunc { result: _, input: _ } => 0,
        Instruction::F32Nearest { result: _, input: _ } => 0,
        Instruction::F32Sqrt { result: _, input: _ } => 0,
        Instruction::F32Add { result: _, lhs: _, rhs } => 1,
        Instruction::F32Sub { result: _, lhs: _, rhs } => 1,
        Instruction::F32Mul { result: _, lhs: _, rhs } => 1,
        Instruction::F32Div { result: _, lhs: _, rhs } => 1,
        Instruction::F32Min { result: _, lhs: _, rhs } => 1,
        Instruction::F32Max { result: _, lhs: _, rhs } => 1,
        Instruction::F32Copysign { result: _, lhs: _, rhs } => 1,
        Instruction::F64Abs { result: _, input: _ } => 0,
        Instruction::F64Neg { result: _, input: _ } => 0,
        Instruction::F64Ceil { result: _, input: _ } => 0,
        Instruction::F64Floor { result: _, input: _ } => 0,
        Instruction::F64Trunc { result: _, input: _ } => 0,
        Instruction::F64Nearest { result: _, input: _ } => 0,
        Instruction::F64Sqrt { result: _, input: _ } => 0,
        Instruction::F64Add { result: _, lhs: _, rhs } => 1,
        Instruction::F64Sub { result: _, lhs: _, rhs } => 1,
        Instruction::F64Mul { result: _, lhs: _, rhs } => 1,
        Instruction::F64Div { result: _, lhs: _, rhs } => 1,
        Instruction::F64Min { result: _, lhs: _, rhs } => 1,
        Instruction::F64Max { result: _, lhs: _, rhs } => 1,
        Instruction::F64Copysign { result: _, lhs: _, rhs } => 1,
        Instruction::I32WrapI64 { result: _, input: _ } => 0,
        Instruction::I32TruncSF32 { result: _, input: _ } => 0,
        Instruction::I32TruncUF32 { result: _, input: _ } => 0,
        Instruction::I32TruncSF64 { result: _, input: _ } => 0,
        Instruction::I32TruncUF64 { result: _, input: _ } => 0,
        Instruction::I64ExtendSI32 { result: _, input: _ } => 0,
        Instruction::I64ExtendUI32 { result: _, input: _ } => 0,
        Instruction::I64TruncSF32 { result: _, input: _ } => 0,
        Instruction::I64TruncUF32 { result: _, input: _ } => 0,
        Instruction::I64TruncSF64 { result: _, input: _ } => 0,
        Instruction::I64TruncUF64 { result: _, input: _ } => 0,
        Instruction::F32ConvertSI32 { result: _, input: _ } => 0,
        Instruction::F32ConvertUI32 { result: _, input: _ } => 0,
        Instruction::F32ConvertSI64 { result: _, input: _ } => 0,
        Instruction::F32ConvertUI64 { result: _, input: _ } => 0,
        Instruction::F32DemoteF64 { result: _, input: _ } => 0,
        Instruction::F64ConvertSI32 { result: _, input: _ } => 0,
        Instruction::F64ConvertUI32 { result: _, input: _ } => 0,
        Instruction::F64ConvertSI64 { result: _, input: _ } => 0,
        Instruction::F64ConvertUI64 { result: _, input: _ } => 0,
        Instruction::F64PromoteF32 { result: _, input: _ } => 0,
        Instruction::I32Extend8S { result: _, input: _ } => 0,
        Instruction::I32Extend16S { result: _, input: _ } => 0,
        Instruction::I64Extend8S { result: _, input: _ } => 0,
        Instruction::I64Extend16S { result: _, input: _ } => 0,
        Instruction::I64Extend32S { result: _, input: _ } => 0,
        Instruction::I32TruncSatF32S { result: _, input: _ } => 0,
        Instruction::I32TruncSatF32U { result: _, input: _ } => 0,
        Instruction::I32TruncSatF64S { result: _, input: _ } => 0,
        Instruction::I32TruncSatF64U { result: _, input: _ } => 0,
        Instruction::I64TruncSatF32S { result: _, input: _ } => 0,
        Instruction::I64TruncSatF32U { result: _, input: _ } => 0,
        Instruction::I64TruncSatF64S { result: _, input: _ } => 0,
        Instruction::I64TruncSatF64U { result: _, input: _ } => 0,
    }
}

/// How many providers compiling `ir` may add to the provider-slice arena.
pub open spec fn slice_demand(ir: IrInstruction) -> nat {
    match ir {
        Instruction::Br { target: _ } => 0,
        Instruction::BrMulti { target: _, results: _, returned } => (returned.len as nat),
        Instruction::BrEqz { target: _, condition: _ } => 0,
        Instruction::BrNez { target: _, condition: _ } => 0,
        Instruction::BrNezSingle { target: _, condition: _, result: _, returned: _ } => 0,
        Instruction::BrNezMulti { target: _, condition: _, results: _, returned } => (returned.len as nat),
        Instruction::ReturnNez { results, condition: _ } => (results.len as nat),
        Instruction::BrTable { case: _, len_targets: _ } => 0,
        Instruction::Trap { trap_code: _ } => 0,
        Instruction::Return { results } => (results.len as nat),
        Instruction::Call { func_idx: _, results: _, params } => (params.len as nat),
        Instruction::CallIndirect { func_type_idx: _, results: _, index: _, params } => (params.len as nat),
        Instruction::Copy { result: _, input: _ } => 0,
        Instruction::CopyImm { result: _, input: _ } => 0,
        Instruction::CopyMany { results: _, inputs } => (inputs.len as nat),
        Instruction::Select { result: _, condition: _, if_true: _, if_false: _ } => 0,
        Instruction::GlobalGet { result: _, global: _ } => 0,
        Instruction::GlobalSet { global: _, value: _ } => 0,
        Instruction::I32Load { result: _, ptr: _, offset: _ } => 0,
        Instruction::I64Load { result: _, ptr: _, offset: _ } => 0,
        Instruction::F32Load { result: _, ptr: _, offset: _ } => 0,
        Instruction::F64Load { result: _, ptr: _, offset: _ } => 0,
        Instruction::I32Load8S { result: _, ptr: _, offset: _ } => 0,
        Instruction::I32Load8U { result: _, ptr: _, offset: _ } => 0,
        Instruction::I32Load16S { result: _, ptr: _, offset: _ } => 0,
        Instruction::I32Load16U { result: _, ptr: _, offset: _ } => 0,
        Instruction::I64Load8S { result: _, ptr: _, offset: _ } => 0,
        Instruction::I64Load8U { result: _, ptr: _, offset: _ } => 0,
        Instruction::I64Load16S { result: _, ptr: _, offset: _ } => 0,
        Instruction::I64Load16U { result: _, ptr: _, offset: _ } => 0,
        Instruction::I64Load32S { result: _, ptr: _, offset: _ } => 0,
        Instruction::I64Load32U { result: _, ptr: _, offset: _ } => 0,
        Instruction::I32Store { ptr: _, offset: _, value: _ } => 0,
        Instruction::I64Store { ptr: _, offset: _, value: _ } => 0,
        Instruction::F32Store { ptr: _, offset: _, value: _ } => 0,
        Instruction::F64Store { ptr: _, offset: _, value: _ } => 0,
        Instruction::I32Store8 { ptr: _, offset: _, value: _ } => 0,
        Instruction::I32Store16 { ptr: _, offset: _, value: _ } => 0,
        Instruction::I64Store8 { ptr: _, offset: _, value: _ } => 0,
        Instruction::I64Store16 { ptr: _, offset: _, value: _ } => 0,
        Instruction::I64Store32 { ptr: _, offset: _, value: _ } => 0,
        Instruction::MemorySize { result: _ } => 0,
        Instruction::MemoryGrow { result: _, amount: _ } => 0,
        Instruction::I32Eq { result: _, lhs: _, rhs: _ } => 0,
        Instruction::I32Ne { result: _, lhs: _, rhs: _ } => 0,
        Instruction::I32LtS { result: _, lhs: _, rhs: _ } => 0,
        Instruction::I32LtU { result: _, lhs: _, rhs: _ } => 0,
        Instruction::I32GtS { result: _, lhs: _, rhs: _ } => 0,
        Instruction::I32GtU { result: _, lhs: _, rhs: _ } => 0,
        Instruction::I32LeS { result: _, lhs: _, rhs: _ } => 0,
        Instruction::I32LeU { result: _, lhs: _, rhs: _ } => 0,
        Instruction::I32GeS { result: _, lhs: _, rhs: _ } => 0,
        Instruction::I32GeU { result: _, lhs: _, rhs: _ } => 0,
        Instruction::I64Eq { result: _, lhs: _, rhs: _ } => 0,
        Instruction::I64Ne { result: _, lhs: _, rhs: _ } => 0,
        Instruction::I64LtS { result: _, lhs: _, rhs: _ } => 0,
        Instruction::I64LtU { result: _, lhs: _, rhs: _ } => 0,
        Instruction::I64GtS { result: _, lhs: _, rhs: _ } => 0,
        Instruction::I64GtU { result: _, lhs: _, rhs: _ } => 0,
        Instruction::I64LeS { result: _, lhs: _, rhs: _ } => 0,
        Instruction::I64LeU { result: _, lhs: _, rhs: _ } => 0,
        Instruction::I64GeS { result: _, lhs: _, rhs: _ } => 0,
        Instruction::I64GeU { result: _, lhs: _, rhs: _ } => 0,
        Instruction::F32Eq { result: _, lhs: _, rhs: _ } => 0,
        Instruction::F32Ne { result: _, lhs: _, rhs: _ } => 0,
        Instruction::F32Lt { result: _, lhs: _, rhs: _ } => 0,
        Instruction::F32Gt { result: _, lhs: _, rhs: _ } => 0,
        Instruction::F32Le { result: _, lhs: _, rhs: _ } => 0,
        Instruction::F32Ge { result: _, lhs: _, rhs: _ } => 0,
        Instruction::F64Eq { result: _, lhs: _, rhs: _ } => 0,
        Instruction::F64Ne { result: _, lhs: _, rhs: _ } => 0,
        Instruction::F64Lt { result: _, lhs: _, rhs: _ } => 0,
        Instruction::F64Gt { result: _, lhs: _, rhs: _ } => 0,
        Instruction::F64Le { result: _, lhs: _, rhs: _ } => 0,
        Instruction::F64Ge { result: _, lhs: _, rhs: _ } => 0,
        Instruction::I32Clz { result: _, input: _ } => 0,
        Instruction::I32Ctz { result: _, input: _ } => 0,
        Instruction::I32Popcnt { result: _, input: _ } => 0,
        Instruction::I32Add { result: _, lhs: _, rhs: _ } => 0,
        Instruction::I32Sub { result: _, lhs: _, rhs: _ } => 0,
        Instruction::I32Mul { result: _, lhs: _, rhs: _ } => 0,
        Instruction::I32DivS { result: _, lhs: _, rhs: _ } => 0,
        Instruction::I32DivU { result: _, lhs: _, rhs: _ } => 0,
        Instruction::I32RemS { result: _, lhs: _, rhs: _ } => 0,
        Instruction::I32RemU { result: _, lhs: _, rhs: _ } => 0,
        Instruction::I32And { result: _, lhs: _, rhs: _ } => 0,
        Instruction::I32Or { result: _, lhs: _, rhs: _ } => 0,
        Instruction::I32Xor { result: _, lhs: _, rhs: _ } => 0,
        Instruction::I32Shl { result: _, lhs: _, rhs: _ } => 0,
        Instruction::I32ShrS { result: _, lhs: _, rhs: _ } => 0,
        Instruction::I32ShrU { result: _, lhs: _, rhs: _ } => 0,
        Instruction::I32Rotl { result: _, lhs: _, rhs: _ } => 0,
        Instruction::I32Rotr { result: _, lhs: _, rhs: _ } => 0,
        Instruction::I64Clz { result: _, input: _ } => 0,
        Instruction::I64Ctz { result: _, input: _ } => 0,
        Instruction::I64Popcnt { result: _, input: _ } => 0,
        Instruction::I64Add { result: _, lhs: _, rhs: _ } => 0,
        Instruction::I64Sub { result: _, lhs: _, rhs: _ } => 0,
        Instruction::I64Mul { result: _, lhs: _, rhs: _ } => 0,
        Instruction::I64DivS { result: _, lhs: _, rhs: _ } => 0,
        Instruction::I64DivU { result: _, lhs: _, rhs: _ } => 0,
        Instruction::I64RemS { result: _, lhs: _, rhs: _ } => 0,
        Instruction::I64RemU { result: _, lhs: _, rhs: _ } => 0,
        Instruction::I64And { result: _, lhs: _, rhs: _ } => 0,
        Instruction::I64Or { result: _, lhs: _, rhs: _ } => 0,
        Instruction::I64Xor { result: _, lhs: _, rhs: _ } => 0,
        Instruction::I64Shl { result: _, lhs: _, rhs: _ } => 0,
        Instruction::I64ShrS { result: _, lhs: _, rhs: _ } => 0,
        Instruction::I64ShrU { result: _, lhs: _, rhs: _ } => 0,
        Instruction::I64Rotl { result: _, lhs: _, rhs: _ } => 0,
        Instruction::I64Rotr { result: _, lhs: _, rhs: _ } => 0,
        Instruction::F32Abs { result: _, input: _ } => 0,
        Instruction::F32Neg { result: _, input: _ } => 0,
        Instruction::F32Ceil { result: _, input: _ } => 0,
        Instruction::F32Floor { result: _, input: _ } => 0,
        Instruction::F32Trunc { result: _, input: _ } => 0,
        Instruction::F32Nearest { result: _, input: _ } => 0,
        Instruction::F32Sqrt { result: _, input: _ } => 0,
        Instruction::F32Add { result: _, lhs: _, rhs: _ } => 0,
        Instruction::F32Sub { result: _, lhs: _, rhs: _ } => 0,
        Instruction::F32Mul { result: _, lhs: _, rhs: _ } => 0,
        Instruction::F32Div { result: _, lhs: _, rhs: _ } => 0,
        Instruction::F32Min { result: _, lhs: _, rhs: _ } => 0,
        Instruction::F32Max { result: _, lhs: _, rhs: _ } => 0,
        Instruction::F32Copysign { result: _, lhs: _, rhs: _ } => 0,
        Instruction::F64Abs { result: _, input: _ } => 0,
        Instruction::F64Neg { result: _, input: _ } => 0,
        Instruction::F64Ceil { result: _, input: _ } => 0,
        Instruction::F64Floor { result: _, input: _ } => 0,
        Instruction::F64Trunc { result: _, input: _ } => 0,
        Instruction::F64Nearest { result: _, input: _ } => 0,
        Instruction::F64Sqrt { result: _, input: _ } => 0,
        Instruction::F64Add { result: _, lhs: _, rhs: _ } => 0,
        Instruction::F64Sub { result: _, lhs: _, rhs: _ } => 0,
        Instruction::F64Mul { result: _, lhs: _, rhs: _ } => 0,
        Instruction::F64Div { result: _, lhs: _, rhs: _ } => 0,
        Instruction::F64Min { result: _, lhs: _, rhs: _ } => 0,
        Instruction::F64Max { result: _, lhs: _, rhs: _ } => 0,
        Instruction::F64Copysign { result: _, lhs: _, rhs: _ } => 0,
        Instruction::I32WrapI64 { result: _, input: _ } => 0,
        Instruction::I32TruncSF32 { result: _, input: _ } => 0,
        Instruction::I32TruncUF32 { result: _, input: _ } => 0,
        Instruction::I32TruncSF64 { result: _, input: _ } => 0,
        Instruction::I32TruncUF64 { result: _, input: _ } => 0,
        Instruction::I64ExtendSI32 { result: _, input: _ } => 0,
        Instruction::I64ExtendUI32 { result: _, input: _ } => 0,
        Instruction::I64TruncSF32 { result: _, input: _ } => 0,
        Instruction::I64TruncUF32 { result: _, input: _ } => 0,
        Instruction::I64TruncSF64 { result: _, input: _ } => 0,
        Instruction::I64TruncUF64 { result: _, input: _ } => 0,
        Instruction::F32ConvertSI32 { result: _, input: _ } => 0,
        Instruction::F32ConvertUI32 { result: _, input: _ } => 0,
        Instruction::F32ConvertSI64 { result: _, input: _ } => 0,
        Instruction::F32ConvertUI64 { result: _, input: _ } => 0,
        Instruction::F32DemoteF64 { result: _, input: _ } => 0,
        Instruction::F64ConvertSI32 { result: _, input: _ } => 0,
        Instruction::F64ConvertUI32 { result: _, input: _ } => 0,
        Instruction::F64ConvertSI64 { result: _, input: _ } => 0,
        Instruction::F64ConvertUI64 { result: _, input: _ } => 0,
        Instruction::F64PromoteF32 { result: _, input: _ } => 0,
        Instruction::I32Extend8S { result: _, input: _ } => 0,
        Instruction::I32Extend16S { result: _, input: _ } => 0,
        Instruction::I64Extend8S { result: _, input: _ } => 0,
        Instruction::I64Extend16S { result: _, input: _ } => 0,
        Instruction::I64Extend32S { result: _, input: _ } => 0,
        Instruction::I32TruncSatF32S { result: _, input: _ } => 0,
        Instruction::I32TruncSatF32U { result: _, input: _ } => 0,
        Instruction::I32TruncSatF64S { result: _, input: _ } => 0,
        Instruction::I32TruncSatF64U { result: _, input: _ } => 0,
        Instruction::I64TruncSatF32S { result: _, input: _ } => 0,
        Instruction::I64TruncSatF32U { result: _, input: _ } => 0,
        Instruction::I64TruncSatF64S { result: _, input: _ } => 0,
        Instruction::I64TruncSatF64U { result: _, input: _ } => 0,
    }
}

/// Every element of `a` stands at the same position in `b`.
pub open spec fn seq_extends<T>(a: Seq<T>, b: Seq<T>) -> bool {
    a.len() <= b.len() && forall|i: int| 0 <= i < a.len() ==> #[trigger] b[i] == a[i]
}

/// `b` holds the providers and the slices of `a` at the same positions.
pub open spec fn arena_extends(a: DedupProviderSliceArena, b: DedupProviderSliceArena) -> bool {
    seq_extends(a.providers(), b.providers()) && seq_extends(a.slices(), b.slices())
}

/// The resources `b` hold the constants and the provider slices of `a`.
pub open spec fn res_extends(a: EngineResources, b: EngineResources) -> bool {
    seq_extends(a.const_pool@, b.const_pool@) && arena_extends(a.provider_pool, b.provider_pool)
}

/// A compiled operand stays the compiled form of its IR operand while the
/// constant pool and the arena grow.
proof fn lemma_fields_mono(
    env: CompileEnv,
    pool1: Seq<u64>,
    pool2: Seq<u64>,
    a1: DedupProviderSliceArena,
    a2: DedupProviderSliceArena,
)
    requires
        seq_extends(pool1, pool2),
        arena_extends(a1, a2),
        a1.wf(),
    ensures
        forall|p: IrProvider, e: ExecProvider| #[trigger] prov_ok(env.layout, pool1, p, e) ==> prov_ok(env.layout, pool2, p, e),
        forall|v: u64, c: ConstRef| #[trigger] imm_ok(pool1, v, c) ==> imm_ok(pool2, v, c),
        forall|s: IrProviderSlice, e: ExecProviderSlice| #[trigger] pslice_ok(env, pool1, a1, s, e) ==> pslice_ok(env, pool2, a2, s, e),
{
    assert forall|p: IrProvider, e: ExecProvider| #[trigger] prov_ok(env.layout, pool1, p, e) implies prov_ok(env.layout, pool2, p, e) by {
        if let IrProvider::Immediate(v) = p {
            if let RegisterOrImmediate::Immediate(c) = e@ {
                assert(pool2[c.0 as int] == pool1[c.0 as int]);
            }
        }
    }
    assert forall|s: IrProviderSlice, e: ExecProviderSlice| #[trigger] pslice_ok(env, pool1, a1, s, e) implies pslice_ok(env, pool2, a2, s, e) by {
        let i = choose|i: int| 0 <= i < a1.slices().len() && a1.slices()[i] == e;
        assert(a1.in_bounds(a1.slices()[i]));
        assert(a2.slices()[i] == e);
        assert(a2.contents(e) =~= a1.contents(e));
        assert forall|k: int| 0 <= k < s.len implies prov_ok(env.layout, pool2, env.ir_arena.contents(s)[k], #[trigger] a2.contents(e)[k]) by {
            assert(prov_ok(env.layout, pool1, env.ir_arena.contents(s)[k], a1.contents(e)[k]));
        }
    }
}

/// A compiled instruction stays the compiled form of its IR instruction while
/// the constant pool and the arena grow.
pub proof fn lemma_compiles_to_mono(
    env: CompileEnv,
    pool1: Seq<u64>,
    pool2: Seq<u64>,
    a1: DedupProviderSliceArena,
    a2: DedupProviderSliceArena,
    pc: int,
    ir: IrInstruction,
    ex: ExecInstruction,
)
    requires
        seq_extends(pool1, pool2),
        arena_extends(a1, a2),
        a1.wf(),
        compiles_to(env, pool1, a1, pc, ir, ex),
    ensures
        compiles_to(env, pool2, a2, pc, ir, ex),
{
    lemma_fields_mono(env, pool1, pool2, a1, a2);
}

/// Against a pool and an arena without duplicates, a compiled operand is the
/// only compiled form of its IR operand.
proof fn lemma_fields_unique(env: CompileEnv, pool: Seq<u64>, arena: DedupProviderSliceArena)
    requires
        forall|i: int, j: int| 0 <= i < j < pool.len() ==> pool[i] != pool[j],
        arena.wf(),
    ensures
        forall|p: IrProvider, e1: ExecProvider, e2: ExecProvider|
            #[trigger] prov_ok(env.layout, pool, p, e1) && #[trigger] prov_ok(env.layout, pool, p, e2) ==> e1 == e2,
        forall|v: u64, c1: ConstRef, c2: ConstRef|
            #[trigger] imm_ok(pool, v, c1) && #[trigger] imm_ok(pool, v, c2) ==> c1 == c2,
        forall|s: IrProviderSlice, e1: ExecProviderSlice, e2: ExecProviderSlice|
            #[trigger] pslice_ok(env, pool, arena, s, e1) && #[trigger] pslice_ok(env, pool, arena, s, e2) ==> e1 == e2,
{
    assert forall|v: u64, c1: ConstRef, c2: ConstRef|
        #[trigger] imm_ok(pool, v, c1) && #[trigger] imm_ok(pool, v, c2) implies c1 == c2 by {
        if c1.0 < c2.0 {
            assert(pool[c1.0 as int] != pool[c2.0 as int]);
        } else if c2.0 < c1.0 {
            assert(pool[c2.0 as int] != pool[c1.0 as int]);
        }
    }
    assert forall|p: IrProvider, e1: ExecProvider, e2: ExecProvider|
        #[trigger] prov_ok(env.layout, pool, p, e1) && #[trigger] prov_ok(env.layout, pool, p, e2) implies e1 == e2 by {
        if let IrProvider::Immediate(v) = p {
            if let RegisterOrImmediate::Immediate(c1) = e1@ {
                if let RegisterOrImmediate::Immediate(c2) = e2@ {
                    assert(imm_ok(pool, v, c1) && imm_ok(pool, v, c2));
                }
            }
        }
        ExecProvider::lemma_view_injective(e1, e2);
    }
    assert forall|s: IrProviderSlice, e1: ExecProviderSlice, e2: ExecProviderSlice|
        #[trigger] pslice_ok(env, pool, arena, s, e1) && #[trigger] pslice_ok(env, pool, arena, s, e2) implies e1 == e2 by {
        assert forall|k: int| 0 <= k < s.len implies arena.contents(e1)[k] == arena.contents(e2)[k] by {
            let p = env.ir_arena.contents(s)[k];
            assert(prov_ok(env.layout, pool, p, arena.contents(e1)[k]));
            assert(prov_ok(env.layout, pool, p, arena.contents(e2)[k]));
        }
        assert(arena.contents(e1) =~= arena.contents(e2));
        let i = choose|i: int| 0 <= i < arena.slices().len() && arena.slices()[i] == e1;
        let j = choose|j: int| 0 <= j < arena.slices().len() && arena.slices()[j] == e2;
        if i != j {
            assert(arena.contents(arena.slices()[i]) != arena.contents(arena.slices()[j]));
        }
    }
}

/// Compiling is deterministic: against the same constant pool and
/// provider-slice arena, an IR instruction has exactly one executable form,
/// constant references and provider-slice handles included.
pub proof fn lemma_compiles_to_unique(
    env: CompileEnv,
    pool: Seq<u64>,
    arena: DedupProviderSliceArena,
    pc: int,
    ir: IrInstruction,
    e1: ExecInstruction,
    e2: ExecInstruction,
)
    requires
        forall|i: int, j: int| 0 <= i < j < pool.len() ==> pool[i] != pool[j],
        arena.wf(),
        compiles_to(env, pool, arena, pc, ir, e1),
        compiles_to(env, pool, arena, pc, ir, e2),
    ensures
        e1 == e2,
{
    lemma_fields_unique(env, pool, arena);
}

/// Compiling a function body is deterministic: against the same constant
/// pool and provider-slice arena, two compiled forms of the same IR
/// instructions are the same instruction table.
pub proof fn lemma_compiled_body_unique(
    env: CompileEnv,
    pool: Seq<u64>,
    arena: DedupProviderSliceArena,
    insts: Seq<IrInstruction>,
    body1: Seq<ExecInstruction>,
    body2: Seq<ExecInstruction>,
)
    requires
        forall|i: int, j: int| 0 <= i < j < pool.len() ==> pool[i] != pool[j],
        arena.wf(),
        body1.len() == insts.len(),
        body2.len() == insts.len(),
        forall|i: int| 0 <= i < insts.len() ==> compiles_to(env, pool, arena, i, insts[i], #[trigger] body1[i]),
        forall|i: int| 0 <= i < insts.len() ==> compiles_to(env, pool, arena, i, insts[i], #[trigger] body2[i]),
    ensures
        body1 == body2,
{
    assert forall|i: int| 0 <= i < insts.len() implies body1[i] == body2[i] by {
        assert(compiles_to(env, pool, arena, i, insts[i], body1[i]));
        assert(compiles_to(env, pool, arena, i, insts[i], body2[i]));
        lemma_compiles_to_unique(env, pool, arena, i, insts[i], body1[i], body2[i]);
    }
    assert(body1 =~= body2);
}

/// A compiled branch at `pc` with offset `d` lands on the instruction `pc + d`
/// that its label is pinned to; where labels are pinned no further than `n`,
/// so is the target.
pub proof fn lemma_branch_lands_on_pinned_label(
    env: CompileEnv,
    pool: Seq<u64>,
    arena: DedupProviderSliceArena,
    pc: int,
    ir: IrInstruction,
    ex: ExecInstruction,
    n: int,
)
    requires
        compiles_to(env, pool, arena, pc, ir, ex),
        exec_target(ex) is Some,
        forall|l: int| 0 <= l < env.labels@.len() ==>
            (#[trigger] env.labels@[l] matches Label::Pinned(i) ==> i.0 <= n),
    ensures
        ir_target(ir) matches Some(l) && env.labels.pinned_to(l, crate::labels::Instr((pc + exec_target(ex).unwrap().0) as u32)),
        0 <= pc + exec_target(ex).unwrap().0 <= n,
{
    let l = ir_target(ir).unwrap();
    assert(env.labels@[l.0 as int] is Pinned);
}

/// The resources that compiled code refers to.
pub struct EngineResources {
    /// The constants of all compiled functions.
    pub const_pool: ConstPool,
    /// The provider slices of all compiled functions.
    pub provider_pool: DedupProviderSliceArena,
}

impl EngineResources {
    /// Both pools are well-formed.
    pub open spec fn wf(&self) -> bool {
        self.const_pool.wf() && self.provider_pool.wf()
    }

    /// Creates empty resources.
    pub fn new() -> (r: Self)
        ensures
            r.wf(),
            r.const_pool@.len() == 0,
            r.provider_pool.providers().len() == 0,
            r.provider_pool.slices().len() == 0,
    {
        EngineResources { const_pool: ConstPool::new(), provider_pool: DedupProviderSliceArena::new() }
    }
}

/// A reference to a compiled function body in the [`CodeMap`].
#[derive(Debug, Copy, Clone, PartialEq, Eq, Structural)]
pub struct FuncBody(pub u32);

/// A compiled function body.
#[derive(Debug)]
pub struct FuncBodyEntity {
    /// The executable instructions.
    pub insts: Vec<ExecInstruction>,
    /// The number of registers of a frame of the function.
    pub len_regs: u16,
}

/// The compiled function bodies, addressed by dense [`FuncBody`] handles.
#[derive(Debug)]
pub struct CodeMap {
    bodies: Vec<FuncBodyEntity>,
}

impl CodeMap {
    /// The bodies in the order they were added.
    pub closed spec fn bodies(&self) -> Seq<FuncBodyEntity> {
        self.bodies@
    }

    /// Creates an empty code map.
    pub fn new() -> (r: Self)
        ensures
            r.bodies().len() == 0,
    {
        CodeMap { bodies: Vec::new() }
    }

    /// Adds a compiled function body and returns its handle.
    pub fn alloc_body(&mut self, insts: Vec<ExecInstruction>, len_regs: u16) -> (r: FuncBody)
        requires
            old(self).bodies().len() < u32::MAX,
        ensures
            r.0 == old(self).bodies().len(),
            final(self).bodies() == old(self).bodies().push(FuncBodyEntity { insts, len_regs }),
    {
        let index = self.bodies.len() as u32;
        self.bodies.push(FuncBodyEntity { insts, len_regs });
        FuncBody(index)
    }

    /// Returns the number of bodies.
    pub fn len(&self) -> (r: usize)
        ensures
            r == self.bodies().len(),
    {
        self.bodies.len()
    }

    /// Returns the instruction at `index` of the function body, if both exist.
    pub fn resolve_inst(&self, func_body: FuncBody, index: usize) -> (r: Option<ExecInstruction>)
        ensures
            func_body.0 < self.bodies().len() && index < self.bodies()[func_body.0 as int].insts@.len()
                ==> r == Some(self.bodies()[func_body.0 as int].insts@[index as int]),
            !(func_body.0 < self.bodies().len() && index < self.bodies()[func_body.0 as int].insts@.len()) ==> r.is_none(),
    {
        let b = func_body.0 as usize;
        if b < self.bodies.len() && index < self.bodies[b].insts.len() {
            Some(self.bodies[b].insts[index])
        } else {
            None
        }
    }

    /// Returns the number of instructions of the function body, if it exists.
    pub fn len_insts(&self, func_body: FuncBody) -> (r: Option<usize>)
        ensures
            func_body.0 < self.bodies().len() ==> r == Some(self.bodies()[func_body.0 as int].insts@.len() as usize),
            func_body.0 >= self.bodies().len() ==> r.is_none(),
    {
        let b = func_body.0 as usize;
        if b < self.bodies.len() {
            Some(self.bodies[b].insts.len())
        } else {
            None
        }
    }

    /// Returns the number of registers of a frame of the function body, if it exists.
    pub fn len_regs(&self, func_body: FuncBody) -> (r: Option<u16>)
        ensures
            func_body.0 < self.bodies().len() ==> r == Some(self.bodies()[func_body.0 as int].len_regs),
            func_body.0 >= self.bodies().len() ==> r.is_none(),
    {
        let b = func_body.0 as usize;
        if b < self.bodies.len() {
            Some(self.bodies[b].len_regs)
        } else {
            None
        }
    }
}

/// The constants one after the other of the IR instructions `insts` demand.
pub open spec fn total_const_demand(insts: Seq<IrInstruction>) -> nat
    decreases insts.len(),
{
    if insts.len() == 0 {
        0
    } else {
        total_const_demand(insts.drop_last()) + const_demand(insts.last())
    }
}

/// The arena providers one after the other of the IR instructions `insts` demand.
pub open spec fn total_slice_demand(insts: Seq<IrInstruction>) -> nat
    decreases insts.len(),
{
    if insts.len() == 0 {
        0
    } else {
        total_slice_demand(insts.drop_last()) + slice_demand(insts.last())
    }
}

/// The state of the engine that compilation changes.
pub struct EngineInner {
    /// The constant pool and the provider-slice arena.
    pub res: EngineResources,
    /// The compiled function bodies.
    pub code_map: CodeMap,
}

impl EngineInner {
    /// The resources are well-formed.
    pub open spec fn wf(&self) -> bool {
        self.res.wf()
    }

    /// Creates an engine without constants and function bodies.
    pub fn new() -> (r: Self)
        ensures
            r.wf(),
            r.res.const_pool@.len() == 0,
            r.res.provider_pool.slices().len() == 0,
            r.res.provider_pool.providers().len() == 0,
            r.code_map.bodies().len() == 0,
    {
        EngineInner { res: EngineResources::new(), code_map: CodeMap::new() }
    }

    /// Interns the untyped value with the bits `value` in the constant pool.
    pub fn alloc_const(&mut self, value: u64) -> (r: Result<ConstRef, TranslationError>)
        requires
            old(self).wf(),
        ensures
            final(self).wf(),
            final(self).code_map == old(self).code_map,
            final(self).res.provider_pool == old(self).res.provider_pool,
            r matches Ok(c) ==> imm_ok(final(self).res.const_pool@, value, c),
            seq_extends(old(self).res.const_pool@, final(self).res.const_pool@),
            r is Err <==> (forall|i: int| 0 <= i < old(self).res.const_pool@.len() ==> old(self).res.const_pool@[i] != value)
                && old(self).res.const_pool@.len() >= MAX_CONSTS,
    {
        self.res.const_pool.alloc_const(value)
    }

    fn compile_register(layout: RegisterLayout, register: IrRegister) -> (r: Result<ExecRegister, TranslationError>)
        requires
            layout.wf(),
        ensures
            r is Ok <==> layout.valid(register),
            r matches Ok(e) ==> reg_ok(layout, register, e),
    {
        layout.compile_register(register)
    }

    fn compile_register_slice(layout: RegisterLayout, slice: IrRegisterSlice) -> (r: Result<ExecRegisterSlice, TranslationError>)
        requires
            layout.wf(),
        ensures
            r is Ok <==> rslice_valid(layout, slice),
            r matches Ok(e) ==> rslice_ok(layout, slice, e),
    {
        match slice.first() {
            Some(first) => {
                let first = layout.compile_register(first)?;
                let last = match slice.start {
                    IrRegister::Local(i) => if i < u16::MAX as usize { IrRegister::Local(i + slice.len as usize - 1) } else { IrRegister::Local(i) },
                    IrRegister::Dynamic(i) => if i < u16::MAX as usize { IrRegister::Dynamic(i + slice.len as usize - 1) } else { IrRegister::Dynamic(i) },
                };
                let _ = layout.compile_register(last)?;
                Ok(ExecRegisterSlice::new(first, slice.len()))
            },
            None => Ok(ExecRegisterSlice::empty()),
        }
    }

    fn compile_immediate(res: &mut EngineResources, value: u64) -> (r: Result<ConstRef, TranslationError>)
        requires
            old(res).wf(),
        ensures
            final(res).wf(),
            res_extends(*old(res), *final(res)),
            final(res).provider_pool == old(res).provider_pool,
            final(res).const_pool@.len() <= old(res).const_pool@.len() + 1,
            r matches Ok(c) ==> imm_ok(final(res).const_pool@, value, c),
            r matches Err(e) ==> e == TranslationError::ConstPoolOverflow,
            old(res).const_pool@.len() + 1 <= MAX_CONSTS ==> r is Ok,
    {
        res.const_pool.alloc_const(value)
    }

    fn compile_provider_impl(
        const_pool: &mut ConstPool,
        layout: RegisterLayout,
        provider: IrProvider,
    ) -> (r: Result<ExecProvider, TranslationError>)
        requires
            old(const_pool).wf(),
            layout.wf(),
        ensures
            final(const_pool).wf(),
            seq_extends(old(const_pool)@, final(const_pool)@),
            final(const_pool)@.len() <= old(const_pool)@.len() + 1,
            r matches Ok(e) ==> prov_ok(layout, final(const_pool)@, provider, e),
            r is Ok ==> prov_valid(layout, provider),
            r matches Err(e) ==> (prov_valid(layout, provider) ==> e == TranslationError::ConstPoolOverflow),
            provider is Register ==> final(const_pool)@ == old(const_pool)@,
            prov_valid(layout, provider) && old(const_pool)@.len() + 1 <= MAX_CONSTS ==> r is Ok,
    {
        match provider {
            IrProvider::Register(register) => {
                let register = layout.compile_register(register)?;
                Ok(ExecProvider::from_register(register))
            },
            IrProvider::Immediate(value) => {
                let cref = const_pool.alloc_const(value)?;
                Ok(ExecProvider::from_immediate(cref))
            },
        }
    }

    fn compile_provider(
        res: &mut EngineResources,
        env: &CompileContext,
        provider: IrProvider,
    ) -> (r: Result<ExecProvider, TranslationError>)
        requires
            old(res).wf(),
            env.wf(),
        ensures
            final(res).wf(),
            res_extends(*old(res), *final(res)),
            final(res).provider_pool == old(res).provider_pool,
            final(res).const_pool@.len() <= old(res).const_pool@.len() + 1,
            r matches Ok(e) ==> prov_ok(env.layout, final(res).const_pool@, provider, e),
            r is Ok ==> prov_valid(env.layout, provider),
            r matches Err(e) ==> (prov_valid(env.layout, provider) ==> e == TranslationError::ConstPoolOverflow),
            prov_valid(env.layout, provider) && old(res).const_pool@.len() + 1 <= MAX_CONSTS ==> r is Ok,
    {
        Self::compile_provider_impl(&mut res.const_pool, env.layout, provider)
    }

    fn compile_provider_slice(
        res: &mut EngineResources,
        env: &CompileContext,
        slice: IrProviderSlice,
    ) -> (r: Result<ExecProviderSlice, TranslationError>)
        requires
            old(res).wf(),
            env.wf(),
        ensures
            final(res).wf(),
            res_extends(*old(res), *final(res)),
            final(res).const_pool@.len() <= old(res).const_pool@.len() + slice.len,
            final(res).provider_pool.providers().len() <= old(res).provider_pool.providers().len() + slice.len,
            r matches Ok(e) ==> pslice_ok(env.spec_env(), final(res).const_pool@, final(res).provider_pool, slice, e),
            r is Ok ==> pslice_valid(env.spec_env(), slice),
            r matches Err(e) ==> (pslice_valid(env.spec_env(), slice)
                ==> e == TranslationError::ConstPoolOverflow || e == TranslationError::ProviderSliceOverflow),
            pslice_valid(env.spec_env(), slice)
                && old(res).const_pool@.len() + slice.len <= MAX_CONSTS
                && old(res).provider_pool.providers().len() + slice.len <= u16::MAX ==> r is Ok,
    {
        let total = env.provider_slices.len();
        if slice.first as usize > total || slice.len as usize > total - slice.first as usize {
            return Err(TranslationError::InvalidReference);
        }
        let inputs = env.provider_slices.resolve(slice);
        let ghost pool0 = res.const_pool@;
        let mut compiled: Vec<ExecProvider> = Vec::new();
        let mut k: usize = 0;
        while k < inputs.len()
            invariant
                env.wf(),
                res.wf(),
                inputs@ == env.provider_slices.contents(slice),
                inputs@.len() == slice.len,
                k <= inputs@.len(),
                compiled@.len() == k,
                seq_extends(old(res).const_pool@, res.const_pool@),
                res.const_pool@.len() <= old(res).const_pool@.len() + k,
                res.provider_pool == old(res).provider_pool,
                forall|j: int| 0 <= j < k ==> prov_ok(env.layout, res.const_pool@, inputs@[j], #[trigger] compiled@[j]),
                forall|j: int| 0 <= j < k ==> prov_valid(env.layout, #[trigger] inputs@[j]),
            decreases inputs@.len() - k,
        {
            let ghost before = res.const_pool@;
            let e = Self::compile_provider_impl(&mut res.const_pool, env.layout, inputs[k])?;
            proof {
                lemma_fields_mono(env.spec_env(), before, res.const_pool@, res.provider_pool, res.provider_pool);
            }
            compiled.push(e);
            k += 1;
        }
        let ghost arena0 = res.provider_pool;
        let e = res.provider_pool.alloc_slice(compiled.as_slice())?;
        proof {
            assert(res.provider_pool.slices().contains(e)) by {
                if !arena0.holds(compiled@) {
                    assert(res.provider_pool.slices().last() == e);
                }
            }
            if !arena0.holds(compiled@) {
                assert(res.provider_pool.contents(e) =~= compiled@);
            }
            assert(res.provider_pool.contents(e) == compiled@);
        }
        Ok(e)
    }

    fn compile_label(env: &CompileContext, label: LabelRef, pc: usize) -> (r: Result<Target, TranslationError>)
        requires
            pc <= MAX_INSTRS,
        ensures
            r is Ok <==> target_valid(*env.labels, label, pc as int),
            r matches Ok(t) ==> target_ok(*env.labels, label, pc as int, t),
    {
        let instr = env.labels.resolve_label(label)?;
        let distance = instr.0 as i64 - pc as i64;
        if distance < i32::MIN as i64 || distance > i32::MAX as i64 {
            return Err(TranslationError::InvalidReference);
        }
        Ok(Target(distance as i32))
    }


    /// Compiles the IR instruction `inst` at position `pc` into executable form,
    /// interning its constants and provider slices.
    fn compile_inst(
        res: &mut EngineResources,
        env: &CompileContext,
        pc: usize,
        inst: IrInstruction,
    ) -> (r: Result<ExecInstruction, TranslationError>)
        requires
            old(res).wf(),
            env.wf(),
            pc <= MAX_INSTRS,
        ensures
            final(res).wf(),
            res_extends(*old(res), *final(res)),
            final(res).const_pool@.len() <= old(res).const_pool@.len() + const_demand(inst),
            final(res).provider_pool.providers().len() <= old(res).provider_pool.providers().len() + slice_demand(inst),
            r matches Ok(ex) ==> compiles_to(env.spec_env(), final(res).const_pool@, final(res).provider_pool, pc as int, inst, ex),
            r is Ok ==> compilable(env.spec_env(), pc as int, inst),
            r matches Err(e) ==> (compilable(env.spec_env(), pc as int, inst)
                ==> e == TranslationError::ConstPoolOverflow || e == TranslationError::ProviderSliceOverflow),
            compilable(env.spec_env(), pc as int, inst)
                && old(res).const_pool@.len() + const_demand(inst) <= MAX_CONSTS
                && old(res).provider_pool.providers().len() + slice_demand(inst) <= u16::MAX ==> r is Ok,
    {
        match inst {
            Instruction::Br { .. } | Instruction::BrMulti { .. } | Instruction::BrEqz { .. } | Instruction::BrNez { .. } | Instruction::BrNezSingle { .. } | Instruction::BrNezMulti { .. } | Instruction::ReturnNez { .. } | Instruction::BrTable { .. } | Instruction::Trap { .. } | Instruction::Return { .. } | Instruction::Call { .. } | Instruction::CallIndirect { .. } | Instruction::Copy { .. } | Instruction::CopyImm { .. } | Instruction::CopyMany { .. } | Instruction::Select { .. } | Instruction::GlobalGet { .. } | Instruction::GlobalSet { .. } | Instruction::I32Load { .. } | Instruction::I64Load { .. } => Self::compile_inst_part_1(res, env, pc, inst),
            Instruction::F32Load { .. } | Instruction::F64Load { .. } | Instruction::I32Load8S { .. } | Instruction::I32Load8U { .. } | Instruction::I32Load16S { .. } | Instruction::I32Load16U { .. } | Instruction::I64Load8S { .. } | Instruction::I64Load8U { .. } | Instruction::I64Load16S { .. } | Instruction::I64Load16U { .. } | Instruction::I64Load32S { .. } | Instruction::I64Load32U { .. } | Instruction::I32Store { .. } | Instruction::I64Store { .. } | Instruction::F32Store { .. } | Instruction::F64Store { .. } | Instruction::I32Store8 { .. } | Instruction::I32Store16 { .. } | Instruction::I64Store8 { .. } | Instruction::I64Store16 { .. } => Self::compile_inst_part_2(res, env, pc, inst),
            Instruction::I64Store32 { .. } | Instruction::MemorySize { .. } | Instruction::MemoryGrow { .. } | Instruction::I32Eq { .. } | Instruction::I32Ne { .. } | Instruction::I32LtS { .. } | Instruction::I32LtU { .. } | Instruction::I32GtS { .. } | Instruction::I32GtU { .. } | Instruction::I32LeS { .. } | Instruction::I32LeU { .. } | Instruction::I32GeS { .. } | Instruction::I32GeU { .. } | Instruction::I64Eq { .. } | Instruction::I64Ne { .. } | Instruction::I64LtS { .. } | Instruction::I64LtU { .. } | Instruction::I64GtS { .. } | Instruction::I64GtU { .. } | Instruction::I64LeS { .. } => Self::compile_inst_part_3(res, env, pc, inst),
            Instruction::I64LeU { .. } | Instruction::I64GeS { .. } | Instruction::I64GeU { .. } | Instruction::F32Eq { .. } | Instruction::F32Ne { .. } | Instruction::F32Lt { .. } | Instruction::F32Gt { .. } | Instruction::F32Le { .. } | Instruction::F32Ge { .. } | Instruction::F64Eq { .. } | Instruction::F64Ne { .. } | Instruction::F64Lt { .. } | Instruction::F64Gt { .. } | Instruction::F64Le { .. } | Instruction::F64Ge { .. } | Instruction::I32Clz { .. } | Instruction::I32Ctz { .. } | Instruction::I32Popcnt { .. } | Instruction::I32Add { .. } | Instruction::I32Sub { .. } => Self::compile_inst_part_4(res, env, pc, inst),
            Instruction::I32Mul { .. } | Instruction::I32DivS { .. } | Instruction::I32DivU { .. } | Instruction::I32RemS { .. } | Instruction::I32RemU { .. } | Instruction::I32And { .. } | Instruction::I32Or { .. } | Instruction::I32Xor { .. } | Instruction::I32Shl { .. } | Instruction::I32ShrS { .. } | Instruction::I32ShrU { .. } | Instruction::I32Rotl { .. } | Instruction::I32Rotr { .. } | Instruction::I64Clz { .. } | Instruction::I64Ctz { .. } | Instruction::I64Popcnt { .. } | Instruction::I64Add { .. } | Instruction::I64Sub { .. } | Instruction::I64Mul { .. } | Instruction::I64DivS { .. } => Self::compile_inst_part_5(res, env, pc, inst),
            Instruction::I64DivU { .. } | Instruction::I64RemS { .. } | Instruction::I64RemU { .. } | Instruction::I64And { .. } | Instruction::I64Or { .. } | Instruction::I64Xor { .. } | Instruction::I64Shl { .. } | Instruction::I64ShrS { .. } | Instruction::I64ShrU { .. } | Instruction::I64Rotl { .. } | Instruction::I64Rotr { .. } | Instruction::F32Abs { .. } | Instruction::F32Neg { .. } | Instruction::F32Ceil { .. } | Instruction::F32Floor { .. } | Instruction::F32Trunc { .. } | Instruction::F32Nearest { .. } | Instruction::F32Sqrt { .. } | Instruction::F32Add { .. } | Instruction::F32Sub { .. } => Self::compile_inst_part_6(res, env, pc, inst),
            Instruction::F32Mul { .. } | Instruction::F32Div { .. } | Instruction::F32Min { .. } | Instruction::F32Max { .. } | Instruction::F32Copysign { .. } | Instruction::F64Abs { .. } | Instruction::F64Neg { .. } | Instruction::F64Ceil { .. } | Instruction::F64Floor { .. } | Instruction::F64Trunc { .. } | Instruction::F64Nearest { .. } | Instruction::F64Sqrt { .. } | Instruction::F64Add { .. } | Instruction::F64Sub { .. } | Instruction::F64Mul { .. } | Instruction::F64Div { .. } | Instruction::F64Min { .. } | Instruction::F64Max { .. } | Instruction::F64Copysign { .. } | Instruction::I32WrapI64 { .. } => Self::compile_inst_part_7(res, env, pc, inst),
            Instruction::I32TruncSF32 { .. } | Instruction::I32TruncUF32 { .. } | Instruction::I32TruncSF64 { .. } | Instruction::I32TruncUF64 { .. } | Instruction::I64ExtendSI32 { .. } | Instruction::I64ExtendUI32 { .. } | Instruction::I64TruncSF32 { .. } | Instruction::I64TruncUF32 { .. } | Instruction::I64TruncSF64 { .. } | Instruction::I64TruncUF64 { .. } | Instruction::F32ConvertSI32 { .. } | Instruction::F32ConvertUI32 { .. } | Instruction::F32ConvertSI64 { .. } | Instruction::F32ConvertUI64 { .. } | Instruction::F32DemoteF64 { .. } | Instruction::F64ConvertSI32 { .. } | Instruction::F64ConvertUI32 { .. } | Instruction::F64ConvertSI64 { .. } | Instruction::F64ConvertUI64 { .. } | Instruction::F64PromoteF32 { .. } => Self::compile_inst_part_8(res, env, pc, inst),
            Instruction::I32Extend8S { .. } | Instruction::I32Extend16S { .. } | Instruction::I64Extend8S { .. } | Instruction::I64Extend16S { .. } | Instruction::I64Extend32S { .. } | Instruction::I32TruncSatF32S { .. } | Instruction::I32TruncSatF32U { .. } | Instruction::I32TruncSatF64S { .. } | Instruction::I32TruncSatF64U { .. } | Instruction::I64TruncSatF32S { .. } | Instruction::I64TruncSatF32U { .. } | Instruction::I64TruncSatF64S { .. } | Instruction::I64TruncSatF64U { .. } => Self::compile_inst_part_9(res, env, pc, inst),
        }
    }

    /// Compiles the instructions from `Br` to `I64Load`, in declaration order.
    #[verifier::spinoff_prover]
    fn compile_inst_part_1(
        res: &mut EngineResources,
        env: &CompileContext,
        pc: usize,
        inst: IrInstruction,
    ) -> (r: Result<ExecInstruction, TranslationError>)
        requires
            old(res).wf(),
            env.wf(),
            pc <= MAX_INSTRS,
            inst is Br || inst is BrMulti || inst is BrEqz || inst is BrNez || inst is BrNezSingle || inst is BrNezMulti || inst is ReturnNez || inst is BrTable || inst is Trap || inst is Return || inst is Call || inst is CallIndirect || inst is Copy || inst is CopyImm || inst is CopyMany || inst is Select || inst is GlobalGet || inst is GlobalSet || inst is I32Load || inst is I64Load,
        ensures
            final(res).wf(),
            res_extends(*old(res), *final(res)),
            final(res).const_pool@.len() <= old(res).const_pool@.len() + const_demand(inst),
            final(res).provider_pool.providers().len() <= old(res).provider_pool.providers().len() + slice_demand(inst),
            r matches Ok(ex) ==> compiles_to(env.spec_env(), final(res).const_pool@, final(res).provider_pool, pc as int, inst, ex),
            r is Ok ==> compilable(env.spec_env(), pc as int, inst),
            r matches Err(e) ==> (compilable(env.spec_env(), pc as int, inst)
                ==> e == TranslationError::ConstPoolOverflow || e == TranslationError::ProviderSliceOverflow),
            compilable(env.spec_env(), pc as int, inst)
                && old(res).const_pool@.len() + const_demand(inst) <= MAX_CONSTS
                && old(res).provider_pool.providers().len() + slice_demand(inst) <= u16::MAX ==> r is Ok,
    {
        match inst {
            Instruction::Br { target } => {
                let target = match Self::compile_label(env, target, pc) { Ok(x) => x, Err(e) => return Err(e) };
                Ok(Instruction::Br { target })
            },
            Instruction::BrMulti { target, results, returned } => {
                let target = match Self::compile_label(env, target, pc) { Ok(x) => x, Err(e) => return Err(e) };
                let results = match Self::compile_register_slice(env.layout, results) { Ok(x) => x, Err(e) => return Err(e) };
                let returned = match Self::compile_provider_slice(res, env, returned) { Ok(x) => x, Err(e) => return Err(e) };
                Ok(Instruction::BrMulti { target, results, returned })
            },
            Instruction::BrEqz { target, condition } => {
                let target = match Self::compile_label(env, target, pc) { Ok(x) => x, Err(e) => return Err(e) };
                let condition = match Self::compile_register(env.layout, condition) { Ok(x) => x, Err(e) => return Err(e) };
                Ok(Instruction::BrEqz { target, condition })
            },
            Instruction::BrNez { target, condition } => {
                let target = match Self::compile_label(env, target, pc) { Ok(x) => x, Err(e) => return Err(e) };
                let condition = match Self::compile_register(env.layout, condition) { Ok(x) => x, Err(e) => return Err(e) };
                Ok(Instruction::BrNez { target, condition })
            },
            Instruction::BrNezSingle { target, condition, result, returned } => {
                let target = match Self::compile_label(env, target, pc) { Ok(x) => x, Err(e) => return Err(e) };
                let condition = match Self::compile_register(env.layout, condition) { Ok(x) => x, Err(e) => return Err(e) };
                let result = match Self::compile_register(env.layout, result) { Ok(x) => x, Err(e) => return Err(e) };
                let returned = match Self::compile_provider(res, env, returned) { Ok(x) => x, Err(e) => return Err(e) };
                Ok(Instruction::BrNezSingle { target, condition, result, returned })
            },
            Instruction::BrNezMulti { target, condition, results, returned } => {
                let target = match Self::compile_label(env, target, pc) { Ok(x) => x, Err(e) => return Err(e) };
                let condition = match Self::compile_register(env.layout, condition) { Ok(x) => x, Err(e) => return Err(e) };
                let results = match Self::compile_register_slice(env.layout, results) { Ok(x) => x, Err(e) => return Err(e) };
                let returned = match Self::compile_provider_slice(res, env, returned) { Ok(x) => x, Err(e) => return Err(e) };
                Ok(Instruction::BrNezMulti { target, condition, results, returned })
            },
            Instruction::ReturnNez { results, condition } => {
                let results = match Self::compile_provider_slice(res, env, results) { Ok(x) => x, Err(e) => return Err(e) };
                let condition = match Self::compile_register(env.layout, condition) { Ok(x) => x, Err(e) => return Err(e) };
                Ok(Instruction::ReturnNez { results, condition })
            },
            Instruction::BrTable { case, len_targets } => {
                let case = match Self::compile_register(env.layout, case) { Ok(x) => x, Err(e) => return Err(e) };
                Ok(Instruction::BrTable { case, len_targets })
            },
            Instruction::Trap { trap_code } => {
                Ok(Instruction::Trap { trap_code })
            },
            Instruction::Return { results } => {
                let results = match Self::compile_provider_slice(res, env, results) { Ok(x) => x, Err(e) => return Err(e) };
                Ok(Instruction::Return { results })
            },
            Instruction::Call { func_idx, results, params } => {
                let results = match Self::compile_register_slice(env.layout, results) { Ok(x) => x, Err(e) => return Err(e) };
                let params = match Self::compile_provider_slice(res, env, params) { Ok(x) => x, Err(e) => return Err(e) };
                Ok(Instruction::Call { func_idx, results, params })
            },
            Instruction::CallIndirect { func_type_idx, results, index, params } => {
                let results = match Self::compile_register_slice(env.layout, results) { Ok(x) => x, Err(e) => return Err(e) };
                let index = match Self::compile_provider(res, env, index) { Ok(x) => x, Err(e) => return Err(e) };
                let ghost after_index = *res;
                let params = match Self::compile_provider_slice(res, env, params) { Ok(x) => x, Err(e) => return Err(e) };
                proof { lemma_fields_mono(env.spec_env(), after_index.const_pool@, res.const_pool@, after_index.provider_pool, res.provider_pool); }
                Ok(Instruction::CallIndirect { func_type_idx, results, index, params })
            },
            Instruction::Copy { result, input } => {
                let result = match Self::compile_register(env.layout, result) { Ok(x) => x, Err(e) => return Err(e) };
                let input = match Self::compile_register(env.layout, input) { Ok(x) => x, Err(e) => return Err(e) };
                Ok(Instruction::Copy { result, input })
            },
            Instruction::CopyImm { result, input } => {
                let result = match Self::compile_register(env.layout, result) { Ok(x) => x, Err(e) => return Err(e) };
                let input = match Self::compile_immediate(res, input) { Ok(x) => x, Err(e) => return Err(e) };
                Ok(Instruction::CopyImm { result, input })
            },
            Instruction::CopyMany { results, inputs } => {
                let results = match Self::compile_register_slice(env.layout, results) { Ok(x) => x, Err(e) => return Err(e) };
                let inputs = match Self::compile_provider_slice(res, env, inputs) { Ok(x) => x, Err(e) => return Err(e) };
                Ok(Instruction::CopyMany { results, inputs })
            },
            Instruction::Select { result, condition, if_true, if_false } => {
                let result = match Self::compile_register(env.layout, result) { Ok(x) => x, Err(e) => return Err(e) };
                let condition = match Self::compile_register(env.layout, condition) { Ok(x) => x, Err(e) => return Err(e) };
                let if_true = match Self::compile_provider(res, env, if_true) { Ok(x) => x, Err(e) => return Err(e) };
                let ghost after_if_true = *res;
                let if_false = match Self::compile_provider(res, env, if_false) { Ok(x) => x, Err(e) => return Err(e) };
                proof { lemma_fields_mono(env.spec_env(), after_if_true.const_pool@, res.const_pool@, after_if_true.provider_pool, res.provider_pool); }
                Ok(Instruction::Select { result, condition, if_true, if_false })
            },
            Instruction::GlobalGet { result, global } => {
                let result = match Self::compile_register(env.layout, result) { Ok(x) => x, Err(e) => return Err(e) };
                Ok(Instruction::GlobalGet { result, global })
            },
            Instruction::GlobalSet { global, value } => {
                let value = match Self::compile_provider(res, env, value) { Ok(x) => x, Err(e) => return Err(e) };
                Ok(Instruction::GlobalSet { global, value })
            },
            Instruction::I32Load { result, ptr, offset } => {
                let result = match Self::compile_register(env.layout, result) { Ok(x) => x, Err(e) => return Err(e) };
                let ptr = match Self::compile_register(env.layout, ptr) { Ok(x) => x, Err(e) => return Err(e) };
                Ok(Instruction::I32Load { result, ptr, offset })
            },
            Instruction::I64Load { result, ptr, offset } => {
                let result = match Self::compile_register(env.layout, result) { Ok(x) => x, Err(e) => return Err(e) };
                let ptr = match Self::compile_register(env.layout, ptr) { Ok(x) => x, Err(e) => return Err(e) };
                Ok(Instruction::I64Load { result, ptr, offset })
            },
            _ => Err(TranslationError::InvalidReference),
        }
    }

    /// Compiles the instructions from `F32Load` to `I64Store16`, in declaration order.
    #[verifier::spinoff_prover]
    fn compile_inst_part_2(
        res: &mut EngineResources,
        env: &CompileContext,
        pc: usize,
        inst: IrInstruction,
    ) -> (r: Result<ExecInstruction, TranslationError>)
        requires
            old(res).wf(),
            env.wf(),
            pc <= MAX_INSTRS,
            inst is F32Load || inst is F64Load || inst is I32Load8S || inst is I32Load8U || inst is I32Load16S || inst is I32Load16U || inst is I64Load8S || inst is I64Load8U || inst is I64Load16S || inst is I64Load16U || inst is I64Load32S || inst is I64Load32U || inst is I32Store || inst is I64Store || inst is F32Store || inst is F64Store || inst is I32Store8 || inst is I32Store16 || inst is I64Store8 || inst is I64Store16,
        ensures
            final(res).wf(),
            res_extends(*old(res), *final(res)),
            final(res).const_pool@.len() <= old(res).const_pool@.len() + const_demand(inst),
            final(res).provider_pool.providers().len() <= old(res).provider_pool.providers().len() + slice_demand(inst),
            r matches Ok(ex) ==> compiles_to(env.spec_env(), final(res).const_pool@, final(res).provider_pool, pc as int, inst, ex),
            r is Ok ==> compilable(env.spec_env(), pc as int, inst),
            r matches Err(e) ==> (compilable(env.spec_env(), pc as int, inst)
                ==> e == TranslationError::ConstPoolOverflow || e == TranslationError::ProviderSliceOverflow),
            compilable(env.spec_env(), pc as int, inst)
                && old(res).const_pool@.len() + const_demand(inst) <= MAX_CONSTS
                && old(res).provider_pool.providers().len() + slice_demand(inst) <= u16::MAX ==> r is Ok,
    {
        match inst {
            Instruction::F32Load { result, ptr, offset } => {
                let result = match Self::compile_register(env.layout, result) { Ok(x) => x, Err(e) => return Err(e) };
                let ptr = match Self::compile_register(env.layout, ptr) { Ok(x) => x, Err(e) => return Err(e) };
                Ok(Instruction::F32Load { result, ptr, offset })
            },
            Instruction::F64Load { result, ptr, offset } => {
                let result = match Self::compile_register(env.layout, result) { Ok(x) => x, Err(e) => return Err(e) };
                let ptr = match Self::compile_register(env.layout, ptr) { Ok(x) => x, Err(e) => return Err(e) };
                Ok(Instruction::F64Load { result, ptr, offset })
            },
            Instruction::I32Load8S { result, ptr, offset } => {
                let result = match Self::compile_register(env.layout, result) { Ok(x) => x, Err(e) => return Err(e) };
                let ptr = match Self::compile_register(env.layout, ptr) { Ok(x) => x, Err(e) => return Err(e) };
                Ok(Instruction::I32Load8S { result, ptr, offset })
            },
            Instruction::I32Load8U { result, ptr, offset } => {
                let result = match Self::compile_register(env.layout, result) { Ok(x) => x, Err(e) => return Err(e) };
                let ptr = match Self::compile_register(env.layout, ptr) { Ok(x) => x, Err(e) => return Err(e) };
                Ok(Instruction::I32Load8U { result, ptr, offset })
            },
            Instruction::I32Load16S { result, ptr, offset } => {
                let result = match Self::compile_register(env.layout, result) { Ok(x) => x, Err(e) => return Err(e) };
                let ptr = match Self::compile_register(env.layout, ptr) { Ok(x) => x, Err(e) => return Err(e) };
                Ok(Instruction::I32Load16S { result, ptr, offset })
            },
            Instruction::I32Load16U { result, ptr, offset } => {
                let result = match Self::compile_register(env.layout, result) { Ok(x) => x, Err(e) => return Err(e) };
                let ptr = match Self::compile_register(env.layout, ptr) { Ok(x) => x, Err(e) => return Err(e) };
                Ok(Instruction::I32Load16U { result, ptr, offset })
            },
            Instruction::I64Load8S { result, ptr, offset } => {
                let result = match Self::compile_register(env.layout, result) { Ok(x) => x, Err(e) => return Err(e) };
                let ptr = match Self::compile_register(env.layout, ptr) { Ok(x) => x, Err(e) => return Err(e) };
                Ok(Instruction::I64Load8S { result, ptr, offset })
            },
            Instruction::I64Load8U { result, ptr, offset } => {
                let result = match Self::compile_register(env.layout, result) { Ok(x) => x, Err(e) => return Err(e) };
                let ptr = match Self::compile_register(env.layout, ptr) { Ok(x) => x, Err(e) => return Err(e) };
                Ok(Instruction::I64Load8U { result, ptr, offset })
            },
            Instruction::I64Load16S { result, ptr, offset } => {
                let result = match Self::compile_register(env.layout, result) { Ok(x) => x, Err(e) => return Err(e) };
                let ptr = match Self::compile_register(env.layout, ptr) { Ok(x) => x, Err(e) => return Err(e) };
                Ok(Instruction::I64Load16S { result, ptr, offset })
            },
            Instruction::I64Load16U { result, ptr, offset } => {
                let result = match Self::compile_register(env.layout, result) { Ok(x) => x, Err(e) => return Err(e) };
                let ptr = match Self::compile_register(env.layout, ptr) { Ok(x) => x, Err(e) => return Err(e) };
                Ok(Instruction::I64Load16U { result, ptr, offset })
            },
            Instruction::I64Load32S { result, ptr, offset } => {
                let result = match Self::compile_register(env.layout, result) { Ok(x) => x, Err(e) => return Err(e) };
                let ptr = match Self::compile_register(env.layout, ptr) { Ok(x) => x, Err(e) => return Err(e) };
                Ok(Instruction::I64Load32S { result, ptr, offset })
            },
            Instruction::I64Load32U { result, ptr, offset } => {
                let result = match Self::compile_register(env.layout, result) { Ok(x) => x, Err(e) => return Err(e) };
                let ptr = match Self::compile_register(env.layout, ptr) { Ok(x) => x, Err(e) => return Err(e) };
                Ok(Instruction::I64Load32U { result, ptr, offset })
            },
            Instruction::I32Store { ptr, offset, value } => {
                let ptr = match Self::compile_register(env.layout, ptr) { Ok(x) => x, Err(e) => return Err(e) };
                let value = match Self::compile_provider(res, env, value) { Ok(x) => x, Err(e) => return Err(e) };
                Ok(Instruction::I32Store { ptr, offset, value })
            },
            Instruction::I64Store { ptr, offset, value } => {
                let ptr = match Self::compile_register(env.layout, ptr) { Ok(x) => x, Err(e) => return Err(e) };
                let value = match Self::compile_provider(res, env, value) { Ok(x) => x, Err(e) => return Err(e) };
                Ok(Instruction::I64Store { ptr, offset, value })
            },
            Instruction::F32Store { ptr, offset, value } => {
                let ptr = match Self::compile_register(env.layout, ptr) { Ok(x) => x, Err(e) => return Err(e) };
                let value = match Self::compile_provider(res, env, value) { Ok(x) => x, Err(e) => return Err(e) };
                Ok(Instruction::F32Store { ptr, offset, value })
            },
            Instruction::F64Store { ptr, offset, value } => {
                let ptr = match Self::compile_register(env.layout, ptr) { Ok(x) => x, Err(e) => return Err(e) };
                let value = match Self::compile_provider(res, env, value) { Ok(x) => x, Err(e) => return Err(e) };
                Ok(Instruction::F64Store { ptr, offset, value })
            },
            Instruction::I32Store8 { ptr, offset, value } => {
                let ptr = match Self::compile_register(env.layout, ptr) { Ok(x) => x, Err(e) => return Err(e) };
                let value = match Self::compile_provider(res, env, value) { Ok(x) => x, Err(e) => return Err(e) };
                Ok(Instruction::I32Store8 { ptr, offset, value })
            },
            Instruction::I32Store16 { ptr, offset, value } => {
                let ptr = match Self::compile_register(env.layout, ptr) { Ok(x) => x, Err(e) => return Err(e) };
                let value = match Self::compile_provider(res, env, value) { Ok(x) => x, Err(e) => return Err(e) };
                Ok(Instruction::I32Store16 { ptr, offset, value })
            },
            Instruction::I64Store8 { ptr, offset, value } => {
                let ptr = match Self::compile_register(env.layout, ptr) { Ok(x) => x, Err(e) => return Err(e) };
                let value = match Self::compile_provider(res, env, value) { Ok(x) => x, Err(e) => return Err(e) };
                Ok(Instruction::I64Store8 { ptr, offset, value })
            },
            Instruction::I64Store16 { ptr, offset, value } => {
                let ptr = match Self::compile_register(env.layout, ptr) { Ok(x) => x, Err(e) => return Err(e) };
                let value = match Self::compile_provider(res, env, value) { Ok(x) => x, Err(e) => return Err(e) };
                Ok(Instruction::I64Store16 { ptr, offset, value })
            },
            _ => Err(TranslationError::InvalidReference),
        }
    }

    /// Compiles the instructions from `I64Store32` to `I64LeS`, in declaration order.
    #[verifier::spinoff_prover]
    fn compile_inst_part_3(
        res: &mut EngineResources,
        env: &CompileContext,
        pc: usize,
        inst: IrInstruction,
    ) -> (r: Result<ExecInstruction, TranslationError>)
        requires
            old(res).wf(),
            env.wf(),
            pc <= MAX_INSTRS,
            inst is I64Store32 || inst is MemorySize || inst is MemoryGrow || inst is I32Eq || inst is I32Ne || inst is I32LtS || inst is I32LtU || inst is I32GtS || inst is I32GtU || inst is I32LeS || inst is I32LeU || inst is I32GeS || inst is I32GeU || inst is I64Eq || inst is I64Ne || inst is I64LtS || inst is I64LtU || inst is I64GtS || inst is I64GtU || inst is I64LeS,
        ensures
            final(res).wf(),
            res_extends(*old(res), *final(res)),
            final(res).const_pool@.len() <= old(res).const_pool@.len() + const_demand(inst),
            final(res).provider_pool.providers().len() <= old(res).provider_pool.providers().len() + slice_demand(inst),
            r matches Ok(ex) ==> compiles_to(env.spec_env(), final(res).const_pool@, final(res).provider_pool, pc as int, inst, ex),
            r is Ok ==> compilable(env.spec_env(), pc as int, inst),
            r matches Err(e) ==> (compilable(env.spec_env(), pc as int, inst)
                ==> e == TranslationError::ConstPoolOverflow || e == TranslationError::ProviderSliceOverflow),
            compilable(env.spec_env(), pc as int, inst)
                && old(res).const_pool@.len() + const_demand(inst) <= MAX_CONSTS
                && old(res).provider_pool.providers().len() + slice_demand(inst) <= u16::MAX ==> r is Ok,
    {
        match inst {
            Instruction::I64Store32 { ptr, offset, value } => {
                let ptr = match Self::compile_register(env.layout, ptr) { Ok(x) => x, Err(e) => return Err(e) };
                let value = match Self::compile_provider(res, env, value) { Ok(x) => x, Err(e) => return Err(e) };
                Ok(Instruction::I64Store32 { ptr, offset, value })
            },
            Instruction::MemorySize { result } => {
                let result = match Self::compile_register(env.layout, result) { Ok(x) => x, Err(e) => return Err(e) };
                Ok(Instruction::MemorySize { result })
            },
            Instruction::MemoryGrow { result, amount } => {
                let result = match Self::compile_register(env.layout, result) { Ok(x) => x, Err(e) => return Err(e) };
                let amount = match Self::compile_provider(res, env, amount) { Ok(x) => x, Err(e) => return Err(e) };
                Ok(Instruction::MemoryGrow { result, amount })
            },
            Instruction::I32Eq { result, lhs, rhs } => {
                let result = match Self::compile_register(env.layout, result) { Ok(x) => x, Err(e) => return Err(e) };
                let lhs = match Self::compile_register(env.layout, lhs) { Ok(x) => x, Err(e) => return Err(e) };
                let rhs = match Self::compile_provider(res, env, rhs) { Ok(x) => x, Err(e) => return Err(e) };
                Ok(Instruction::I32Eq { result, lhs, rhs })
            },
            Instruction::I32Ne { result, lhs, rhs } => {
                let result = match Self::compile_register(env.layout, result) { Ok(x) => x, Err(e) => return Err(e) };
                let lhs = match Self::compile_register(env.layout, lhs) { Ok(x) => x, Err(e) => return Err(e) };
                let rhs = match Self::compile_provider(res, env, rhs) { Ok(x) => x, Err(e) => return Err(e) };
                Ok(Instruction::I32Ne { result, lhs, rhs })
            },
            Instruction::I32LtS { result, lhs, rhs } => {
                let result = match Self::compile_register(env.layout, result) { Ok(x) => x, Err(e) => return Err(e) };
                let lhs = match Self::compile_register(env.layout, lhs) { Ok(x) => x, Err(e) => return Err(e) };
                let rhs = match Self::compile_provider(res, env, rhs) { Ok(x) => x, Err(e) => return Err(e) };
                Ok(Instruction::I32LtS { result, lhs, rhs })
            },
            Instruction::I32LtU { result, lhs, rhs } => {
                let result = match Self::compile_register(env.layout, result) { Ok(x) => x, Err(e) => return Err(e) };
                let lhs = match Self::compile_register(env.layout, lhs) { Ok(x) => x, Err(e) => return Err(e) };
                let rhs = match Self::compile_provider(res, env, rhs) { Ok(x) => x, Err(e) => return Err(e) };
                Ok(Instruction::I32LtU { result, lhs, rhs })
            },
            Instruction::I32GtS { result, lhs, rhs } => {
                let result = match Self::compile_register(env.layout, result) { Ok(x) => x, Err(e) => return Err(e) };
                let lhs = match Self::compile_register(env.layout, lhs) { Ok(x) => x, Err(e) => return Err(e) };
                let rhs = match Self::compile_provider(res, env, rhs) { Ok(x) => x, Err(e) => return Err(e) };
                Ok(Instruction::I32GtS { result, lhs, rhs })
            },
            Instruction::I32GtU { result, lhs, rhs } => {
                let result = match Self::compile_register(env.layout, result) { Ok(x) => x, Err(e) => return Err(e) };
                let lhs = match Self::compile_register(env.layout, lhs) { Ok(x) => x, Err(e) => return Err(e) };
                let rhs = match Self::compile_provider(res, env, rhs) { Ok(x) => x, Err(e) => return Err(e) };
                Ok(Instruction::I32GtU { result, lhs, rhs })
            },
            Instruction::I32LeS { result, lhs, rhs } => {
                let result = match Self::compile_register(env.layout, result) { Ok(x) => x, Err(e) => return Err(e) };
                let lhs = match Self::compile_register(env.layout, lhs) { Ok(x) => x, Err(e) => return Err(e) };
                let rhs = match Self::compile_provider(res, env, rhs) { Ok(x) => x, Err(e) => return Err(e) };
                Ok(Instruction::I32LeS { result, lhs, rhs })
            },
            Instruction::I32LeU { result, lhs, rhs } => {
                let result = match Self::compile_register(env.layout, result) { Ok(x) => x, Err(e) => return Err(e) };
                let lhs = match Self::compile_register(env.layout, lhs) { Ok(x) => x, Err(e) => return Err(e) };
                let rhs = match Self::compile_provider(res, env, rhs) { Ok(x) => x, Err(e) => return Err(e) };
                Ok(Instruction::I32LeU { result, lhs, rhs })
            },
            Instruction::I32GeS { result, lhs, rhs } => {
                let result = match Self::compile_register(env.layout, result) { Ok(x) => x, Err(e) => return Err(e) };
                let lhs = match Self::compile_register(env.layout, lhs) { Ok(x) => x, Err(e) => return Err(e) };
                let rhs = match Self::compile_provider(res, env, rhs) { Ok(x) => x, Err(e) => return Err(e) };
                Ok(Instruction::I32GeS { result, lhs, rhs })
            },
            Instruction::I32GeU { result, lhs, rhs } => {
                let result = match Self::compile_register(env.layout, result) { Ok(x) => x, Err(e) => return Err(e) };
                let lhs = match Self::compile_register(env.layout, lhs) { Ok(x) => x, Err(e) => return Err(e) };
                let rhs = match Self::compile_provider(res, env, rhs) { Ok(x) => x, Err(e) => return Err(e) };
                Ok(Instruction::I32GeU { result, lhs, rhs })
            },
            Instruction::I64Eq { result, lhs, rhs } => {
                let result = match Self::compile_register(env.layout, result) { Ok(x) => x, Err(e) => return Err(e) };
                let lhs = match Self::compile_register(env.layout, lhs) { Ok(x) => x, Err(e) => return Err(e) };
                let rhs = match Self::compile_provider(res, env, rhs) { Ok(x) => x, Err(e) => return Err(e) };
                Ok(Instruction::I64Eq { result, lhs, rhs })
            },
            Instruction::I64Ne { result, lhs, rhs } => {
                let result = match Self::compile_register(env.layout, result) { Ok(x) => x, Err(e) => return Err(e) };
                let lhs = match Self::compile_register(env.layout, lhs) { Ok(x) => x, Err(e) => return Err(e) };
                let rhs = match Self::compile_provider(res, env, rhs) { Ok(x) => x, Err(e) => return Err(e) };
                Ok(Instruction::I64Ne { result, lhs, rhs })
            },
            Instruction::I64LtS { result, lhs, rhs } => {
                let result = match Self::compile_register(env.layout, result) { Ok(x) => x, Err(e) => return Err(e) };
                let lhs = match Self::compile_register(env.layout, lhs) { Ok(x) => x, Err(e) => return Err(e) };
                let rhs = match Self::compile_provider(res, env, rhs) { Ok(x) => x, Err(e) => return Err(e) };
                Ok(Instruction::I64LtS { result, lhs, rhs })
            },
            Instruction::I64LtU { result, lhs, rhs } => {
                let result = match Self::compile_register(env.layout, result) { Ok(x) => x, Err(e) => return Err(e) };
                let lhs = match Self::compile_register(env.layout, lhs) { Ok(x) => x, Err(e) => return Err(e) };
                let rhs = match Self::compile_provider(res, env, rhs) { Ok(x) => x, Err(e) => return Err(e) };
                Ok(Instruction::I64LtU { result, lhs, rhs })
            },
            Instruction::I64GtS { result, lhs, rhs } => {
                let result = match Self::compile_register(env.layout, result) { Ok(x) => x, Err(e) => return Err(e) };
                let lhs = match Self::compile_register(env.layout, lhs) { Ok(x) => x, Err(e) => return Err(e) };
                let rhs = match Self::compile_provider(res, env, rhs) { Ok(x) => x, Err(e) => return Err(e) };
                Ok(Instruction::I64GtS { result, lhs, rhs })
            },
            Instruction::I64GtU { result, lhs, rhs } => {
                let result = match Self::compile_register(env.layout, result) { Ok(x) => x, Err(e) => return Err(e) };
                let lhs = match Self::compile_register(env.layout, lhs) { Ok(x) => x, Err(e) => return Err(e) };
                let rhs = match Self::compile_provider(res, env, rhs) { Ok(x) => x, Err(e) => return Err(e) };
                Ok(Instruction::I64GtU { result, lhs, rhs })
            },
            Instruction::I64LeS { result, lhs, rhs } => {
                let result = match Self::compile_register(env.layout, result) { Ok(x) => x, Err(e) => return Err(e) };
                let lhs = match Self::compile_register(env.layout, lhs) { Ok(x) => x, Err(e) => return Err(e) };
                let rhs = match Self::compile_provider(res, env, rhs) { Ok(x) => x, Err(e) => return Err(e) };
                Ok(Instruction::I64LeS { result, lhs, rhs })
            },
            _ => Err(TranslationError::InvalidReference),
        }
    }

    /// Compiles the instructions from `I64LeU` to `I32Sub`, in declaration order.
    #[verifier::spinoff_prover]
    fn compile_inst_part_4(
        res: &mut EngineResources,
        env: &CompileContext,
        pc: usize,
        inst: IrInstruction,
    ) -> (r: Result<ExecInstruction, TranslationError>)
        requires
            old(res).wf(),
            env.wf(),
            pc <= MAX_INSTRS,
            inst is I64LeU || inst is I64GeS || inst is I64GeU || inst is F32Eq || inst is F32Ne || inst is F32Lt || inst is F32Gt || inst is F32Le || inst is F32Ge || inst is F64Eq || inst is F64Ne || inst is F64Lt || inst is F64Gt || inst is F64Le || inst is F64Ge || inst is I32Clz || inst is I32Ctz || inst is I32Popcnt || inst is I32Add || inst is I32Sub,
        ensures
            final(res).wf(),
            res_extends(*old(res), *final(res)),
            final(res).const_pool@.len() <= old(res).const_pool@.len() + const_demand(inst),
            final(res).provider_pool.providers().len() <= old(res).provider_pool.providers().len() + slice_demand(inst),
            r matches Ok(ex) ==> compiles_to(env.spec_env(), final(res).const_pool@, final(res).provider_pool, pc as int, inst, ex),
            r is Ok ==> compilable(env.spec_env(), pc as int, inst),
            r matches Err(e) ==> (compilable(env.spec_env(), pc as int, inst)
                ==> e == TranslationError::ConstPoolOverflow || e == TranslationError::ProviderSliceOverflow),
            compilable(env.spec_env(), pc as int, inst)
                && old(res).const_pool@.len() + const_demand(inst) <= MAX_CONSTS
                && old(res).provider_pool.providers().len() + slice_demand(inst) <= u16::MAX ==> r is Ok,
    {
        match inst {
            Instruction::I64LeU { result, lhs, rhs } => {
                let result = match Self::compile_register(env.layout, result) { Ok(x) => x, Err(e) => return Err(e) };
                let lhs = match Self::compile_register(env.layout, lhs) { Ok(x) => x, Err(e) => return Err(e) };
                let rhs = match Self::compile_provider(res, env, rhs) { Ok(x) => x, Err(e) => return Err(e) };
                Ok(Instruction::I64LeU { result, lhs, rhs })
            },
            Instruction::I64GeS { result, lhs, rhs } => {
                let result = match Self::compile_register(env.layout, result) { Ok(x) => x, Err(e) => return Err(e) };
                let lhs = match Self::compile_register(env.layout, lhs) { Ok(x) => x, Err(e) => return Err(e) };
                let rhs = match Self::compile_provider(res, env, rhs) { Ok(x) => x, Err(e) => return Err(e) };
                Ok(Instruction::I64GeS { result, lhs, rhs })
            },
            Instruction::I64GeU { result, lhs, rhs } => {
                let result = match Self::compile_register(env.layout, result) { Ok(x) => x, Err(e) => return Err(e) };
                let lhs = match Self::compile_register(env.layout, lhs) { Ok(x) => x, Err(e) => return Err(e) };
                let rhs = match Self::compile_provider(res, env, rhs) { Ok(x) => x, Err(e) => return Err(e) };
                Ok(Instruction::I64GeU { result, lhs, rhs })
            },
            Instruction::F32Eq { result, lhs, rhs } => {
                let result = match Self::compile_register(env.layout, result) { Ok(x) => x, Err(e) => return Err(e) };
                let lhs = match Self::compile_register(env.layout, lhs) { Ok(x) => x, Err(e) => return Err(e) };
                let rhs = match Self::compile_provider(res, env, rhs) { Ok(x) => x, Err(e) => return Err(e) };
                Ok(Instruction::F32Eq { result, lhs, rhs })
            },
            Instruction::F32Ne { result, lhs, rhs } => {
                let result = match Self::compile_register(env.layout, result) { Ok(x) => x, Err(e) => return Err(e) };
                let lhs = match Self::compile_register(env.layout, lhs) { Ok(x) => x, Err(e) => return Err(e) };
                let rhs = match Self::compile_provider(res, env, rhs) { Ok(x) => x, Err(e) => return Err(e) };
                Ok(Instruction::F32Ne { result, lhs, rhs })
            },
            Instruction::F32Lt { result, lhs, rhs } => {
                let result = match Self::compile_register(env.layout, result) { Ok(x) => x, Err(e) => return Err(e) };
                let lhs = match Self::compile_register(env.layout, lhs) { Ok(x) => x, Err(e) => return Err(e) };
                let rhs = match Self::compile_provider(res, env, rhs) { Ok(x) => x, Err(e) => return Err(e) };
                Ok(Instruction::F32Lt { result, lhs, rhs })
            },
            Instruction::F32Gt { result, lhs, rhs } => {
                let result = match Self::compile_register(env.layout, result) { Ok(x) => x, Err(e) => return Err(e) };
                let lhs = match Self::compile_register(env.layout, lhs) { Ok(x) => x, Err(e) => return Err(e) };
                let rhs = match Self::compile_provider(res, env, rhs) { Ok(x) => x, Err(e) => return Err(e) };
                Ok(Instruction::F32Gt { result, lhs, rhs })
            },
            Instruction::F32Le { result, lhs, rhs } => {
                let result = match Self::compile_register(env.layout, result) { Ok(x) => x, Err(e) => return Err(e) };
                let lhs = match Self::compile_register(env.layout, lhs) { Ok(x) => x, Err(e) => return Err(e) };
                let rhs = match Self::compile_provider(res, env, rhs) { Ok(x) => x, Err(e) => return Err(e) };
                Ok(Instruction::F32Le { result, lhs, rhs })
            },
            Instruction::F32Ge { result, lhs, rhs } => {
                let result = match Self::compile_register(env.layout, result) { Ok(x) => x, Err(e) => return Err(e) };
                let lhs = match Self::compile_register(env.layout, lhs) { Ok(x) => x, Err(e) => return Err(e) };
                let rhs = match Self::compile_provider(res, env, rhs) { Ok(x) => x, Err(e) => return Err(e) };
                Ok(Instruction::F32Ge { result, lhs, rhs })
            },
            Instruction::F64Eq { result, lhs, rhs } => {
                let result = match Self::compile_register(env.layout, result) { Ok(x) => x, Err(e) => return Err(e) };
                let lhs = match Self::compile_register(env.layout, lhs) { Ok(x) => x, Err(e) => return Err(e) };
                let rhs = match Self::compile_provider(res, env, rhs) { Ok(x) => x, Err(e) => return Err(e) };
                Ok(Instruction::F64Eq { result, lhs, rhs })
            },
            Instruction::F64Ne { result, lhs, rhs } => {
                let result = match Self::compile_register(env.layout, result) { Ok(x) => x, Err(e) => return Err(e) };
                let lhs = match Self::compile_register(env.layout, lhs) { Ok(x) => x, Err(e) => return Err(e) };
                let rhs = match Self::compile_provider(res, env, rhs) { Ok(x) => x, Err(e) => return Err(e) };
                Ok(Instruction::F64Ne { result, lhs, rhs })
            },
            Instruction::F64Lt { result, lhs, rhs } => {
                let result = match Self::compile_register(env.layout, result) { Ok(x) => x, Err(e) => return Err(e) };
                let lhs = match Self::compile_register(env.layout, lhs) { Ok(x) => x, Err(e) => return Err(e) };
                let rhs = match Self::compile_provider(res, env, rhs) { Ok(x) => x, Err(e) => return Err(e) };
                Ok(Instruction::F64Lt { result, lhs, rhs })
            },
            Instruction::F64Gt { result, lhs, rhs } => {
                let result = match Self::compile_register(env.layout, result) { Ok(x) => x, Err(e) => return Err(e) };
                let lhs = match Self::compile_register(env.layout, lhs) { Ok(x) => x, Err(e) => return Err(e) };
                let rhs = match Self::compile_provider(res, env, rhs) { Ok(x) => x, Err(e) => return Err(e) };
                Ok(Instruction::F64Gt { result, lhs, rhs })
            },
            Instruction::F64Le { result, lhs, rhs } => {
                let result = match Self::compile_register(env.layout, result) { Ok(x) => x, Err(e) => return Err(e) };
                let lhs = match Self::compile_register(env.layout, lhs) { Ok(x) => x, Err(e) => return Err(e) };
                let rhs = match Self::compile_provider(res, env, rhs) { Ok(x) => x, Err(e) => return Err(e) };
                Ok(Instruction::F64Le { result, lhs, rhs })
            },
            Instruction::F64Ge { result, lhs, rhs } => {
                let result = match Self::compile_register(env.layout, result) { Ok(x) => x, Err(e) => return Err(e) };
                let lhs = match Self::compile_register(env.layout, lhs) { Ok(x) => x, Err(e) => return Err(e) };
                let rhs = match Self::compile_provider(res, env, rhs) { Ok(x) => x, Err(e) => return Err(e) };
                Ok(Instruction::F64Ge { result, lhs, rhs })
            },
            Instruction::I32Clz { result, input } => {
                let result = match Self::compile_register(env.layout, result) { Ok(x) => x, Err(e) => return Err(e) };
                let input = match Self::compile_register(env.layout, input) { Ok(x) => x, Err(e) => return Err(e) };
                Ok(Instruction::I32Clz { result, input })
            },
            Instruction::I32Ctz { result, input } => {
                let result = match Self::compile_register(env.layout, result) { Ok(x) => x, Err(e) => return Err(e) };
                let input = match Self::compile_register(env.layout, input) { Ok(x) => x, Err(e) => return Err(e) };
                Ok(Instruction::I32Ctz { result, input })
            },
            Instruction::I32Popcnt { result, input } => {
                let result = match Self::compile_register(env.layout, result) { Ok(x) => x, Err(e) => return Err(e) };
                let input = match Self::compile_register(env.layout, input) { Ok(x) => x, Err(e) => return Err(e) };
                Ok(Instruction::I32Popcnt { result, input })
            },
            Instruction::I32Add { result, lhs, rhs } => {
                let result = match Self::compile_register(env.layout, result) { Ok(x) => x, Err(e) => return Err(e) };
                let lhs = match Self::compile_register(env.layout, lhs) { Ok(x) => x, Err(e) => return Err(e) };
                let rhs = match Self::compile_provider(res, env, rhs) { Ok(x) => x, Err(e) => return Err(e) };
                Ok(Instruction::I32Add { result, lhs, rhs })
            },
            Instruction::I32Sub { result, lhs, rhs } => {
                let result = match Self::compile_register(env.layout, result) { Ok(x) => x, Err(e) => return Err(e) };
                let lhs = match Self::compile_register(env.layout, lhs) { Ok(x) => x, Err(e) => return Err(e) };
                let rhs = match Self::compile_provider(res, env, rhs) { Ok(x) => x, Err(e) => return Err(e) };
                Ok(Instruction::I32Sub { result, lhs, rhs })
            },
            _ => Err(TranslationError::InvalidReference),
        }
    }

    /// Compiles the instructions from `I32Mul` to `I64DivS`, in declaration order.
    #[verifier::spinoff_prover]
    fn compile_inst_part_5(
        res: &mut EngineResources,
        env: &CompileContext,
        pc: usize,
        inst: IrInstruction,
    ) -> (r: Result<ExecInstruction, TranslationError>)
        requires
            old(res).wf(),
            env.wf(),
            pc <= MAX_INSTRS,
            inst is I32Mul || inst is I32DivS || inst is I32DivU || inst is I32RemS || inst is I32RemU || inst is I32And || inst is I32Or || inst is I32Xor || inst is I32Shl || inst is I32ShrS || inst is I32ShrU || inst is I32Rotl || inst is I32Rotr || inst is I64Clz || inst is I64Ctz || inst is I64Popcnt || inst is I64Add || inst is I64Sub || inst is I64Mul || inst is I64DivS,
        ensures
            final(res).wf(),
            res_extends(*old(res), *final(res)),
            final(res).const_pool@.len() <= old(res).const_pool@.len() + const_demand(inst),
            final(res).provider_pool.providers().len() <= old(res).provider_pool.providers().len() + slice_demand(inst),
            r matches Ok(ex) ==> compiles_to(env.spec_env(), final(res).const_pool@, final(res).provider_pool, pc as int, inst, ex),
            r is Ok ==> compilable(env.spec_env(), pc as int, inst),
            r matches Err(e) ==> (compilable(env.spec_env(), pc as int, inst)
                ==> e == TranslationError::ConstPoolOverflow || e == TranslationError::ProviderSliceOverflow),
            compilable(env.spec_env(), pc as int, inst)
                && old(res).const_pool@.len() + const_demand(inst) <= MAX_CONSTS
                && old(res).provider_pool.providers().len() + slice_demand(inst) <= u16::MAX ==> r is Ok,
    {
        match inst {
            Instruction::I32Mul { result, lhs, rhs } => {
                let result = match Self::compile_register(env.layout, result) { Ok(x) => x, Err(e) => return Err(e) };
                let lhs = match Self::compile_register(env.layout, lhs) { Ok(x) => x, Err(e) => return Err(e) };
                let rhs = match Self::compile_provider(res, env, rhs) { Ok(x) => x, Err(e) => return Err(e) };
                Ok(Instruction::I32Mul { result, lhs, rhs })
            },
            Instruction::I32DivS { result, lhs, rhs } => {
                let result = match Self::compile_register(env.layout, result) { Ok(x) => x, Err(e) => return Err(e) };
                let lhs = match Self::compile_register(env.layout, lhs) { Ok(x) => x, Err(e) => return Err(e) };
                let rhs = match Self::compile_provider(res, env, rhs) { Ok(x) => x, Err(e) => return Err(e) };
                Ok(Instruction::I32DivS { result, lhs, rhs })
            },
            Instruction::I32DivU { result, lhs, rhs } => {
                let result = match Self::compile_register(env.layout, result) { Ok(x) => x, Err(e) => return Err(e) };
                let lhs = match Self::compile_register(env.layout, lhs) { Ok(x) => x, Err(e) => return Err(e) };
                let rhs = match Self::compile_provider(res, env, rhs) { Ok(x) => x, Err(e) => return Err(e) };
                Ok(Instruction::I32DivU { result, lhs, rhs })
            },
            Instruction::I32RemS { result, lhs, rhs } => {
                let result = match Self::compile_register(env.layout, result) { Ok(x) => x, Err(e) => return Err(e) };
                let lhs = match Self::compile_register(env.layout, lhs) { Ok(x) => x, Err(e) => return Err(e) };
                let rhs = match Self::compile_provider(res, env, rhs) { Ok(x) => x, Err(e) => return Err(e) };
                Ok(Instruction::I32RemS { result, lhs, rhs })
            },
            Instruction::I32RemU { result, lhs, rhs } => {
                let result = match Self::compile_register(env.layout, result) { Ok(x) => x, Err(e) => return Err(e) };
                let lhs = match Self::compile_register(env.layout, lhs) { Ok(x) => x, Err(e) => return Err(e) };
                let rhs = match Self::compile_provider(res, env, rhs) { Ok(x) => x, Err(e) => return Err(e) };
                Ok(Instruction::I32RemU { result, lhs, rhs })
            },
            Instruction::I32And { result, lhs, rhs } => {
                let result = match Self::compile_register(env.layout, result) { Ok(x) => x, Err(e) => return Err(e) };
                let lhs = match Self::compile_register(env.layout, lhs) { Ok(x) => x, Err(e) => return Err(e) };
                let rhs = match Self::compile_provider(res, env, rhs) { Ok(x) => x, Err(e) => return Err(e) };
                Ok(Instruction::I32And { result, lhs, rhs })
            },
            Instruction::I32Or { result, lhs, rhs } => {
                let result = match Self::compile_register(env.layout, result) { Ok(x) => x, Err(e) => return Err(e) };
                let lhs = match Self::compile_register(env.layout, lhs) { Ok(x) => x, Err(e) => return Err(e) };
                let rhs = match Self::compile_provider(res, env, rhs) { Ok(x) => x, Err(e) => return Err(e) };
                Ok(Instruction::I32Or { result, lhs, rhs })
            },
            Instruction::I32Xor { result, lhs, rhs } => {
                let result = match Self::compile_register(env.layout, result) { Ok(x) => x, Err(e) => return Err(e) };
                let lhs = match Self::compile_register(env.layout, lhs) { Ok(x) => x, Err(e) => return Err(e) };
                let rhs = match Self::compile_provider(res, env, rhs) { Ok(x) => x, Err(e) => return Err(e) };
                Ok(Instruction::I32Xor { result, lhs, rhs })
            },
            Instruction::I32Shl { result, lhs, rhs } => {
                let result = match Self::compile_register(env.layout, result) { Ok(x) => x, Err(e) => return Err(e) };
                let lhs = match Self::compile_register(env.layout, lhs) { Ok(x) => x, Err(e) => return Err(e) };
                let rhs = match Self::compile_provider(res, env, rhs) { Ok(x) => x, Err(e) => return Err(e) };
                Ok(Instruction::I32Shl { result, lhs, rhs })
            },
            Instruction::I32ShrS { result, lhs, rhs } => {
                let result = match Self::compile_register(env.layout, result) { Ok(x) => x, Err(e) => return Err(e) };
                let lhs = match Self::compile_register(env.layout, lhs) { Ok(x) => x, Err(e) => return Err(e) };
                let rhs = match Self::compile_provider(res, env, rhs) { Ok(x) => x, Err(e) => return Err(e) };
                Ok(Instruction::I32ShrS { result, lhs, rhs })
            },
            Instruction::I32ShrU { result, lhs, rhs } => {
                let result = match Self::compile_register(env.layout, result) { Ok(x) => x, Err(e) => return Err(e) };
                let lhs = match Self::compile_register(env.layout, lhs) { Ok(x) => x, Err(e) => return Err(e) };
                let rhs = match Self::compile_provider(res, env, rhs) { Ok(x) => x, Err(e) => return Err(e) };
                Ok(Instruction::I32ShrU { result, lhs, rhs })
            },
            Instruction::I32Rotl { result, lhs, rhs } => {
                let result = match Self::compile_register(env.layout, result) { Ok(x) => x, Err(e) => return Err(e) };
                let lhs = match Self::compile_register(env.layout, lhs) { Ok(x) => x, Err(e) => return Err(e) };
                let rhs = match Self::compile_provider(res, env, rhs) { Ok(x) => x, Err(e) => return Err(e) };
                Ok(Instruction::I32Rotl { result, lhs, rhs })
            },
            Instruction::I32Rotr { result, lhs, rhs } => {
                let result = match Self::compile_register(env.layout, result) { Ok(x) => x, Err(e) => return Err(e) };
                let lhs = match Self::compile_register(env.layout, lhs) { Ok(x) => x, Err(e) => return Err(e) };
                let rhs = match Self::compile_provider(res, env, rhs) { Ok(x) => x, Err(e) => return Err(e) };
                Ok(Instruction::I32Rotr { result, lhs, rhs })
            },
            Instruction::I64Clz { result, input } => {
                let result = match Self::compile_register(env.layout, result) { Ok(x) => x, Err(e) => return Err(e) };
                let input = match Self::compile_register(env.layout, input) { Ok(x) => x, Err(e) => return Err(e) };
                Ok(Instruction::I64Clz { result, input })
            },
            Instruction::I64Ctz { result, input } => {
                let result = match Self::compile_register(env.layout, result) { Ok(x) => x, Err(e) => return Err(e) };
                let input = match Self::compile_register(env.layout, input) { Ok(x) => x, Err(e) => return Err(e) };
                Ok(Instruction::I64Ctz { result, input })
            },
            Instruction::I64Popcnt { result, input } => {
                let result = match Self::compile_register(env.layout, result) { Ok(x) => x, Err(e) => return Err(e) };
                let input = match Self::compile_register(env.layout, input) { Ok(x) => x, Err(e) => return Err(e) };
                Ok(Instruction::I64Popcnt { result, input })
            },
            Instruction::I64Add { result, lhs, rhs } => {
                let result = match Self::compile_register(env.layout, result) { Ok(x) => x, Err(e) => return Err(e) };
                let lhs = match Self::compile_register(env.layout, lhs) { Ok(x) => x, Err(e) => return Err(e) };
                let rhs = match Self::compile_provider(res, env, rhs) { Ok(x) => x, Err(e) => return Err(e) };
                Ok(Instruction::I64Add { result, lhs, rhs })
            },
            Instruction::I64Sub { result, lhs, rhs } => {
                let result = match Self::compile_register(env.layout, result) { Ok(x) => x, Err(e) => return Err(e) };
                let lhs = match Self::compile_register(env.layout, lhs) { Ok(x) => x, Err(e) => return Err(e) };
                let rhs = match Self::compile_provider(res, env, rhs) { Ok(x) => x, Err(e) => return Err(e) };
                Ok(Instruction::I64Sub { result, lhs, rhs })
            },
            Instruction::I64Mul { result, lhs, rhs } => {
                let result = match Self::compile_register(env.layout, result) { Ok(x) => x, Err(e) => return Err(e) };
                let lhs = match Self::compile_register(env.layout, lhs) { Ok(x) => x, Err(e) => return Err(e) };
                let rhs = match Self::compile_provider(res, env, rhs) { Ok(x) => x, Err(e) => return Err(e) };
                Ok(Instruction::I64Mul { result, lhs, rhs })
            },
            Instruction::I64DivS { result, lhs, rhs } => {
                let result = match Self::compile_register(env.layout, result) { Ok(x) => x, Err(e) => return Err(e) };
                let lhs = match Self::compile_register(env.layout, lhs) { Ok(x) => x, Err(e) => return Err(e) };
                let rhs = match Self::compile_provider(res, env, rhs) { Ok(x) => x, Err(e) => return Err(e) };
                Ok(Instruction::I64DivS { result, lhs, rhs })
            },
            _ => Err(TranslationError::InvalidReference),
        }
    }

    /// Compiles the instructions from `I64DivU` to `F32Sub`, in declaration order.
    #[verifier::spinoff_prover]
    fn compile_inst_part_6(
        res: &mut EngineResources,
        env: &CompileContext,
        pc: usize,
        inst: IrInstruction,
    ) -> (r: Result<ExecInstruction, TranslationError>)
        requires
            old(res).wf(),
            env.wf(),
            pc <= MAX_INSTRS,
            inst is I64DivU || inst is I64RemS || inst is I64RemU || inst is I64And || inst is I64Or || inst is I64Xor || inst is I64Shl || inst is I64ShrS || inst is I64ShrU || inst is I64Rotl || inst is I64Rotr || inst is F32Abs || inst is F32Neg || inst is F32Ceil || inst is F32Floor || inst is F32Trunc || inst is F32Nearest || inst is F32Sqrt || inst is F32Add || inst is F32Sub,
        ensures
            final(res).wf(),
            res_extends(*old(res), *final(res)),
            final(res).const_pool@.len() <= old(res).const_pool@.len() + const_demand(inst),
            final(res).provider_pool.providers().len() <= old(res).provider_pool.providers().len() + slice_demand(inst),
            r matches Ok(ex) ==> compiles_to(env.spec_env(), final(res).const_pool@, final(res).provider_pool, pc as int, inst, ex),
            r is Ok ==> compilable(env.spec_env(), pc as int, inst),
            r matches Err(e) ==> (compilable(env.spec_env(), pc as int, inst)
                ==> e == TranslationError::ConstPoolOverflow || e == TranslationError::ProviderSliceOverflow),
            compilable(env.spec_env(), pc as int, inst)
                && old(res).const_pool@.len() + const_demand(inst) <= MAX_CONSTS
                && old(res).provider_pool.providers().len() + slice_demand(inst) <= u16::MAX ==> r is Ok,
    {
        match inst {
            Instruction::I64DivU { result, lhs, rhs } => {
                let result = match Self::compile_register(env.layout, result) { Ok(x) => x, Err(e) => return Err(e) };
                let lhs = match Self::compile_register(env.layout, lhs) { Ok(x) => x, Err(e) => return Err(e) };
                let rhs = match Self::compile_provider(res, env, rhs) { Ok(x) => x, Err(e) => return Err(e) };
                Ok(Instruction::I64DivU { result, lhs, rhs })
            },
            Instruction::I64RemS { result, lhs, rhs } => {
                let result = match Self::compile_register(env.layout, result) { Ok(x) => x, Err(e) => return Err(e) };
                let lhs = match Self::compile_register(env.layout, lhs) { Ok(x) => x, Err(e) => return Err(e) };
                let rhs = match Self::compile_provider(res, env, rhs) { Ok(x) => x, Err(e) => return Err(e) };
                Ok(Instruction::I64RemS { result, lhs, rhs })
            },
            Instruction::I64RemU { result, lhs, rhs } => {
                let result = match Self::compile_register(env.layout, result) { Ok(x) => x, Err(e) => return Err(e) };
                let lhs = match Self::compile_register(env.layout, lhs) { Ok(x) => x, Err(e) => return Err(e) };
                let rhs = match Self::compile_provider(res, env, rhs) { Ok(x) => x, Err(e) => return Err(e) };
                Ok(Instruction::I64RemU { result, lhs, rhs })
            },
            Instruction::I64And { result, lhs, rhs } => {
                let result = match Self::compile_register(env.layout, result) { Ok(x) => x, Err(e) => return Err(e) };
                let lhs = match Self::compile_register(env.layout, lhs) { Ok(x) => x, Err(e) => return Err(e) };
                let rhs = match Self::compile_provider(res, env, rhs) { Ok(x) => x, Err(e) => return Err(e) };
                Ok(Instruction::I64And { result, lhs, rhs })
            },
            Instruction::I64Or { result, lhs, rhs } => {
                let result = match Self::compile_register(env.layout, result) { Ok(x) => x, Err(e) => return Err(e) };
                let lhs = match Self::compile_register(env.layout, lhs) { Ok(x) => x, Err(e) => return Err(e) };
                let rhs = match Self::compile_provider(res, env, rhs) { Ok(x) => x, Err(e) => return Err(e) };
                Ok(Instruction::I64Or { result, lhs, rhs })
            },
            Instruction::I64Xor { result, lhs, rhs } => {
                let result = match Self::compile_register(env.layout, result) { Ok(x) => x, Err(e) => return Err(e) };
                let lhs = match Self::compile_register(env.layout, lhs) { Ok(x) => x, Err(e) => return Err(e) };
                let rhs = match Self::compile_provider(res, env, rhs) { Ok(x) => x, Err(e) => return Err(e) };
                Ok(Instruction::I64Xor { result, lhs, rhs })
            },
            Instruction::I64Shl { result, lhs, rhs } => {
                let result = match Self::compile_register(env.layout, result) { Ok(x) => x, Err(e) => return Err(e) };
                let lhs = match Self::compile_register(env.layout, lhs) { Ok(x) => x, Err(e) => return Err(e) };
                let rhs = match Self::compile_provider(res, env, rhs) { Ok(x) => x, Err(e) => return Err(e) };
                Ok(Instruction::I64Shl { result, lhs, rhs })
            },
            Instruction::I64ShrS { result, lhs, rhs } => {
                let result = match Self::compile_register(env.layout, result) { Ok(x) => x, Err(e) => return Err(e) };
                let lhs = match Self::compile_register(env.layout, lhs) { Ok(x) => x, Err(e) => return Err(e) };
                let rhs = match Self::compile_provider(res, env, rhs) { Ok(x) => x, Err(e) => return Err(e) };
                Ok(Instruction::I64ShrS { result, lhs, rhs })
            },
            Instruction::I64ShrU { result, lhs, rhs } => {
                let result = match Self::compile_register(env.layout, result) { Ok(x) => x, Err(e) => return Err(e) };
                let lhs = match Self::compile_register(env.layout, lhs) { Ok(x) => x, Err(e) => return Err(e) };
                let rhs = match Self::compile_provider(res, env, rhs) { Ok(x) => x, Err(e) => return Err(e) };
                Ok(Instruction::I64ShrU { result, lhs, rhs })
            },
            Instruction::I64Rotl { result, lhs, rhs } => {
                let result = match Self::compile_register(env.layout, result) { Ok(x) => x, Err(e) => return Err(e) };
                let lhs = match Self::compile_register(env.layout, lhs) { Ok(x) => x, Err(e) => return Err(e) };
                let rhs = match Self::compile_provider(res, env, rhs) { Ok(x) => x, Err(e) => return Err(e) };
                Ok(Instruction::I64Rotl { result, lhs, rhs })
            },
            Instruction::I64Rotr { result, lhs, rhs } => {
                let result = match Self::compile_register(env.layout, result) { Ok(x) => x, Err(e) => return Err(e) };
                let lhs = match Self::compile_register(env.layout, lhs) { Ok(x) => x, Err(e) => return Err(e) };
                let rhs = match Self::compile_provider(res, env, rhs) { Ok(x) => x, Err(e) => return Err(e) };
                Ok(Instruction::I64Rotr { result, lhs, rhs })
            },
            Instruction::F32Abs { result, input } => {
                let result = match Self::compile_register(env.layout, result) { Ok(x) => x, Err(e) => return Err(e) };
                let input = match Self::compile_register(env.layout, input) { Ok(x) => x, Err(e) => return Err(e) };
                Ok(Instruction::F32Abs { result, input })
            },
            Instruction::F32Neg { result, input } => {
                let result = match Self::compile_register(env.layout, result) { Ok(x) => x, Err(e) => return Err(e) };
                let input = match Self::compile_register(env.layout, input) { Ok(x) => x, Err(e) => return Err(e) };
                Ok(Instruction::F32Neg { result, input })
            },
            Instruction::F32Ceil { result, input } => {
                let result = match Self::compile_register(env.layout, result) { Ok(x) => x, Err(e) => return Err(e) };
                let input = match Self::compile_register(env.layout, input) { Ok(x) => x, Err(e) => return Err(e) };
                Ok(Instruction::F32Ceil { result, input })
            },
            Instruction::F32Floor { result, input } => {
                let result = match Self::compile_register(env.layout, result) { Ok(x) => x, Err(e) => return Err(e) };
                let input = match Self::compile_register(env.layout, input) { Ok(x) => x, Err(e) => return Err(e) };
                Ok(Instruction::F32Floor { result, input })
            },
            Instruction::F32Trunc { result, input } => {
                let result = match Self::compile_register(env.layout, result) { Ok(x) => x, Err(e) => return Err(e) };
                let input = match Self::compile_register(env.layout, input) { Ok(x) => x, Err(e) => return Err(e) };
                Ok(Instruction::F32Trunc { result, input })
            },
            Instruction::F32Nearest { result, input } => {
                let result = match Self::compile_register(env.layout, result) { Ok(x) => x, Err(e) => return Err(e) };
                let input = match Self::compile_register(env.layout, input) { Ok(x) => x, Err(e) => return Err(e) };
                Ok(Instruction::F32Nearest { result, input })
            },
            Instruction::F32Sqrt { result, input } => {
                let result = match Self::compile_register(env.layout, result) { Ok(x) => x, Err(e) => return Err(e) };
                let input = match Self::compile_register(env.layout, input) { Ok(x) => x, Err(e) => return Err(e) };
                Ok(Instruction::F32Sqrt { result, input })
            },
            Instruction::F32Add { result, lhs, rhs } => {
                let result = match Self::compile_register(env.layout, result) { Ok(x) => x, Err(e) => return Err(e) };
                let lhs = match Self::compile_register(env.layout, lhs) { Ok(x) => x, Err(e) => return Err(e) };
                let rhs = match Self::compile_provider(res, env, rhs) { Ok(x) => x, Err(e) => return Err(e) };
                Ok(Instruction::F32Add { result, lhs, rhs })
            },
            Instruction::F32Sub { result, lhs, rhs } => {
                let result = match Self::compile_register(env.layout, result) { Ok(x) => x, Err(e) => return Err(e) };
                let lhs = match Self::compile_register(env.layout, lhs) { Ok(x) => x, Err(e) => return Err(e) };
                let rhs = match Self::compile_provider(res, env, rhs) { Ok(x) => x, Err(e) => return Err(e) };
                Ok(Instruction::F32Sub { result, lhs, rhs })
            },
            _ => Err(TranslationError::InvalidReference),
        }
    }

    /// Compiles the instructions from `F32Mul` to `I32WrapI64`, in declaration order.
    #[verifier::spinoff_prover]
    fn compile_inst_part_7(
        res: &mut EngineResources,
        env: &CompileContext,
        pc: usize,
        inst: IrInstruction,
    ) -> (r: Result<ExecInstruction, TranslationError>)
        requires
            old(res).wf(),
            env.wf(),
            pc <= MAX_INSTRS,
            inst is F32Mul || inst is F32Div || inst is F32Min || inst is F32Max || inst is F32Copysign || inst is F64Abs || inst is F64Neg || inst is F64Ceil || inst is F64Floor || inst is F64Trunc || inst is F64Nearest || inst is F64Sqrt || inst is F64Add || inst is F64Sub || inst is F64Mul || inst is F64Div || inst is F64Min || inst is F64Max || inst is F64Copysign || inst is I32WrapI64,
        ensures
            final(res).wf(),
            res_extends(*old(res), *final(res)),
            final(res).const_pool@.len() <= old(res).const_pool@.len() + const_demand(inst),
            final(res).provider_pool.providers().len() <= old(res).provider_pool.providers().len() + slice_demand(inst),
            r matches Ok(ex) ==> compiles_to(env.spec_env(), final(res).const_pool@, final(res).provider_pool, pc as int, inst, ex),
            r is Ok ==> compilable(env.spec_env(), pc as int, inst),
            r matches Err(e) ==> (compilable(env.spec_env(), pc as int, inst)
                ==> e == TranslationError::ConstPoolOverflow || e == TranslationError::ProviderSliceOverflow),
            compilable(env.spec_env(), pc as int, inst)
                && old(res).const_pool@.len() + const_demand(inst) <= MAX_CONSTS
                && old(res).provider_pool.providers().len() + slice_demand(inst) <= u16::MAX ==> r is Ok,
    {
        match inst {
            Instruction::F32Mul { result, lhs, rhs } => {
                let result = match Self::compile_register(env.layout, result) { Ok(x) => x, Err(e) => return Err(e) };
                let lhs = match Self::compile_register(env.layout, lhs) { Ok(x) => x, Err(e) => return Err(e) };
                let rhs = match Self::compile_provider(res, env, rhs) { Ok(x) => x, Err(e) => return Err(e) };
                Ok(Instruction::F32Mul { result, lhs, rhs })
            },
            Instruction::F32Div { result, lhs, rhs } => {
                let result = match Self::compile_register(env.layout, result) { Ok(x) => x, Err(e) => return Err(e) };
                let lhs = match Self::compile_register(env.layout, lhs) { Ok(x) => x, Err(e) => return Err(e) };
                let rhs = match Self::compile_provider(res, env, rhs) { Ok(x) => x, Err(e) => return Err(e) };
                Ok(Instruction::F32Div { result, lhs, rhs })
            },
            Instruction::F32Min { result, lhs, rhs } => {
                let result = match Self::compile_register(env.layout, result) { Ok(x) => x, Err(e) => return Err(e) };
                let lhs = match Self::compile_register(env.layout, lhs) { Ok(x) => x, Err(e) => return Err(e) };
                let rhs = match Self::compile_provider(res, env, rhs) { Ok(x) => x, Err(e) => return Err(e) };
                Ok(Instruction::F32Min { result, lhs, rhs })
            },
            Instruction::F32Max { result, lhs, rhs } => {
                let result = match Self::compile_register(env.layout, result) { Ok(x) => x, Err(e) => return Err(e) };
                let lhs = match Self::compile_register(env.layout, lhs) { Ok(x) => x, Err(e) => return Err(e) };
                let rhs = match Self::compile_provider(res, env, rhs) { Ok(x) => x, Err(e) => return Err(e) };
                Ok(Instruction::F32Max { result, lhs, rhs })
            },
            Instruction::F32Copysign { result, lhs, rhs } => {
                let result = match Self::compile_register(env.layout, result) { Ok(x) => x, Err(e) => return Err(e) };
                let lhs = match Self::compile_register(env.layout, lhs) { Ok(x) => x, Err(e) => return Err(e) };
                let rhs = match Self::compile_provider(res, env, rhs) { Ok(x) => x, Err(e) => return Err(e) };
                Ok(Instruction::F32Copysign { result, lhs, rhs })
            },
            Instruction::F64Abs { result, input } => {
                let result = match Self::compile_register(env.layout, result) { Ok(x) => x, Err(e) => return Err(e) };
                let input = match Self::compile_register(env.layout, input) { Ok(x) => x, Err(e) => return Err(e) };
                Ok(Instruction::F64Abs { result, input })
            },
            Instruction::F64Neg { result, input } => {
                let result = match Self::compile_register(env.layout, result) { Ok(x) => x, Err(e) => return Err(e) };
                let input = match Self::compile_register(env.layout, input) { Ok(x) => x, Err(e) => return Err(e) };
                Ok(Instruction::F64Neg { result, input })
            },
            Instruction::F64Ceil { result, input } => {
                let result = match Self::compile_register(env.layout, result) { Ok(x) => x, Err(e) => return Err(e) };
                let input = match Self::compile_register(env.layout, input) { Ok(x) => x, Err(e) => return Err(e) };
                Ok(Instruction::F64Ceil { result, input })
            },
            Instruction::F64Floor { result, input } => {
                let result = match Self::compile_register(env.layout, result) { Ok(x) => x, Err(e) => return Err(e) };
                let input = match Self::compile_register(env.layout, input) { Ok(x) => x, Err(e) => return Err(e) };
                Ok(Instruction::F64Floor { result, input })
            },
            Instruction::F64Trunc { result, input } => {
                let result = match Self::compile_register(env.layout, result) { Ok(x) => x, Err(e) => return Err(e) };
                let input = match Self::compile_register(env.layout, input) { Ok(x) => x, Err(e) => return Err(e) };
                Ok(Instruction::F64Trunc { result, input })
            },
            Instruction::F64Nearest { result, input } => {
                let result = match Self::compile_register(env.layout, result) { Ok(x) => x, Err(e) => return Err(e) };
                let input = match Self::compile_register(env.layout, input) { Ok(x) => x, Err(e) => return Err(e) };
                Ok(Instruction::F64Nearest { result, input })
            },
            Instruction::F64Sqrt { result, input } => {
                let result = match Self::compile_register(env.layout, result) { Ok(x) => x, Err(e) => return Err(e) };
                let input = match Self::compile_register(env.layout, input) { Ok(x) => x, Err(e) => return Err(e) };
                Ok(Instruction::F64Sqrt { result, input })
            },
            Instruction::F64Add { result, lhs, rhs } => {
                let result = match Self::compile_register(env.layout, result) { Ok(x) => x, Err(e) => return Err(e) };
                let lhs = match Self::compile_register(env.layout, lhs) { Ok(x) => x, Err(e) => return Err(e) };
                let rhs = match Self::compile_provider(res, env, rhs) { Ok(x) => x, Err(e) => return Err(e) };
                Ok(Instruction::F64Add { result, lhs, rhs })
            },
            Instruction::F64Sub { result, lhs, rhs } => {
                let result = match Self::compile_register(env.layout, result) { Ok(x) => x, Err(e) => return Err(e) };
                let lhs = match Self::compile_register(env.layout, lhs) { Ok(x) => x, Err(e) => return Err(e) };
                let rhs = match Self::compile_provider(res, env, rhs) { Ok(x) => x, Err(e) => return Err(e) };
                Ok(Instruction::F64Sub { result, lhs, rhs })
            },
            Instruction::F64Mul { result, lhs, rhs } => {
                let result = match Self::compile_register(env.layout, result) { Ok(x) => x, Err(e) => return Err(e) };
                let lhs = match Self::compile_register(env.layout, lhs) { Ok(x) => x, Err(e) => return Err(e) };
                let rhs = match Self::compile_provider(res, env, rhs) { Ok(x) => x, Err(e) => return Err(e) };
                Ok(Instruction::F64Mul { result, lhs, rhs })
            },
            Instruction::F64Div { result, lhs, rhs } => {
                let result = match Self::compile_register(env.layout, result) { Ok(x) => x, Err(e) => return Err(e) };
                let lhs = match Self::compile_register(env.layout, lhs) { Ok(x) => x, Err(e) => return Err(e) };
                let rhs = match Self::compile_provider(res, env, rhs) { Ok(x) => x, Err(e) => return Err(e) };
                Ok(Instruction::F64Div { result, lhs, rhs })
            },
            Instruction::F64Min { result, lhs, rhs } => {
                let result = match Self::compile_register(env.layout, result) { Ok(x) => x, Err(e) => return Err(e) };
                let lhs = match Self::compile_register(env.layout, lhs) { Ok(x) => x, Err(e) => return Err(e) };
                let rhs = match Self::compile_provider(res, env, rhs) { Ok(x) => x, Err(e) => return Err(e) };
                Ok(Instruction::F64Min { result, lhs, rhs })
            },
            Instruction::F64Max { result, lhs, rhs } => {
                let result = match Self::compile_register(env.layout, result) { Ok(x) => x, Err(e) => return Err(e) };
                let lhs = match Self::compile_register(env.layout, lhs) { Ok(x) => x, Err(e) => return Err(e) };
                let rhs = match Self::compile_provider(res, env, rhs) { Ok(x) => x, Err(e) => return Err(e) };
                Ok(Instruction::F64Max { result, lhs, rhs })
            },
            Instruction::F64Copysign { result, lhs, rhs } => {
                let result = match Self::compile_register(env.layout, result) { Ok(x) => x, Err(e) => return Err(e) };
                let lhs = match Self::compile_register(env.layout, lhs) { Ok(x) => x, Err(e) => return Err(e) };
                let rhs = match Self::compile_provider(res, env, rhs) { Ok(x) => x, Err(e) => return Err(e) };
                Ok(Instruction::F64Copysign { result, lhs, rhs })
            },
            Instruction::I32WrapI64 { result, input } => {
                let result = match Self::compile_register(env.layout, result) { Ok(x) => x, Err(e) => return Err(e) };
                let input = match Self::compile_register(env.layout, input) { Ok(x) => x, Err(e) => return Err(e) };
                Ok(Instruction::I32WrapI64 { result, input })
            },
            _ => Err(TranslationError::InvalidReference),
        }
    }

    /// Compiles the instructions from `I32TruncSF32` to `F64PromoteF32`, in declaration order.
    #[verifier::spinoff_prover]
    fn compile_inst_part_8(
        res: &mut EngineResources,
        env: &CompileContext,
        pc: usize,
        inst: IrInstruction,
    ) -> (r: Result<ExecInstruction, TranslationError>)
        requires
            old(res).wf(),
            env.wf(),
            pc <= MAX_INSTRS,
            inst is I32TruncSF32 || inst is I32TruncUF32 || inst is I32TruncSF64 || inst is I32TruncUF64 || inst is I64ExtendSI32 || inst is I64ExtendUI32 || inst is I64TruncSF32 || inst is I64TruncUF32 || inst is I64TruncSF64 || inst is I64TruncUF64 || inst is F32ConvertSI32 || inst is F32ConvertUI32 || inst is F32ConvertSI64 || inst is F32ConvertUI64 || inst is F32DemoteF64 || inst is F64ConvertSI32 || inst is F64ConvertUI32 || inst is F64ConvertSI64 || inst is F64ConvertUI64 || inst is F64PromoteF32,
        ensures
            final(res).wf(),
            res_extends(*old(res), *final(res)),
            final(res).const_pool@.len() <= old(res).const_pool@.len() + const_demand(inst),
            final(res).provider_pool.providers().len() <= old(res).provider_pool.providers().len() + slice_demand(inst),
            r matches Ok(ex) ==> compiles_to(env.spec_env(), final(res).const_pool@, final(res).provider_pool, pc as int, inst, ex),
            r is Ok ==> compilable(env.spec_env(), pc as int, inst),
            r matches Err(e) ==> (compilable(env.spec_env(), pc as int, inst)
                ==> e == TranslationError::ConstPoolOverflow || e == TranslationError::ProviderSliceOverflow),
            compilable(env.spec_env(), pc as int, inst)
                && old(res).const_pool@.len() + const_demand(inst) <= MAX_CONSTS
                && old(res).provider_pool.providers().len() + slice_demand(inst) <= u16::MAX ==> r is Ok,
    {
        match inst {
            Instruction::I32TruncSF32 { result, input } => {
                let result = match Self::compile_register(env.layout, result) { Ok(x) => x, Err(e) => return Err(e) };
                let input = match Self::compile_register(env.layout, input) { Ok(x) => x, Err(e) => return Err(e) };
                Ok(Instruction::I32TruncSF32 { result, input })
            },
            Instruction::I32TruncUF32 { result, input } => {
                let result = match Self::compile_register(env.layout, result) { Ok(x) => x, Err(e) => return Err(e) };
                let input = match Self::compile_register(env.layout, input) { Ok(x) => x, Err(e) => return Err(e) };
                Ok(Instruction::I32TruncUF32 { result, input })
            },
            Instruction::I32TruncSF64 { result, input } => {
                let result = match Self::compile_register(env.layout, result) { Ok(x) => x, Err(e) => return Err(e) };
                let input = match Self::compile_register(env.layout, input) { Ok(x) => x, Err(e) => return Err(e) };
                Ok(Instruction::I32TruncSF64 { result, input })
            },
            Instruction::I32TruncUF64 { result, input } => {
                let result = match Self::compile_register(env.layout, result) { Ok(x) => x, Err(e) => return Err(e) };
                let input = match Self::compile_register(env.layout, input) { Ok(x) => x, Err(e) => return Err(e) };
                Ok(Instruction::I32TruncUF64 { result, input })
            },
            Instruction::I64ExtendSI32 { result, input } => {
                let result = match Self::compile_register(env.layout, result) { Ok(x) => x, Err(e) => return Err(e) };
                let input = match Self::compile_register(env.layout, input) { Ok(x) => x, Err(e) => return Err(e) };
                Ok(Instruction::I64ExtendSI32 { result, input })
            },
            Instruction::I64ExtendUI32 { result, input } => {
                let result = match Self::compile_register(env.layout, result) { Ok(x) => x, Err(e) => return Err(e) };
                let input = match Self::compile_register(env.layout, input) { Ok(x) => x, Err(e) => return Err(e) };
                Ok(Instruction::I64ExtendUI32 { result, input })
            },
            Instruction::I64TruncSF32 { result, input } => {
                let result = match Self::compile_register(env.layout, result) { Ok(x) => x, Err(e) => return Err(e) };
                let input = match Self::compile_register(env.layout, input) { Ok(x) => x, Err(e) => return Err(e) };
                Ok(Instruction::I64TruncSF32 { result, input })
            },
            Instruction::I64TruncUF32 { result, input } => {
                let result = match Self::compile_register(env.layout, result) { Ok(x) => x, Err(e) => return Err(e) };
                let input = match Self::compile_register(env.layout, input) { Ok(x) => x, Err(e) => return Err(e) };
                Ok(Instruction::I64TruncUF32 { result, input })
            },
            Instruction::I64TruncSF64 { result, input } => {
                let result = match Self::compile_register(env.layout, result) { Ok(x) => x, Err(e) => return Err(e) };
                let input = match Self::compile_register(env.layout, input) { Ok(x) => x, Err(e) => return Err(e) };
                Ok(Instruction::I64TruncSF64 { result, input })
            },
            Instruction::I64TruncUF64 { result, input } => {
                let result = match Self::compile_register(env.layout, result) { Ok(x) => x, Err(e) => return Err(e) };
                let input = match Self::compile_register(env.layout, input) { Ok(x) => x, Err(e) => return Err(e) };
                Ok(Instruction::I64TruncUF64 { result, input })
            },
            Instruction::F32ConvertSI32 { result, input } => {
                let result = match Self::compile_register(env.layout, result) { Ok(x) => x, Err(e) => return Err(e) };
                let input = match Self::compile_register(env.layout, input) { Ok(x) => x, Err(e) => return Err(e) };
                Ok(Instruction::F32ConvertSI32 { result, input })
            },
            Instruction::F32ConvertUI32 { result, input } => {
                let result = match Self::compile_register(env.layout, result) { Ok(x) => x, Err(e) => return Err(e) };
                let input = match Self::compile_register(env.layout, input) { Ok(x) => x, Err(e) => return Err(e) };
                Ok(Instruction::F32ConvertUI32 { result, input })
            },
            Instruction::F32ConvertSI64 { result, input } => {
                let result = match Self::compile_register(env.layout, result) { Ok(x) => x, Err(e) => return Err(e) };
                let input = match Self::compile_register(env.layout, input) { Ok(x) => x, Err(e) => return Err(e) };
                Ok(Instruction::F32ConvertSI64 { result, input })
            },
            Instruction::F32ConvertUI64 { result, input } => {
                let result = match Self::compile_register(env.layout, result) { Ok(x) => x, Err(e) => return Err(e) };
                let input = match Self::compile_register(env.layout, input) { Ok(x) => x, Err(e) => return Err(e) };
                Ok(Instruction::F32ConvertUI64 { result, input })
            },
            Instruction::F32DemoteF64 { result, input } => {
                let result = match Self::compile_register(env.layout, result) { Ok(x) => x, Err(e) => return Err(e) };
                let input = match Self::compile_register(env.layout, input) { Ok(x) => x, Err(e) => return Err(e) };
                Ok(Instruction::F32DemoteF64 { result, input })
            },
            Instruction::F64ConvertSI32 { result, input } => {
                let result = match Self::compile_register(env.layout, result) { Ok(x) => x, Err(e) => return Err(e) };
                let input = match Self::compile_register(env.layout, input) { Ok(x) => x, Err(e) => return Err(e) };
                Ok(Instruction::F64ConvertSI32 { result, input })
            },
            Instruction::F64ConvertUI32 { result, input } => {
                let result = match Self::compile_register(env.layout, result) { Ok(x) => x, Err(e) => return Err(e) };
                let input = match Self::compile_register(env.layout, input) { Ok(x) => x, Err(e) => return Err(e) };
                Ok(Instruction::F64ConvertUI32 { result, input })
            },
            Instruction::F64ConvertSI64 { result, input } => {
                let result = match Self::compile_register(env.layout, result) { Ok(x) => x, Err(e) => return Err(e) };
                let input = match Self::compile_register(env.layout, input) { Ok(x) => x, Err(e) => return Err(e) };
                Ok(Instruction::F64ConvertSI64 { result, input })
            },
            Instruction::F64ConvertUI64 { result, input } => {
                let result = match Self::compile_register(env.layout, result) { Ok(x) => x, Err(e) => return Err(e) };
                let input = match Self::compile_register(env.layout, input) { Ok(x) => x, Err(e) => return Err(e) };
                Ok(Instruction::F64ConvertUI64 { result, input })
            },
            Instruction::F64PromoteF32 { result, input } => {
                let result = match Self::compile_register(env.layout, result) { Ok(x) => x, Err(e) => return Err(e) };
                let input = match Self::compile_register(env.layout, input) { Ok(x) => x, Err(e) => return Err(e) };
                Ok(Instruction::F64PromoteF32 { result, input })
            },
            _ => Err(TranslationError::InvalidReference),
        }
    }

    /// Compiles the instructions from `I32Extend8S` to `I64TruncSatF64U`, in declaration order.
    #[verifier::spinoff_prover]
    fn compile_inst_part_9(
        res: &mut EngineResources,
        env: &CompileContext,
        pc: usize,
        inst: IrInstruction,
    ) -> (r: Result<ExecInstruction, TranslationError>)
        requires
            old(res).wf(),
            env.wf(),
            pc <= MAX_INSTRS,
            inst is I32Extend8S || inst is I32Extend16S || inst is I64Extend8S || inst is I64Extend16S || inst is I64Extend32S || inst is I32TruncSatF32S || inst is I32TruncSatF32U || inst is I32TruncSatF64S || inst is I32TruncSatF64U || inst is I64TruncSatF32S || inst is I64TruncSatF32U || inst is I64TruncSatF64S || inst is I64TruncSatF64U,
        ensures
            final(res).wf(),
            res_extends(*old(res), *final(res)),
            final(res).const_pool@.len() <= old(res).const_pool@.len() + const_demand(inst),
            final(res).provider_pool.providers().len() <= old(res).provider_pool.providers().len() + slice_demand(inst),
            r matches Ok(ex) ==> compiles_to(env.spec_env(), final(res).const_pool@, final(res).provider_pool, pc as int, inst, ex),
            r is Ok ==> compilable(env.spec_env(), pc as int, inst),
            r matches Err(e) ==> (compilable(env.spec_env(), pc as int, inst)
                ==> e == TranslationError::ConstPoolOverflow || e == TranslationError::ProviderSliceOverflow),
            compilable(env.spec_env(), pc as int, inst)
                && old(res).const_pool@.len() + const_demand(inst) <= MAX_CONSTS
                && old(res).provider_pool.providers().len() + slice_demand(inst) <= u16::MAX ==> r is Ok,
    {
        match inst {
            Instruction::I32Extend8S { result, input } => {
                let result = match Self::compile_register(env.layout, result) { Ok(x) => x, Err(e) => return Err(e) };
                let input = match Self::compile_register(env.layout, input) { Ok(x) => x, Err(e) => return Err(e) };
                Ok(Instruction::I32Extend8S { result, input })
            },
            Instruction::I32Extend16S { result, input } => {
                let result = match Self::compile_register(env.layout, result) { Ok(x) => x, Err(e) => return Err(e) };
                let input = match Self::compile_register(env.layout, input) { Ok(x) => x, Err(e) => return Err(e) };
                Ok(Instruction::I32Extend16S { result, input })
            },
            Instruction::I64Extend8S { result, input } => {
                let result = match Self::compile_register(env.layout, result) { Ok(x) => x, Err(e) => return Err(e) };
                let input = match Self::compile_register(env.layout, input) { Ok(x) => x, Err(e) => return Err(e) };
                Ok(Instruction::I64Extend8S { result, input })
            },
            Instruction::I64Extend16S { result, input } => {
                let result = match Self::compile_register(env.layout, result) { Ok(x) => x, Err(e) => return Err(e) };
                let input = match Self::compile_register(env.layout, input) { Ok(x) => x, Err(e) => return Err(e) };
                Ok(Instruction::I64Extend16S { result, input })
            },
            Instruction::I64Extend32S { result, input } => {
                let result = match Self::compile_register(env.layout, result) { Ok(x) => x, Err(e) => return Err(e) };
                let input = match Self::compile_register(env.layout, input) { Ok(x) => x, Err(e) => return Err(e) };
                Ok(Instruction::I64Extend32S { result, input })
            },
            Instruction::I32TruncSatF32S { result, input } => {
                let result = match Self::compile_register(env.layout, result) { Ok(x) => x, Err(e) => return Err(e) };
                let input = match Self::compile_register(env.layout, input) { Ok(x) => x, Err(e) => return Err(e) };
                Ok(Instruction::I32TruncSatF32S { result, input })
            },
            Instruction::I32TruncSatF32U { result, input } => {
                let result = match Self::compile_register(env.layout, result) { Ok(x) => x, Err(e) => return Err(e) };
                let input = match Self::compile_register(env.layout, input) { Ok(x) => x, Err(e) => return Err(e) };
                Ok(Instruction::I32TruncSatF32U { result, input })
            },
            Instruction::I32TruncSatF64S { result, input } => {
                let result = match Self::compile_register(env.layout, result) { Ok(x) => x, Err(e) => return Err(e) };
                let input = match Self::compile_register(env.layout, input) { Ok(x) => x, Err(e) => return Err(e) };
                Ok(Instruction::I32TruncSatF64S { result, input })
            },
            Instruction::I32TruncSatF64U { result, input } => {
                let result = match Self::compile_register(env.layout, result) { Ok(x) => x, Err(e) => return Err(e) };
                let input = match Self::compile_register(env.layout, input) { Ok(x) => x, Err(e) => return Err(e) };
                Ok(Instruction::I32TruncSatF64U { result, input })
            },
            Instruction::I64TruncSatF32S { result, input } => {
                let result = match Self::compile_register(env.layout, result) { Ok(x) => x, Err(e) => return Err(e) };
                let input = match Self::compile_register(env.layout, input) { Ok(x) => x, Err(e) => return Err(e) };
                Ok(Instruction::I64TruncSatF32S { result, input })
            },
            Instruction::I64TruncSatF32U { result, input } => {
                let result = match Self::compile_register(env.layout, result) { Ok(x) => x, Err(e) => return Err(e) };
                let input = match Self::compile_register(env.layout, input) { Ok(x) => x, Err(e) => return Err(e) };
                Ok(Instruction::I64TruncSatF32U { result, input })
            },
            Instruction::I64TruncSatF64S { result, input } => {
                let result = match Self::compile_register(env.layout, result) { Ok(x) => x, Err(e) => return Err(e) };
                let input = match Self::compile_register(env.layout, input) { Ok(x) => x, Err(e) => return Err(e) };
                Ok(Instruction::I64TruncSatF64S { result, input })
            },
            Instruction::I64TruncSatF64U { result, input } => {
                let result = match Self::compile_register(env.layout, result) { Ok(x) => x, Err(e) => return Err(e) };
                let input = match Self::compile_register(env.layout, input) { Ok(x) => x, Err(e) => return Err(e) };
                Ok(Instruction::I64TruncSatF64U { result, input })
            },
            _ => Err(TranslationError::InvalidReference),
        }
    }

    /// Compiles the IR instructions `insts` of a function body into a new body
    /// of the code map, interning their constants and provider slices.
    ///
    /// Fails, adding no body, when an instruction refers to a register outside
    /// the layout, to a slice outside the IR arena or to an unpinned label, or
    /// when a pool runs out of room.
    pub fn compile(&mut self, context: &CompileContext, insts: &[IrInstruction]) -> (r: Result<FuncBody, TranslationError>)
        requires
            old(self).wf(),
            context.wf(),
            insts@.len() <= MAX_INSTRS,
        ensures
            final(self).wf(),
            res_extends(old(self).res, final(self).res),
            r matches Ok(body) ==> {
                let entry = final(self).code_map.bodies().last();
                &&& body.0 == old(self).code_map.bodies().len()
                &&& final(self).code_map.bodies() == old(self).code_map.bodies().push(entry)
                &&& entry.len_regs == context.layout.len_locals + context.layout.len_dynamic
                &&& entry.insts@.len() == insts@.len()
                &&& forall|i: int| 0 <= i < insts@.len() ==> compiles_to(
                    context.spec_env(),
                    final(self).res.const_pool@,
                    final(self).res.provider_pool,
                    i,
                    insts@[i],
                    #[trigger] entry.insts@[i],
                )
            },
            r is Ok ==> forall|i: int| 0 <= i < insts@.len() ==> compilable(context.spec_env(), i, #[trigger] insts@[i]),
            r is Err ==> final(self).code_map == old(self).code_map,
            r matches Err(e) ==> ((forall|i: int| 0 <= i < insts@.len() ==> compilable(context.spec_env(), i, #[trigger] insts@[i]))
                ==> e == TranslationError::ConstPoolOverflow || e == TranslationError::ProviderSliceOverflow
                    || e == TranslationError::FuncBodyOverflow),
            (forall|i: int| 0 <= i < insts@.len() ==> compilable(context.spec_env(), i, #[trigger] insts@[i]))
                && old(self).res.const_pool@.len() + total_const_demand(insts@) <= MAX_CONSTS
                && old(self).res.provider_pool.providers().len() + total_slice_demand(insts@) <= u16::MAX
                && old(self).code_map.bodies().len() < u32::MAX ==> r is Ok,
    {
        let len_regs = context.layout.len_registers();
        let mut compiled: Vec<ExecInstruction> = Vec::new();
        let mut pc: usize = 0;
        while pc < insts.len()
            invariant
                self.wf(),
                context.wf(),
                insts@.len() <= MAX_INSTRS,
                pc <= insts@.len(),
                compiled@.len() == pc,
                self.code_map == old(self).code_map,
                res_extends(old(self).res, self.res),
                self.res.const_pool@.len() <= old(self).res.const_pool@.len() + total_const_demand(insts@.subrange(0, pc as int)),
                self.res.provider_pool.providers().len() <= old(self).res.provider_pool.providers().len()
                    + total_slice_demand(insts@.subrange(0, pc as int)),
                forall|i: int| 0 <= i < pc ==> compiles_to(
                    context.spec_env(),
                    self.res.const_pool@,
                    self.res.provider_pool,
                    i,
                    insts@[i],
                    #[trigger] compiled@[i],
                ),
                forall|i: int| 0 <= i < pc ==> compilable(context.spec_env(), i, #[trigger] insts@[i]),
            decreases insts@.len() - pc,
        {
            let ghost before = self.res;
            proof {
                assert(insts@.subrange(0, pc + 1).drop_last() =~= insts@.subrange(0, pc as int));
                assert(insts@.subrange(0, pc + 1).last() == insts@[pc as int]);
                lemma_demand_prefix(insts@, pc + 1);
            }
            let ex = match Self::compile_inst(&mut self.res, context, pc, insts[pc]) {
                Ok(ex) => ex,
                Err(e) => {
                    proof {
                        if forall|i: int| 0 <= i < insts@.len() ==> compilable(context.spec_env(), i, #[trigger] insts@[i]) {
                            assert(compilable(context.spec_env(), pc as int, insts@[pc as int]));
                        }
                    }
                    return Err(e);
                },
            };
            proof {
                assert forall|i: int| 0 <= i < pc implies compiles_to(
                    context.spec_env(),
                    self.res.const_pool@,
                    self.res.provider_pool,
                    i,
                    insts@[i],
                    #[trigger] compiled@[i],
                ) by {
                    lemma_compiles_to_mono(context.spec_env(), before.const_pool@, self.res.const_pool@, before.provider_pool, self.res.provider_pool, i, insts@[i], compiled@[i]);
                }
            }
            compiled.push(ex);
            pc += 1;
        }
        proof {
            assert(insts@.subrange(0, insts@.len() as int) =~= insts@);
        }
        if self.code_map.len() >= u32::MAX as usize {
            return Err(TranslationError::FuncBodyOverflow);
        }
        let body = self.code_map.alloc_body(compiled, len_regs);
        Ok(body)
    }
}

/// A prefix of the instructions demands no more than all of them.
proof fn lemma_demand_prefix(insts: Seq<IrInstruction>, k: int)
    requires
        0 <= k <= insts.len(),
    ensures
        total_const_demand(insts.subrange(0, k)) <= total_const_demand(insts),
        total_slice_demand(insts.subrange(0, k)) <= total_slice_demand(insts),
    decreases insts.len(),
{
    if k == insts.len() {
        assert(insts.subrange(0, k) =~= insts);
    } else {
        lemma_demand_prefix(insts.drop_last(), k);
        assert(insts.drop_last().subrange(0, k) =~= insts.subrange(0, k));
    }
}

} // verus!
