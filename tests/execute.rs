use wasmi_regmach::bytecode::{ExecInstruction, Instruction, Target};
use wasmi_regmach::compile::{EngineInner, FuncBody};
use wasmi_regmach::const_pool::ConstPool;
use wasmi_regmach::control_frame::BlockType;
use wasmi_regmach::error::{TranslationError, TrapCode};
use wasmi_regmach::execute::{execute_control, Outcome};
use wasmi_regmach::provider::{DedupProviderSliceArena, ExecProvider};
use wasmi_regmach::registers::ExecRegister;
use wasmi_regmach::stack::{Instance, Stack, StackLimits};
use wasmi_regmach::translate::{FunctionBuilder, Operator};

fn translate_func(engine: &mut EngineInner, len_locals: u16, len_results: u16, ops: &[Operator]) -> Result<FuncBody, TranslationError> {
    let mut builder = FunctionBuilder::new(len_locals, len_results)?;
    for op in ops {
        builder.translate(*op)?;
    }
    builder.finish(engine)
}


fn limits() -> StackLimits {
    StackLimits { initial_len: 16, maximum_len: 64, maximum_recursion_depth: 4 }
}

/// Runs a compiled function whose instructions are all control or copy instructions.
fn run(engine: &EngineInner, body: FuncBody, params: &[u64]) -> Result<Vec<u64>, TrapCode> {
    let mut stack = Stack::new(limits());
    let len_regs = engine.code_map.len_regs(body).unwrap() as usize;
    let root = stack.init(len_regs, params, body, Instance(0))?;
    let mut pc = 0;
    loop {
        let inst = engine.code_map.resolve_inst(body, pc).unwrap();
        match execute_control(&mut stack, root, pc, inst, &engine.res.const_pool, &engine.res.provider_pool) {
            Outcome::Continue(next) => pc = next,
            Outcome::Return(results) => {
                let returned = engine.res.provider_pool.resolve(results).to_vec();
                return Ok(stack.finalize(&returned, &engine.res.const_pool));
            }
            Outcome::Trap(code) => return Err(code),
            Outcome::Evaluate(inst) => panic!("unexpected value instruction {inst:?}"),
        }
    }
}

fn ty(len_params: u32, len_results: u32) -> BlockType {
    BlockType { len_params, len_results }
}

#[test]
fn if_else_selects_the_arm_by_its_condition() {
    let mut engine = EngineInner::new();
    let ops = [
        Operator::LocalGet(0),
        Operator::If(ty(0, 1)),
        Operator::I32Const(1),
        Operator::Else,
        Operator::I32Const(2),
        Operator::End,
        Operator::End,
    ];
    let body = translate_func(&mut engine, 1, 1, &ops).unwrap();
    assert_eq!(run(&engine, body, &[7]), Ok(vec![1]));
    assert_eq!(run(&engine, body, &[0]), Ok(vec![2]));
    // Only the low 32 bits form the condition.
    assert_eq!(run(&engine, body, &[1 << 32]), Ok(vec![2]));
}

#[test]
fn conditional_branch_carries_its_value() {
    let mut engine = EngineInner::new();
    let ops = [
        Operator::LocalGet(0),
        Operator::LocalGet(1),
        Operator::Block(ty(2, 1)),
        Operator::BrIf(0),
        Operator::End,
        Operator::End,
    ];
    let body = translate_func(&mut engine, 2, 1, &ops).unwrap();
    assert_eq!(run(&engine, body, &[5, 0]), Ok(vec![5]));
    assert_eq!(run(&engine, body, &[5, 1]), Ok(vec![5]));
}

#[test]
fn unreachable_traps_when_run() {
    let mut engine = EngineInner::new();
    let body = translate_func(&mut engine, 0, 0, &[Operator::Unreachable, Operator::End]).unwrap();
    assert_eq!(run(&engine, body, &[]), Err(TrapCode::Unreachable));
}

fn one_frame(params: &[u64]) -> (Stack, wasmi_regmach::stack::StackFrameRef) {
    let mut stack = Stack::new(limits());
    let root = stack.init(4, params, FuncBody(0), Instance(0)).unwrap();
    (stack, root)
}

#[test]
fn br_table_clamps_to_the_default() {
    let (mut stack, root) = one_frame(&[7, 1]);
    let pool = ConstPool::new();
    let arena = DedupProviderSliceArena::new();
    let table = Instruction::BrTable { case: ExecRegister(0), len_targets: 3 };
    assert_eq!(execute_control(&mut stack, root, 10, table, &pool, &arena), Outcome::Continue(13));
    let table = Instruction::BrTable { case: ExecRegister(1), len_targets: 3 };
    assert_eq!(execute_control(&mut stack, root, 10, table, &pool, &arena), Outcome::Continue(12));
}

#[test]
fn backward_branch_and_select() {
    let (mut stack, root) = one_frame(&[0, 11, 22]);
    let mut pool = ConstPool::new();
    let c = pool.alloc_const(99).unwrap();
    let arena = DedupProviderSliceArena::new();
    assert_eq!(execute_control(&mut stack, root, 5, Instruction::Br { target: Target(-5) }, &pool, &arena), Outcome::Continue(0));
    let select: ExecInstruction = Instruction::Select {
        result: ExecRegister(3),
        condition: ExecRegister(0),
        if_true: ExecProvider::from_register(ExecRegister(1)),
        if_false: ExecProvider::from_immediate(c),
    };
    assert_eq!(execute_control(&mut stack, root, 0, select, &pool, &arena), Outcome::Continue(1));
    assert_eq!(stack.get(root, 3), 99);
}

#[test]
fn copy_many_reads_before_writing() {
    let (mut stack, root) = one_frame(&[1, 2, 3]);
    let pool = ConstPool::new();
    let mut arena = DedupProviderSliceArena::new();
    // (r1, r2) <- (r0, r1): a shift that must not see its own writes.
    let inputs = arena
        .alloc_slice(&[ExecProvider::from_register(ExecRegister(0)), ExecProvider::from_register(ExecRegister(1))])
        .unwrap();
    let results = wasmi_regmach::registers::ExecRegisterSlice::new(ExecRegister(1), 2);
    let copy = Instruction::CopyMany { results, inputs };
    assert_eq!(execute_control(&mut stack, root, 0, copy, &pool, &arena), Outcome::Continue(1));
    assert_eq!((stack.get(root, 0), stack.get(root, 1), stack.get(root, 2)), (1, 1, 2));
}

#[test]
fn value_instructions_are_handed_back() {
    let (mut stack, root) = one_frame(&[1, 2]);
    let pool = ConstPool::new();
    let arena = DedupProviderSliceArena::new();
    let add: ExecInstruction = Instruction::I32Add {
        result: ExecRegister(2),
        lhs: ExecRegister(0),
        rhs: ExecProvider::from_register(ExecRegister(1)),
    };
    assert_eq!(execute_control(&mut stack, root, 0, add, &pool, &arena), Outcome::Evaluate(add));
    assert_eq!(stack.get(root, 2), 0);
}
