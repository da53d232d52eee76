use wasmi_regmach::bytecode::{ExecInstruction, Instruction, Target};
use wasmi_regmach::compile::{EngineInner, FuncBody};
use wasmi_regmach::control_frame::BlockType;
use wasmi_regmach::error::TranslationError;
use wasmi_regmach::provider::ExecProvider;
use wasmi_regmach::registers::{ExecRegister, ExecRegisterSlice};
use wasmi_regmach::translate::{FunctionBuilder, Operator};

fn translate_func(engine: &mut EngineInner, len_locals: u16, len_results: u16, ops: &[Operator]) -> Result<FuncBody, TranslationError> {
    let mut builder = FunctionBuilder::new(len_locals, len_results)?;
    for op in ops {
        builder.translate(*op)?;
    }
    builder.finish(engine)
}


fn ty(len_params: u32, len_results: u32) -> BlockType {
    BlockType { len_params, len_results }
}

fn translate(len_locals: u16, len_results: u16, ops: &[Operator]) -> (EngineInner, Vec<ExecInstruction>) {
    let mut engine = EngineInner::new();
    let body = translate_func(&mut engine, len_locals, len_results, ops).unwrap();
    let insts = instrs(&engine, body);
    (engine, insts)
}

fn instrs(engine: &EngineInner, body: FuncBody) -> Vec<ExecInstruction> {
    let len = engine.code_map.len_insts(body).unwrap();
    (0..len).map(|i| engine.code_map.resolve_inst(body, i).unwrap()).collect()
}

fn reg(index: u16) -> ExecProvider {
    ExecProvider::from_register(ExecRegister(index))
}

fn assert_return(engine: &EngineInner, inst: ExecInstruction, expected: &[ExecProvider]) {
    match inst {
        Instruction::Return { results } => assert_eq!(engine.res.provider_pool.resolve(results), expected),
        other => panic!("expected a return, got {other:?}"),
    }
}

fn assert_copy_imm(engine: &EngineInner, inst: ExecInstruction, result: u16, bits: u64) {
    match inst {
        Instruction::CopyImm { result: r, input } => {
            assert_eq!(r, ExecRegister(result));
            assert_eq!(engine.res.const_pool.resolve(input), Some(bits));
        }
        other => panic!("expected a copy of an immediate, got {other:?}"),
    }
}

fn branched_block_1_imm(value: Operator, bits: u64) {
    let (engine, insts) = translate(0, 1, &[Operator::Block(ty(0, 1)), value, Operator::Br(0), Operator::End, Operator::End]);
    assert_eq!(insts.len(), 3);
    assert_copy_imm(&engine, insts[0], 0, bits);
    assert_eq!(insts[1], Instruction::Br { target: Target(1) });
    assert_return(&engine, insts[2], &[reg(0)]);
}

#[test]
fn empty_block() {
    let (engine, insts) = translate(0, 0, &[Operator::Block(ty(0, 0)), Operator::End, Operator::End]);
    assert_eq!(insts.len(), 1);
    assert_return(&engine, insts[0], &[]);
}

#[test]
fn nested_empty_block() {
    let ops = [Operator::Block(ty(0, 0)), Operator::Block(ty(0, 0)), Operator::End, Operator::End, Operator::End];
    let (engine, insts) = translate(0, 0, &ops);
    assert_eq!(insts.len(), 1);
    assert_return(&engine, insts[0], &[]);
}

#[test]
fn identity_block_1() {
    let ops = [Operator::LocalGet(0), Operator::Block(ty(1, 1)), Operator::End, Operator::End];
    let (engine, insts) = translate(1, 1, &ops);
    assert_eq!(insts.len(), 1);
    assert_return(&engine, insts[0], &[reg(0)]);
}

#[test]
fn identity_block_2() {
    let ops = [
        Operator::LocalGet(0),
        Operator::LocalGet(1),
        Operator::Block(ty(2, 2)),
        Operator::End,
        Operator::Drop,
        Operator::End,
    ];
    let (engine, insts) = translate(2, 1, &ops);
    assert_eq!(insts.len(), 1);
    assert_return(&engine, insts[0], &[reg(0)]);
}

#[test]
fn nested_identity_block_1() {
    let ops = [
        Operator::LocalGet(0),
        Operator::Block(ty(1, 1)),
        Operator::Block(ty(1, 1)),
        Operator::End,
        Operator::End,
        Operator::End,
    ];
    let (engine, insts) = translate(1, 1, &ops);
    assert_eq!(insts.len(), 1);
    assert_return(&engine, insts[0], &[reg(0)]);
}

#[test]
fn nested_identity_block_2() {
    let ops = [
        Operator::LocalGet(0),
        Operator::LocalGet(1),
        Operator::Block(ty(2, 2)),
        Operator::Block(ty(2, 2)),
        Operator::End,
        Operator::End,
        Operator::Drop,
        Operator::End,
    ];
    let (engine, insts) = translate(2, 1, &ops);
    assert_eq!(insts.len(), 1);
    assert_return(&engine, insts[0], &[reg(0)]);
}

#[test]
fn branched_block_0() {
    let ops = [Operator::Block(ty(0, 0)), Operator::Br(0), Operator::End, Operator::End];
    let (engine, insts) = translate(0, 0, &ops);
    assert_eq!(insts.len(), 2);
    assert_eq!(insts[0], Instruction::Br { target: Target(1) });
    assert_return(&engine, insts[1], &[]);
}

#[test]
fn branched_block_1() {
    let ops = [Operator::LocalGet(0), Operator::Block(ty(1, 1)), Operator::Br(0), Operator::End, Operator::End];
    let (engine, insts) = translate(1, 1, &ops);
    assert_eq!(insts.len(), 3);
    assert_eq!(insts[0], Instruction::Copy { result: ExecRegister(1), input: ExecRegister(0) });
    assert_eq!(insts[1], Instruction::Br { target: Target(1) });
    assert_return(&engine, insts[2], &[reg(1)]);
}

#[test]
fn branched_block_1_imm_i32() {
    for value in [0, 1, -1, i32::MIN, i32::MAX] {
        branched_block_1_imm(Operator::I32Const(value), u64::from(value as u32));
    }
}

#[test]
fn branched_block_1_imm_i64imm32() {
    for value in [
        0,
        1,
        -1,
        i64::from(i32::MIN) + 1,
        i64::from(i32::MIN),
        i64::from(i32::MAX) - 1,
        i64::from(i32::MAX),
    ] {
        branched_block_1_imm(Operator::I64Const(value), value as u64);
    }
}

#[test]
fn branched_block_1_imm_i64() {
    for value in [i64::from(i32::MIN) - 1, i64::from(i32::MAX) + 1, i64::MIN, i64::MAX] {
        branched_block_1_imm(Operator::I64Const(value), value as u64);
    }
}

#[test]
fn branched_block_1_imm_f32() {
    for value in [0.0f32, 1.0, -1.0, f32::INFINITY, f32::NEG_INFINITY, f32::NAN] {
        branched_block_1_imm(Operator::F32Const(value.to_bits()), u64::from(value.to_bits()));
    }
}

#[test]
fn branched_block_1_imm_f64imm32() {
    for value in [0.0f64, -0.25, 0.5, 1.0, -1.0, f64::INFINITY, f64::NEG_INFINITY, f64::NAN, f64::EPSILON] {
        branched_block_1_imm(Operator::F64Const(value.to_bits()), value.to_bits());
    }
}

#[test]
fn branched_block_1_imm_f64() {
    for value in [0.3f64, 0.123456789, 0.987654321] {
        branched_block_1_imm(Operator::F64Const(value.to_bits()), value.to_bits());
    }
}

#[test]
fn branched_block_2() {
    let ops = [
        Operator::LocalGet(0),
        Operator::LocalGet(1),
        Operator::Block(ty(2, 2)),
        Operator::Br(0),
        Operator::End,
        Operator::Drop,
        Operator::End,
    ];
    let (engine, insts) = translate(2, 1, &ops);
    assert_eq!(insts.len(), 2);
    match insts[0] {
        Instruction::BrMulti { target, results, returned } => {
            assert_eq!(target, Target(1));
            assert_eq!(results, ExecRegisterSlice::new(ExecRegister(2), 2));
            assert_eq!(engine.res.provider_pool.resolve(returned), &[reg(0), reg(1)]);
        }
        other => panic!("expected a branch with copies, got {other:?}"),
    }
    assert_return(&engine, insts[1], &[reg(2)]);
}

#[test]
fn branch_if_block_0() {
    let ops = [Operator::LocalGet(0), Operator::Block(ty(1, 0)), Operator::BrIf(0), Operator::End, Operator::End];
    let (engine, insts) = translate(1, 0, &ops);
    assert_eq!(insts.len(), 2);
    assert_eq!(insts[0], Instruction::BrNez { target: Target(1), condition: ExecRegister(0) });
    assert_return(&engine, insts[1], &[]);
}

#[test]
fn branch_if_block_1() {
    let ops = [
        Operator::LocalGet(0),
        Operator::LocalGet(1),
        Operator::Block(ty(2, 1)),
        Operator::BrIf(0),
        Operator::End,
        Operator::End,
    ];
    let (engine, insts) = translate(2, 1, &ops);
    assert_eq!(insts.len(), 5);
    assert_eq!(insts[0], Instruction::BrEqz { target: Target(3), condition: ExecRegister(1) });
    assert_eq!(insts[1], Instruction::Copy { result: ExecRegister(2), input: ExecRegister(0) });
    assert_eq!(insts[2], Instruction::Br { target: Target(2) });
    assert_eq!(insts[3], Instruction::Copy { result: ExecRegister(2), input: ExecRegister(0) });
    assert_return(&engine, insts[4], &[reg(2)]);
}

#[test]
fn branch_to_func_block_0() {
    let (engine, insts) = translate(0, 0, &[Operator::Br(0), Operator::End]);
    assert_eq!(insts.len(), 1);
    assert_return(&engine, insts[0], &[]);
}

#[test]
fn branch_to_func_block_1() {
    let (engine, insts) = translate(1, 1, &[Operator::LocalGet(0), Operator::Br(0), Operator::End]);
    assert_eq!(insts.len(), 1);
    assert_return(&engine, insts[0], &[reg(0)]);
}

#[test]
fn branch_to_func_block_nested_0() {
    let ops = [Operator::Block(ty(0, 0)), Operator::Br(1), Operator::End, Operator::End];
    let (engine, insts) = translate(0, 0, &ops);
    assert_eq!(insts.len(), 1);
    assert_return(&engine, insts[0], &[]);
}

#[test]
fn branch_to_func_block_nested_1() {
    let ops = [Operator::LocalGet(0), Operator::Block(ty(1, 1)), Operator::Br(1), Operator::End, Operator::End];
    let (engine, insts) = translate(1, 1, &ops);
    assert_eq!(insts.len(), 1);
    assert_return(&engine, insts[0], &[reg(0)]);
}

#[test]
fn empty_function_translates_to_single_return() {
    let (engine, insts) = translate(0, 0, &[Operator::End]);
    assert_eq!(insts.len(), 1);
    assert_return(&engine, insts[0], &[]);
}

#[test]
fn loop_branches_back_to_its_head() {
    let ops = [Operator::Loop(ty(0, 0)), Operator::LocalGet(0), Operator::BrIf(0), Operator::End, Operator::End];
    let (engine, insts) = translate(1, 0, &ops);
    assert_eq!(insts.len(), 2);
    assert_eq!(insts[0], Instruction::BrNez { target: Target(0), condition: ExecRegister(0) });
    assert_return(&engine, insts[1], &[]);
}

#[test]
fn if_else_joins_results() {
    let ops = [
        Operator::LocalGet(0),
        Operator::If(ty(0, 1)),
        Operator::I32Const(1),
        Operator::Else,
        Operator::I32Const(2),
        Operator::End,
        Operator::End,
    ];
    let (engine, insts) = translate(1, 1, &ops);
    assert_eq!(insts.len(), 5);
    assert_eq!(insts[0], Instruction::BrEqz { target: Target(3), condition: ExecRegister(0) });
    assert_copy_imm(&engine, insts[1], 1, 1);
    assert_eq!(insts[2], Instruction::Br { target: Target(2) });
    assert_copy_imm(&engine, insts[3], 1, 2);
    assert_return(&engine, insts[4], &[reg(1)]);
}

#[test]
fn constant_false_condition_skips_then_arm() {
    let ops = [
        Operator::I32Const(0),
        Operator::If(ty(0, 1)),
        Operator::I32Const(1),
        Operator::Else,
        Operator::I32Const(2),
        Operator::End,
        Operator::End,
    ];
    let (engine, insts) = translate(0, 1, &ops);
    assert_eq!(insts.len(), 2);
    assert_copy_imm(&engine, insts[0], 0, 2);
    assert_return(&engine, insts[1], &[reg(0)]);
}

#[test]
fn unreachable_traps() {
    let (_engine, insts) = translate(0, 0, &[Operator::Unreachable, Operator::End]);
    assert_eq!(insts.len(), 1);
    assert!(matches!(insts[0], Instruction::Trap { .. }));
}

#[test]
fn malformed_bodies_are_rejected() {
    let mut builder = FunctionBuilder::new(0, 1).unwrap();
    assert_eq!(builder.translate(Operator::Drop), Err(TranslationError::MalformedInput));
    let mut builder = FunctionBuilder::new(1, 0).unwrap();
    assert_eq!(builder.translate(Operator::LocalGet(1)), Err(TranslationError::MalformedInput));
    let mut builder = FunctionBuilder::new(0, 0).unwrap();
    builder.translate(Operator::End).unwrap();
    assert_eq!(builder.translate(Operator::End), Err(TranslationError::MalformedInput));
    let mut builder = FunctionBuilder::new(0, 0).unwrap();
    let mut engine = EngineInner::new();
    assert_eq!(builder.finish(&mut engine), Err(TranslationError::MalformedInput));
}

#[test]
fn constant_false_condition_without_else_passes_inputs_through() {
    let ops = [
        Operator::LocalGet(0),
        Operator::I32Const(0),
        Operator::If(ty(1, 1)),
        Operator::Drop,
        Operator::I32Const(5),
        Operator::End,
        Operator::End,
    ];
    let (engine, insts) = translate(1, 1, &ops);
    assert_eq!(insts.len(), 2);
    assert_eq!(insts[0], Instruction::Copy { result: ExecRegister(1), input: ExecRegister(0) });
    assert_return(&engine, insts[1], &[reg(1)]);
}

#[test]
fn if_without_else_copies_inputs_on_the_false_path() {
    let ops = [
        Operator::LocalGet(0),
        Operator::LocalGet(1),
        Operator::If(ty(1, 1)),
        Operator::Drop,
        Operator::I32Const(5),
        Operator::End,
        Operator::End,
    ];
    let (engine, insts) = translate(2, 1, &ops);
    assert_eq!(insts.len(), 5);
    assert_eq!(insts[0], Instruction::BrEqz { target: Target(3), condition: ExecRegister(1) });
    assert_copy_imm(&engine, insts[1], 2, 5);
    assert_eq!(insts[2], Instruction::Br { target: Target(2) });
    assert_eq!(insts[3], Instruction::Copy { result: ExecRegister(2), input: ExecRegister(0) });
    assert_return(&engine, insts[4], &[reg(2)]);
}
