use wasmi_regmach::bytecode::{ExecInstruction, Instruction, IrInstruction, Target};
use wasmi_regmach::compile::{EngineInner, FuncBody, RegisterLayout};
use wasmi_regmach::error::TranslationError;
use wasmi_regmach::inst_builder::InstructionsBuilder;
use wasmi_regmach::provider::{ExecProvider, IrProvider, ProviderSliceArena};
use wasmi_regmach::registers::{ExecRegister, ExecRegisterSlice, IrRegister, IrRegisterSlice};

fn layout(len_locals: u16, len_dynamic: u16) -> RegisterLayout {
    RegisterLayout { len_locals, len_dynamic }
}

fn instrs(engine: &EngineInner, body: FuncBody) -> Vec<ExecInstruction> {
    let len = engine.code_map.len_insts(body).unwrap();
    (0..len).map(|i| engine.code_map.resolve_inst(body, i).unwrap()).collect()
}

fn returned_registers(engine: &EngineInner, inst: ExecInstruction) -> Vec<ExecProvider> {
    match inst {
        Instruction::Return { results } => engine.res.provider_pool.resolve(results).to_vec(),
        other => panic!("expected a return, got {other:?}"),
    }
}

fn reg(index: u16) -> ExecProvider {
    ExecProvider::from_register(ExecRegister(index))
}

#[test]
fn empty_function_is_a_single_return() {
    let mut engine = EngineInner::new();
    let mut arena = ProviderSliceArena::new();
    let mut builder = InstructionsBuilder::new();
    let none = arena.alloc_slice(&[]);
    builder.push_inst(Instruction::Return { results: none });
    let body = builder.finish(&mut engine, &arena, layout(0, 0)).unwrap();
    let insts = instrs(&engine, body);
    assert_eq!(insts.len(), 1);
    assert_eq!(returned_registers(&engine, insts[0]), Vec::<ExecProvider>::new());
}

#[test]
fn identity_block_returns_its_parameter() {
    let mut engine = EngineInner::new();
    let mut arena = ProviderSliceArena::new();
    let mut builder = InstructionsBuilder::new();
    let end = builder.new_label();
    builder.pin_label(end);
    let results = arena.alloc_slice(&[IrProvider::Register(IrRegister::Local(0))]);
    builder.push_inst(Instruction::Return { results });
    let body = builder.finish(&mut engine, &arena, layout(1, 0)).unwrap();
    let insts = instrs(&engine, body);
    assert_eq!(insts.len(), 1);
    assert_eq!(returned_registers(&engine, insts[0]), vec![reg(0)]);
}

#[test]
fn branch_out_of_block_with_constant_result() {
    let mut engine = EngineInner::new();
    let mut arena = ProviderSliceArena::new();
    let mut builder = InstructionsBuilder::new();
    let end = builder.new_label();
    let inputs = arena.alloc_slice(&[IrProvider::Immediate(7)]);
    let results = IrRegisterSlice::new(IrRegister::Dynamic(0), 1);
    builder.push_br(&mut arena, end, results, inputs);
    builder.pin_label(end);
    let returned = arena.alloc_slice(&[IrProvider::Register(IrRegister::Dynamic(0))]);
    builder.push_inst(Instruction::Return { results: returned });
    let body = builder.finish(&mut engine, &arena, layout(0, 1)).unwrap();
    let insts = instrs(&engine, body);
    assert_eq!(insts.len(), 3);
    match insts[0] {
        Instruction::CopyImm { result, input } => {
            assert_eq!(result, ExecRegister(0));
            assert_eq!(engine.res.const_pool.resolve(input), Some(7));
        }
        other => panic!("expected copy of an immediate, got {other:?}"),
    }
    assert_eq!(insts[1], Instruction::Br { target: Target(1) });
    assert_eq!(returned_registers(&engine, insts[2]), vec![reg(0)]);
}

#[test]
fn conditional_branch_with_single_value() {
    let mut engine = EngineInner::new();
    let mut arena = ProviderSliceArena::new();
    let mut builder = InstructionsBuilder::new();
    let skip = builder.new_label();
    let end = builder.new_label();
    let result = IrRegister::Dynamic(0);
    let input = IrProvider::Register(IrRegister::Local(0));
    builder.push_inst(Instruction::BrEqz { target: skip, condition: IrRegister::Local(1) });
    let inputs = arena.alloc_slice(&[input]);
    builder.push_br(&mut arena, end, IrRegisterSlice::new(result, 1), inputs);
    builder.pin_label(skip);
    builder.push_copy_instr(result, input);
    builder.pin_label(end);
    let returned = arena.alloc_slice(&[IrProvider::Register(result)]);
    builder.push_inst(Instruction::Return { results: returned });
    let body = builder.finish(&mut engine, &arena, layout(2, 1)).unwrap();
    let insts = instrs(&engine, body);
    assert_eq!(insts.len(), 5);
    assert_eq!(insts[0], Instruction::BrEqz { target: Target(3), condition: ExecRegister(1) });
    assert_eq!(insts[1], Instruction::Copy { result: ExecRegister(2), input: ExecRegister(0) });
    assert_eq!(insts[2], Instruction::Br { target: Target(2) });
    assert_eq!(insts[3], Instruction::Copy { result: ExecRegister(2), input: ExecRegister(0) });
    assert_eq!(returned_registers(&engine, insts[4]), vec![reg(2)]);
}

#[test]
fn branch_to_function_returns() {
    let mut engine = EngineInner::new();
    let mut arena = ProviderSliceArena::new();
    let mut builder = InstructionsBuilder::new();
    let results = arena.alloc_slice(&[IrProvider::Register(IrRegister::Local(0))]);
    builder.push_inst(Instruction::Return { results });
    let body = builder.finish(&mut engine, &arena, layout(1, 0)).unwrap();
    let insts = instrs(&engine, body);
    assert_eq!(insts.len(), 1);
    assert_eq!(returned_registers(&engine, insts[0]), vec![reg(0)]);
}

#[test]
fn backward_branch_has_negative_offset() {
    let mut engine = EngineInner::new();
    let arena = ProviderSliceArena::new();
    let mut builder = InstructionsBuilder::new();
    let head = builder.new_label();
    builder.pin_label(head);
    builder.push_inst(Instruction::I32Add {
        result: IrRegister::Local(0),
        lhs: IrRegister::Local(0),
        rhs: IrProvider::Immediate(1),
    });
    builder.push_inst(Instruction::BrNez { target: head, condition: IrRegister::Local(0) });
    let body = builder.finish(&mut engine, &arena, layout(1, 0)).unwrap();
    let insts = instrs(&engine, body);
    assert_eq!(insts[1], Instruction::BrNez { target: Target(-1), condition: ExecRegister(0) });
    match insts[0] {
        Instruction::I32Add { result, lhs, rhs } => {
            assert_eq!(result, ExecRegister(0));
            assert_eq!(lhs, ExecRegister(0));
            let cref = match rhs.decode() {
                wasmi_regmach::provider::RegisterOrImmediate::Immediate(c) => c,
                other => panic!("expected an immediate, got {other:?}"),
            };
            assert_eq!(engine.res.const_pool.resolve(cref), Some(1));
        }
        other => panic!("expected an addition, got {other:?}"),
    }
}

#[test]
fn unpinned_label_fails_without_new_body() {
    let mut engine = EngineInner::new();
    let arena = ProviderSliceArena::new();
    let mut builder = InstructionsBuilder::new();
    let nowhere = builder.new_label();
    builder.push_inst(Instruction::Br { target: nowhere });
    let r = builder.finish(&mut engine, &arena, layout(0, 0));
    assert_eq!(r, Err(TranslationError::UnpinnedLabel));
    assert_eq!(engine.code_map.len(), 0);
}

#[test]
fn register_outside_layout_fails() {
    let mut engine = EngineInner::new();
    let arena = ProviderSliceArena::new();
    let mut builder = InstructionsBuilder::new();
    builder.push_inst(Instruction::Copy { result: IrRegister::Dynamic(3), input: IrRegister::Local(0) });
    let r = builder.finish(&mut engine, &arena, layout(1, 2));
    assert_eq!(r, Err(TranslationError::InvalidReference));
}

#[test]
fn dynamic_registers_follow_locals() {
    let l = layout(3, 2);
    assert_eq!(l.compile_register(IrRegister::Local(2)), Ok(ExecRegister(2)));
    assert_eq!(l.compile_register(IrRegister::Dynamic(0)), Ok(ExecRegister(3)));
    assert_eq!(l.compile_register(IrRegister::Dynamic(1)), Ok(ExecRegister(4)));
    assert_eq!(l.compile_register(IrRegister::Dynamic(2)), Err(TranslationError::InvalidReference));
    assert_eq!(l.len_registers(), 5);
}

fn build_sample(arena: &mut ProviderSliceArena) -> Vec<IrInstruction> {
    let params = arena.alloc_slice(&[IrProvider::Immediate(42), IrProvider::Register(IrRegister::Local(0))]);
    let results = arena.alloc_slice(&[IrProvider::Register(IrRegister::Dynamic(0)), IrProvider::Immediate(42)]);
    vec![
        Instruction::Call {
            func_idx: wasmi_regmach::bytecode::FuncIdx(0),
            results: IrRegisterSlice::new(IrRegister::Dynamic(0), 1),
            params,
        },
        Instruction::Return { results },
    ]
}

#[test]
fn compiling_twice_yields_identical_tables() {
    let mut engine = EngineInner::new();
    let mut arena = ProviderSliceArena::new();
    let first = {
        let mut builder = InstructionsBuilder::new();
        for inst in build_sample(&mut arena) {
            builder.push_inst(inst);
        }
        builder.finish(&mut engine, &arena, layout(1, 1)).unwrap()
    };
    let second = {
        let mut builder = InstructionsBuilder::new();
        for inst in build_sample(&mut arena) {
            builder.push_inst(inst);
        }
        builder.finish(&mut engine, &arena, layout(1, 1)).unwrap()
    };
    assert_ne!(first, second);
    assert_eq!(instrs(&engine, first), instrs(&engine, second));
    assert_eq!(engine.res.const_pool.len(), 1);
    match instrs(&engine, first)[0] {
        Instruction::Call { results, params, .. } => {
            assert_eq!(results, ExecRegisterSlice::new(ExecRegister(1), 1));
            assert_eq!(engine.res.provider_pool.resolve(params).len(), 2);
        }
        other => panic!("expected a call, got {other:?}"),
    }
}

#[test]
fn engine_interns_equal_constants_once() {
    let mut engine = EngineInner::new();
    let a = engine.alloc_const(5).unwrap();
    let b = engine.alloc_const(6).unwrap();
    let c = engine.alloc_const(5).unwrap();
    assert_eq!(a, c);
    assert_ne!(a, b);
    assert_eq!(engine.res.const_pool.resolve(b), Some(6));
}
