use wasmi_regmach::compile::FuncBody;
use wasmi_regmach::const_pool::ConstPool;
use wasmi_regmach::error::TrapCode;
use wasmi_regmach::provider::ExecProvider;
use wasmi_regmach::registers::{ExecRegister, ExecRegisterSlice};
use wasmi_regmach::stack::{FrameRegion, Instance, Memory, Stack, StackFrameRef, StackLimits, Table, ValueStack};

fn limits(maximum_len: usize, depth: usize) -> StackLimits {
    StackLimits { initial_len: 0, maximum_len, maximum_recursion_depth: depth }
}

fn reg(i: u16) -> ExecProvider {
    ExecProvider::from_register(ExecRegister(i))
}

#[test]
fn default_limits() {
    let l = StackLimits::default();
    assert_eq!(l.initial_len, 8192);
    assert_eq!(l.maximum_len, 1024 * 8192);
}

#[test]
fn call_and_return_restore_empty_stack() {
    let mut pool = ConstPool::new();
    let ten = pool.alloc_const(10).unwrap();
    let mut stack = Stack::new(limits(100, 4));
    let root = stack.init(3, &[5, 6], FuncBody(0), Instance(0)).unwrap();
    assert_eq!(root, StackFrameRef(0));
    assert_eq!(stack.get(root, 0), 5);
    assert_eq!(stack.get(root, 2), 0);
    // callee(R1, 10) with its result into the caller's R2
    let callee = stack
        .call_wasm(4, ExecRegisterSlice::new(ExecRegister(2), 1), &[reg(1), ExecProvider::from_immediate(ten)], &pool, FuncBody(1), Instance(0))
        .unwrap();
    assert_eq!(callee, StackFrameRef(1));
    assert_eq!(stack.len_values(), 7);
    assert_eq!(stack.get(callee, 0), 6);
    assert_eq!(stack.get(callee, 1), 10);
    stack.set(callee, 3, 99);
    assert_eq!(stack.return_wasm(&[reg(3)], &pool), Some(StackFrameRef(0)));
    assert_eq!(stack.len_frames(), 1);
    assert_eq!(stack.len_values(), 3);
    assert_eq!(stack.get(root, 2), 99);
    assert_eq!(stack.return_wasm(&[reg(2)], &pool), None);
    let results = stack.finalize(&[reg(2), reg(0)], &pool);
    assert_eq!(results, vec![99, 5]);
    assert_eq!(stack.len_frames(), 0);
    assert_eq!(stack.len_values(), 0);
}

#[test]
fn recursion_depth_overflows() {
    let pool = ConstPool::new();
    let mut stack = Stack::new(limits(100, 2));
    stack.init(1, &[], FuncBody(0), Instance(0)).unwrap();
    stack.call_wasm(1, ExecRegisterSlice::empty(), &[], &pool, FuncBody(0), Instance(0)).unwrap();
    let r = stack.call_wasm(1, ExecRegisterSlice::empty(), &[], &pool, FuncBody(0), Instance(0));
    assert_eq!(r, Err(TrapCode::StackOverflow));
    assert_eq!(stack.len_frames(), 2);
    assert_eq!(stack.len_values(), 2);
}

#[test]
fn value_stack_overflows() {
    let pool = ConstPool::new();
    let mut stack = Stack::new(limits(10, 8));
    assert_eq!(stack.init(11, &[], FuncBody(0), Instance(0)), Err(TrapCode::StackOverflow));
    stack.init(6, &[], FuncBody(0), Instance(0)).unwrap();
    let r = stack.call_wasm(5, ExecRegisterSlice::empty(), &[], &pool, FuncBody(0), Instance(0));
    assert_eq!(r, Err(TrapCode::StackOverflow));
    assert_eq!(stack.len_values(), 6);
    assert!(stack.call_wasm(4, ExecRegisterSlice::empty(), &[], &pool, FuncBody(0), Instance(0)).is_ok());
    assert_eq!(stack.len_values(), 10);
}

#[test]
fn host_call_round_trip() {
    let pool = ConstPool::new();
    let mut stack = Stack::new(limits(8, 4));
    let root = stack.init(4, &[3, 4], FuncBody(0), Instance(0)).unwrap();
    let params = stack.host_call_params(&[reg(0), reg(1)], 1, &pool).unwrap();
    assert_eq!(params, vec![3, 4]);
    stack.host_call_results(ExecRegisterSlice::new(ExecRegister(3), 1), &[7]);
    assert_eq!(stack.get(root, 3), 7);
    assert_eq!(stack.host_call_params(&[reg(0)], 5, &pool), Err(TrapCode::StackOverflow));
}

#[test]
fn frame_pc_and_regions() {
    let mut stack = Stack::new(limits(8, 4));
    let root = stack.init(2, &[], FuncBody(3), Instance(1)).unwrap();
    stack.update_pc(root, 12);
    let frame = stack.frame_at(root).unwrap();
    assert_eq!(frame.pc, 12);
    assert_eq!(frame.func_body, FuncBody(3));
    assert_eq!(frame.region, FrameRegion::new(0, 2));
    assert!(frame.region.followed_by(&FrameRegion::new(2, 1)));
    assert_eq!(frame.region.end(), 2);
    assert!(stack.frame_at(StackFrameRef(1)).is_none());
}

#[test]
fn value_stack_extends_and_shrinks() {
    let mut values = ValueStack::new(2, 5);
    assert_eq!(values.extend_by(3), Ok(FrameRegion::new(0, 3)));
    assert_eq!(values.extend_by(2), Ok(FrameRegion::new(3, 2)));
    assert_eq!(values.extend_by(1), Err(TrapCode::StackOverflow));
    assert_eq!(values.len(), 5);
    assert_eq!(values.frame_regs(FrameRegion::new(1, 3)), &[0, 0, 0]);
    let (a, b) = values.paired_frame_regs(FrameRegion::new(0, 3), FrameRegion::new(3, 2));
    assert_eq!((a.len(), b.len()), (3, 2));
    values.shrink_by(4);
    assert_eq!(values.len(), 1);
    values.clear();
    assert_eq!(values.len(), 0);
}

#[test]
fn root_host_call_window() {
    let stack = Stack::new(limits(4, 2));
    assert_eq!(stack.host_root_window(2, 3), Ok(3));
    assert_eq!(stack.host_root_window(5, 1), Err(TrapCode::StackOverflow));
}

#[test]
fn default_memory_is_looked_up_once() {
    let mut stack = Stack::new(limits(8, 2));
    let root = stack.init(1, &[], FuncBody(0), Instance(0)).unwrap();
    assert_eq!(stack.default_memory(root, Memory(3)), Memory(3));
    assert_eq!(stack.default_memory(root, Memory(9)), Memory(3));
    assert_eq!(stack.default_table(root, Table(1)), Table(1));
    assert_eq!(stack.default_table(root, Table(2)), Table(1));
}
