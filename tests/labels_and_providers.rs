use wasmi_regmach::const_pool::{ConstPool, ConstRef};
use wasmi_regmach::error::TranslationError;
use wasmi_regmach::inst_builder::{InstructionsBuilder, RelativeDepth};
use wasmi_regmach::labels::{Instr, LabelRef, LabelRegistry};
use wasmi_regmach::provider::{
    DedupProviderSliceArena, ExecProvider, ExecProviderSlice, IrProvider, IrProviderSlice, ProviderSliceArena,
    RegisterOrImmediate,
};
use wasmi_regmach::registers::{ExecRegister, IrRegister};

#[test]
fn pinning_twice_fails() {
    let mut labels = LabelRegistry::new();
    let label = labels.new_label();
    assert_eq!(label, LabelRef(0));
    assert_eq!(labels.pin_label(label, Instr(3)), Ok(()));
    assert_eq!(labels.pin_label(label, Instr(5)), Err(TranslationError::LabelAlreadyPinned));
    assert_eq!(labels.resolve_label(label), Ok(Instr(3)));
}

#[test]
fn try_pin_is_idempotent() {
    let mut labels = LabelRegistry::new();
    let label = labels.new_label();
    labels.try_pin_label(label, Instr(2));
    labels.try_pin_label(label, Instr(9));
    assert_eq!(labels.resolve_label(label), Ok(Instr(2)));
}

#[test]
fn unpinned_and_unknown_labels_do_not_resolve() {
    let mut labels = LabelRegistry::new();
    let label = labels.new_label();
    assert_eq!(labels.resolve_label(label), Err(TranslationError::UnpinnedLabel));
    assert_eq!(labels.resolve_label(LabelRef(7)), Err(TranslationError::InvalidReference));
}

#[test]
fn builder_pins_to_next_instruction() {
    let mut builder = InstructionsBuilder::new();
    let label = builder.new_label();
    assert_eq!(builder.current_pc(), Instr(0));
    let copy = builder.push_copy_instr(IrRegister::Local(0), IrProvider::Immediate(1));
    assert_eq!(copy, Some(Instr(0)));
    let no_op = builder.push_copy_instr(IrRegister::Local(0), IrProvider::Register(IrRegister::Local(0)));
    assert_eq!(no_op, None);
    builder.try_pin_label(label);
    assert_eq!(builder.current_pc(), Instr(1));
}

#[test]
fn instr_and_depth_round_trip() {
    assert_eq!(Instr::from_inner(17).into_inner(), 17);
    assert_eq!(Instr::from_usize(4).into_usize(), 4);
    assert_eq!(RelativeDepth::from_u32(3).into_u32(), 3);
}

#[test]
fn provider_encoding_round_trips() {
    let r = ExecProvider::from_register(ExecRegister(65535));
    assert_eq!(r.decode(), RegisterOrImmediate::Register(ExecRegister(65535)));
    let c = ExecProvider::from_immediate(ConstRef(0));
    assert_eq!(c.decode(), RegisterOrImmediate::Immediate(ConstRef(0)));
    let big = ExecProvider::from_immediate(ConstRef(0x7FFF_FFFE));
    assert_eq!(big.decode(), RegisterOrImmediate::Immediate(ConstRef(0x7FFF_FFFE)));
    assert_ne!(ExecProvider::from_register(ExecRegister(0)), ExecProvider::from_immediate(ConstRef(0)));
}

#[test]
fn arena_interns_equal_sequences() {
    let mut arena = DedupProviderSliceArena::new();
    let a = ExecProvider::from_register(ExecRegister(1));
    let b = ExecProvider::from_immediate(ConstRef(4));
    let s1 = arena.alloc_slice(&[a, b]).unwrap();
    let s2 = arena.alloc_slice(&[b, a]).unwrap();
    let s3 = arena.alloc_slice(&[a, b]).unwrap();
    assert_eq!(s1, s3);
    assert_ne!(s1, s2);
    assert_eq!(s1, ExecProviderSlice::new(0, 2));
    assert_eq!(s2, ExecProviderSlice::new(2, 2));
    assert_eq!(arena.resolve(s2), &[b, a]);
    assert_eq!(s1.len(), 2);
}

#[test]
fn arena_interns_the_empty_sequence() {
    let mut arena = DedupProviderSliceArena::new();
    let e1 = arena.alloc_slice(&[]).unwrap();
    let e2 = arena.alloc_slice(&[]).unwrap();
    assert_eq!(e1, e2);
    assert_eq!(e1, ExecProviderSlice::empty());
    assert_eq!(arena.resolve(e1).len(), 0);
}

#[test]
fn arena_rejects_overlong_slice() {
    let mut arena = DedupProviderSliceArena::new();
    let long = vec![ExecProvider::from_register(ExecRegister(0)); 70000];
    assert_eq!(arena.alloc_slice(&long), Err(TranslationError::ProviderSliceOverflow));
}

#[test]
fn const_pool_deduplicates() {
    let mut pool = ConstPool::new();
    let a = pool.alloc_const(u64::MAX).unwrap();
    let b = pool.alloc_const(0).unwrap();
    let c = pool.alloc_const(u64::MAX).unwrap();
    assert_eq!(a, ConstRef(0));
    assert_eq!(b, ConstRef(1));
    assert_eq!(a, c);
    assert_eq!(pool.len(), 2);
    assert_eq!(pool.resolve(b), Some(0));
    assert_eq!(pool.resolve(ConstRef(2)), None);
}

#[test]
fn ir_slices_skip_and_take() {
    let mut arena = ProviderSliceArena::new();
    let s = arena.alloc_slice(&[IrProvider::Immediate(1), IrProvider::Immediate(2), IrProvider::Immediate(3)]);
    assert_eq!(s, IrProviderSlice { first: 0, len: 3 });
    let mid = s.skip(1).take(1);
    assert_eq!(arena.resolve(mid), &[IrProvider::Immediate(2)]);
    assert_eq!(s.skip(5).len(), 0);
    assert_eq!(s.take(9), s);
}
