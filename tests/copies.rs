use wasmi_regmach::inst_builder::TrueCopies;
use wasmi_regmach::provider::{IrProvider, IrProviderSlice, ProviderSliceArena};
use wasmi_regmach::registers::{IrRegister, IrRegisterSlice};

fn assert_providers_eq(arena: &ProviderSliceArena, lhs: IrProviderSlice, rhs: IrProviderSlice) {
    let lhs = arena.resolve(lhs);
    let rhs = arena.resolve(rhs);
    assert_eq!(lhs, rhs)
}

fn assert_true_copies_eq(arena: &ProviderSliceArena, lhs: TrueCopies, rhs: TrueCopies) {
    match (lhs, rhs) {
        (TrueCopies::Noop, TrueCopies::Noop) => (),
        (
            TrueCopies::Single { result: lhs_result, input: lhs_input },
            TrueCopies::Single { result: rhs_result, input: rhs_input },
        ) => {
            assert_eq!(lhs_result, rhs_result);
            assert_eq!(lhs_input, rhs_input);
        }
        (
            TrueCopies::Many { results: lhs_results, inputs: lhs_inputs },
            TrueCopies::Many { results: rhs_results, inputs: rhs_inputs },
        ) => {
            assert_eq!(lhs_results, rhs_results);
            assert_providers_eq(arena, lhs_inputs, rhs_inputs);
        }
        (lhs, rhs) => panic!("lhs != rhs\nlhs = {lhs:?}\nrhs = {rhs:?}"),
    }
}

fn register_slice(start: usize, len: u16) -> IrRegisterSlice {
    IrRegisterSlice::new(IrRegister::Dynamic(start), len)
}

fn provider_reg(index: usize) -> IrProvider {
    IrProvider::Register(IrRegister::Dynamic(index))
}

#[test]
fn test_analyze_true_copies() {
    let mut arena = ProviderSliceArena::new();

    // Case: empty slices
    {
        let results = IrRegisterSlice::empty();
        let inputs: &[IrProvider] = &[];
        let actual = TrueCopies::analyze(&mut arena, results, inputs);
        let expected = TrueCopies::Noop;
        assert_true_copies_eq(&arena, actual, expected);
    }

    // Case: no actual copies
    //
    // (x0, x1) <- (x0, x1)
    {
        let results = register_slice(0, 2);
        let inputs = &[provider_reg(0), provider_reg(1)];
        let actual = TrueCopies::analyze(&mut arena, results, inputs);
        let expected = TrueCopies::Noop;
        assert_true_copies_eq(&arena, actual, expected);
    }

    // Case: single actual copy
    //
    // x0 <- x1
    {
        let results = register_slice(0, 1);
        let inputs = &[provider_reg(1)];
        let actual = TrueCopies::analyze(&mut arena, results, inputs);
        let expected = TrueCopies::Single {
            result: IrRegister::Dynamic(0),
            input: IrProvider::Register(IrRegister::Dynamic(1)),
        };
        assert_true_copies_eq(&arena, actual, expected);
    }

    // Case: single true copy at start
    //
    // (x0, x1) <- (x1, x1)
    // => x0 <- x1
    {
        let results = register_slice(0, 2);
        let inputs = &[provider_reg(1), provider_reg(1)];
        let actual = TrueCopies::analyze(&mut arena, results, inputs);
        let expected = TrueCopies::Single {
            result: IrRegister::Dynamic(0),
            input: IrProvider::Register(IrRegister::Dynamic(1)),
        };
        assert_true_copies_eq(&arena, actual, expected);
    }

    // Case: single true copy at end
    //
    // (x0, x1) <- (x0, x0)
    // => x1 <- x0
    {
        let results = register_slice(0, 2);
        let inputs = &[provider_reg(0), provider_reg(0)];
        let actual = TrueCopies::analyze(&mut arena, results, inputs);
        let expected = TrueCopies::Single {
            result: IrRegister::Dynamic(1),
            input: IrProvider::Register(IrRegister::Dynamic(0)),
        };
        assert_true_copies_eq(&arena, actual, expected);
    }

    // Case: single true copy in the middle
    //
    // (x0, x1, x2) <- (x0, x3, x2)
    // => x1 <- x3
    {
        let results = register_slice(0, 3);
        let inputs = &[provider_reg(0), provider_reg(3), provider_reg(2)];
        let actual = TrueCopies::analyze(&mut arena, results, inputs);
        let expected = TrueCopies::Single {
            result: IrRegister::Dynamic(1),
            input: IrProvider::Register(IrRegister::Dynamic(3)),
        };
        assert_true_copies_eq(&arena, actual, expected);
    }

    // Case: many true copies
    //
    // (x0, x1) <- (x2, x2)
    {
        let results = register_slice(0, 2);
        let inputs = &[provider_reg(2), provider_reg(2)];
        let actual = TrueCopies::analyze(&mut arena, results, inputs);
        let expected = TrueCopies::Many { results, inputs: arena.alloc_slice(inputs) };
        assert_true_copies_eq(&arena, actual, expected);
    }

    // Case: many true copies at the end
    //
    // (x0, x1, x2) <- (x0, x3, x3)
    // => (x1, x2) <- (x3, x3)
    {
        let results = register_slice(0, 3);
        let inputs = &[provider_reg(0), provider_reg(3), provider_reg(3)];
        let actual = TrueCopies::analyze(&mut arena, results, inputs);
        let expected = TrueCopies::Many {
            results: register_slice(1, 2),
            inputs: arena.alloc_slice(&[provider_reg(3), provider_reg(3)]),
        };
        assert_true_copies_eq(&arena, actual, expected);
    }

    // Case: many true copies at the start
    //
    // (x0, x1, x2) <- (x2, x2, x2)
    // => (x0, x1) <- (x2, x2)
    {
        let results = register_slice(0, 3);
        let inputs = &[provider_reg(2), provider_reg(2), provider_reg(2)];
        let actual = TrueCopies::analyze(&mut arena, results, inputs);
        let expected = TrueCopies::Many {
            results: register_slice(0, 2),
            inputs: arena.alloc_slice(&[provider_reg(2), provider_reg(2)]),
        };
        assert_true_copies_eq(&arena, actual, expected);
    }

    // Case: many true copies at the middle
    //
    // (x0, x1, x2, x3) <- (x0, x3, x3, x3)
    // => (x1, x2) <- (x3, x3)
    {
        let results = register_slice(0, 4);
        let inputs = &[provider_reg(0), provider_reg(3), provider_reg(3), provider_reg(3)];
        let actual = TrueCopies::analyze(&mut arena, results, inputs);
        let expected = TrueCopies::Many {
            results: register_slice(1, 2),
            inputs: arena.alloc_slice(&[provider_reg(3), provider_reg(3)]),
        };
        assert_true_copies_eq(&arena, actual, expected);
    }

    // Case: many true copies at the middle with non-true copies
    //
    // (x0, x1, x2, x3, x4) <- (x0, x4, x2, x4, x4)
    // => (x1, x2, x3) <- (x4, x2, x4)
    {
        let results = register_slice(0, 5);
        let inputs = &[provider_reg(0), provider_reg(4), provider_reg(2), provider_reg(4), provider_reg(4)];
        let actual = TrueCopies::analyze(&mut arena, results, inputs);
        let expected = TrueCopies::Many {
            results: register_slice(1, 3),
            inputs: arena.alloc_slice(&[provider_reg(4), provider_reg(2), provider_reg(4)]),
        };
        assert_true_copies_eq(&arena, actual, expected);
    }
}

#[test]
fn copy_many_coalescing_strips_no_op_ends() {
    let mut arena = ProviderSliceArena::new();
    let results = IrRegisterSlice::new(IrRegister::Dynamic(0), 4);
    let inputs = [provider_reg(0), provider_reg(3), provider_reg(3), provider_reg(3)];
    match TrueCopies::analyze(&mut arena, results, &inputs) {
        TrueCopies::Many { results, inputs } => {
            assert_eq!(results, IrRegisterSlice::new(IrRegister::Dynamic(1), 2));
            assert_eq!(arena.resolve(inputs), &[provider_reg(3), provider_reg(3)]);
        }
        other => panic!("expected many copies, got {other:?}"),
    }
}

#[test]
fn copy_with_immediate_is_always_a_true_copy() {
    let mut arena = ProviderSliceArena::new();
    let results = IrRegisterSlice::new(IrRegister::Local(0), 2);
    let inputs = [IrProvider::Register(IrRegister::Local(0)), IrProvider::Immediate(7)];
    let actual = TrueCopies::analyze(&mut arena, results, &inputs);
    assert_eq!(actual, TrueCopies::Single { result: IrRegister::Local(1), input: IrProvider::Immediate(7) });
    assert_eq!(arena.len(), 0);
}

#[test]
fn analyze_slice_keeps_interior_no_ops() {
    let mut arena = ProviderSliceArena::new();
    let inputs = arena.alloc_slice(&[provider_reg(0), provider_reg(4), provider_reg(2), provider_reg(4), provider_reg(4)]);
    let results = register_slice(0, 5);
    match TrueCopies::analyze_slice(&mut arena, results, inputs) {
        TrueCopies::Many { results, inputs } => {
            assert_eq!(results, register_slice(1, 3));
            assert_eq!(arena.resolve(inputs), &[provider_reg(4), provider_reg(2), provider_reg(4)]);
        }
        other => panic!("expected many copies, got {other:?}"),
    }
}

#[test]
fn analyze_slice_of_no_copies_is_noop() {
    let mut arena = ProviderSliceArena::new();
    let inputs = arena.alloc_slice(&[provider_reg(3), provider_reg(4)]);
    let actual = TrueCopies::analyze_slice(&mut arena, register_slice(3, 2), inputs);
    assert_eq!(actual, TrueCopies::Noop);
}
