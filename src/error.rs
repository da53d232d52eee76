//! Errors of the translation and of the execution.

use vstd::prelude::*;

verus! {

/// An error detected while turning IR into executable bytecode.
///
/// These signal a resource of the compact bytecode encoding that ran out, or
/// an IR that breaks the invariants that the translator guarantees.
#[derive(Debug, Copy, Clone, PartialEq, Eq, Structural)]
pub enum TranslationError {
    /// The constant pool cannot hold more constants.
    ConstPoolOverflow,
    /// The provider-slice arena cannot hold more providers.
    ProviderSliceOverflow,
    /// The code map cannot hold more function bodies.
    FuncBodyOverflow,
    /// The label has already been pinned.
    LabelAlreadyPinned,
    /// A label was used that was never pinned.
    UnpinnedLabel,
    /// A label, register or slice lies outside of what the context provides.
    InvalidReference,
    /// The operators do not form a well-typed, well-nested function body.
    MalformedInput,
    /// The function body exceeds what the bytecode encoding can address.
    LimitExceeded,
}

/// The reason for a trap during execution.
#[derive(Debug, Copy, Clone, PartialEq, Eq, Structural)]
pub enum TrapCode {
    Unreachable,
    MemoryAccessOutOfBounds,
    TableAccessOutOfBounds,
    ElemUninitialized,
    DivisionByZero,
    IntegerOverflow,
    InvalidConversionToInt,
    StackOverflow,
    UnexpectedSignature,
}

} // verus!
