//! Control flow frames of the translation: `block`, `loop`, `if` and frames
//! whose code cannot be reached.

use vstd::prelude::*;
use crate::labels::LabelRef;
use crate::registers::IrRegisterSlice;

verus! {

/// The type of a Wasm block: how many values it takes and how many it yields.
#[derive(Debug, Copy, Clone, PartialEq, Eq, Structural)]
pub struct BlockType {
    pub len_params: u32,
    pub len_results: u32,
}

/// A checkpoint of the provider stack: its height when the checkpoint was taken.
#[derive(Debug, Copy, Clone, PartialEq, Eq, Structural)]
pub struct StackCheckpoint(pub u32);

/// A Wasm `block` control flow frame.
#[derive(Debug, Copy, Clone, PartialEq, Eq, Structural)]
pub struct BlockControlFrame {
    /// The type of the [`BlockControlFrame`].
    pub block_type: BlockType,
    /// The value stack height upon entering the [`BlockControlFrame`].
    pub stack_height: u32,
    /// The registers holding the results of the [`BlockControlFrame`].
    pub results: IrRegisterSlice,
    /// Label representing the end of the [`BlockControlFrame`].
    pub end_label: LabelRef,
}

impl BlockControlFrame {
    /// Creates a new [`BlockControlFrame`].
    pub fn new(results: IrRegisterSlice, block_type: BlockType, end_label: LabelRef, stack_height: u32) -> (r: Self)
        ensures
            r == (BlockControlFrame { block_type, stack_height, results, end_label }),
    {
        Self { block_type, stack_height, results, end_label }
    }

    /// Returns the registers that receive the results of a branch to the frame.
    pub fn branch_results(&self) -> (r: IrRegisterSlice)
        ensures
            r == self.results,
    {
        self.results
    }

    /// Returns the registers that receive the results at the end of the frame.
    pub fn end_results(&self) -> (r: IrRegisterSlice)
        ensures
            r == self.results,
    {
        self.results
    }

    /// Returns the label that branches to the frame jump to: its end.
    pub fn branch_destination(&self) -> (r: LabelRef)
        ensures
            r == self.end_label,
    {
        self.end_label
    }

    /// Returns the label to the end of the [`BlockControlFrame`].
    pub fn end_label(&self) -> (r: LabelRef)
        ensures
            r == self.end_label,
    {
        self.end_label
    }

    /// Returns the value stack height upon entering the [`BlockControlFrame`].
    pub fn stack_height(&self) -> (r: u32)
        ensures
            r == self.stack_height,
    {
        self.stack_height
    }

    /// Returns the [`BlockType`] of the [`BlockControlFrame`].
    pub fn block_type(&self) -> (r: BlockType)
        ensures
            r == self.block_type,
    {
        self.block_type
    }
}

/// A Wasm `loop` control flow frame.
#[derive(Debug, Copy, Clone, PartialEq, Eq, Structural)]
pub struct LoopControlFrame {
    /// The type of the [`LoopControlFrame`].
    pub block_type: BlockType,
    /// The value stack height upon entering the [`LoopControlFrame`].
    pub stack_height: u32,
    /// The registers that receive the values of a branch to the loop head.
    pub branch_results: IrRegisterSlice,
    /// The registers holding the results at the end of the loop.
    pub end_results: IrRegisterSlice,
    /// Label representing the head of the [`LoopControlFrame`].
    pub head_label: LabelRef,
}

impl LoopControlFrame {
    /// Creates a new [`LoopControlFrame`].
    pub fn new(
        branch_results: IrRegisterSlice,
        end_results: IrRegisterSlice,
        block_type: BlockType,
        head_label: LabelRef,
        stack_height: u32,
    ) -> (r: Self)
        ensures
            r == (LoopControlFrame { block_type, stack_height, branch_results, end_results, head_label }),
    {
        Self { block_type, stack_height, branch_results, end_results, head_label }
    }

    /// Returns the registers that receive the values of a branch to the loop head.
    pub fn branch_results(&self) -> (r: IrRegisterSlice)
        ensures
            r == self.branch_results,
    {
        self.branch_results
    }

    /// Returns the registers holding the results at the end of the loop.
    pub fn end_results(&self) -> (r: IrRegisterSlice)
        ensures
            r == self.end_results,
    {
        self.end_results
    }

    /// Returns the label that branches to the loop jump to: its head.
    pub fn branch_destination(&self) -> (r: LabelRef)
        ensures
            r == self.head_label,
    {
        self.head_label
    }

    /// Returns the value stack height upon entering the [`LoopControlFrame`].
    pub fn stack_height(&self) -> (r: u32)
        ensures
            r == self.stack_height,
    {
        self.stack_height
    }

    /// Returns the [`BlockType`] of the [`LoopControlFrame`].
    pub fn block_type(&self) -> (r: BlockType)
        ensures
            r == self.block_type,
    {
        self.block_type
    }
}

/// The reachability of the `if` control flow frame when both arms can be reached.
#[derive(Debug, Copy, Clone, PartialEq, Eq, Structural)]
pub struct IfReachabilityBoth {
    /// Label representing the optional `else` branch of the [`IfControlFrame`].
    pub else_label: LabelRef,
    /// Whether the end of the `then` branch is reachable: `None` until the
    /// `else` or the `end` of the `if` is reached.
    pub end_of_then_is_reachable: Option<bool>,
    /// The provider stack at the `if`, restored for the `else` arm.
    pub else_checkpoint: StackCheckpoint,
}

impl IfReachabilityBoth {
    /// Returns the `else` checkpoint in the provider stack.
    pub fn else_checkpoint(&self) -> (r: StackCheckpoint)
        ensures
            r == self.else_checkpoint,
    {
        self.else_checkpoint
    }

    /// Returns the label to the optional `else` of the [`IfControlFrame`].
    pub fn else_label(&self) -> (r: LabelRef)
        ensures
            r == self.else_label,
    {
        self.else_label
    }

    /// Records whether the end of the `then` branch is reachable.
    ///
    /// This is done once, when the `else` or the `end` of the `if` is reached.
    pub fn update_end_of_then_reachability(&mut self, reachable: bool)
        requires
            old(self).end_of_then_is_reachable.is_none(),
        ensures
            *final(self) == (IfReachabilityBoth { end_of_then_is_reachable: Some(reachable), ..*old(self) }),
    {
        self.end_of_then_is_reachable = Some(reachable);
    }

    /// Returns `true` if the `else` block has been visited.
    pub fn visited_else(&self) -> (r: bool)
        ensures
            r == self.end_of_then_is_reachable.is_some(),
    {
        self.end_of_then_is_reachable.is_some()
    }
}

/// The reachability of the `if` control flow frame.
#[derive(Debug, Copy, Clone, PartialEq, Eq, Structural)]
pub enum IfReachability {
    /// Both, `then` and `else` blocks of the `if` are reachable.
    Both(IfReachabilityBoth),
    /// Only the `then` block of the `if` is reachable: the condition is a true constant.
    OnlyThen,
    /// Only the `else` block of the `if` is reachable: the condition is a false constant.
    OnlyElse,
}

impl IfReachability {
    /// Both arms are reachable; the end of `then` is not known yet.
    pub fn both(else_label: LabelRef, else_checkpoint: StackCheckpoint) -> (r: Self)
        ensures
            r == IfReachability::Both(IfReachabilityBoth { else_label, end_of_then_is_reachable: None, else_checkpoint }),
    {
        IfReachability::Both(IfReachabilityBoth { else_label, end_of_then_is_reachable: None, else_checkpoint })
    }
}

/// A Wasm `if` and `else` control flow frames.
#[derive(Debug, Copy, Clone, PartialEq, Eq, Structural)]
pub struct IfControlFrame {
    /// The type of the [`IfControlFrame`].
    pub block_type: BlockType,
    /// The provider stack height upon entering the [`IfControlFrame`].
    pub stack_height: u32,
    /// The registers holding the results of the [`IfControlFrame`].
    pub results: IrRegisterSlice,
    /// Label representing the end of the [`IfControlFrame`].
    pub end_label: LabelRef,
    /// The reachability of the `if` and its `then` and `else` blocks.
    pub reachability: IfReachability,
}

impl IfControlFrame {
    /// Creates a new [`IfControlFrame`]; with both arms reachable the `else`
    /// label differs from the end label.
    pub fn new(
        results: IrRegisterSlice,
        block_type: BlockType,
        end_label: LabelRef,
        stack_height: u32,
        reachability: IfReachability,
    ) -> (r: Self)
        requires
            reachability matches IfReachability::Both(info) ==> info.else_label != end_label,
        ensures
            r == (IfControlFrame { block_type, stack_height, results, end_label, reachability }),
    {
        Self { block_type, stack_height, results, end_label, reachability }
    }

    /// Returns the registers that receive the results of a branch to the frame.
    pub fn branch_results(&self) -> (r: IrRegisterSlice)
        ensures
            r == self.results,
    {
        self.results
    }

    /// Returns the registers that receive the results at the end of the frame.
    pub fn end_results(&self) -> (r: IrRegisterSlice)
        ensures
            r == self.results,
    {
        self.results
    }

    /// Returns the label that branches to the frame jump to: the end of `if` and `else`.
    pub fn branch_destination(&self) -> (r: LabelRef)
        ensures
            r == self.end_label,
    {
        self.end_label
    }

    /// Returns the label to the end of the [`IfControlFrame`].
    pub fn end_label(&self) -> (r: LabelRef)
        ensures
            r == self.end_label,
    {
        self.end_label
    }

    /// Returns the label to the `else` block, which exists where both arms are reachable.
    pub fn else_label(&self) -> (r: Option<LabelRef>)
        ensures
            r == (match self.reachability {
                IfReachability::Both(info) => Some(info.else_label),
                _ => None,
            }),
    {
        if let IfReachability::Both(info) = self.reachability {
            return Some(info.else_label);
        }
        None
    }

    /// Returns the value stack height upon entering the [`IfControlFrame`].
    pub fn stack_height(&self) -> (r: u32)
        ensures
            r == self.stack_height,
    {
        self.stack_height
    }

    /// Returns the [`BlockType`] of the [`IfControlFrame`].
    pub fn block_type(&self) -> (r: BlockType)
        ensures
            r == self.block_type,
    {
        self.block_type
    }

    /// Records whether the end of the `then` branch is reachable, where both
    /// arms are reachable; it is recorded once.
    pub fn update_end_of_then_reachability(&mut self, reachable: bool)
        requires
            old(self).reachability matches IfReachability::Both(info) ==> info.end_of_then_is_reachable.is_none(),
        ensures
            *final(self) == (IfControlFrame {
                reachability: match old(self).reachability {
                    IfReachability::Both(info) => IfReachability::Both(
                        IfReachabilityBoth { end_of_then_is_reachable: Some(reachable), ..info },
                    ),
                    other => other,
                },
                ..*old(self)
            }),
    {
        if let IfReachability::Both(info) = &mut self.reachability {
            info.update_end_of_then_reachability(reachable)
        }
    }

    /// Returns `true` if the `else` block has been visited.
    pub fn visited_else(&self) -> (r: bool)
        ensures
            r == (match self.reachability {
                IfReachability::Both(info) => info.end_of_then_is_reachable.is_some(),
                _ => true,
            }),
    {
        match self.reachability {
            IfReachability::Both(info) => info.visited_else(),
            IfReachability::OnlyThen | IfReachability::OnlyElse => true,
        }
    }

    /// Returns `true` if the `then` block is known to be reachable.
    pub fn is_then_reachable(&self) -> (r: bool)
        ensures
            r == !(self.reachability is OnlyElse),
    {
        match self.reachability {
            IfReachability::Both(_) | IfReachability::OnlyThen => true,
            IfReachability::OnlyElse => false,
        }
    }

    /// Returns `true` if the `else` block is known to be reachable.
    pub fn is_else_reachable(&self) -> (r: bool)
        ensures
            r == !(self.reachability is OnlyThen),
    {
        match self.reachability {
            IfReachability::Both(_) | IfReachability::OnlyElse => true,
            IfReachability::OnlyThen => false,
        }
    }
}

/// The kind of a control flow frame.
#[derive(Debug, Copy, Clone, PartialEq, Eq, Structural)]
pub enum ControlFrameKind {
    /// A basic `block` control flow frame.
    Block,
    /// A `loop` control flow frame.
    Loop,
    /// An `if` and `else` block control flow frame.
    If,
}

/// An unreachable control flow frame of any kind.
#[derive(Debug, Copy, Clone, PartialEq, Eq, Structural)]
pub struct UnreachableControlFrame {
    /// The non-SSA input and output types of the unreachable control frame.
    pub block_type: BlockType,
    /// The kind of the unreachable control flow frame.
    pub kind: ControlFrameKind,
}

impl UnreachableControlFrame {
    /// Creates a new [`UnreachableControlFrame`] with the given type and kind.
    pub fn new(kind: ControlFrameKind, block_type: BlockType) -> (r: Self)
        ensures
            r == (UnreachableControlFrame { block_type, kind }),
    {
        Self { block_type, kind }
    }

    /// Returns the [`ControlFrameKind`] of the [`UnreachableControlFrame`].
    pub fn kind(&self) -> (r: ControlFrameKind)
        ensures
            r == self.kind,
    {
        self.kind
    }

    /// Returns the [`BlockType`] of the [`UnreachableControlFrame`].
    pub fn block_type(&self) -> (r: BlockType)
        ensures
            r == self.block_type,
    {
        self.block_type
    }
}

/// A control flow frame.
#[derive(Debug, Copy, Clone, PartialEq, Eq, Structural)]
pub enum ControlFrame {
    /// Basic block control frame.
    Block(BlockControlFrame),
    /// Loop control frame.
    Loop(LoopControlFrame),
    /// If and else control frame.
    If(IfControlFrame),
    /// An unreachable control frame.
    Unreachable(UnreachableControlFrame),
}

impl ControlFrame {
    /// The label that branches to a reachable frame jump to.
    pub open spec fn spec_branch_destination(self) -> LabelRef {
        match self {
            ControlFrame::Block(frame) => frame.end_label,
            ControlFrame::Loop(frame) => frame.head_label,
            ControlFrame::If(frame) => frame.end_label,
            ControlFrame::Unreachable(_) => LabelRef(0),
        }
    }

    /// Returns the label for the branch destination of a reachable frame.
    pub fn branch_destination(&self) -> (r: LabelRef)
        requires
            !(*self is Unreachable),
        ensures
            r == self.spec_branch_destination(),
    {
        match self {
            ControlFrame::Block(frame) => frame.branch_destination(),
            ControlFrame::Loop(frame) => frame.branch_destination(),
            ControlFrame::If(frame) => frame.branch_destination(),
            ControlFrame::Unreachable(_) => LabelRef(0),
        }
    }

    /// Returns the value stack height upon entering the control flow frame, if it is reachable.
    pub fn stack_height(&self) -> (r: Option<u32>)
        ensures
            r == (match *self {
                ControlFrame::Block(frame) => Some(frame.stack_height),
                ControlFrame::Loop(frame) => Some(frame.stack_height),
                ControlFrame::If(frame) => Some(frame.stack_height),
                ControlFrame::Unreachable(_) => None,
            }),
    {
        match self {
            ControlFrame::Block(frame) => Some(frame.stack_height()),
            ControlFrame::Loop(frame) => Some(frame.stack_height()),
            ControlFrame::If(frame) => Some(frame.stack_height()),
            ControlFrame::Unreachable(_) => None,
        }
    }

    /// Returns the [`BlockType`] of the control flow frame.
    pub fn block_type(&self) -> (r: BlockType)
        ensures
            r == (match *self {
                ControlFrame::Block(frame) => frame.block_type,
                ControlFrame::Loop(frame) => frame.block_type,
                ControlFrame::If(frame) => frame.block_type,
                ControlFrame::Unreachable(frame) => frame.block_type,
            }),
    {
        match self {
            ControlFrame::Block(frame) => frame.block_type(),
            ControlFrame::Loop(frame) => frame.block_type(),
            ControlFrame::If(frame) => frame.block_type(),
            ControlFrame::Unreachable(frame) => frame.block_type(),
        }
    }

    /// Returns the registers that receive the results of a branch to a reachable frame.
    pub fn branch_results(&self) -> (r: IrRegisterSlice)
        requires
            !(*self is Unreachable),
        ensures
            r == (match *self {
                ControlFrame::Block(frame) => frame.results,
                ControlFrame::Loop(frame) => frame.branch_results,
                ControlFrame::If(frame) => frame.results,
                ControlFrame::Unreachable(_) => IrRegisterSlice::empty_spec(),
            }),
    {
        match self {
            ControlFrame::Block(frame) => frame.branch_results(),
            ControlFrame::Loop(frame) => frame.branch_results(),
            ControlFrame::If(frame) => frame.branch_results(),
            ControlFrame::Unreachable(_) => IrRegisterSlice::empty(),
        }
    }
}

impl From<BlockControlFrame> for ControlFrame {
    fn from(frame: BlockControlFrame) -> (r: Self)
        ensures
            r == ControlFrame::Block(frame),
    {
        ControlFrame::Block(frame)
    }
}

impl vstd::std_specs::convert::FromSpecImpl<BlockControlFrame> for ControlFrame {
    open spec fn obeys_from_spec() -> bool {
        true
    }

    open spec fn from_spec(frame: BlockControlFrame) -> Self {
        ControlFrame::Block(frame)
    }
}

impl From<LoopControlFrame> for ControlFrame {
    fn from(frame: LoopControlFrame) -> (r: Self)
        ensures
            r == ControlFrame::Loop(frame),
    {
        ControlFrame::Loop(frame)
    }
}

impl vstd::std_specs::convert::FromSpecImpl<LoopControlFrame> for ControlFrame {
    open spec fn obeys_from_spec() -> bool {
        true
    }

    open spec fn from_spec(frame: LoopControlFrame) -> Self {
        ControlFrame::Loop(frame)
    }
}

impl From<IfControlFrame> for ControlFrame {
    fn from(frame: IfControlFrame) -> (r: Self)
        ensures
            r == ControlFrame::If(frame),
    {
        ControlFrame::If(frame)
    }
}

impl vstd::std_specs::convert::FromSpecImpl<IfControlFrame> for ControlFrame {
    open spec fn obeys_from_spec() -> bool {
        true
    }

    open spec fn from_spec(frame: IfControlFrame) -> Self {
        ControlFrame::If(frame)
    }
}

impl From<UnreachableControlFrame> for ControlFrame {
    fn from(frame: UnreachableControlFrame) -> (r: Self)
        ensures
            r == ControlFrame::Unreachable(frame),
    {
        ControlFrame::Unreachable(frame)
    }
}

impl vstd::std_specs::convert::FromSpecImpl<UnreachableControlFrame> for ControlFrame {
    open spec fn obeys_from_spec() -> bool {
        true
    }

    open spec fn from_spec(frame: UnreachableControlFrame) -> Self {
        ControlFrame::Unreachable(frame)
    }
}

} // verus!
