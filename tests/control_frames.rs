use wasmi_regmach::control_frame::{
    BlockControlFrame, BlockType, ControlFrame, ControlFrameKind, IfControlFrame, IfReachability, LoopControlFrame,
    StackCheckpoint, UnreachableControlFrame,
};
use wasmi_regmach::labels::LabelRef;
use wasmi_regmach::registers::{IrRegister, IrRegisterSlice};

fn ty(p: u32, r: u32) -> BlockType {
    BlockType { len_params: p, len_results: r }
}

#[test]
fn block_frame_branches_to_its_end() {
    let results = IrRegisterSlice::new(IrRegister::Dynamic(2), 1);
    let frame = BlockControlFrame::new(results, ty(0, 1), LabelRef(4), 3);
    assert_eq!(frame.branch_destination(), LabelRef(4));
    assert_eq!(frame.end_label(), LabelRef(4));
    assert_eq!(frame.branch_results(), results);
    assert_eq!(frame.end_results(), results);
    assert_eq!(frame.stack_height(), 3);
    assert_eq!(frame.block_type(), ty(0, 1));
    let frame: ControlFrame = frame.into();
    assert_eq!(frame.stack_height(), Some(3));
    assert_eq!(frame.branch_destination(), LabelRef(4));
}

#[test]
fn loop_frame_branches_to_its_head() {
    let params = IrRegisterSlice::new(IrRegister::Dynamic(0), 2);
    let results = IrRegisterSlice::new(IrRegister::Dynamic(2), 1);
    let frame = LoopControlFrame::new(params, results, ty(2, 1), LabelRef(1), 0);
    assert_eq!(frame.branch_destination(), LabelRef(1));
    assert_eq!(frame.branch_results(), params);
    assert_eq!(frame.end_results(), results);
    assert_eq!(frame.stack_height(), 0);
    assert_eq!(frame.block_type(), ty(2, 1));
    assert_eq!(ControlFrame::from(frame).branch_results(), params);
}

#[test]
fn if_frame_tracks_reachability() {
    let results = IrRegisterSlice::empty();
    let reach = IfReachability::both(LabelRef(2), StackCheckpoint(5));
    let mut frame = IfControlFrame::new(results, ty(0, 0), LabelRef(1), 5, reach);
    assert_eq!(frame.else_label(), Some(LabelRef(2)));
    assert!(!frame.visited_else());
    assert!(frame.is_then_reachable() && frame.is_else_reachable());
    frame.update_end_of_then_reachability(false);
    assert!(frame.visited_else());
    match frame.reachability {
        IfReachability::Both(info) => {
            assert_eq!(info.end_of_then_is_reachable, Some(false));
            assert_eq!(info.else_checkpoint(), StackCheckpoint(5));
            assert_eq!(info.else_label(), LabelRef(2));
        }
        other => panic!("expected both arms, got {other:?}"),
    }
    let only_then = IfControlFrame::new(results, ty(0, 0), LabelRef(1), 5, IfReachability::OnlyThen);
    assert_eq!(only_then.else_label(), None);
    assert!(only_then.visited_else());
    assert!(only_then.is_then_reachable() && !only_then.is_else_reachable());
    assert_eq!(only_then.branch_destination(), LabelRef(1));
}

#[test]
fn unreachable_frame_has_no_height() {
    let frame = UnreachableControlFrame::new(ControlFrameKind::Loop, ty(1, 1));
    assert_eq!(frame.kind(), ControlFrameKind::Loop);
    assert_eq!(frame.block_type(), ty(1, 1));
    let frame = ControlFrame::from(frame);
    assert_eq!(frame.stack_height(), None);
    assert_eq!(frame.block_type(), ty(1, 1));
}
