use niri_settings::message::Message;
use niri_settings::model::{
    OutputState, OutputTransform, OutputViewModel, Position, PositionOverlay, Size,
};
use niri_settings::update::output_update::{snap_position, SnapEdge};
use niri_settings::update::update_output;

fn output(name: &str, x: i32, y: i32, w: u32, h: u32, enabled: bool) -> OutputState {
    OutputState {
        name: name.to_string(),
        modes: Vec::new(),
        current_mode_index: None,
        scale_thousandths: 1000,
        transform: OutputTransform::Normal,
        position: Position::new(x, y),
        logical_size: Size::new(w, h),
        physical_size: Size::new(w, h),
        enabled,
        connected: true,
        configured: false,
        make: String::new(),
        model: String::new(),
    }
}

fn model(outputs: Vec<OutputState>) -> OutputViewModel {
    OutputViewModel { outputs, selected_index: 0, pending_changes: PositionOverlay::new() }
}

#[test]
fn snap_right_and_above_follow_the_formulas() {
    let at = Position::new(0, 0);
    let size = Size::new(1920, 1080);
    let mine = Size::new(1080, 1920);
    assert_eq!(snap_position(SnapEdge::Right, at, size, mine), Some(Position::new(1920, 0)));
    assert_eq!(snap_position(SnapEdge::Above, at, size, mine), Some(Position::new(420, -1920)));
    assert_eq!(snap_position(SnapEdge::Left, at, size, mine), Some(Position::new(-1080, 0)));
    assert_eq!(snap_position(SnapEdge::Below, at, size, mine), Some(Position::new(420, 1080)));
}

#[test]
fn snap_uses_the_first_other_enabled_output() {
    let mut vm = model(vec![
        output("A", 5, 5, 1080, 1920, true),
        output("B", 100, 100, 800, 600, false),
        output("C", 0, 0, 1920, 1080, true),
    ]);
    assert!(update_output(&mut vm, &Message::SnapRight).is_none());
    assert_eq!(vm.get_display_position("A"), Some(Position::new(1920, 0)));
    assert_eq!(vm.outputs[0].position, Position::new(5, 5));
    update_output(&mut vm, &Message::SnapAbove);
    assert_eq!(vm.get_display_position("A"), Some(Position::new(420, -1920)));
}

#[test]
fn snap_without_reference_changes_nothing() {
    let mut vm = model(vec![output("A", 5, 5, 1080, 1920, true), output("B", 0, 0, 800, 600, false)]);
    update_output(&mut vm, &Message::SnapLeft);
    assert!(!vm.has_pending_changes());
}

#[test]
fn normalize_moves_the_bounding_box_to_the_origin() {
    let mut vm = model(vec![
        output("A", 100, 50, 1920, 1080, true),
        output("B", -200, 10, 1920, 1080, true),
        output("C", -900, -900, 1920, 1080, false),
    ]);
    update_output(&mut vm, &Message::Normalize);
    assert_eq!(vm.get_display_position("A"), Some(Position::new(300, 40)));
    assert_eq!(vm.get_display_position("B"), Some(Position::new(0, 0)));
    assert_eq!(vm.get_display_position("C"), Some(Position::new(-900, -900)));
    assert_eq!(vm.pending_changes.get("C"), None);
    assert_eq!(vm.outputs[0].position, Position::new(100, 50));
}

#[test]
fn moves_chain_over_the_overlay() {
    let mut vm = model(vec![output("A", 10, 10, 100, 100, true)]);
    update_output(&mut vm, &Message::MoveOutput { dx: 10, dy: 0 });
    update_output(&mut vm, &Message::MoveOutput { dx: 10, dy: -5 });
    assert_eq!(vm.get_display_position("A"), Some(Position::new(30, 5)));
    update_output(&mut vm, &Message::MoveOutput { dx: i32::MAX, dy: 0 });
    assert_eq!(vm.get_display_position("A"), Some(Position::new(30, 5)));
    vm.clear_pending_changes();
    assert_eq!(vm.get_display_position("A"), Some(Position::new(10, 10)));
}

#[test]
fn selection_wraps_around() {
    let mut vm = model(vec![output("A", 0, 0, 1, 1, true), output("B", 0, 0, 1, 1, true)]);
    update_output(&mut vm, &Message::SelectNextOutput);
    assert_eq!(vm.selected_index, 1);
    update_output(&mut vm, &Message::SelectNextOutput);
    assert_eq!(vm.selected_index, 0);
    update_output(&mut vm, &Message::SelectPrevOutput);
    assert_eq!(vm.selected_index, 1);
    update_output(&mut vm, &Message::SelectOutput(7));
    assert_eq!(vm.selected_index, 1);
}
