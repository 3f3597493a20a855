use niri_settings::display::{parse_hex_color, split_words, wrap_text};
use niri_settings::message::Message;
use niri_settings::model::{
    KeybindingsViewModel, OutputState, OutputTransform, OutputViewModel, Position,
    PositionOverlay, Size,
};
use niri_settings::update::output_update::{bounding_box, get_reference_monitor};
use niri_settings::update::update_keybindings;

#[test]
fn colours_are_read_in_four_lengths() {
    assert_eq!(parse_hex_color("#fa0"), Some((255, 170, 0)));
    assert_eq!(parse_hex_color("#fa08"), Some((255, 170, 0)));
    assert_eq!(parse_hex_color("#7fc8ff"), Some((127, 200, 255)));
    assert_eq!(parse_hex_color("#7FC8FF80"), Some((127, 200, 255)));
    assert_eq!(parse_hex_color("0007"), Some((0, 0, 0)));
    assert_eq!(parse_hex_color("##123"), Some((17, 34, 51)));
    assert_eq!(parse_hex_color("#12"), None);
    assert_eq!(parse_hex_color("#12345"), None);
    assert_eq!(parse_hex_color("#gg0000"), None);
    assert_eq!(parse_hex_color("#+f+f+f"), Some((15, 15, 15)));
    assert_eq!(parse_hex_color("#+ff"), None);
    assert_eq!(parse_hex_color(""), None);
    assert_eq!(parse_hex_color("red"), None);
}

#[test]
fn text_is_wrapped_at_words() {
    assert_eq!(
        wrap_text("Gap size between windows in logical pixels", 16),
        vec!["Gap size between", "windows in", "logical pixels"]
    );
    assert_eq!(wrap_text("  one   two  ", 7), vec!["one two"]);
    assert_eq!(wrap_text("one two", 6), vec!["one", "two"]);
    assert_eq!(wrap_text("extraordinary", 4), vec!["extraordinary"]);
    assert!(wrap_text("   ", 10).is_empty());
    assert_eq!(wrap_text("a b", 0), vec!["a", "b"]);
    let words: Vec<String> = split_words(" a\tbc\n").into_iter().map(|w| w.into_iter().collect()).collect();
    assert_eq!(words, vec!["a", "bc"]);
}

fn output(name: &str, x: i32, y: i32, w: u32, h: u32, enabled: bool) -> OutputState {
    OutputState {
        name: name.to_string(),
        modes: Vec::new(),
        current_mode_index: None,
        scale_thousandths: 1000,
        transform: OutputTransform::Normal,
        position: Position::new(x, y),
        logical_size: Size::new(w, h),
        physical_size: Size::new(w, h),
        enabled,
        connected: true,
        configured: false,
        make: String::new(),
        model: String::new(),
    }
}

#[test]
fn the_bounding_box_covers_the_enabled_outputs() {
    let mut vm = OutputViewModel {
        outputs: vec![
            output("A", 100, 50, 1920, 1080, true),
            output("B", -200, 10, 1280, 720, true),
            output("C", -5000, -5000, 10, 10, false),
        ],
        selected_index: 0,
        pending_changes: PositionOverlay::new(),
    };
    assert_eq!(bounding_box(&vm), Some((-200, 10, 2020, 1130)));
    vm.apply_pending_change("B", Position::new(3000, 2000));
    assert_eq!(bounding_box(&vm), Some((100, 50, 4280, 2720)));
    assert_eq!(get_reference_monitor(&vm), Some((Position::new(3000, 2000), Size::new(1280, 720))));
    vm.selected_index = 1;
    assert_eq!(get_reference_monitor(&vm), Some((Position::new(100, 50), Size::new(1920, 1080))));
    vm.selected_index = 9;
    assert_eq!(get_reference_monitor(&vm), None);
    vm.outputs.clear();
    assert_eq!(bounding_box(&vm), None);
    assert_eq!(OutputViewModel::default().selected_output().map(|o| o.enabled), None);
}

#[test]
fn navigation_and_search_change_the_key_bindings_model() {
    let mut vm = KeybindingsViewModel::default();
    update_keybindings(&mut vm, &Message::StartSearch);
    assert!(vm.search_mode);
    vm.selected_index = 3;
    vm.scroll_offset = 2;
    update_keybindings(&mut vm, &Message::UpdateSearch("abc".to_string()));
    assert_eq!(vm.search_query, "abc");
    assert_eq!((vm.selected_index, vm.scroll_offset), (0, 0));
    update_keybindings(&mut vm, &Message::SelectKeybinding(4));
    assert_eq!(vm.selected_index, 0);
    update_keybindings(&mut vm, &Message::SelectNextKeybinding);
    update_keybindings(&mut vm, &Message::SelectPrevKeybinding);
    assert_eq!(vm.selected_index, 0);
    update_keybindings(&mut vm, &Message::ClearSearch);
    assert!(!vm.search_mode);
    assert_eq!(vm.search_query, "");
    update_keybindings(&mut vm, &Message::Quit);
    vm.selected_index = 12;
    vm.update_scroll(5);
    assert_eq!(vm.scroll_offset, 8);
    vm.selected_index = 2;
    vm.update_scroll(5);
    assert_eq!(vm.scroll_offset, 2);
    vm.update_scroll(0);
    assert_eq!(vm.scroll_offset, 2);
}
