use niri_settings::model::{
    ActionType, AppearanceEditMode, AppearanceField, BindingAction, BindingArg,
    BindingProperties, ColorEditField, ColorEditState, ColorValue, EditField, EditMode,
    Keybinding, Modifiers,
};
use niri_settings::text::{split, trim};

fn mode(kind: ActionType, combo: &str, value: &str) -> EditMode {
    let mut edit = EditMode::new_binding();
    edit.key_combo = combo.to_string();
    edit.action_type = kind;
    edit.action_value = value.to_string();
    edit
}

#[test]
fn built_in_actions_take_one_typed_argument() {
    let built = |value: &str| mode(ActionType::BuiltIn, "Mod+X", value).build_action();
    assert_eq!(built("close-window"), Some(BindingAction::Simple("close-window".to_string())));
    assert_eq!(
        built("  focus-workspace   12 "),
        Some(BindingAction::WithArg("focus-workspace".to_string(), BindingArg::Number(12)))
    );
    assert_eq!(
        built("fullscreen true"),
        Some(BindingAction::WithArg("fullscreen".to_string(), BindingArg::Bool(true)))
    );
    assert_eq!(
        built("fullscreen false"),
        Some(BindingAction::WithArg("fullscreen".to_string(), BindingArg::Bool(false)))
    );
    assert_eq!(
        built("set-column-width 50%"),
        Some(BindingAction::WithArg(
            "set-column-width".to_string(),
            BindingArg::String("50%".to_string())
        ))
    );
    assert_eq!(built("   "), None);
    assert_eq!(mode(ActionType::Spawn, "Mod+X", "\"\"").build_action(), None);
    assert_eq!(
        mode(ActionType::SpawnSh, "Mod+X", " a | b ").build_action(),
        Some(BindingAction::SpawnSh("a | b".to_string()))
    );
}

#[test]
fn the_dialog_becomes_a_binding() {
    let mut edit = mode(ActionType::Spawn, "ctrl+ALT+Delete", "systemctl  poweroff");
    edit.toggle_repeat();
    edit.toggle_allow_when_locked();
    let binding = edit.to_keybinding().unwrap();
    assert_eq!(
        binding.modifiers,
        Modifiers { mod_key: false, ctrl: true, shift: false, alt: true }
    );
    assert_eq!(binding.key, "Delete");
    assert_eq!(
        binding.properties,
        BindingProperties { repeat: Some(false), cooldown_ms: None, allow_when_locked: Some(true) }
    );
    assert_eq!(
        binding.action,
        BindingAction::Spawn(vec!["systemctl".to_string(), "poweroff".to_string()])
    );
    assert_eq!(binding.kdl_index, None);
    assert_eq!(binding.combo(), "Ctrl+Alt+Delete");
    assert!(binding.properties.has_custom_properties());
    assert!(mode(ActionType::Spawn, "", "x").to_keybinding().is_none());
    assert!(mode(ActionType::Spawn, "Mod+X", "").to_keybinding().is_none());

    let again = EditMode::from_binding(4, &binding);
    assert_eq!(again.original_index, 4);
    assert!(!again.is_new);
    assert_eq!(again.key_combo, "Ctrl+Alt+Delete");
    assert_eq!(again.key_combo_cursor, 15);
    assert_eq!(again.action_type, ActionType::Spawn);
    assert_eq!(again.action_value, "systemctl poweroff");
    assert_eq!(again.repeat, Some(false));
}

#[test]
fn toggles_and_cycles_step_through_their_values() {
    let mut edit = EditMode::new_binding();
    assert_eq!(edit.repeat, None);
    edit.toggle_repeat();
    assert_eq!(edit.repeat, Some(false));
    edit.toggle_repeat();
    assert_eq!(edit.repeat, Some(true));
    edit.toggle_repeat();
    assert_eq!(edit.repeat, None);
    edit.toggle_allow_when_locked();
    edit.toggle_allow_when_locked();
    assert_eq!(edit.allow_when_locked, Some(false));
    edit.next_action_type();
    assert_eq!(edit.action_type, ActionType::SpawnSh);
    edit.prev_action_type();
    edit.prev_action_type();
    assert_eq!(edit.action_type, ActionType::BuiltIn);
    assert_eq!(ActionType::BuiltIn.label(), "Built-in Action");
    let mut field = EditField::KeyCombo;
    for _ in 0..5 {
        assert_eq!(field.next().prev(), field);
        field = field.next();
    }
    assert_eq!(field, EditField::KeyCombo);
    assert_eq!(EditField::KeyCombo.prev(), EditField::AllowWhenLocked);
}

#[test]
fn the_cursor_edits_the_focused_text() {
    let mut edit = EditMode::new_binding();
    for c in "Mod+T".chars() {
        edit.insert_char(c);
    }
    edit.cursor_left();
    edit.cursor_left();
    edit.insert_char('é');
    assert_eq!(edit.key_combo, "Modé+T");
    assert_eq!(edit.key_combo_cursor, 4);
    edit.delete_char();
    assert_eq!(edit.key_combo, "Mod+T");
    edit.cursor_home();
    edit.delete_char();
    assert_eq!(edit.key_combo, "Mod+T");
    assert_eq!(edit.key_combo_cursor, 0);
    edit.cursor_end();
    edit.cursor_right();
    assert_eq!(edit.key_combo_cursor, 5);
    edit.focused_field = EditField::Repeat;
    edit.insert_char('x');
    assert_eq!(edit.key_combo, "Mod+T");
    assert_eq!(edit.action_value, "");
    edit.focused_field = EditField::ActionValue;
    edit.action_value_cursor = 99;
    edit.insert_char('q');
    assert_eq!(edit.action_value, "q");
    assert_eq!(edit.action_value_cursor, 1);
}

#[test]
fn actions_are_described_and_grouped() {
    let spawn = BindingAction::Spawn(vec!["/usr/bin/alacritty".to_string(), "-e".to_string()]);
    assert_eq!(spawn.short_description(), "alacritty ...");
    assert_eq!(spawn.to_string(), "spawn \"/usr/bin/alacritty -e\"");
    assert_eq!(spawn.category(), "Program Execution");
    assert_eq!(BindingAction::Spawn(vec!["fuzzel".to_string()]).short_description(), "fuzzel");
    assert_eq!(BindingAction::Spawn(vec![]).short_description(), "spawn");
    let shell = BindingAction::SpawnSh("wpctl set-volume @DEFAULT_AUDIO_SINK@ 0.1+".to_string());
    assert_eq!(shell.short_description(), "wpctl set-volume @DE...");
    assert_eq!(BindingAction::SpawnSh("ls".to_string()).short_description(), "ls");
    assert_eq!(BindingAction::SpawnSh("ls".to_string()).to_string(), "spawn-sh \"ls\"");
    let with = BindingAction::WithArg("focus-workspace".to_string(), BindingArg::Number(-2));
    assert_eq!(with.short_description(), "focus-workspace -2");
    assert_eq!(with.category(), "Focus");
    let group = |name: &str| BindingAction::Simple(name.to_string()).category();
    assert_eq!(group("quit"), "Window Management");
    assert_eq!(group("move-column-left"), "Movement");
    assert_eq!(group("set-column-width"), "Layout");
    assert_eq!(group("switch-preset-column-width"), "Workspace");
    assert_eq!(group("consume-window-into-column"), "Column");
    assert_eq!(group("expel-window-from-column"), "Column");
    assert_eq!(group("screenshot-window"), "Screenshot");
    assert_eq!(group("toggle-overview"), "Other");
    assert_eq!(BindingArg::Bool(true).to_string(), "true");
    assert_eq!(BindingArg::String("50%".to_string()).to_string(), "50%");
}

#[test]
fn bindings_match_a_search_in_any_case() {
    let binding = Keybinding {
        modifiers: Modifiers { mod_key: true, ctrl: false, shift: true, alt: false },
        key: "T".to_string(),
        properties: BindingProperties::default(),
        action: BindingAction::Spawn(vec!["/usr/bin/Alacritty".to_string()]),
        kdl_index: None,
    };
    assert!(binding.matches_search("SHIFT+t"));
    assert!(binding.matches_search("alac"));
    assert!(binding.matches_search(""));
    assert!(!binding.matches_search("/usr"));
    assert!(!binding.properties.has_custom_properties());
    assert_eq!(Modifiers::default().to_string(), "");
    assert_eq!(
        Modifiers { mod_key: true, ctrl: true, shift: true, alt: true }.to_string(),
        "Mod+Ctrl+Shift+Alt"
    );
    let (mods, key) = Modifiers::parse("SUPER+Control+x+");
    assert!(mods.mod_key && mods.ctrl && !mods.shift);
    assert_eq!(key, "");
}

#[test]
fn text_is_split_and_trimmed() {
    assert_eq!(split("a+b++c", '+'), vec!["a", "b", "", "c"]);
    assert_eq!(split("", '+'), vec![""]);
    assert_eq!(trim(" \t a b \n"), "a b");
    assert_eq!(trim("   "), "");
    assert_eq!(trim("\u{2003}x\u{a0}"), "x");
}

#[test]
fn the_colour_editor_switches_between_solid_and_gradient() {
    let mut state = ColorEditState::from_solid("#ff0000");
    assert!(!state.is_gradient);
    assert_eq!(state.solid_cursor, 7);
    assert_eq!(state.to_color_value(), Some(ColorValue::Solid("#ff0000".to_string())));
    state.toggle_type();
    assert!(state.is_gradient);
    assert_eq!(state.focused_field, ColorEditField::GradientFrom);
    assert_eq!(state.gradient_from, "#ff0000");
    assert_eq!(state.gradient_from_cursor, 7);
    assert_eq!(state.to_color_value(), None);
    state.focused_field = state.focused_field.next_for_mode(true);
    for c in "#00ff00".chars() {
        state.insert_char(c);
    }
    state.focused_field = ColorEditField::GradientAngle;
    for c in "45x".chars() {
        state.insert_char(c);
    }
    assert_eq!(
        state.to_color_value(),
        Some(ColorValue::Gradient {
            from: "#ff0000".to_string(),
            to: "#00ff00".to_string(),
            angle: None,
            relative_to: None,
            color_space: None,
        })
    );
    state.delete_char();
    state.cycle_relative_to();
    assert_eq!(
        state.to_color_value(),
        Some(ColorValue::Gradient {
            from: "#ff0000".to_string(),
            to: "#00ff00".to_string(),
            angle: Some(45),
            relative_to: Some("workspace-view".to_string()),
            color_space: None,
        })
    );
    state.cycle_relative_to();
    assert_eq!(state.gradient_relative_to, "window");
    state.cursor_left();
    state.cursor_left();
    state.cursor_left();
    assert_eq!(state.gradient_angle_cursor, 0);
    state.cursor_right();
    assert_eq!(state.gradient_angle_cursor, 1);
    state.toggle_type();
    assert_eq!(state.focused_field, ColorEditField::SolidColor);
    assert_eq!(state.solid_color, "#ff0000");

    let from = ColorEditState::from_gradient("#1", "#2", Some(-90), Some("workspace-view"));
    assert_eq!(from.gradient_angle, "-90");
    assert_eq!(from.gradient_angle_cursor, 3);
    assert_eq!(from.gradient_relative_to, "workspace-view");
    assert_eq!(ColorEditState::from_gradient("#1", "#2", None, None).gradient_relative_to, "window");
}

#[test]
fn colour_fields_cycle_within_their_mode() {
    assert_eq!(ColorEditField::ColorType.next(), ColorEditField::SolidColor);
    assert_eq!(ColorEditField::GradientRelativeTo.next(), ColorEditField::GradientFrom);
    assert_eq!(ColorEditField::GradientFrom.prev(), ColorEditField::GradientRelativeTo);
    let mut field = ColorEditField::ColorType;
    for _ in 0..5 {
        assert_eq!(field.next_for_mode(true).prev_for_mode(true), field);
        field = field.next_for_mode(true);
    }
    assert_eq!(field, ColorEditField::ColorType);
    assert_eq!(ColorEditField::SolidColor.next_for_mode(true), ColorEditField::GradientFrom);
    assert_eq!(ColorEditField::GradientTo.next_for_mode(false), ColorEditField::SolidColor);
    assert_eq!(ColorEditField::GradientTo.prev_for_mode(false), ColorEditField::SolidColor);
    assert_eq!(ColorEditField::SolidColor.prev_for_mode(false), ColorEditField::ColorType);
}

#[test]
fn the_appearance_dialog_edits_text_or_colour() {
    let mut edit = AppearanceEditMode::new(AppearanceField::Gaps, "16");
    assert_eq!(edit.cursor, 2);
    edit.cursor_left();
    edit.insert_char('2');
    assert_eq!(edit.value, "126");
    edit.cursor_right();
    edit.cursor_right();
    edit.delete_char();
    assert_eq!(edit.value, "12");
    edit.cursor_home();
    assert_eq!(edit.cursor, 0);
    edit.cursor_end();
    assert_eq!(edit.cursor, 2);

    let mut color = AppearanceEditMode::new_color(
        AppearanceField::ShadowColor,
        &ColorValue::Solid("#0007".to_string()),
    );
    color.insert_char('f');
    color.cursor_home();
    color.insert_char('x');
    color.cursor_end();
    color.delete_char();
    color.cursor_left();
    color.cursor_right();
    let state = color.color_state.unwrap();
    assert_eq!(state.solid_color, "x#0007");
    assert_eq!(state.solid_cursor, 6);
    assert_eq!(color.value, "");
}

#[test]
fn a_query_is_looked_for_in_both_texts() {
    assert!(Keybinding::holds_query("mod+shift+t", "alacritty", "shift"));
    assert!(Keybinding::holds_query("mod+shift+t", "alacritty", "critty"));
    assert!(Keybinding::holds_query("mod+shift+t", "alacritty", ""));
    assert!(!Keybinding::holds_query("mod+shift+t", "alacritty", "Shift"));
    assert!(!Keybinding::holds_query("", "", "x"));
}

#[test]
fn a_gradient_is_shown_with_the_angle_it_is_given() {
    let gradient = ColorValue::Gradient {
        from: "#000".to_string(),
        to: "#fff".to_string(),
        angle: Some(45),
        relative_to: None,
        color_space: Some("srgb".to_string()),
    };
    assert_eq!(gradient.to_string_with(Some("forty-five")), "gradient(from=#000 to=#fff angle=forty-five in=srgb)");
    assert_eq!(gradient.to_string_with(None), "gradient(from=#000 to=#fff in=srgb)");
    assert_eq!(gradient.to_string(), "gradient(from=#000 to=#fff angle=45 in=srgb)");
    assert_eq!(ColorValue::Solid("#123".to_string()).to_string_with(Some("9")), "#123");
    assert_eq!(ColorValue::default(), ColorValue::Solid("#ffffff".to_string()));
}
