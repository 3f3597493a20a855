use niri_settings::app::{App, Effect};
use niri_settings::category::Category;
use niri_settings::error::ConfigError;
use niri_settings::ipc::{convert_output, ReportedLogical, ReportedMode, ReportedOutput};
use niri_settings::message::Message;
use niri_settings::model::{
    AppearanceField, BindingAction, ColorValue, ConfigDocument, EditField, FieldValue,
    KeybindingChange, OutputTransform, Position, SaveStep, Size,
};

const CONFIG: &str = "output \"DP-1\" {\n    position x=0 y=0\n}\n\nlayout {\n    gaps 16\n}\n\nbinds {\n    Mod+A { a; }\n    Mod+B { b; }\n    Mod+C { c; }\n}\n";

fn reported(name: &str, x: i32, y: i32, enabled: bool) -> ReportedOutput {
    ReportedOutput {
        name: name.to_string(),
        make: "Make".to_string(),
        model: "Model".to_string(),
        modes: vec![
            ReportedMode { width: 1920, height: 1080, refresh_rate: 59951, is_preferred: true },
            ReportedMode { width: 1280, height: 720, refresh_rate: 60000, is_preferred: false },
        ],
        current_mode: if enabled { Some(0) } else { None },
        logical: if enabled {
            Some(ReportedLogical {
                x,
                y,
                width: 1920,
                height: 1080,
                scale_thousandths: 1500,
                transform: OutputTransform::Rotate90,
            })
        } else {
            None
        },
    }
}

fn loaded() -> App {
    let mut app = App::new();
    let outputs = vec![
        convert_output(reported("DP-1", 0, 0, true)),
        convert_output(reported("HDMI-1", 1920, 0, true)),
    ];
    assert!(matches!(app.outputs_reloaded(Ok(outputs)), Effect::LoadConfig));
    app.config_loaded(ConfigDocument::load("/tmp/config.kdl".to_string(), CONFIG));
    app
}

#[test]
fn a_report_becomes_an_output() {
    let on = convert_output(reported("DP-1", 10, 20, true));
    assert!(on.enabled && on.connected && !on.configured);
    assert_eq!(on.position, Position::new(10, 20));
    assert_eq!(on.logical_size, Size::new(1920, 1080));
    assert_eq!(on.physical_size, Size::new(1920, 1080));
    assert_eq!(on.scale_thousandths, 1500);
    assert_eq!(on.transform, OutputTransform::Rotate90);
    assert_eq!(on.modes.len(), 2);
    assert_eq!(on.modes[0].refresh_millihertz, 59951);
    assert_eq!(on.current_mode().map(|m| m.width), Some(1920));
    let off = convert_output(reported("DP-2", 10, 20, false));
    assert!(!off.enabled);
    assert_eq!(off.position, Position::new(0, 0));
    assert_eq!(off.logical_size, Size::new(0, 0));
    assert_eq!(off.physical_size, Size::new(0, 0));
    assert_eq!(off.scale_thousandths, 1000);
    assert_eq!(off.transform, OutputTransform::Normal);
    assert_eq!(off.current_mode(), None);
    assert_eq!(OutputTransform::Flipped270.as_str(), "flipped-270");
}

#[test]
fn loading_marks_configured_outputs_and_reads_the_domains() {
    let app = loaded();
    assert!(app.view_model.outputs[0].configured);
    assert!(!app.view_model.outputs[1].configured);
    assert_eq!(app.keybindings_view_model.bindings.len(), 3);
    assert_eq!(app.appearance_view_model.settings.gaps, 16);
    assert!(app.config.is_some());
    assert!(app.error.is_none());

    let mut broken = App::new();
    broken.config_loaded(ConfigDocument::load("/tmp/c.kdl".to_string(), "binds {"));
    assert!(broken.config.is_none());
    assert!(broken.error.unwrap().starts_with("Failed to load config: Failed to parse KDL config from /tmp/c.kdl"));
}

#[test]
fn a_failed_backup_ends_the_save_and_keeps_the_overlay() {
    let mut app = loaded();
    app.update(Message::MoveOutput { dx: 10, dy: 20 });
    assert!(app.view_model.has_pending_changes());
    assert!(matches!(app.update(Message::Save), Effect::Save));

    let config = app.config.as_mut().unwrap();
    assert!(matches!(config.save(true), SaveStep::Backup));
    let step = config.after_backup(false);
    let error = match step {
        SaveStep::Failed(e) => e,
        _ => panic!("a failed backup must end the save"),
    };
    assert_eq!(error, ConfigError::Io("Failed to create config backup".to_string()));

    assert!(matches!(app.save_finished(Err(error)), Effect::Nothing));
    assert_eq!(app.error.as_deref(), Some("Failed to save: Failed to create config backup"));
    assert_eq!(app.view_model.pending_changes.get("DP-1"), Some(Position::new(10, 20)));
    assert_eq!(app.view_model.outputs[0].position, Position::new(0, 0));
}

#[test]
fn a_save_that_succeeds_folds_the_overlay_into_the_base() {
    let mut app = loaded();
    app.update(Message::SelectNextOutput);
    app.update(Message::SetPosition { x: -1920, y: 5 });
    assert!(matches!(app.update(Message::Save), Effect::Save));
    let config = app.config.as_mut().unwrap();
    assert!(matches!(config.save(true), SaveStep::Backup));
    let text = match config.after_backup(true) {
        SaveStep::Write(text) => text,
        _ => panic!("the file is written after the backup"),
    };
    assert!(text.contains("output \"HDMI-1\""));
    assert!(matches!(config.after_write(true), SaveStep::Done));
    assert!(matches!(
        config.after_write(false),
        SaveStep::Failed(ConfigError::Io(m)) if m == "Failed to write config file"
    ));
    assert!(matches!(config.save(false), SaveStep::Write(_)));

    assert!(matches!(app.save_finished(Ok(())), Effect::Nothing));
    assert!(!app.view_model.has_pending_changes());
    assert_eq!(app.view_model.outputs[1].position, Position::new(-1920, 5));
    assert!(app.view_model.outputs[1].configured);
    assert!(app.error.is_none());
}

#[test]
fn saving_needs_pending_changes_and_a_document() {
    let mut app = loaded();
    assert!(matches!(app.update(Message::Save), Effect::Nothing));
    assert!(app.error.is_none());

    let mut empty = App::new();
    let _ = empty.outputs_reloaded(Ok(vec![convert_output(reported("DP-1", 0, 0, true))]));
    empty.update(Message::MoveOutput { dx: 1, dy: 1 });
    assert!(matches!(empty.update(Message::Save), Effect::Nothing));
    assert_eq!(empty.error.as_deref(), Some("No config loaded"));
    assert!(empty.view_model.has_pending_changes());
}

#[test]
fn keybinding_changes_are_saved_and_read_back() {
    let mut app = loaded();
    app.update(Message::SwitchCategory(Category::Keybindings));
    app.update(Message::SelectKeybinding(1));
    app.update(Message::DeleteKeybinding);
    assert_eq!(app.keybindings_view_model.selected_index, 0);
    app.update(Message::AddKeybinding);
    {
        let edit = app.keybindings_view_model.edit_mode.as_mut().unwrap();
        for c in "Mod+Shift+N".chars() {
            edit.insert_char(c);
        }
        edit.focused_field = EditField::ActionValue;
        for c in "alacritty -e 'top -d 1'".chars() {
            edit.insert_char(c);
        }
    }
    app.update(Message::ConfirmEdit);
    assert!(app.keybindings_view_model.edit_mode.is_none());
    assert_eq!(app.keybindings_view_model.pending_changes.len(), 2);
    assert_eq!(app.keybindings_view_model.visible_count(), 3);

    assert!(matches!(app.update(Message::Save), Effect::Save));
    assert!(matches!(app.save_finished(Ok(())), Effect::ReloadCompositor));
    assert!(!app.keybindings_view_model.has_pending_changes());
    let keys: Vec<String> = app.keybindings_view_model.bindings.iter().map(|b| b.combo()).collect();
    assert_eq!(keys, vec!["Mod+A", "Mod+C", "Mod+Shift+N"]);
    assert_eq!(
        app.keybindings_view_model.bindings[2].action,
        BindingAction::Spawn(vec!["alacritty".to_string(), "-e".to_string(), "top -d 1".to_string()])
    );
    app.compositor_reloaded(Err(ConfigError::Collaborator("no socket".to_string())));
    assert_eq!(
        app.error.as_deref(),
        Some("Saved, but failed to reload niri config: no socket")
    );
}

#[test]
fn an_empty_dialog_is_not_a_binding() {
    let mut app = loaded();
    app.update(Message::AddKeybinding);
    app.update(Message::ConfirmEdit);
    assert_eq!(
        app.error.as_deref(),
        Some("Invalid keybinding: key combo and action are required")
    );
    assert!(app.keybindings_view_model.edit_mode.is_some());
    assert!(!app.keybindings_view_model.has_pending_changes());
    app.update(Message::CancelEdit);
    assert!(app.error.is_none());
    assert!(app.keybindings_view_model.edit_mode.is_none());
}

#[test]
fn editing_a_binding_replaces_it_at_its_position() {
    let mut app = loaded();
    app.update(Message::SelectKeybinding(2));
    app.update(Message::StartEdit);
    {
        let edit = app.keybindings_view_model.edit_mode.as_mut().unwrap();
        assert_eq!(edit.key_combo, "Mod+C");
        assert_eq!(edit.action_value, "c");
        assert_eq!(edit.original_index, 2);
        edit.focused_field = EditField::ActionValue;
        edit.delete_char();
        for c in "focus-workspace 3".chars() {
            edit.insert_char(c);
        }
    }
    app.update(Message::ConfirmEdit);
    match &app.keybindings_view_model.pending_changes[0] {
        KeybindingChange::Modify { index, new } => {
            assert_eq!(*index, 2);
            assert_eq!(new.action.to_string(), "focus-workspace 3");
        }
        _ => panic!("expected a replacement"),
    }
    app.update(Message::Reload);
    assert!(!app.keybindings_view_model.has_pending_changes());
}

#[test]
fn appearance_edits_are_validated() {
    let mut app = loaded();
    app.update(Message::SwitchCategory(Category::Appearance));
    app.update(Message::SelectNextAppearanceSetting);
    assert_eq!(app.appearance_view_model.selected_field_of(), Some(AppearanceField::Gaps));
    app.update(Message::StartAppearanceEdit);
    {
        let edit = app.appearance_view_model.edit_mode.as_mut().unwrap();
        assert_eq!(edit.value, "16");
        assert_eq!(edit.cursor, 2);
        edit.insert_char('x');
    }
    app.update(Message::ConfirmAppearanceEdit);
    assert_eq!(app.error.as_deref(), Some("Invalid integer value"));
    assert!(app.appearance_view_model.edit_mode.is_some());
    {
        let edit = app.appearance_view_model.edit_mode.as_mut().unwrap();
        edit.delete_char();
        edit.delete_char();
        edit.insert_char('2');
        edit.insert_char(' ');
    }
    app.update(Message::ConfirmAppearanceEdit);
    assert!(app.error.is_none());
    assert!(app.appearance_view_model.edit_mode.is_none());
    assert_eq!(app.appearance_view_model.settings.gaps, 12);
    app.update(Message::IncrementValue);
    app.update(Message::IncrementValue);
    app.update(Message::DecrementValue);
    assert_eq!(app.appearance_view_model.settings.gaps, 13);
    assert_eq!(app.appearance_view_model.pending_changes.len(), 1);

    assert!(matches!(app.update(Message::Save), Effect::Save));
    assert!(matches!(app.save_finished(Ok(())), Effect::ReloadCompositor));
    assert_eq!(app.appearance_view_model.original_settings.gaps, 13);
    assert!(!app.appearance_view_model.has_pending_changes());
}

#[test]
fn a_gradient_cannot_be_edited_as_text() {
    let mut app = loaded();
    app.appearance_view_model.set_field_value(
        AppearanceField::FocusRingActiveColor,
        FieldValue::Color(ColorValue::Gradient {
            from: "#000000".to_string(),
            to: "#ffffff".to_string(),
            angle: None,
            relative_to: None,
            color_space: None,
        }),
    );
    app.appearance_view_model.selected_index = 6;
    assert_eq!(
        app.appearance_view_model.selected_field_of(),
        Some(AppearanceField::FocusRingActiveColor)
    );
    app.update(Message::StartAppearanceEdit);
    assert_eq!(app.error.as_deref(), Some("Gradient editing not supported yet"));
    assert!(app.appearance_view_model.edit_mode.is_none());

    app.appearance_view_model.selected_index = 7;
    app.update(Message::StartAppearanceEdit);
    {
        let edit = app.appearance_view_model.edit_mode.as_mut().unwrap();
        edit.cursor_home();
        edit.cursor_end();
        for _ in 0..7 {
            edit.delete_char();
        }
    }
    app.update(Message::ConfirmAppearanceEdit);
    assert_eq!(app.error.as_deref(), Some("Color value cannot be empty"));
}

#[test]
fn messages_map_to_one_operation_each() {
    let mut app = loaded();
    assert!(matches!(app.update(Message::ZoomIn), Effect::ZoomIn));
    assert!(matches!(app.update(Message::ZoomOut), Effect::ZoomOut));
    assert!(matches!(app.update(Message::ResetView), Effect::ResetView));
    assert!(matches!(app.update(Message::RefreshOutputs), Effect::RefreshOutputs));
    assert!(matches!(app.update(Message::PreviewChanges), Effect::Nothing));
    app.update(Message::SnapRight);
    match app.update(Message::PreviewChanges) {
        Effect::Preview(list) => assert_eq!(list, vec![("DP-1".to_string(), Position::new(3840, 0))]),
        _ => panic!("expected a preview"),
    }
    app.update(Message::RevertPreview);
    assert!(!app.view_model.has_pending_changes());
    app.update(Message::Error("boom".to_string()));
    assert_eq!(app.error.as_deref(), Some("boom"));
    app.update(Message::ClearError);
    assert!(app.error.is_none());
    app.outputs_refreshed(Err(ConfigError::Collaborator("gone".to_string())));
    assert_eq!(app.error.as_deref(), Some("Failed to refresh: gone"));
    assert!(matches!(
        app.outputs_reloaded(Err(ConfigError::Collaborator("gone".to_string()))),
        Effect::Nothing
    ));
    assert_eq!(app.error.as_deref(), Some("Failed to reload: gone"));
    app.update(Message::SwitchCategory(Category::Appearance));
    assert!(app.error.is_none());
    assert_eq!(app.current_category, Category::Appearance);
    app.update(Message::ToggleSection);
    assert_eq!(app.appearance_view_model.visible_items().len(), 25);
    app.update(Message::Quit);
    assert!(app.should_quit);
}

#[test]
fn categories_have_names_keys_and_hints() {
    assert_eq!(Category::all(), &[Category::Outputs, Category::Keybindings, Category::Appearance]);
    for category in Category::all() {
        assert_eq!(Category::from_function_key(category.function_key()), Some(*category));
        assert_eq!(category.keybinds()[0], ("q", "Quit"));
    }
    assert_eq!(Category::from_function_key(4), None);
    assert_eq!(Category::Keybindings.name(), "Keybindings");
    assert_eq!(Category::Outputs.keybinds().len(), 6);
    assert_eq!(Category::Appearance.keybinds()[4], ("Space", "Toggle"));
    assert_eq!(Category::default(), Category::Outputs);
}

#[test]
fn key_bindings_cannot_be_saved_without_a_binds_block() {
    let mut app = App::new();
    app.config_loaded(ConfigDocument::load("/tmp/c.kdl".to_string(), "layout {\n    gaps 8\n}\n"));
    app.update(Message::SwitchCategory(Category::Keybindings));
    app.update(Message::AddKeybinding);
    {
        let edit = app.keybindings_view_model.edit_mode.as_mut().unwrap();
        edit.key_combo = "Mod+N".to_string();
        edit.action_value = "fuzzel".to_string();
    }
    app.update(Message::ConfirmEdit);
    let before = app.config.as_mut().unwrap().to_text();
    assert!(matches!(app.update(Message::Save), Effect::Nothing));
    assert_eq!(
        app.error.as_deref(),
        Some("Failed to save keybindings: No binds block found in config")
    );
    assert_eq!(app.keybindings_view_model.pending_changes.len(), 1);
    assert_eq!(app.config.as_mut().unwrap().to_text(), before);
}
