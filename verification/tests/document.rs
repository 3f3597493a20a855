use niri_settings::config::keybindings_writer::create_keybinding_node;
use niri_settings::config::{
    get_configured_positions, parse_appearance, parse_keybindings, write_appearance,
    write_keybindings, write_positions,
};
use niri_settings::error::ConfigError;
use niri_settings::model::{
    BindingAction, BindingArg, BindingProperties, CenterFocusedColumn, ColorValue,
    ConfigDocument, Keybinding, KeybindingChange, Modifiers, Position, PositionOverlay,
};

fn parse_test_config(content: &str) -> ConfigDocument {
    ConfigDocument { doc: content.parse().unwrap(), path: String::new() }
}

fn create_test_config(content: &str) -> ConfigDocument {
    ConfigDocument { doc: content.parse().unwrap(), path: "/tmp/test.kdl".to_string() }
}

fn load(content: &str) -> ConfigDocument {
    ConfigDocument::load("/tmp/config.kdl".to_string(), content).unwrap()
}

#[test]
fn test_parse_gaps() {
    let config = parse_test_config(
        r#"
            layout {
                gaps 24
            }
        "#,
    );
    let settings = parse_appearance(&config);
    assert_eq!(settings.gaps, 24);
}

#[test]
fn test_parse_center_focused_column() {
    let config = parse_test_config(
        r#"
            layout {
                center-focused-column "on-overflow"
            }
        "#,
    );
    let settings = parse_appearance(&config);
    assert_eq!(settings.center_focused_column, CenterFocusedColumn::OnOverflow);
}

#[test]
fn test_parse_focus_ring() {
    let config = parse_test_config(
        r##"
            layout {
                focus-ring {
                    width 6
                    active-color "#ff0000"
                    inactive-color "#00ff00"
                }
            }
        "##,
    );
    let settings = parse_appearance(&config);
    assert_eq!(settings.focus_ring.width, 6);
    assert_eq!(settings.focus_ring.active_color, ColorValue::Solid("#ff0000".to_string()));
    assert_eq!(settings.focus_ring.inactive_color, ColorValue::Solid("#00ff00".to_string()));
}

#[test]
fn test_parse_shadow() {
    let config = parse_test_config(
        r##"
            layout {
                shadow {
                    on
                    softness 40
                    spread 10
                    offset x=5 y=10
                    color "#0005"
                }
            }
        "##,
    );
    let settings = parse_appearance(&config);
    assert!(settings.shadow.on);
    assert_eq!(settings.shadow.softness, 40);
    assert_eq!(settings.shadow.spread, 10);
    assert_eq!(settings.shadow.offset_x, 5);
    assert_eq!(settings.shadow.offset_y, 10);
    assert_eq!(settings.shadow.color, ColorValue::Solid("#0005".to_string()));
}

#[test]
fn test_parse_struts() {
    let config = parse_test_config(
        r#"
            layout {
                struts {
                    left 64
                    right 64
                }
            }
        "#,
    );
    let settings = parse_appearance(&config);
    assert_eq!(settings.struts.left, Some(64));
    assert_eq!(settings.struts.right, Some(64));
    assert_eq!(settings.struts.top, None);
    assert_eq!(settings.struts.bottom, None);
}

#[test]
fn test_parse_border_gradient() {
    let config = parse_test_config(
        r##"
            layout {
                border {
                    on
                    width 4
                    active-gradient from="#ff0000" to="#00ff00" angle=45
                    inactive-color "#505050"
                }
            }
        "##,
    );
    let settings = parse_appearance(&config);
    assert!(!settings.border.off);
    assert_eq!(settings.border.width, 4);
    // Gradient should be stored in active_color field
    match &settings.border.active_color {
        ColorValue::Gradient { from, to, angle, .. } => {
            assert_eq!(from, "#ff0000");
            assert_eq!(to, "#00ff00");
            assert_eq!(*angle, Some(45));
        }
        _ => panic!("Expected gradient in active_color"),
    }
    assert_eq!(settings.border.inactive_color, ColorValue::Solid("#505050".to_string()));
}

#[test]
fn test_write_gaps() {
    let config = create_test_config("layout { gaps 16 }");
    let mut settings = parse_appearance(&config);
    settings.gaps = 24;

    let layout_idx = config.doc.nodes().iter().position(|n| n.name().value() == "layout");
    assert!(layout_idx.is_some());
}

#[test]
fn test_create_keybinding_node_simple() {
    let binding = Keybinding {
        modifiers: Modifiers { mod_key: true, ctrl: false, shift: false, alt: false },
        key: "Q".to_string(),
        properties: BindingProperties::default(),
        action: BindingAction::Simple("close-window".to_string()),
        kdl_index: None,
    };

    let node = create_keybinding_node(&binding);
    assert_eq!(node.name().value(), "Mod+Q");
}

#[test]
fn test_create_keybinding_node_with_properties() {
    let binding = Keybinding {
        modifiers: Modifiers { mod_key: true, ctrl: false, shift: false, alt: false },
        key: "Q".to_string(),
        properties: BindingProperties {
            repeat: Some(false),
            cooldown_ms: None,
            allow_when_locked: None,
        },
        action: BindingAction::Simple("close-window".to_string()),
        kdl_index: None,
    };

    let node = create_keybinding_node(&binding);
    assert!(node.get("repeat").is_some());
}

#[test]
fn gradient_takes_precedence_wherever_it_stands() {
    let config = parse_test_config(
        r##"
            layout {
                focus-ring {
                    active-gradient from="#111111" to="#222222"
                    active-color "#ff0000"
                }
            }
        "##,
    );
    let settings = parse_appearance(&config);
    assert!(matches!(settings.focus_ring.active_color, ColorValue::Gradient { .. }));
    assert_eq!(settings.focus_ring.active_gradient, Some(settings.focus_ring.active_color.clone()));
    assert_eq!(settings.focus_ring.inactive_color, ColorValue::Solid("#505050".to_string()));
}

#[test]
fn unreadable_values_keep_the_default() {
    let config = parse_test_config(
        r##"
            layout {
                gaps "wide"
                center-focused-column "sometimes"
                focus-ring {
                    width "thick"
                }
            }
        "##,
    );
    let settings = parse_appearance(&config);
    assert_eq!(settings.gaps, 16);
    assert_eq!(settings.center_focused_column, CenterFocusedColumn::Never);
    assert_eq!(settings.focus_ring.width, 4);
    let none = parse_test_config("binds {\n}\n");
    assert_eq!(parse_appearance(&none), niri_settings::model::AppearanceSettings::default());
}

#[test]
fn written_position_is_read_back() {
    let mut config = load(
        "// my monitors\noutput \"DP-1\" {\n    scale 1.5\n    position x=0 y=0\n}\n\nbinds {\n    Mod+Q { close-window; }\n}\n",
    );
    config.set_output_position("HDMI-1", Position::new(100, 200)).unwrap();
    let positions = get_configured_positions(&config);
    assert!(positions.contains(&("HDMI-1".to_string(), Position::new(100, 200))));
    assert!(positions.contains(&("DP-1".to_string(), Position::new(0, 0))));
    assert_eq!(config.get_output_position("HDMI-1"), Some(Position::new(100, 200)));

    config.set_output_position("DP-1", Position::new(-1920, 40)).unwrap();
    assert_eq!(config.get_output_position("DP-1"), Some(Position::new(-1920, 40)));
    assert_eq!(get_configured_positions(&config).len(), 2);
    let text = config.to_text();
    assert!(text.contains("// my monitors"));
    assert!(text.contains("scale 1.5"));
    assert!(text.contains("Mod+Q { close-window; }"));
}

#[test]
fn a_disabled_output_is_enabled_in_place() {
    let mut config = parse_test_config("\"/-output\" \"DP-2\" {\n    position x=5 y=6\n}\n");
    assert_eq!(config.find_output_node("DP-2"), Some((0, true)));
    assert_eq!(
        get_configured_positions(&config),
        vec![("DP-2".to_string(), Position::new(5, 6))]
    );
    config.set_output_position("DP-2", Position::new(7, 8)).unwrap();
    assert_eq!(config.find_output_node("DP-2"), Some((0, false)));
    assert_eq!(config.doc.nodes().len(), 1);
    assert_eq!(config.get_output_position("DP-2"), Some(Position::new(7, 8)));
}

#[test]
fn an_output_without_position_gets_one() {
    let mut config = load("output \"eDP-1\" {\n    scale 2.0\n}\n");
    assert_eq!(config.get_output_position("eDP-1"), None);
    assert!(get_configured_positions(&config).is_empty());
    let mut overlay = PositionOverlay::new();
    overlay.insert("eDP-1", Position::new(1, 2));
    overlay.insert("DP-9", Position::new(3, 4));
    overlay.insert("eDP-1", Position::new(10, 20));
    write_positions(&mut config, &overlay).unwrap();
    assert_eq!(
        get_configured_positions(&config),
        vec![
            ("eDP-1".to_string(), Position::new(10, 20)),
            ("DP-9".to_string(), Position::new(3, 4))
        ]
    );
}

#[test]
fn reparsing_what_was_printed_gives_the_same_document() {
    let text = "// header\noutput \"DP-1\" {\n    // where it stands\n    position x=10 y=-20\n}\n\nlayout {\n    gaps 12\n    border {\n        off\n    }\n}\n\nbinds {\n    Mod+Shift+T repeat=false { spawn \"alacritty\" \"-e\" \"top\"; }\n    Mod+1 { focus-workspace 1; }\n}\n";
    let mut first = load(text);
    let printed = first.to_text();
    let mut second = load(&printed);
    assert_eq!(get_configured_positions(&first), get_configured_positions(&second));
    assert_eq!(parse_keybindings(&first), parse_keybindings(&second));
    assert_eq!(parse_appearance(&first), parse_appearance(&second));
    assert_eq!(first.doc.nodes().len(), second.doc.nodes().len());
    assert_eq!(second.to_text(), printed);
    assert!(printed.contains("// where it stands"));
}

#[test]
fn a_malformed_document_is_a_parse_error() {
    match ConfigDocument::load("/etc/config.kdl".to_string(), "output \"DP-1\" {") {
        Err(ConfigError::Parse { path, cause }) => {
            assert_eq!(path, "/etc/config.kdl");
            assert_eq!(cause, "Failed to parse KDL document");
        }
        _ => panic!("expected a parse error"),
    }
}

#[test]
fn bindings_are_read_in_document_order() {
    let config = load(
        "binds {\n    Mod+Shift+T repeat=false cooldown-ms=150 { spawn \"alacritty\" \"-e\" \"top\"; }\n    \"/-Mod+X\" { quit; }\n    Ctrl+Alt+Delete allow-when-locked=true { quit; }\n    Mod+1 { focus-workspace 1; }\n    Mod+W { set-column-width \"50%\"; }\n    Mod+F { fullscreen true; }\n    Mod+E\n    Mod+S { spawn-shell \"echo hi | cat\"; }\n}\n",
    );
    let bindings = parse_keybindings(&config);
    assert_eq!(bindings.len(), 6);
    assert_eq!(bindings[0].key, "T");
    assert!(bindings[0].modifiers.mod_key && bindings[0].modifiers.shift);
    assert_eq!(bindings[0].properties.repeat, Some(false));
    assert_eq!(bindings[0].properties.cooldown_ms, Some(150));
    assert_eq!(
        bindings[0].action,
        BindingAction::Spawn(vec!["alacritty".to_string(), "-e".to_string(), "top".to_string()])
    );
    assert_eq!(bindings[0].kdl_index, Some(0));
    assert_eq!(bindings[1].kdl_index, Some(2));
    assert_eq!(bindings[1].properties.allow_when_locked, Some(true));
    assert_eq!(bindings[1].action, BindingAction::Simple("quit".to_string()));
    assert_eq!(
        bindings[2].action,
        BindingAction::WithArg("focus-workspace".to_string(), BindingArg::Number(1))
    );
    assert_eq!(
        bindings[3].action,
        BindingAction::WithArg("set-column-width".to_string(), BindingArg::String("50%".to_string()))
    );
    assert_eq!(
        bindings[4].action,
        BindingAction::WithArg("fullscreen".to_string(), BindingArg::Bool(true))
    );
    assert_eq!(bindings[5].action, BindingAction::SpawnSh("echo hi | cat".to_string()));
    assert!(parse_keybindings(&load("layout {\n}\n")).is_empty());
}

fn simple(key: &str, action: &str) -> Keybinding {
    Keybinding {
        modifiers: Modifiers { mod_key: true, ctrl: false, shift: false, alt: false },
        key: key.to_string(),
        properties: BindingProperties::default(),
        action: BindingAction::Simple(action.to_string()),
        kdl_index: None,
    }
}

#[test]
fn changes_are_written_against_the_positions_before_the_write() {
    let mut config = load(
        "// keep me\nbinds {\n    Mod+A { a; }\n    Mod+B { b; }\n    Mod+C { c; }\n    Mod+D { d; }\n}\n",
    );
    let changes = vec![
        KeybindingChange::Delete(1),
        KeybindingChange::Add(simple("N", "new")),
        KeybindingChange::Modify { index: 2, new: simple("X", "first") },
        KeybindingChange::Modify { index: 2, new: simple("Y", "changed") },
        KeybindingChange::Delete(3),
        KeybindingChange::Delete(1),
        KeybindingChange::Delete(40),
    ];
    write_keybindings(&mut config, &changes).unwrap();
    let keys: Vec<String> = parse_keybindings(&config).iter().map(|b| b.combo()).collect();
    assert_eq!(keys, vec!["Mod+A", "Mod+Y", "Mod+N"]);
    let actions: Vec<String> =
        parse_keybindings(&config).iter().map(|b| b.action.to_string()).collect();
    assert_eq!(actions, vec!["a", "changed", "new"]);
    assert!(config.to_text().contains("// keep me"));
}

#[test]
fn writing_bindings_needs_a_binds_block() {
    let mut config = load("layout {\n    gaps 8\n}\n");
    let before = config.to_text();
    let result = write_keybindings(&mut config, &[KeybindingChange::Add(simple("N", "new"))]);
    assert_eq!(result, Err(ConfigError::Lookup("No binds block found in config".to_string())));
    assert_eq!(config.to_text(), before);
}

#[test]
fn every_kind_of_action_is_written_and_read_back() {
    let mut config = load("binds {\n}\n");
    let mut spawn = simple("T", "x");
    spawn.action = BindingAction::Spawn(vec!["sh".to_string(), "-c".to_string()]);
    spawn.properties =
        BindingProperties { repeat: Some(true), cooldown_ms: Some(50), allow_when_locked: Some(false) };
    let mut shell = simple("S", "x");
    shell.action = BindingAction::SpawnSh("a | b".to_string());
    let mut number = simple("1", "x");
    number.action = BindingAction::WithArg("focus-workspace".to_string(), BindingArg::Number(-3));
    let mut text = simple("W", "x");
    text.action = BindingAction::WithArg("set-width".to_string(), BindingArg::String("50%".to_string()));
    let mut flag = simple("F", "x");
    flag.action = BindingAction::WithArg("fullscreen".to_string(), BindingArg::Bool(false));
    let all = vec![spawn, shell, number, text, flag, simple("Q", "quit")];
    let changes: Vec<KeybindingChange> = all.iter().cloned().map(KeybindingChange::Add).collect();
    write_keybindings(&mut config, &changes).unwrap();
    let mut reloaded = load(&config.to_text());
    let read = parse_keybindings(&reloaded);
    assert_eq!(read.len(), all.len());
    for (i, (got, want)) in read.iter().zip(all.iter()).enumerate() {
        assert_eq!(got.action, want.action);
        assert_eq!(got.properties, want.properties);
        assert_eq!(got.combo(), want.combo());
        assert_eq!(got.kdl_index, Some(i));
    }
    assert_eq!(reloaded.to_text(), config.to_text());
}

#[test]
fn a_gradient_replaces_the_solid_colour_of_its_slot() {
    let mut config = load(
        "layout {\n    // frame\n    focus-ring {\n        width 6\n        active-color \"#ff0000\"\n    }\n}\n\nbinds {\n    // quit\n    Mod+Q { close-window; }\n}\n",
    );
    let mut settings = parse_appearance(&config);
    assert_eq!(settings.focus_ring.active_color, ColorValue::Solid("#ff0000".to_string()));
    let gradient = ColorValue::Gradient {
        from: "#80c8ff".to_string(),
        to: "#bbddff".to_string(),
        angle: Some(45),
        relative_to: Some("workspace-view".to_string()),
        color_space: None,
    };
    settings.focus_ring.active_color = gradient.clone();
    write_appearance(&mut config, &settings).unwrap();
    let read = parse_appearance(&config);
    assert_eq!(read.focus_ring.active_color, gradient);
    let layout = config.doc.get("layout").unwrap().children().unwrap();
    let ring = layout.get("focus-ring").unwrap().children().unwrap();
    assert!(ring.get("active-color").is_none());
    assert!(ring.get("active-gradient").is_some());
    assert_eq!(read.focus_ring.width, 6);
    assert!(config.to_text().contains("    // quit\n    Mod+Q { close-window; }\n"));

    let mut back = parse_appearance(&config);
    back.focus_ring.active_color = ColorValue::Solid("#123456".to_string());
    write_appearance(&mut config, &back).unwrap();
    let mut reloaded = load(&config.to_text());
    assert_eq!(
        parse_appearance(&reloaded).focus_ring.active_color,
        ColorValue::Solid("#123456".to_string())
    );
    assert!(!reloaded.to_text().contains("active-gradient"));
}

#[test]
fn written_settings_are_read_back() {
    let mut config = load("binds {\n}\n");
    let mut settings = niri_settings::model::AppearanceSettings::default();
    settings.gaps = 24;
    settings.center_focused_column = CenterFocusedColumn::Always;
    settings.focus_ring.off = true;
    settings.border.off = false;
    settings.border.width = 2;
    settings.shadow.on = true;
    settings.shadow.draw_behind_window = true;
    settings.shadow.offset_x = -3;
    settings.struts.left = Some(64);
    settings.struts.bottom = Some(0);
    write_appearance(&mut config, &settings).unwrap();
    let mut reloaded = load(&config.to_text());
    assert_eq!(parse_appearance(&reloaded), settings);
    assert_eq!(parse_appearance(&config), settings);

    settings.border.off = true;
    settings.shadow.on = false;
    settings.shadow.draw_behind_window = false;
    settings.struts.left = None;
    settings.border.urgent_color = None;
    write_appearance(&mut reloaded, &settings).unwrap();
    let read = parse_appearance(&reloaded);
    assert_eq!(read.border.urgent_color, Some(ColorValue::Solid("#9b0000".to_string())));
    settings.border.urgent_color = read.border.urgent_color.clone();
    assert_eq!(read, settings);
}

#[test]
fn a_position_needs_both_coordinates() {
    let config = load(
        "output \"N\" {\n    position y=7\n}\noutput \"M\" {\n    position x=\"left\" y=2\n}\noutput \"K\" {\n    position x=3 y=4\n}\n\"/-output\" \"D\" {\n    position x=5\n}\n",
    );
    assert_eq!(get_configured_positions(&config), vec![("K".to_string(), Position::new(3, 4))]);
    assert_eq!(config.get_output_position("N"), None);
    assert_eq!(config.get_output_position("M"), None);
    assert_eq!(config.get_output_position("D"), None);
    assert_eq!(config.get_output_position("K"), Some(Position::new(3, 4)));
    assert_eq!(config.find_output_node("N"), Some((0, false)));
}

#[test]
fn a_position_without_a_coordinate_is_completed_by_a_write() {
    let mut config = load("output \"N\" {\n    position y=7\n}\n");
    assert!(get_configured_positions(&config).is_empty());
    config.set_output_position("N", Position::new(1, 2)).unwrap();
    assert_eq!(get_configured_positions(&config), vec![("N".to_string(), Position::new(1, 2))]);
    assert_eq!(config.doc.nodes().len(), 1);
}
