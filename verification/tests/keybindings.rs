use niri_settings::model::{
    parse_command_args, BindingAction, BindingProperties, BindingStatus, Keybinding,
    KeybindingChange, KeybindingsViewModel, Modifiers,
};

fn binding(key: &str, action: &str) -> Keybinding {
    Keybinding {
        modifiers: Modifiers { mod_key: true, ctrl: false, shift: false, alt: false },
        key: key.to_string(),
        properties: BindingProperties::default(),
        action: BindingAction::Simple(action.to_string()),
        kdl_index: None,
    }
}

fn base(n: usize) -> Vec<Keybinding> {
    (0..n).map(|i| binding(&format!("K{i}"), &format!("action-{i}"))).collect()
}

#[test]
fn test_parse_modifiers() {
    let (mods, key) = Modifiers::parse("Mod+Shift+T");
    assert!(mods.mod_key);
    assert!(mods.shift);
    assert!(!mods.ctrl);
    assert!(!mods.alt);
    assert_eq!(key, "T");

    let (mods, key) = Modifiers::parse("XF86AudioRaiseVolume");
    assert!(!mods.mod_key);
    assert!(!mods.shift);
    assert_eq!(key, "XF86AudioRaiseVolume");
}

#[test]
fn test_parse_command_args() {
    assert_eq!(parse_command_args("alacritty"), vec!["alacritty"]);
    assert_eq!(
        parse_command_args("wpctl set-volume @DEFAULT_AUDIO_SINK@ 0.1+"),
        vec!["wpctl", "set-volume", "@DEFAULT_AUDIO_SINK@", "0.1+"]
    );
    assert_eq!(parse_command_args("sh -c 'echo hello'"), vec!["sh", "-c", "echo hello"]);
}

#[test]
fn delete_and_modify_resolve_against_original_indices() {
    let mut vm = KeybindingsViewModel::default();
    vm.bindings = base(8);
    let replacement = binding("R", "replaced");
    vm.pending_changes.push(KeybindingChange::Delete(2));
    vm.pending_changes.push(KeybindingChange::Modify { index: 5, new: replacement });
    let effective = vm.effective_bindings();
    assert_eq!(effective.len(), 7);
    assert!(effective.iter().all(|e| e.original_index != Some(2)));
    let at_five = effective.iter().find(|e| e.original_index == Some(5)).unwrap();
    assert_eq!(at_five.status, BindingStatus::Modified);
    assert_eq!(at_five.binding.key, "R");
    assert_eq!(effective[4].original_index, Some(5));
    assert_eq!(effective[0].status, BindingStatus::Unchanged);
}

#[test]
fn deletes_do_not_depend_on_their_order() {
    let mut first = KeybindingsViewModel::default();
    first.bindings = base(8);
    first.pending_changes.push(KeybindingChange::Delete(5));
    first.pending_changes.push(KeybindingChange::Delete(2));
    let mut second = KeybindingsViewModel::default();
    second.bindings = base(8);
    second.pending_changes.push(KeybindingChange::Delete(2));
    second.pending_changes.push(KeybindingChange::Delete(5));
    assert_eq!(first.effective_bindings(), second.effective_bindings());
    assert_eq!(first.effective_bindings().len(), 6);
}

#[test]
fn last_modify_of_an_index_wins_and_adds_come_last() {
    let mut vm = KeybindingsViewModel::default();
    vm.bindings = base(3);
    vm.pending_changes.push(KeybindingChange::Modify { index: 1, new: binding("A", "first") });
    vm.pending_changes.push(KeybindingChange::Add(binding("N", "new")));
    vm.pending_changes.push(KeybindingChange::Modify { index: 1, new: binding("B", "second") });
    let effective = vm.effective_bindings();
    assert_eq!(effective.len(), 4);
    assert_eq!(effective[1].binding.key, "B");
    assert_eq!(effective[1].status, BindingStatus::Modified);
    assert_eq!(effective[3].status, BindingStatus::Added);
    assert_eq!(effective[3].original_index, None);
    assert_eq!(effective[3].binding.key, "N");
}

#[test]
fn search_ignores_case_and_looks_at_combo_and_action() {
    let mut vm = KeybindingsViewModel::default();
    vm.bindings = base(3);
    vm.set_search("ACTION-1".to_string());
    assert_eq!(vm.visible_count(), 1);
    vm.set_search("mod+k2".to_string());
    assert_eq!(vm.visible_count(), 1);
    assert_eq!(vm.selected_binding().unwrap().key, "K2");
    vm.clear_search();
    assert_eq!(vm.visible_count(), 3);
}
