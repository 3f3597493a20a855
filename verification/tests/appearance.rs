use niri_settings::model::{
    AppearanceField, AppearanceListItem, AppearanceSection, AppearanceSettings,
    AppearanceViewModel, CenterFocusedColumn, ColorValue, FieldValue,
};

#[test]
fn test_center_focused_column_conversion() {
    assert_eq!(CenterFocusedColumn::Never.as_str(), "never");
    assert_eq!(CenterFocusedColumn::Always.as_str(), "always");
    assert_eq!(CenterFocusedColumn::OnOverflow.as_str(), "on-overflow");
}

#[test]
fn test_color_value_display() {
    assert_eq!(ColorValue::Solid("#ff0000".to_string()).to_string(), "#ff0000");

    let gradient = ColorValue::Gradient {
        from: "#ff0000".to_string(),
        to: "#00ff00".to_string(),
        angle: Some(45),
        relative_to: None,
        color_space: None,
    };
    assert!(gradient.to_string().contains("from=#ff0000"));
    assert!(gradient.to_string().contains("to=#00ff00"));
    assert!(gradient.to_string().contains("angle=45"));
}

#[test]
fn gradient_is_shown_with_every_part_that_is_set() {
    let gradient = ColorValue::Gradient {
        from: "#ff0000".to_string(),
        to: "#00ff00".to_string(),
        angle: Some(-45),
        relative_to: Some("workspace-view".to_string()),
        color_space: Some("oklch".to_string()),
    };
    assert_eq!(
        gradient.to_string(),
        "gradient(from=#ff0000 to=#00ff00 angle=-45 relative-to=workspace-view in=oklch)"
    );
}

#[test]
fn test_center_focused_column_cycle() {
    let val = CenterFocusedColumn::Never;
    assert_eq!(val.next(), CenterFocusedColumn::Always);
    assert_eq!(val.next().next(), CenterFocusedColumn::OnOverflow);
    assert_eq!(val.next().next().next(), CenterFocusedColumn::Never);
}

#[test]
fn center_focused_column_reads_its_keywords() {
    assert_eq!(CenterFocusedColumn::from_str("never"), Some(CenterFocusedColumn::Never));
    assert_eq!(CenterFocusedColumn::from_str("always"), Some(CenterFocusedColumn::Always));
    assert_eq!(CenterFocusedColumn::from_str("on-overflow"), Some(CenterFocusedColumn::OnOverflow));
    assert_eq!(CenterFocusedColumn::from_str("sometimes"), None);
    assert_eq!(CenterFocusedColumn::Never.prev(), CenterFocusedColumn::OnOverflow);
}

#[test]
fn test_view_model_visible_items() {
    let vm = AppearanceViewModel::new(AppearanceSettings::default());
    let items = vm.visible_items();

    // Should have section headers and their fields
    assert!(!items.is_empty());
    assert!(matches!(items[0], AppearanceListItem::SectionHeader(AppearanceSection::General)));
}

#[test]
fn test_view_model_toggle_section() {
    let mut vm = AppearanceViewModel::new(AppearanceSettings::default());
    let initial_count = vm.visible_items().len();

    vm.toggle_section(AppearanceSection::General);
    let collapsed_count = vm.visible_items().len();

    // Should have fewer items when a section is collapsed
    assert!(collapsed_count < initial_count);

    vm.toggle_section(AppearanceSection::General);
    assert_eq!(vm.visible_items().len(), initial_count);
}

#[test]
fn the_list_holds_every_section_and_field() {
    let vm = AppearanceViewModel::new(AppearanceSettings::default());
    let items = vm.visible_items();
    assert_eq!(items.len(), 5 + 2 + 4 + 5 + 7 + 4);
    assert_eq!(items[1], AppearanceListItem::Field(AppearanceField::Gaps));
    assert_eq!(items[3], AppearanceListItem::SectionHeader(AppearanceSection::FocusRing));
    for section in AppearanceSection::all() {
        for field in section.fields() {
            assert_eq!(field.section(), *section);
        }
    }
}

#[test]
fn a_later_change_of_a_field_replaces_the_earlier_one() {
    let mut vm = AppearanceViewModel::new(AppearanceSettings::default());
    vm.set_field_value(AppearanceField::Gaps, FieldValue::Integer(20));
    vm.set_field_value(AppearanceField::BorderOff, FieldValue::Boolean(false));
    vm.set_field_value(AppearanceField::Gaps, FieldValue::Integer(24));
    assert_eq!(vm.settings.gaps, 24);
    assert_eq!(vm.pending_changes.len(), 2);
    assert_eq!(vm.pending_changes[0].field, AppearanceField::BorderOff);
    assert_eq!(vm.pending_changes[1].field, AppearanceField::Gaps);
    assert_eq!(vm.pending_changes[1].value, FieldValue::Integer(24));
    assert!(vm.is_field_modified(AppearanceField::Gaps));
    assert!(!vm.is_field_modified(AppearanceField::ShadowOn));
}

#[test]
fn a_value_of_the_wrong_kind_changes_nothing() {
    let mut vm = AppearanceViewModel::new(AppearanceSettings::default());
    vm.set_field_value(AppearanceField::Gaps, FieldValue::Boolean(true));
    assert_eq!(vm.settings, AppearanceSettings::default());
    assert!(!vm.has_pending_changes());
}

#[test]
fn revert_restores_and_commit_keeps() {
    let mut vm = AppearanceViewModel::new(AppearanceSettings::default());
    vm.increment_field(AppearanceField::Gaps, 4);
    vm.increment_field(AppearanceField::StrutsLeft, 8);
    vm.toggle_boolean(AppearanceField::ShadowOn);
    vm.cycle_enum(AppearanceField::CenterFocusedColumn, false);
    assert_eq!(vm.settings.gaps, 20);
    assert_eq!(vm.settings.struts.left, Some(8));
    assert!(vm.settings.shadow.on);
    assert_eq!(vm.settings.center_focused_column, CenterFocusedColumn::OnOverflow);
    vm.reset_changes();
    assert_eq!(vm.settings, AppearanceSettings::default());
    assert!(!vm.has_pending_changes());

    vm.increment_field(AppearanceField::Gaps, i32::MAX);
    assert_eq!(vm.settings.gaps, 16);
    vm.increment_field(AppearanceField::Gaps, -6);
    vm.apply_changes();
    assert_eq!(vm.original_settings.gaps, 10);
    assert!(!vm.has_pending_changes());
    vm.reset_changes();
    assert_eq!(vm.settings.gaps, 10);
}

#[test]
fn the_urgent_colour_shows_as_not_set() {
    let mut settings = AppearanceSettings::default();
    settings.border.urgent_color = None;
    let vm = AppearanceViewModel::new(settings);
    assert_eq!(
        vm.get_field_value(AppearanceField::BorderUrgentColor),
        FieldValue::String("(not set)".to_string())
    );
    assert_eq!(vm.get_field_value(AppearanceField::StrutsTop).to_string(), "(not set)");
    assert_eq!(vm.get_field_value(AppearanceField::FocusRingOff).to_string(), "off");
    assert_eq!(vm.get_field_value(AppearanceField::Gaps).to_string(), "16");
}
