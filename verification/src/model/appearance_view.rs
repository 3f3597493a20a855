//! The appearance settings with their pending changes. Changes are folded
//! into a working copy of the settings as they are made; the list of
//! pending changes holds at most one entry for a field.

use vstd::prelude::*;
use crate::error::ConfigError;
use crate::model::appearance::{
    AppearanceSettings, AppearanceView, BorderView, CenterFocusedColumn, ColorValue, ColorView,
    FocusRingView, ShadowView, StrutsSettings,
};
use crate::model::appearance_edit::AppearanceEditMode;
use crate::model::appearance_fields::{
    AppearanceChange, AppearanceField, AppearanceSection, ChangeOfField, FieldKind, FieldValue,
    FieldValueView,
};
use crate::model::keybindings_view::{scroll_to, scrolled};
use crate::text::{decimal, decimal_of, i32_of, parse_i32, trim, trimmed};

verus! {

/// An item of the list of appearance settings.
#[derive(Debug, Clone, Copy, PartialEq, Eq, Structural)]
pub enum AppearanceListItem {
    SectionHeader(AppearanceSection),
    Field(AppearanceField),
}

/// The sections that are collapsed.
#[derive(Debug, Clone, Copy, PartialEq, Eq, Structural)]
pub struct CollapsedSections {
    general: bool,
    focus_ring: bool,
    border: bool,
    shadow: bool,
    struts: bool,
}

impl Default for CollapsedSections {
    fn default() -> (r: Self)
        ensures
            forall|s: AppearanceSection| !r.holds(s),
    {
        CollapsedSections::new()
    }
}

impl CollapsedSections {
    /// Whether a section is collapsed.
    pub closed spec fn holds(self, section: AppearanceSection) -> bool {
        match section {
            AppearanceSection::General => self.general,
            AppearanceSection::FocusRing => self.focus_ring,
            AppearanceSection::Border => self.border,
            AppearanceSection::Shadow => self.shadow,
            AppearanceSection::Struts => self.struts,
        }
    }

    /// Two sets that hold the same sections are the same.
    pub proof fn lemma_same(self, other: CollapsedSections)
        requires
            forall|s: AppearanceSection| self.holds(s) == other.holds(s),
        ensures
            self == other,
    {
        assert(self.holds(AppearanceSection::General) == other.holds(AppearanceSection::General));
        assert(self.holds(AppearanceSection::FocusRing) == other.holds(
            AppearanceSection::FocusRing,
        ));
        assert(self.holds(AppearanceSection::Border) == other.holds(AppearanceSection::Border));
        assert(self.holds(AppearanceSection::Shadow) == other.holds(AppearanceSection::Shadow));
        assert(self.holds(AppearanceSection::Struts) == other.holds(AppearanceSection::Struts));
    }

    /// No section is collapsed.
    pub fn new() -> (r: Self)
        ensures
            forall|s: AppearanceSection| !r.holds(s),
    {
        CollapsedSections {
            general: false,
            focus_ring: false,
            border: false,
            shadow: false,
            struts: false,
        }
    }

    pub fn contains(&self, section: &AppearanceSection) -> (r: bool)
        ensures
            r == self.holds(*section),
    {
        match section {
            AppearanceSection::General => self.general,
            AppearanceSection::FocusRing => self.focus_ring,
            AppearanceSection::Border => self.border,
            AppearanceSection::Shadow => self.shadow,
            AppearanceSection::Struts => self.struts,
        }
    }

    /// Collapses or expands one section.
    pub fn set(&mut self, section: AppearanceSection, collapsed: bool)
        ensures
            forall|s: AppearanceSection|
                final(self).holds(s) == if s == section {
                    collapsed
                } else {
                    old(self).holds(s)
                },
    {
        match section {
            AppearanceSection::General => {
                self.general = collapsed;
            },
            AppearanceSection::FocusRing => {
                self.focus_ring = collapsed;
            },
            AppearanceSection::Border => {
                self.border = collapsed;
            },
            AppearanceSection::Shadow => {
                self.shadow = collapsed;
            },
            AppearanceSection::Struts => {
                self.struts = collapsed;
            },
        }
    }

    /// Collapses a section.
    pub fn insert(&mut self, section: AppearanceSection)
        ensures
            forall|s: AppearanceSection|
                final(self).holds(s) == (s == section || old(self).holds(s)),
    {
        self.set(section, true);
    }

    /// Expands a section.
    pub fn remove(&mut self, section: &AppearanceSection)
        ensures
            forall|s: AppearanceSection|
                final(self).holds(s) == (s != *section && old(self).holds(s)),
    {
        self.set(*section, false);
    }
}

/// The fields of a section as list items.
pub open spec fn field_items(fields: Seq<AppearanceField>) -> Seq<AppearanceListItem> {
    fields.map_values(|f: AppearanceField| AppearanceListItem::Field(f))
}

/// The list items of the first `k` sections: for each its header and,
/// unless it is collapsed, its fields.
pub open spec fn items_upto(collapsed: CollapsedSections, k: int) -> Seq<AppearanceListItem>
    decreases k,
{
    if k <= 0 || k > AppearanceSection::every().len() {
        Seq::empty()
    } else {
        let section = AppearanceSection::every()[k - 1];
        items_upto(collapsed, k - 1) + seq![AppearanceListItem::SectionHeader(section)] + (
        if collapsed.holds(section) {
            Seq::empty()
        } else {
            field_items(section.members())
        })
    }
}

/// The list of settings as it is shown.
pub open spec fn listing(collapsed: CollapsedSections) -> Seq<AppearanceListItem> {
    items_upto(collapsed, AppearanceSection::every().len() as int)
}

/// The value of a field in the settings. The urgent colour of the border,
/// where it is not set, shows as the text `(not set)`.
pub open spec fn field_value(s: AppearanceView, field: AppearanceField) -> FieldValueView {
    match field {
        AppearanceField::Gaps => FieldValueView::Integer(s.gaps),
        AppearanceField::CenterFocusedColumn => FieldValueView::Enum(s.center_focused_column),
        AppearanceField::FocusRingOff => FieldValueView::Boolean(s.focus_ring.off),
        AppearanceField::FocusRingWidth => FieldValueView::Integer(s.focus_ring.width),
        AppearanceField::FocusRingActiveColor => FieldValueView::Color(s.focus_ring.active_color),
        AppearanceField::FocusRingInactiveColor => FieldValueView::Color(
            s.focus_ring.inactive_color,
        ),
        AppearanceField::BorderOff => FieldValueView::Boolean(s.border.off),
        AppearanceField::BorderWidth => FieldValueView::Integer(s.border.width),
        AppearanceField::BorderActiveColor => FieldValueView::Color(s.border.active_color),
        AppearanceField::BorderInactiveColor => FieldValueView::Color(s.border.inactive_color),
        AppearanceField::BorderUrgentColor => match s.border.urgent_color {
            Some(c) => FieldValueView::Color(c),
            None => FieldValueView::Text("(not set)"@),
        },
        AppearanceField::ShadowOn => FieldValueView::Boolean(s.shadow.on),
        AppearanceField::ShadowDrawBehindWindow => FieldValueView::Boolean(
            s.shadow.draw_behind_window,
        ),
        AppearanceField::ShadowSoftness => FieldValueView::Integer(s.shadow.softness),
        AppearanceField::ShadowSpread => FieldValueView::Integer(s.shadow.spread),
        AppearanceField::ShadowOffsetX => FieldValueView::Integer(s.shadow.offset_x),
        AppearanceField::ShadowOffsetY => FieldValueView::Integer(s.shadow.offset_y),
        AppearanceField::ShadowColor => FieldValueView::Color(s.shadow.color),
        AppearanceField::StrutsLeft => FieldValueView::OptionalInteger(s.struts.left),
        AppearanceField::StrutsRight => FieldValueView::OptionalInteger(s.struts.right),
        AppearanceField::StrutsTop => FieldValueView::OptionalInteger(s.struts.top),
        AppearanceField::StrutsBottom => FieldValueView::OptionalInteger(s.struts.bottom),
    }
}

/// The settings with a field given a value; none where the value is not of
/// the field's kind.
pub open spec fn with_field(s: AppearanceView, field: AppearanceField, value: FieldValueView)
    -> Option<AppearanceView> {
    match (field, value) {
        (AppearanceField::Gaps, FieldValueView::Integer(n)) => Some(AppearanceView { gaps: n, ..s }),
        (AppearanceField::CenterFocusedColumn, FieldValueView::Enum(e)) => Some(
            AppearanceView { center_focused_column: e, ..s },
        ),
        (AppearanceField::FocusRingOff, FieldValueView::Boolean(b)) => Some(
            AppearanceView { focus_ring: FocusRingView { off: b, ..s.focus_ring }, ..s },
        ),
        (AppearanceField::FocusRingWidth, FieldValueView::Integer(n)) => Some(
            AppearanceView { focus_ring: FocusRingView { width: n, ..s.focus_ring }, ..s },
        ),
        (AppearanceField::FocusRingActiveColor, FieldValueView::Color(c)) => Some(
            AppearanceView { focus_ring: FocusRingView { active_color: c, ..s.focus_ring }, ..s },
        ),
        (AppearanceField::FocusRingInactiveColor, FieldValueView::Color(c)) => Some(
            AppearanceView { focus_ring: FocusRingView { inactive_color: c, ..s.focus_ring }, ..s },
        ),
        (AppearanceField::BorderOff, FieldValueView::Boolean(b)) => Some(
            AppearanceView { border: BorderView { off: b, ..s.border }, ..s },
        ),
        (AppearanceField::BorderWidth, FieldValueView::Integer(n)) => Some(
            AppearanceView { border: BorderView { width: n, ..s.border }, ..s },
        ),
        (AppearanceField::BorderActiveColor, FieldValueView::Color(c)) => Some(
            AppearanceView { border: BorderView { active_color: c, ..s.border }, ..s },
        ),
        (AppearanceField::BorderInactiveColor, FieldValueView::Color(c)) => Some(
            AppearanceView { border: BorderView { inactive_color: c, ..s.border }, ..s },
        ),
        (AppearanceField::BorderUrgentColor, FieldValueView::Color(c)) => Some(
            AppearanceView { border: BorderView { urgent_color: Some(c), ..s.border }, ..s },
        ),
        (AppearanceField::ShadowOn, FieldValueView::Boolean(b)) => Some(
            AppearanceView { shadow: ShadowView { on: b, ..s.shadow }, ..s },
        ),
        (AppearanceField::ShadowDrawBehindWindow, FieldValueView::Boolean(b)) => Some(
            AppearanceView { shadow: ShadowView { draw_behind_window: b, ..s.shadow }, ..s },
        ),
        (AppearanceField::ShadowSoftness, FieldValueView::Integer(n)) => Some(
            AppearanceView { shadow: ShadowView { softness: n, ..s.shadow }, ..s },
        ),
        (AppearanceField::ShadowSpread, FieldValueView::Integer(n)) => Some(
            AppearanceView { shadow: ShadowView { spread: n, ..s.shadow }, ..s },
        ),
        (AppearanceField::ShadowOffsetX, FieldValueView::Integer(n)) => Some(
            AppearanceView { shadow: ShadowView { offset_x: n, ..s.shadow }, ..s },
        ),
        (AppearanceField::ShadowOffsetY, FieldValueView::Integer(n)) => Some(
            AppearanceView { shadow: ShadowView { offset_y: n, ..s.shadow }, ..s },
        ),
        (AppearanceField::ShadowColor, FieldValueView::Color(c)) => Some(
            AppearanceView { shadow: ShadowView { color: c, ..s.shadow }, ..s },
        ),
        (AppearanceField::StrutsLeft, FieldValueView::OptionalInteger(o)) => Some(
            AppearanceView { struts: StrutsSettings { left: o, ..s.struts }, ..s },
        ),
        (AppearanceField::StrutsRight, FieldValueView::OptionalInteger(o)) => Some(
            AppearanceView { struts: StrutsSettings { right: o, ..s.struts }, ..s },
        ),
        (AppearanceField::StrutsTop, FieldValueView::OptionalInteger(o)) => Some(
            AppearanceView { struts: StrutsSettings { top: o, ..s.struts }, ..s },
        ),
        (AppearanceField::StrutsBottom, FieldValueView::OptionalInteger(o)) => Some(
            AppearanceView { struts: StrutsSettings { bottom: o, ..s.struts }, ..s },
        ),
        _ => None,
    }
}

/// The views of a list of changes.
pub open spec fn field_changes(v: Seq<AppearanceChange>) -> Seq<ChangeOfField> {
    v.map_values(|c: AppearanceChange| c@)
}

/// A list of changes without those of one field.
pub open spec fn without_field(changes: Seq<ChangeOfField>, field: AppearanceField) -> Seq<
    ChangeOfField,
>
    decreases changes.len(),
{
    if changes.len() == 0 {
        Seq::empty()
    } else if changes.last().field == field {
        without_field(changes.drop_last(), field)
    } else {
        without_field(changes.drop_last(), field).push(changes.last())
    }
}

/// Whether a list of changes has a change of this field.
pub open spec fn changes_field(changes: Seq<ChangeOfField>, field: AppearanceField) -> bool {
    exists|i: int| 0 <= i < changes.len() && (#[trigger] changes[i]).field == field
}

/// Whether a list of changes holds no two changes of one field.
pub open spec fn one_per_field(changes: Seq<ChangeOfField>) -> bool {
    forall|i: int, j: int|
        0 <= i < j < changes.len() ==> (#[trigger] changes[i]).field != (#[trigger] changes[j]).field
}

/// The working copy of the settings and the changes that are pending.
pub struct Pending {
    pub settings: AppearanceView,
    pub changes: Seq<ChangeOfField>,
}

/// The pending state after a field was given a value: the working copy
/// holds the value, and the list of changes holds this change last and no
/// other change of the field. Nothing happens where the value is not of
/// the field's kind.
pub open spec fn assigned(p: Pending, field: AppearanceField, value: FieldValueView) -> Pending {
    match with_field(p.settings, field, value) {
        Some(s) => Pending {
            settings: s,
            changes: without_field(p.changes, field).push(ChangeOfField { field, value }),
        },
        None => p,
    }
}

/// The pending state after a boolean field was toggled.
pub open spec fn toggled(p: Pending, field: AppearanceField) -> Pending {
    match field_value(p.settings, field) {
        FieldValueView::Boolean(b) => assigned(p, field, FieldValueView::Boolean(!b)),
        _ => p,
    }
}

/// The pending state after a number was changed by `amount`. A strut that
/// is not set counts from 0. Nothing happens where the result would not
/// fit in 32 bits.
pub open spec fn incremented(p: Pending, field: AppearanceField, amount: i32) -> Pending {
    match field_value(p.settings, field) {
        FieldValueView::Integer(n) => if i32::MIN <= n + amount <= i32::MAX {
            assigned(p, field, FieldValueView::Integer((n + amount) as i32))
        } else {
            p
        },
        FieldValueView::OptionalInteger(o) => {
            let n = match o {
                Some(n) => n,
                None => 0,
            };
            if i32::MIN <= n + amount <= i32::MAX {
                assigned(p, field, FieldValueView::OptionalInteger(Some((n + amount) as i32)))
            } else {
                p
            }
        },
        _ => p,
    }
}

/// The pending state after an enum field was stepped forward or backward.
pub open spec fn cycled(p: Pending, field: AppearanceField, forward: bool) -> Pending {
    match field_value(p.settings, field) {
        FieldValueView::Enum(current) => assigned(
            p,
            field,
            FieldValueView::Enum(
                if forward {
                    current.after()
                } else {
                    current.before()
                },
            ),
        ),
        _ => p,
    }
}

/// Giving a field a value leaves at most one change per field pending, and
/// exactly one of that field.
pub proof fn lemma_assigned_one_per_field(
    p: Pending,
    field: AppearanceField,
    value: FieldValueView,
)
    requires
        one_per_field(p.changes),
        with_field(p.settings, field, value) is Some,
    ensures
        one_per_field(assigned(p, field, value).changes),
        assigned(p, field, value).changes.last() == (ChangeOfField { field, value }),
        !changes_field(assigned(p, field, value).changes.drop_last(), field),
{
    lemma_without_field(p.changes, field);
    let kept = without_field(p.changes, field);
    let after = kept.push(ChangeOfField { field, value });
    assert(after.drop_last() =~= kept);
    assert forall|i: int, j: int| 0 <= i < j < after.len() implies (#[trigger] after[i]).field != (
    #[trigger] after[j]).field by {
        assert(after[i] == kept[i]);
        if j < kept.len() {
            assert(after[j] == kept[j]);
        }
    }
}

proof fn lemma_without_field(changes: Seq<ChangeOfField>, field: AppearanceField)
    requires
        one_per_field(changes),
    ensures
        one_per_field(without_field(changes, field)),
        forall|i: int|
            0 <= i < without_field(changes, field).len() ==> (#[trigger] without_field(
                changes,
                field,
            )[i]).field != field,
        forall|i: int|
            0 <= i < without_field(changes, field).len() ==> exists|k: int|
                0 <= k < changes.len() && changes[k] == #[trigger] without_field(changes, field)[i],
    decreases changes.len(),
{
    if changes.len() > 0 {
        let rest = changes.drop_last();
        assert forall|i: int, j: int| 0 <= i < j < rest.len() implies (#[trigger] rest[i]).field != (
        #[trigger] rest[j]).field by {
            assert(rest[i] == changes[i]);
            assert(rest[j] == changes[j]);
        }
        lemma_without_field(rest, field);
        let kept = without_field(rest, field);
        let all = without_field(changes, field);
        assert forall|i: int| 0 <= i < all.len() implies exists|k: int|
            0 <= k < changes.len() && changes[k] == #[trigger] all[i] by {
            if i < kept.len() {
                let k = choose|k: int| 0 <= k < rest.len() && rest[k] == kept[i];
                assert(changes[k] == all[i]);
            } else {
                assert(changes[changes.len() - 1] == all[i]);
            }
        }
        if changes.last().field != field {
            assert forall|i: int, j: int| 0 <= i < j < all.len() implies (#[trigger] all[i]).field
                != (#[trigger] all[j]).field by {
                if j < kept.len() {
                } else {
                    let k = choose|k: int| 0 <= k < rest.len() && rest[k] == kept[i];
                    assert(changes[k].field != changes[changes.len() - 1].field);
                }
            }
        }
    }
}

/// The appearance settings with their pending changes.
#[derive(Debug)]
pub struct AppearanceViewModel {
    /// The working copy: the settings with the pending changes folded in.
    pub settings: AppearanceSettings,
    /// The settings as they were loaded or last saved.
    pub original_settings: AppearanceSettings,
    pub selected_index: usize,
    pub scroll_offset: usize,
    pub collapsed_sections: CollapsedSections,
    pub pending_changes: Vec<AppearanceChange>,
    pub edit_mode: Option<AppearanceEditMode>,
}

impl Default for AppearanceViewModel {
    fn default() -> (r: Self)
        ensures
            r.settings@ == AppearanceView::initial(),
            r.original_settings@ == AppearanceView::initial(),
            r.selected_index == 0,
            r.scroll_offset == 0,
            forall|s: AppearanceSection| !r.collapsed_sections.holds(s),
            r.pending_changes@.len() == 0,
            r.edit_mode is None,
    {
        AppearanceViewModel::new(AppearanceSettings::default())
    }
}

impl AppearanceViewModel {
    /// The working copy and the pending changes.
    pub open spec fn pending(self) -> Pending {
        Pending { settings: self.settings@, changes: field_changes(self.pending_changes@) }
    }

    /// The list of settings as it is shown.
    pub open spec fn visible(self) -> Seq<AppearanceListItem> {
        listing(self.collapsed_sections)
    }

    /// Whether `after` differs from this model at most in the working copy
    /// and the pending changes.
    pub open spec fn same_but_pending(self, after: AppearanceViewModel) -> bool {
        &&& after.original_settings == self.original_settings
        &&& after.selected_index == self.selected_index
        &&& after.scroll_offset == self.scroll_offset
        &&& after.collapsed_sections == self.collapsed_sections
        &&& after.edit_mode == self.edit_mode
    }

    /// The model for settings as they were loaded: nothing pending, nothing
    /// collapsed, the first item selected.
    pub fn new(settings: AppearanceSettings) -> (r: Self)
        ensures
            r.settings == settings,
            r.original_settings@ == settings@,
            r.selected_index == 0,
            r.scroll_offset == 0,
            forall|s: AppearanceSection| !r.collapsed_sections.holds(s),
            r.pending_changes@.len() == 0,
            r.edit_mode is None,
    {
        AppearanceViewModel {
            original_settings: settings.clone(),
            settings,
            selected_index: 0,
            scroll_offset: 0,
            collapsed_sections: CollapsedSections::new(),
            pending_changes: Vec::new(),
            edit_mode: None,
        }
    }

    /// The items that are shown: every section's header, followed by its
    /// fields unless the section is collapsed.
    pub fn visible_items(&self) -> (r: Vec<AppearanceListItem>)
        ensures
            r@ == self.visible(),
    {
        let mut items: Vec<AppearanceListItem> = Vec::new();
        let sections = AppearanceSection::all();
        let mut i: usize = 0;
        while i < sections.len()
            invariant
                i <= sections.len(),
                sections@ == AppearanceSection::every(),
                items@ == items_upto(self.collapsed_sections, i as int),
            decreases sections.len() - i,
        {
            let section = sections[i];
            let ghost before = items@;
            items.push(AppearanceListItem::SectionHeader(section));
            if !self.collapsed_sections.contains(&section) {
                let fields = section.fields();
                let mut k: usize = 0;
                while k < fields.len()
                    invariant
                        k <= fields.len(),
                        fields@ == section.members(),
                        items@ == before + seq![AppearanceListItem::SectionHeader(section)]
                            + field_items(section.members()).take(k as int),
                    decreases fields.len() - k,
                {
                    items.push(AppearanceListItem::Field(fields[k]));
                    k += 1;
                }
                assert(field_items(section.members()).take(fields@.len() as int) =~= field_items(
                    section.members(),
                ));
            }
            assert(items@ =~= items_upto(self.collapsed_sections, i as int + 1));
            i += 1;
        }
        items
    }

    /// The selected item, if the selection names one.
    pub fn selected_item(&self) -> (r: Option<AppearanceListItem>)
        ensures
            r == if self.selected_index < self.visible().len() {
                Some(self.visible()[self.selected_index as int])
            } else {
                None
            },
    {
        let items = self.visible_items();
        if self.selected_index < items.len() {
            Some(items[self.selected_index])
        } else {
            None
        }
    }

    /// Selects the next item, wrapping around.
    pub fn select_next(&mut self)
        ensures
            *final(self) == (AppearanceViewModel {
                selected_index: final(self).selected_index,
                ..*old(self)
            }),
            final(self).selected_index == if old(self).visible().len() == 0 {
                old(self).selected_index as int
            } else {
                (old(self).selected_index + 1) % (old(self).visible().len() as int)
            },
    {
        let count = self.visible_items().len();
        if count > 0 {
            proof {
                vstd::arithmetic::div_mod::lemma_add_mod_noop(
                    self.selected_index as int,
                    1,
                    count as int,
                );
                if count > 1 {
                    vstd::arithmetic::div_mod::lemma_small_mod(1, count as nat);
                }
            }
            self.selected_index = (self.selected_index % count + 1 % count) % count;
        }
    }

    /// Selects the previous item, wrapping around.
    pub fn select_prev(&mut self)
        ensures
            *final(self) == (AppearanceViewModel {
                selected_index: final(self).selected_index,
                ..*old(self)
            }),
            final(self).selected_index == if old(self).visible().len() == 0 {
                old(self).selected_index as int
            } else if old(self).selected_index == 0 {
                old(self).visible().len() - 1
            } else {
                old(self).selected_index - 1
            },
    {
        let count = self.visible_items().len();
        if count > 0 {
            if self.selected_index == 0 {
                self.selected_index = count - 1;
            } else {
                self.selected_index -= 1;
            }
        }
    }

    /// Collapses a section that is expanded, and expands one that is
    /// collapsed.
    pub fn toggle_section(&mut self, section: AppearanceSection)
        ensures
            forall|s: AppearanceSection|
                final(self).collapsed_sections.holds(s) == if s == section {
                    !old(self).collapsed_sections.holds(s)
                } else {
                    old(self).collapsed_sections.holds(s)
                },
            *final(self) == (AppearanceViewModel {
                collapsed_sections: final(self).collapsed_sections,
                ..*old(self)
            }),
    {
        if self.collapsed_sections.contains(&section) {
            self.collapsed_sections.remove(&section);
        } else {
            self.collapsed_sections.insert(section);
        }
    }

    /// Toggles the section whose header is selected; nothing happens where
    /// a field is selected, or nothing.
    pub fn toggle_selected_section(&mut self)
        ensures
            *final(self) == (AppearanceViewModel {
                collapsed_sections: final(self).collapsed_sections,
                ..*old(self)
            }),
            forall|s: AppearanceSection|
                final(self).collapsed_sections.holds(s) == if old(self).selected_index < old(
                    self,
                ).visible().len() && old(self).visible()[old(self).selected_index as int]
                    == AppearanceListItem::SectionHeader(s) {
                    !old(self).collapsed_sections.holds(s)
                } else {
                    old(self).collapsed_sections.holds(s)
                },
    {
        match self.selected_item() {
            Some(AppearanceListItem::SectionHeader(section)) => {
                self.toggle_section(section);
            },
            _ => {},
        }
    }

    /// Scrolls, if need be, so that the selection is within the window.
    pub fn update_scroll(&mut self, visible_height: usize)
        ensures
            *final(self) == (AppearanceViewModel {
                scroll_offset: scrolled(
                    old(self).selected_index,
                    old(self).scroll_offset,
                    visible_height,
                ) as usize,
                ..*old(self)
            }),
    {
        self.scroll_offset = scroll_to(self.selected_index, self.scroll_offset, visible_height);
    }

    /// Whether any change is pending.
    pub fn has_pending_changes(&self) -> (r: bool)
        ensures
            r == (self.pending_changes@.len() > 0),
    {
        self.pending_changes.len() > 0
    }

    /// The value of a field in the working copy.
    pub fn get_field_value(&self, field: AppearanceField) -> (r: FieldValue)
        ensures
            r@ == field_value(self.settings@, field),
    {
        match field {
            AppearanceField::Gaps => FieldValue::Integer(self.settings.gaps),
            AppearanceField::CenterFocusedColumn => FieldValue::Enum(
                self.settings.center_focused_column,
            ),
            AppearanceField::FocusRingOff => FieldValue::Boolean(self.settings.focus_ring.off),
            AppearanceField::FocusRingWidth => FieldValue::Integer(self.settings.focus_ring.width),
            AppearanceField::FocusRingActiveColor => FieldValue::Color(
                self.settings.focus_ring.active_color.clone(),
            ),
            AppearanceField::FocusRingInactiveColor => FieldValue::Color(
                self.settings.focus_ring.inactive_color.clone(),
            ),
            AppearanceField::BorderOff => FieldValue::Boolean(self.settings.border.off),
            AppearanceField::BorderWidth => FieldValue::Integer(self.settings.border.width),
            AppearanceField::BorderActiveColor => FieldValue::Color(
                self.settings.border.active_color.clone(),
            ),
            AppearanceField::BorderInactiveColor => FieldValue::Color(
                self.settings.border.inactive_color.clone(),
            ),
            AppearanceField::BorderUrgentColor => match &self.settings.border.urgent_color {
                Some(c) => FieldValue::Color(c.clone()),
                None => FieldValue::String("(not set)".to_owned()),
            },
            AppearanceField::ShadowOn => FieldValue::Boolean(self.settings.shadow.on),
            AppearanceField::ShadowDrawBehindWindow => FieldValue::Boolean(
                self.settings.shadow.draw_behind_window,
            ),
            AppearanceField::ShadowSoftness => FieldValue::Integer(self.settings.shadow.softness),
            AppearanceField::ShadowSpread => FieldValue::Integer(self.settings.shadow.spread),
            AppearanceField::ShadowOffsetX => FieldValue::Integer(self.settings.shadow.offset_x),
            AppearanceField::ShadowOffsetY => FieldValue::Integer(self.settings.shadow.offset_y),
            AppearanceField::ShadowColor => FieldValue::Color(self.settings.shadow.color.clone()),
            AppearanceField::StrutsLeft => FieldValue::OptionalInteger(self.settings.struts.left),
            AppearanceField::StrutsRight => FieldValue::OptionalInteger(self.settings.struts.right),
            AppearanceField::StrutsTop => FieldValue::OptionalInteger(self.settings.struts.top),
            AppearanceField::StrutsBottom => FieldValue::OptionalInteger(
                self.settings.struts.bottom,
            ),
        }
    }

    /// Gives a field a value in the working copy and records the change: an
    /// earlier pending change of the same field is dropped, and the new one
    /// is appended. Nothing happens where the value is not of the field's
    /// kind.
    pub fn set_field_value(&mut self, field: AppearanceField, value: FieldValue)
        ensures
            final(self).pending() == assigned(old(self).pending(), field, value@),
            old(self).same_but_pending(*final(self)),
    {
        if !assign(&mut self.settings, field, &value) {
            return ;
        }
        let mut kept: Vec<AppearanceChange> = Vec::new();
        let ghost all = field_changes(self.pending_changes@);
        let mut i: usize = 0;
        assert(all.take(0).len() == 0);
        while i < self.pending_changes.len()
            invariant
                i <= self.pending_changes.len(),
                all == field_changes(self.pending_changes@),
                field_changes(kept@) == without_field(all.take(i as int), field),
            decreases self.pending_changes.len() - i,
        {
            proof {
                assert(all.take(i as int + 1).drop_last() =~= all.take(i as int));
                assert(all.take(i as int + 1).last() == self.pending_changes@[i as int]@);
            }
            if !same_field(self.pending_changes[i].field, field) {
                let ghost before = field_changes(kept@);
                kept.push(self.pending_changes[i].clone());
                assert(field_changes(kept@) =~= before.push(self.pending_changes@[i as int]@));
            }
            i += 1;
        }
        assert(all.take(all.len() as int) =~= all);
        let ghost before = field_changes(kept@);
        let ghost change = ChangeOfField { field, value: value@ };
        kept.push(AppearanceChange { field, value });
        assert(field_changes(kept@) =~= before.push(change));
        self.pending_changes = kept;
    }

    /// Whether a change of this field is pending.
    pub fn is_field_modified(&self, field: AppearanceField) -> (r: bool)
        ensures
            r == changes_field(field_changes(self.pending_changes@), field),
    {
        let mut i: usize = 0;
        while i < self.pending_changes.len()
            invariant
                i <= self.pending_changes.len(),
                forall|j: int|
                    0 <= j < i ==> (#[trigger] field_changes(self.pending_changes@)[j]).field
                        != field,
            decreases self.pending_changes.len() - i,
        {
            if same_field(self.pending_changes[i].field, field) {
                assert(field_changes(self.pending_changes@)[i as int].field == field);
                return true;
            }
            i += 1;
        }
        false
    }

    /// Toggles a boolean field; nothing happens for a field of another
    /// kind.
    pub fn toggle_boolean(&mut self, field: AppearanceField)
        ensures
            final(self).pending() == toggled(old(self).pending(), field),
            old(self).same_but_pending(*final(self)),
    {
        match self.get_field_value(field) {
            FieldValue::Boolean(current) => {
                self.set_field_value(field, FieldValue::Boolean(!current));
            },
            _ => {},
        }
    }

    /// Changes a number by `amount`; a strut that is not set counts from 0.
    /// Nothing happens for a field of another kind, or where the result
    /// would not fit in 32 bits.
    pub fn increment_field(&mut self, field: AppearanceField, amount: i32)
        ensures
            final(self).pending() == incremented(old(self).pending(), field, amount),
            old(self).same_but_pending(*final(self)),
    {
        match self.get_field_value(field) {
            FieldValue::Integer(n) => {
                match n.checked_add(amount) {
                    Some(sum) => {
                        self.set_field_value(field, FieldValue::Integer(sum));
                    },
                    None => {},
                }
            },
            FieldValue::OptionalInteger(o) => {
                let n: i32 = match o {
                    Some(n) => n,
                    None => 0,
                };
                match n.checked_add(amount) {
                    Some(sum) => {
                        self.set_field_value(field, FieldValue::OptionalInteger(Some(sum)));
                    },
                    None => {},
                }
            },
            _ => {},
        }
    }

    /// Steps an enum field forward or backward; nothing happens for a field
    /// of another kind.
    pub fn cycle_enum(&mut self, field: AppearanceField, forward: bool)
        ensures
            old(self).same_but_pending(*final(self)),
            final(self).pending() == cycled(old(self).pending(), field, forward),
    {
        match self.get_field_value(field) {
            FieldValue::Enum(current) => {
                let new_val = if forward {
                    current.next()
                } else {
                    current.prev()
                };
                self.set_field_value(field, FieldValue::Enum(new_val));
            },
            _ => {},
        }
    }

    /// Reverts: puts the working copy back to the original settings and
    /// discards the pending changes.
    pub fn reset_changes(&mut self)
        ensures
            final(self).settings@ == old(self).original_settings@,
            final(self).pending_changes@.len() == 0,
            old(self).same_but_pending(*final(self)),
    {
        self.settings = self.original_settings.clone();
        self.pending_changes = Vec::new();
    }

    /// Commits after a save: the working copy becomes the original, and
    /// nothing is pending any more.
    pub fn apply_changes(&mut self)
        ensures
            final(self).original_settings@ == old(self).settings@,
            final(self).settings == old(self).settings,
            final(self).pending_changes@.len() == 0,
            final(self).selected_index == old(self).selected_index,
            final(self).scroll_offset == old(self).scroll_offset,
            final(self).collapsed_sections == old(self).collapsed_sections,
            final(self).edit_mode == old(self).edit_mode,
    {
        self.original_settings = self.settings.clone();
        self.pending_changes = Vec::new();
    }
}

/// Gives a field a value in the settings; tells whether the value was of
/// the field's kind.
#[verifier::rlimit(60)]
pub fn assign(settings: &mut AppearanceSettings, field: AppearanceField, value: &FieldValue) -> (r:
    bool)
    ensures
        match with_field(old(settings)@, field, value@) {
            Some(s) => r && final(settings)@ == s,
            None => !r && *final(settings) == *old(settings),
        },
{
    match (field, value) {
        (AppearanceField::Gaps, FieldValue::Integer(n)) => {
            settings.gaps = *n;
        },
        (AppearanceField::CenterFocusedColumn, FieldValue::Enum(e)) => {
            settings.center_focused_column = *e;
        },
        (AppearanceField::FocusRingOff, FieldValue::Boolean(b)) => {
            settings.focus_ring.off = *b;
        },
        (AppearanceField::FocusRingWidth, FieldValue::Integer(n)) => {
            settings.focus_ring.width = *n;
        },
        (AppearanceField::FocusRingActiveColor, FieldValue::Color(c)) => {
            settings.focus_ring.active_color = c.clone();
        },
        (AppearanceField::FocusRingInactiveColor, FieldValue::Color(c)) => {
            settings.focus_ring.inactive_color = c.clone();
        },
        (AppearanceField::BorderOff, FieldValue::Boolean(b)) => {
            settings.border.off = *b;
        },
        (AppearanceField::BorderWidth, FieldValue::Integer(n)) => {
            settings.border.width = *n;
        },
        (AppearanceField::BorderActiveColor, FieldValue::Color(c)) => {
            settings.border.active_color = c.clone();
        },
        (AppearanceField::BorderInactiveColor, FieldValue::Color(c)) => {
            settings.border.inactive_color = c.clone();
        },
        (AppearanceField::BorderUrgentColor, FieldValue::Color(c)) => {
            settings.border.urgent_color = Some(c.clone());
        },
        (AppearanceField::ShadowOn, FieldValue::Boolean(b)) => {
            settings.shadow.on = *b;
        },
        (AppearanceField::ShadowDrawBehindWindow, FieldValue::Boolean(b)) => {
            settings.shadow.draw_behind_window = *b;
        },
        (AppearanceField::ShadowSoftness, FieldValue::Integer(n)) => {
            settings.shadow.softness = *n;
        },
        (AppearanceField::ShadowSpread, FieldValue::Integer(n)) => {
            settings.shadow.spread = *n;
        },
        (AppearanceField::ShadowOffsetX, FieldValue::Integer(n)) => {
            settings.shadow.offset_x = *n;
        },
        (AppearanceField::ShadowOffsetY, FieldValue::Integer(n)) => {
            settings.shadow.offset_y = *n;
        },
        (AppearanceField::ShadowColor, FieldValue::Color(c)) => {
            settings.shadow.color = c.clone();
        },
        (AppearanceField::StrutsLeft, FieldValue::OptionalInteger(o)) => {
            settings.struts.left = *o;
        },
        (AppearanceField::StrutsRight, FieldValue::OptionalInteger(o)) => {
            settings.struts.right = *o;
        },
        (AppearanceField::StrutsTop, FieldValue::OptionalInteger(o)) => {
            settings.struts.top = *o;
        },
        (AppearanceField::StrutsBottom, FieldValue::OptionalInteger(o)) => {
            settings.struts.bottom = *o;
        },
        _ => {
            return false;
        },
    }
    true
}

/// Whether two fields are the same.
pub fn same_field(a: AppearanceField, b: AppearanceField) -> (r: bool)
    ensures
        r == (a == b),
{
    a == b
}

/// The value that an edited text gives a field, given what parsing the
/// text as a number gave; or the message that says why it gives none. A
/// number field needs a number, a colour field a text that is not empty.
pub open spec fn edited_value(field: AppearanceField, text: Seq<char>, number: Option<i32>)
    -> Result<FieldValueView, Seq<char>> {
    if field.kind() == FieldKind::Integer || field.kind() == FieldKind::OptionalInteger {
        match number {
            Some(n) => Ok(FieldValueView::Integer(n)),
            None => Err("Invalid integer value"@),
        }
    } else if field.kind() == FieldKind::Color {
        if text.len() == 0 {
            Err("Color value cannot be empty"@)
        } else {
            Ok(FieldValueView::Color(ColorView::Solid(text)))
        }
    } else {
        Ok(FieldValueView::Text(text))
    }
}

/// The value that an edited text gives a field, given what parsing the
/// text as a number gave.
pub fn value_from_edit(field: AppearanceField, text: &str, number: Option<i32>) -> (r: Result<
    FieldValue,
    ConfigError,
>)
    ensures
        match edited_value(field, text@, number) {
            Ok(v) => r matches Ok(value) && value@ == v,
            Err(m) => r matches Err(ConfigError::Validation(message)) && message@ == m,
        },
{
    if field.is_integer() {
        match number {
            Some(n) => Ok(FieldValue::Integer(n)),
            None => Err(ConfigError::Validation("Invalid integer value".to_owned())),
        }
    } else if field.is_color() {
        if text.is_empty() {
            Err(ConfigError::Validation("Color value cannot be empty".to_owned()))
        } else {
            Ok(FieldValue::Color(ColorValue::Solid(text.to_owned())))
        }
    } else {
        Ok(FieldValue::String(text.to_owned()))
    }
}

/// The text with which the edit dialog opens for a value; none for a
/// gradient, which the dialog cannot edit.
pub open spec fn edit_text(value: FieldValueView) -> Option<Seq<char>> {
    match value {
        FieldValueView::Integer(n) => Some(decimal_of(n as i64)),
        FieldValueView::OptionalInteger(Some(n)) => Some(decimal_of(n as i64)),
        FieldValueView::OptionalInteger(None) => Some(Seq::empty()),
        FieldValueView::Color(ColorView::Solid(c)) => Some(c),
        FieldValueView::Color(ColorView::Gradient { .. }) => None,
        FieldValueView::Text(s) => Some(s),
        _ => Some(Seq::empty()),
    }
}

impl AppearanceViewModel {
    /// The field that is selected, if a field is.
    pub open spec fn selected_field(self) -> Option<AppearanceField> {
        if self.selected_index < self.visible().len() {
            match self.visible()[self.selected_index as int] {
                AppearanceListItem::Field(f) => Some(f),
                _ => None,
            }
        } else {
            None
        }
    }

    /// The selected field, if a field is selected.
    pub fn selected_field_of(&self) -> (r: Option<AppearanceField>)
        ensures
            r == self.selected_field(),
    {
        match self.selected_item() {
            Some(AppearanceListItem::Field(f)) => Some(f),
            _ => None,
        }
    }

    /// Whether `after` is this model after an edit of the selected field
    /// was begun. A boolean is toggled and an enum stepped at once; for
    /// any other field the dialog opens with the value as text, unless the
    /// value is a gradient.
    pub open spec fn started_edit(self, after: AppearanceViewModel) -> bool {
        match self.selected_field() {
            Some(f) => match field_value(self.settings@, f) {
                FieldValueView::Boolean(_) => after.pending() == toggled(self.pending(), f)
                    && self.same_but_pending(after),
                FieldValueView::Enum(current) => after.pending() == assigned(
                    self.pending(),
                    f,
                    FieldValueView::Enum(current.after()),
                ) && self.same_but_pending(after),
                value => match edit_text(value) {
                    Some(text) => after.edit_mode matches Some(edit) && edit.field == f
                        && edit.value@ == text && edit.cursor == text.len() && edit.color_state
                        is None && after == (AppearanceViewModel {
                        edit_mode: after.edit_mode,
                        ..self
                    }),
                    None => after == self,
                },
            },
            None => after == self,
        }
    }

    /// Begins an edit of the selected field. Gives the validation error
    /// where the field holds a gradient.
    pub fn start_edit(&mut self) -> (r: Result<(), ConfigError>)
        ensures
            old(self).started_edit(*final(self)),
            match old(self).selected_field() {
                Some(f) => match edit_text(field_value(old(self).settings@, f)) {
                    Some(_) => r is Ok,
                    None => r matches Err(ConfigError::Validation(m)) && m@
                        == "Gradient editing not supported yet"@,
                },
                None => r is Ok,
            },
    {
        let field = match self.selected_field_of() {
            Some(f) => f,
            None => {
                return Ok(());
            },
        };
        let text = match self.get_field_value(field) {
            FieldValue::Boolean(b) => {
                self.set_field_value(field, FieldValue::Boolean(!b));
                return Ok(());
            },
            FieldValue::Enum(current) => {
                self.set_field_value(field, FieldValue::Enum(current.next()));
                return Ok(());
            },
            FieldValue::Integer(n) => decimal(n as i64),
            FieldValue::OptionalInteger(Some(n)) => decimal(n as i64),
            FieldValue::OptionalInteger(None) => String::new(),
            FieldValue::Color(ColorValue::Solid(c)) => c,
            FieldValue::Color(ColorValue::Gradient { .. }) => {
                return Err(
                    ConfigError::Validation("Gradient editing not supported yet".to_owned()),
                );
            },
            FieldValue::String(s) => s,
        };
        self.edit_mode = Some(AppearanceEditMode::new(field, text.as_str()));
        Ok(())
    }

    /// Whether `after` is this model after the edit dialog was confirmed:
    /// the field has the value that the trimmed text gives, and the dialog
    /// is closed. A dialog whose text gives no value stays open.
    pub open spec fn confirmed_edit(self, after: AppearanceViewModel) -> bool {
        match self.edit_mode {
            Some(edit) => match edited_value(
                edit.field,
                trimmed(edit.value@),
                i32_of(trimmed(edit.value@)),
            ) {
                Ok(v) => after.pending() == assigned(self.pending(), edit.field, v)
                    && after.edit_mode is None && after.original_settings == self.original_settings
                    && after.selected_index == self.selected_index && after.scroll_offset
                    == self.scroll_offset && after.collapsed_sections == self.collapsed_sections,
                Err(_) => after == self,
            },
            None => after == self,
        }
    }

    /// Confirms the edit dialog. Gives the validation error where the text
    /// gives no value for the field.
    pub fn confirm_edit(&mut self) -> (r: Result<(), ConfigError>)
        ensures
            old(self).confirmed_edit(*final(self)),
            match old(self).edit_mode {
                Some(edit) => match edited_value(
                    edit.field,
                    trimmed(edit.value@),
                    i32_of(trimmed(edit.value@)),
                ) {
                    Ok(_) => r is Ok,
                    Err(m) => r matches Err(ConfigError::Validation(message)) && message@ == m,
                },
                None => r is Ok,
            },
    {
        let (field, outcome) = match &self.edit_mode {
            Some(edit) => {
                let text = trim(edit.value.as_str());
                let number = parse_i32(text.as_str());
                (edit.field, value_from_edit(edit.field, text.as_str(), number))
            },
            None => {
                return Ok(());
            },
        };
        match outcome {
            Ok(value) => {
                self.set_field_value(field, value);
                self.edit_mode = None;
                Ok(())
            },
            Err(e) => Err(e),
        }
    }

    /// Toggles the selected field if it is a boolean.
    pub fn toggle_selected(&mut self)
        ensures
            old(self).same_but_pending(*final(self)),
            final(self).pending() == match old(self).selected_field() {
                Some(f) => toggled(old(self).pending(), f),
                None => old(self).pending(),
            },
    {
        match self.selected_field_of() {
            Some(field) => {
                if field.is_boolean() {
                    self.toggle_boolean(field);
                }
            },
            None => {},
        }
    }

    /// Changes the selected field by `amount` if it is a number.
    pub fn adjust_selected(&mut self, amount: i32)
        ensures
            old(self).same_but_pending(*final(self)),
            final(self).pending() == match old(self).selected_field() {
                Some(f) => incremented(old(self).pending(), f, amount),
                None => old(self).pending(),
            },
    {
        match self.selected_field_of() {
            Some(field) => {
                if field.is_integer() {
                    self.increment_field(field, amount);
                }
            },
            None => {},
        }
    }

    /// Steps the selected field forward or backward if it is an enum.
    pub fn cycle_selected(&mut self, forward: bool)
        ensures
            old(self).same_but_pending(*final(self)),
            final(self).pending() == match old(self).selected_field() {
                Some(f) => cycled(old(self).pending(), f, forward),
                None => old(self).pending(),
            },
    {
        match self.selected_field_of() {
            Some(field) => {
                if field.is_enum() {
                    self.cycle_enum(field, forward);
                }
            },
            None => {},
        }
    }
}

} // verus!
