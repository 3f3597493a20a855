//! The sections and fields of the appearance settings, and the values that
//! a field can take.

use vstd::prelude::*;
use crate::model::appearance::{CenterFocusedColumn, ColorValue, ColorView};
use crate::text::{decimal, decimal_of};

verus! {

/// The sections of the list of appearance settings.
#[derive(Debug, Clone, Copy, PartialEq, Eq, Hash, Structural)]
pub enum AppearanceSection {
    General,
    FocusRing,
    Border,
    Shadow,
    Struts,
}

/// The fields that can be edited.
#[derive(Debug, Clone, Copy, PartialEq, Eq, Hash, Structural)]
pub enum AppearanceField {
    Gaps,
    CenterFocusedColumn,
    FocusRingOff,
    FocusRingWidth,
    FocusRingActiveColor,
    FocusRingInactiveColor,
    BorderOff,
    BorderWidth,
    BorderActiveColor,
    BorderInactiveColor,
    BorderUrgentColor,
    ShadowOn,
    ShadowDrawBehindWindow,
    ShadowSoftness,
    ShadowSpread,
    ShadowOffsetX,
    ShadowOffsetY,
    ShadowColor,
    StrutsLeft,
    StrutsRight,
    StrutsTop,
    StrutsBottom,
}

impl AppearanceSection {
    /// All sections, in display order.
    pub open spec fn every() -> Seq<AppearanceSection> {
        seq![
            AppearanceSection::General,
            AppearanceSection::FocusRing,
            AppearanceSection::Border,
            AppearanceSection::Shadow,
            AppearanceSection::Struts,
        ]
    }

    /// The title of a section.
    pub open spec fn title(self) -> Seq<char> {
        match self {
            AppearanceSection::General => "General"@,
            AppearanceSection::FocusRing => "Focus Ring"@,
            AppearanceSection::Border => "Border"@,
            AppearanceSection::Shadow => "Shadow"@,
            AppearanceSection::Struts => "Struts"@,
        }
    }

    /// The fields of a section, in display order.
    pub open spec fn members(self) -> Seq<AppearanceField> {
        match self {
            AppearanceSection::General => seq![
                AppearanceField::Gaps,
                AppearanceField::CenterFocusedColumn,
            ],
            AppearanceSection::FocusRing => seq![
                AppearanceField::FocusRingOff,
                AppearanceField::FocusRingWidth,
                AppearanceField::FocusRingActiveColor,
                AppearanceField::FocusRingInactiveColor,
            ],
            AppearanceSection::Border => seq![
                AppearanceField::BorderOff,
                AppearanceField::BorderWidth,
                AppearanceField::BorderActiveColor,
                AppearanceField::BorderInactiveColor,
                AppearanceField::BorderUrgentColor,
            ],
            AppearanceSection::Shadow => seq![
                AppearanceField::ShadowOn,
                AppearanceField::ShadowDrawBehindWindow,
                AppearanceField::ShadowSoftness,
                AppearanceField::ShadowSpread,
                AppearanceField::ShadowOffsetX,
                AppearanceField::ShadowOffsetY,
                AppearanceField::ShadowColor,
            ],
            AppearanceSection::Struts => seq![
                AppearanceField::StrutsLeft,
                AppearanceField::StrutsRight,
                AppearanceField::StrutsTop,
                AppearanceField::StrutsBottom,
            ],
        }
    }

    pub fn all() -> (r: &'static [AppearanceSection])
        ensures
            r@ == AppearanceSection::every(),
    {
        &[
            AppearanceSection::General,
            AppearanceSection::FocusRing,
            AppearanceSection::Border,
            AppearanceSection::Shadow,
            AppearanceSection::Struts,
        ]
    }

    pub fn name(&self) -> (r: &'static str)
        ensures
            r@ == self.title(),
    {
        match self {
            AppearanceSection::General => "General",
            AppearanceSection::FocusRing => "Focus Ring",
            AppearanceSection::Border => "Border",
            AppearanceSection::Shadow => "Shadow",
            AppearanceSection::Struts => "Struts",
        }
    }

    /// The fields of this section; each of them belongs to it.
    pub fn fields(&self) -> (r: &'static [AppearanceField])
        ensures
            r@ == self.members(),
            forall|i: int| 0 <= i < r@.len() ==> (#[trigger] r@[i]).part_of() == *self,
    {
        match self {
            AppearanceSection::General => &[
                AppearanceField::Gaps,
                AppearanceField::CenterFocusedColumn,
            ],
            AppearanceSection::FocusRing => &[
                AppearanceField::FocusRingOff,
                AppearanceField::FocusRingWidth,
                AppearanceField::FocusRingActiveColor,
                AppearanceField::FocusRingInactiveColor,
            ],
            AppearanceSection::Border => &[
                AppearanceField::BorderOff,
                AppearanceField::BorderWidth,
                AppearanceField::BorderActiveColor,
                AppearanceField::BorderInactiveColor,
                AppearanceField::BorderUrgentColor,
            ],
            AppearanceSection::Shadow => &[
                AppearanceField::ShadowOn,
                AppearanceField::ShadowDrawBehindWindow,
                AppearanceField::ShadowSoftness,
                AppearanceField::ShadowSpread,
                AppearanceField::ShadowOffsetX,
                AppearanceField::ShadowOffsetY,
                AppearanceField::ShadowColor,
            ],
            AppearanceSection::Struts => &[
                AppearanceField::StrutsLeft,
                AppearanceField::StrutsRight,
                AppearanceField::StrutsTop,
                AppearanceField::StrutsBottom,
            ],
        }
    }
}

/// The kind of value that a field holds.
#[derive(Debug, Clone, Copy, PartialEq, Eq, Structural)]
pub enum FieldKind {
    Boolean,
    Integer,
    OptionalInteger,
    Enum,
    Color,
}

impl AppearanceField {
    /// The name of a field within its section.
    pub open spec fn label(self) -> Seq<char> {
        match self {
            AppearanceField::Gaps => "gaps"@,
            AppearanceField::CenterFocusedColumn => "center-focused-column"@,
            AppearanceField::FocusRingOff => "off"@,
            AppearanceField::FocusRingWidth => "width"@,
            AppearanceField::FocusRingActiveColor => "active-color"@,
            AppearanceField::FocusRingInactiveColor => "inactive-color"@,
            AppearanceField::BorderOff => "off"@,
            AppearanceField::BorderWidth => "width"@,
            AppearanceField::BorderActiveColor => "active-color"@,
            AppearanceField::BorderInactiveColor => "inactive-color"@,
            AppearanceField::BorderUrgentColor => "urgent-color"@,
            AppearanceField::ShadowOn => "on"@,
            AppearanceField::ShadowDrawBehindWindow => "draw-behind-window"@,
            AppearanceField::ShadowSoftness => "softness"@,
            AppearanceField::ShadowSpread => "spread"@,
            AppearanceField::ShadowOffsetX => "offset x"@,
            AppearanceField::ShadowOffsetY => "offset y"@,
            AppearanceField::ShadowColor => "color"@,
            AppearanceField::StrutsLeft => "left"@,
            AppearanceField::StrutsRight => "right"@,
            AppearanceField::StrutsTop => "top"@,
            AppearanceField::StrutsBottom => "bottom"@,
        }
    }

    /// What a field is for.
    pub open spec fn explanation(self) -> Seq<char> {
        match self {
            AppearanceField::Gaps => "Gap size between windows in logical pixels"@,
            AppearanceField::CenterFocusedColumn => "When to center the focused column: never, always, or on-overflow"@,
            AppearanceField::FocusRingOff => "Disable the focus ring entirely"@,
            AppearanceField::FocusRingWidth => "Width of the focus ring in logical pixels"@,
            AppearanceField::FocusRingActiveColor => "Color of the focus ring on the active monitor"@,
            AppearanceField::FocusRingInactiveColor => "Color of the focus ring on inactive monitors"@,
            AppearanceField::BorderOff => "Disable/enable the border (off by default)"@,
            AppearanceField::BorderWidth => "Width of the border in logical pixels"@,
            AppearanceField::BorderActiveColor => "Color of the border on the active window"@,
            AppearanceField::BorderInactiveColor => "Color of the border on inactive windows"@,
            AppearanceField::BorderUrgentColor => "Color of the border for urgent windows"@,
            AppearanceField::ShadowOn => "Enable drop shadows for windows"@,
            AppearanceField::ShadowDrawBehindWindow => "Draw shadow behind the window (fixes CSD corners)"@,
            AppearanceField::ShadowSoftness => "Shadow blur radius in logical pixels"@,
            AppearanceField::ShadowSpread => "Shadow expansion in logical pixels"@,
            AppearanceField::ShadowOffsetX => "Horizontal shadow offset in logical pixels"@,
            AppearanceField::ShadowOffsetY => "Vertical shadow offset in logical pixels"@,
            AppearanceField::ShadowColor => "Shadow color (supports alpha, e.g. #0007)"@,
            AppearanceField::StrutsLeft => "Left strut (outer gap) in logical pixels"@,
            AppearanceField::StrutsRight => "Right strut (outer gap) in logical pixels"@,
            AppearanceField::StrutsTop => "Top strut (outer gap) in logical pixels"@,
            AppearanceField::StrutsBottom => "Bottom strut (outer gap) in logical pixels"@,
        }
    }

    /// The section that a field belongs to.
    pub open spec fn part_of(self) -> AppearanceSection {
        match self {
            AppearanceField::Gaps | AppearanceField::CenterFocusedColumn => {
                AppearanceSection::General
            },
            AppearanceField::FocusRingOff
            | AppearanceField::FocusRingWidth
            | AppearanceField::FocusRingActiveColor
            | AppearanceField::FocusRingInactiveColor => AppearanceSection::FocusRing,
            AppearanceField::BorderOff
            | AppearanceField::BorderWidth
            | AppearanceField::BorderActiveColor
            | AppearanceField::BorderInactiveColor
            | AppearanceField::BorderUrgentColor => AppearanceSection::Border,
            AppearanceField::ShadowOn
            | AppearanceField::ShadowDrawBehindWindow
            | AppearanceField::ShadowSoftness
            | AppearanceField::ShadowSpread
            | AppearanceField::ShadowOffsetX
            | AppearanceField::ShadowOffsetY
            | AppearanceField::ShadowColor => AppearanceSection::Shadow,
            AppearanceField::StrutsLeft
            | AppearanceField::StrutsRight
            | AppearanceField::StrutsTop
            | AppearanceField::StrutsBottom => AppearanceSection::Struts,
        }
    }

    /// The kind of value that a field holds.
    pub open spec fn kind(self) -> FieldKind {
        match self {
            AppearanceField::FocusRingOff
            | AppearanceField::BorderOff
            | AppearanceField::ShadowOn
            | AppearanceField::ShadowDrawBehindWindow => FieldKind::Boolean,
            AppearanceField::CenterFocusedColumn => FieldKind::Enum,
            AppearanceField::FocusRingActiveColor
            | AppearanceField::FocusRingInactiveColor
            | AppearanceField::BorderActiveColor
            | AppearanceField::BorderInactiveColor
            | AppearanceField::BorderUrgentColor
            | AppearanceField::ShadowColor => FieldKind::Color,
            AppearanceField::StrutsLeft
            | AppearanceField::StrutsRight
            | AppearanceField::StrutsTop
            | AppearanceField::StrutsBottom => FieldKind::OptionalInteger,
            _ => FieldKind::Integer,
        }
    }

    pub fn name(&self) -> (r: &'static str)
        ensures
            r@ == self.label(),
    {
        match self {
            AppearanceField::Gaps => "gaps",
            AppearanceField::CenterFocusedColumn => "center-focused-column",
            AppearanceField::FocusRingOff => "off",
            AppearanceField::FocusRingWidth => "width",
            AppearanceField::FocusRingActiveColor => "active-color",
            AppearanceField::FocusRingInactiveColor => "inactive-color",
            AppearanceField::BorderOff => "off",
            AppearanceField::BorderWidth => "width",
            AppearanceField::BorderActiveColor => "active-color",
            AppearanceField::BorderInactiveColor => "inactive-color",
            AppearanceField::BorderUrgentColor => "urgent-color",
            AppearanceField::ShadowOn => "on",
            AppearanceField::ShadowDrawBehindWindow => "draw-behind-window",
            AppearanceField::ShadowSoftness => "softness",
            AppearanceField::ShadowSpread => "spread",
            AppearanceField::ShadowOffsetX => "offset x",
            AppearanceField::ShadowOffsetY => "offset y",
            AppearanceField::ShadowColor => "color",
            AppearanceField::StrutsLeft => "left",
            AppearanceField::StrutsRight => "right",
            AppearanceField::StrutsTop => "top",
            AppearanceField::StrutsBottom => "bottom",
        }
    }

    pub fn description(&self) -> (r: &'static str)
        ensures
            r@ == self.explanation(),
    {
        match self {
            AppearanceField::Gaps => "Gap size between windows in logical pixels",
            AppearanceField::CenterFocusedColumn => "When to center the focused column: never, always, or on-overflow",
            AppearanceField::FocusRingOff => "Disable the focus ring entirely",
            AppearanceField::FocusRingWidth => "Width of the focus ring in logical pixels",
            AppearanceField::FocusRingActiveColor => "Color of the focus ring on the active monitor",
            AppearanceField::FocusRingInactiveColor => "Color of the focus ring on inactive monitors",
            AppearanceField::BorderOff => "Disable/enable the border (off by default)",
            AppearanceField::BorderWidth => "Width of the border in logical pixels",
            AppearanceField::BorderActiveColor => "Color of the border on the active window",
            AppearanceField::BorderInactiveColor => "Color of the border on inactive windows",
            AppearanceField::BorderUrgentColor => "Color of the border for urgent windows",
            AppearanceField::ShadowOn => "Enable drop shadows for windows",
            AppearanceField::ShadowDrawBehindWindow => "Draw shadow behind the window (fixes CSD corners)",
            AppearanceField::ShadowSoftness => "Shadow blur radius in logical pixels",
            AppearanceField::ShadowSpread => "Shadow expansion in logical pixels",
            AppearanceField::ShadowOffsetX => "Horizontal shadow offset in logical pixels",
            AppearanceField::ShadowOffsetY => "Vertical shadow offset in logical pixels",
            AppearanceField::ShadowColor => "Shadow color (supports alpha, e.g. #0007)",
            AppearanceField::StrutsLeft => "Left strut (outer gap) in logical pixels",
            AppearanceField::StrutsRight => "Right strut (outer gap) in logical pixels",
            AppearanceField::StrutsTop => "Top strut (outer gap) in logical pixels",
            AppearanceField::StrutsBottom => "Bottom strut (outer gap) in logical pixels",
        }
    }

    pub fn section(&self) -> (r: AppearanceSection)
        ensures
            r == self.part_of(),
    {
        match self {
            AppearanceField::Gaps | AppearanceField::CenterFocusedColumn => {
                AppearanceSection::General
            },
            AppearanceField::FocusRingOff
            | AppearanceField::FocusRingWidth
            | AppearanceField::FocusRingActiveColor
            | AppearanceField::FocusRingInactiveColor => AppearanceSection::FocusRing,
            AppearanceField::BorderOff
            | AppearanceField::BorderWidth
            | AppearanceField::BorderActiveColor
            | AppearanceField::BorderInactiveColor
            | AppearanceField::BorderUrgentColor => AppearanceSection::Border,
            AppearanceField::ShadowOn
            | AppearanceField::ShadowDrawBehindWindow
            | AppearanceField::ShadowSoftness
            | AppearanceField::ShadowSpread
            | AppearanceField::ShadowOffsetX
            | AppearanceField::ShadowOffsetY
            | AppearanceField::ShadowColor => AppearanceSection::Shadow,
            AppearanceField::StrutsLeft
            | AppearanceField::StrutsRight
            | AppearanceField::StrutsTop
            | AppearanceField::StrutsBottom => AppearanceSection::Struts,
        }
    }

    /// Whether the field is switched on and off.
    pub fn is_boolean(&self) -> (r: bool)
        ensures
            r == (self.kind() == FieldKind::Boolean),
    {
        match self {
            AppearanceField::FocusRingOff
            | AppearanceField::BorderOff
            | AppearanceField::ShadowOn
            | AppearanceField::ShadowDrawBehindWindow => true,
            _ => false,
        }
    }

    /// Whether `true` means "disabled" for this field, so that it is shown
    /// inverted.
    pub fn is_off_semantic(&self) -> (r: bool)
        ensures
            r == (*self == AppearanceField::FocusRingOff || *self == AppearanceField::BorderOff),
    {
        match self {
            AppearanceField::FocusRingOff | AppearanceField::BorderOff => true,
            _ => false,
        }
    }

    /// Whether the field holds one of a few keywords.
    pub fn is_enum(&self) -> (r: bool)
        ensures
            r == (self.kind() == FieldKind::Enum),
    {
        match self {
            AppearanceField::CenterFocusedColumn => true,
            _ => false,
        }
    }

    /// Whether the field holds a colour.
    pub fn is_color(&self) -> (r: bool)
        ensures
            r == (self.kind() == FieldKind::Color),
    {
        match self {
            AppearanceField::FocusRingActiveColor
            | AppearanceField::FocusRingInactiveColor
            | AppearanceField::BorderActiveColor
            | AppearanceField::BorderInactiveColor
            | AppearanceField::BorderUrgentColor
            | AppearanceField::ShadowColor => true,
            _ => false,
        }
    }

    /// Whether the field holds a number, struts included.
    pub fn is_integer(&self) -> (r: bool)
        ensures
            r == (self.kind() == FieldKind::Integer || self.kind() == FieldKind::OptionalInteger),
    {
        match self {
            AppearanceField::Gaps
            | AppearanceField::FocusRingWidth
            | AppearanceField::BorderWidth
            | AppearanceField::ShadowSoftness
            | AppearanceField::ShadowSpread
            | AppearanceField::ShadowOffsetX
            | AppearanceField::ShadowOffsetY
            | AppearanceField::StrutsLeft
            | AppearanceField::StrutsRight
            | AppearanceField::StrutsTop
            | AppearanceField::StrutsBottom => true,
            _ => false,
        }
    }
}

/// The value of a field.
#[derive(Debug, PartialEq, Eq)]
pub enum FieldValue {
    Boolean(bool),
    Integer(i32),
    OptionalInteger(Option<i32>),
    String(String),
    Enum(CenterFocusedColumn),
    Color(ColorValue),
}

/// What a `FieldValue` holds.
pub enum FieldValueView {
    Boolean(bool),
    Integer(i32),
    OptionalInteger(Option<i32>),
    Text(Seq<char>),
    Enum(CenterFocusedColumn),
    Color(ColorView),
}

impl FieldValueView {
    /// The value as it is shown.
    pub open spec fn shown(self) -> Seq<char> {
        match self {
            FieldValueView::Boolean(b) => if b {
                "on"@
            } else {
                "off"@
            },
            FieldValueView::Integer(n) => decimal_of(n as i64),
            FieldValueView::OptionalInteger(Some(n)) => decimal_of(n as i64),
            FieldValueView::OptionalInteger(None) => "(not set)"@,
            FieldValueView::Text(s) => s,
            FieldValueView::Enum(e) => e.keyword(),
            FieldValueView::Color(c) => c.shown(),
        }
    }
}

impl View for FieldValue {
    type V = FieldValueView;

    open spec fn view(&self) -> FieldValueView {
        match self {
            FieldValue::Boolean(b) => FieldValueView::Boolean(*b),
            FieldValue::Integer(n) => FieldValueView::Integer(*n),
            FieldValue::OptionalInteger(o) => FieldValueView::OptionalInteger(*o),
            FieldValue::String(s) => FieldValueView::Text(s@),
            FieldValue::Enum(e) => FieldValueView::Enum(*e),
            FieldValue::Color(c) => FieldValueView::Color(c@),
        }
    }
}

impl Clone for FieldValue {
    fn clone(&self) -> (r: Self)
        ensures
            r@ == self@,
    {
        match self {
            FieldValue::Boolean(b) => FieldValue::Boolean(*b),
            FieldValue::Integer(n) => FieldValue::Integer(*n),
            FieldValue::OptionalInteger(o) => FieldValue::OptionalInteger(*o),
            FieldValue::String(s) => FieldValue::String(s.clone()),
            FieldValue::Enum(e) => FieldValue::Enum(*e),
            FieldValue::Color(c) => FieldValue::Color(c.clone()),
        }
    }
}

impl FieldValue {
    /// The value as text.
    pub fn to_string(&self) -> (r: String)
        ensures
            r@ == self@.shown(),
    {
        match self {
            FieldValue::Boolean(b) => if *b {
                "on".to_owned()
            } else {
                "off".to_owned()
            },
            FieldValue::Integer(n) => decimal(*n as i64),
            FieldValue::OptionalInteger(o) => match o {
                Some(n) => decimal(*n as i64),
                None => "(not set)".to_owned(),
            },
            FieldValue::String(s) => s.clone(),
            FieldValue::Enum(e) => e.to_string(),
            FieldValue::Color(c) => c.to_string(),
        }
    }
}

/// One pending change of a setting.
#[derive(Debug, PartialEq, Eq)]
pub struct AppearanceChange {
    pub field: AppearanceField,
    pub value: FieldValue,
}

/// What an `AppearanceChange` holds.
pub struct ChangeOfField {
    pub field: AppearanceField,
    pub value: FieldValueView,
}

impl View for AppearanceChange {
    type V = ChangeOfField;

    open spec fn view(&self) -> ChangeOfField {
        ChangeOfField { field: self.field, value: self.value@ }
    }
}

impl Clone for AppearanceChange {
    fn clone(&self) -> (r: Self)
        ensures
            r@ == self@,
    {
        AppearanceChange { field: self.field, value: self.value.clone() }
    }
}

} // verus!
