//! The appearance settings of the layout block.

use vstd::prelude::*;
use crate::text::{decimal, decimal_of, text_eq};

verus! {

/// A colour: a solid one, or a gradient. In the document the two are
/// mutually exclusive for one slot.
#[derive(Debug, PartialEq, Eq)]
pub enum ColorValue {
    Solid(String),
    Gradient {
        from: String,
        to: String,
        angle: Option<i32>,
        relative_to: Option<String>,
        color_space: Option<String>,
    },
}

/// What a `ColorValue` holds.
pub enum ColorView {
    Solid(Seq<char>),
    Gradient {
        from: Seq<char>,
        to: Seq<char>,
        angle: Option<i32>,
        relative_to: Option<Seq<char>>,
        color_space: Option<Seq<char>>,
    },
}

/// The view of an optional text.
pub open spec fn optional_text(s: Option<String>) -> Option<Seq<char>> {
    match s {
        Some(t) => Some(t@),
        None => None,
    }
}

/// The view of an optional colour.
pub open spec fn optional_color(c: Option<ColorValue>) -> Option<ColorView> {
    match c {
        Some(v) => Some(v@),
        None => None,
    }
}

impl ColorView {
    /// The colour as it is shown, given the angle as text: a solid colour
    /// as it is, a gradient as `gradient(from=.. to=.. angle=..
    /// relative-to=.. in=..)` with the parts that are set.
    pub open spec fn shown_with(self, angle_text: Option<Seq<char>>) -> Seq<char> {
        match self {
            ColorView::Solid(c) => c,
            ColorView::Gradient { from, to, relative_to, color_space, .. } => "gradient("@
                + "from="@ + from + " to="@ + to + (match angle_text {
                Some(a) => " angle="@ + a,
                None => Seq::empty(),
            }) + (match relative_to {
                Some(r) => " relative-to="@ + r,
                None => Seq::empty(),
            }) + (match color_space {
                Some(c) => " in="@ + c,
                None => Seq::empty(),
            }) + ")"@,
        }
    }

    /// The angle of a gradient in decimal, if the colour is a gradient
    /// with an angle.
    pub open spec fn angle_text(self) -> Option<Seq<char>> {
        match self {
            ColorView::Gradient { angle: Some(a), .. } => Some(decimal_of(a as i64)),
            _ => None,
        }
    }

    /// The colour as it is shown.
    pub open spec fn shown(self) -> Seq<char> {
        self.shown_with(self.angle_text())
    }
}

impl View for ColorValue {
    type V = ColorView;

    open spec fn view(&self) -> ColorView {
        match self {
            ColorValue::Solid(c) => ColorView::Solid(c@),
            ColorValue::Gradient { from, to, angle, relative_to, color_space } => {
                ColorView::Gradient {
                    from: from@,
                    to: to@,
                    angle: *angle,
                    relative_to: optional_text(*relative_to),
                    color_space: optional_text(*color_space),
                }
            },
        }
    }
}

/// A copy of an optional text.
pub fn clone_optional_text(s: &Option<String>) -> (r: Option<String>)
    ensures
        optional_text(r) == optional_text(*s),
{
    match s {
        Some(t) => Some(t.clone()),
        None => None,
    }
}

/// A copy of an optional colour.
pub fn clone_optional_color(c: &Option<ColorValue>) -> (r: Option<ColorValue>)
    ensures
        optional_color(r) == optional_color(*c),
{
    match c {
        Some(v) => Some(v.clone()),
        None => None,
    }
}

impl Clone for ColorValue {
    fn clone(&self) -> (r: Self)
        ensures
            r@ == self@,
    {
        match self {
            ColorValue::Solid(c) => ColorValue::Solid(c.clone()),
            ColorValue::Gradient { from, to, angle, relative_to, color_space } => {
                ColorValue::Gradient {
                    from: from.clone(),
                    to: to.clone(),
                    angle: *angle,
                    relative_to: clone_optional_text(relative_to),
                    color_space: clone_optional_text(color_space),
                }
            },
        }
    }
}

impl Default for ColorValue {
    fn default() -> (r: Self)
        ensures
            r@ == ColorView::Solid("#ffffff"@),
    {
        ColorValue::Solid("#ffffff".to_owned())
    }
}

impl ColorValue {
    /// The colour as text, given the angle as text.
    pub fn to_string_with(&self, angle_text: Option<&str>) -> (r: String)
        ensures
            r@ == self@.shown_with(
                match angle_text {
                    Some(a) => Some(a@),
                    None => None,
                },
            ),
    {
        match self {
            ColorValue::Solid(c) => c.clone(),
            ColorValue::Gradient { from, to, relative_to, color_space, .. } => {
                let mut r = "gradient(".to_owned();
                r.append("from=");
                r.append(from.as_str());
                r.append(" to=");
                r.append(to.as_str());
                match angle_text {
                    Some(a) => {
                        r.append(" angle=");
                        r.append(a);
                    },
                    None => {},
                }
                match relative_to {
                    Some(t) => {
                        r.append(" relative-to=");
                        r.append(t.as_str());
                    },
                    None => {},
                }
                match color_space {
                    Some(c) => {
                        r.append(" in=");
                        r.append(c.as_str());
                    },
                    None => {},
                }
                r.append(")");
                assert(r@ =~= self@.shown_with(
                    match angle_text {
                        Some(a) => Some(a@),
                        None => None,
                    },
                ));
                r
            },
        }
    }

    /// The colour as text.
    pub fn to_string(&self) -> (r: String)
        ensures
            r@ == self@.shown(),
    {
        match self {
            ColorValue::Gradient { angle: Some(a), .. } => {
                let text = decimal(*a as i64);
                self.to_string_with(Some(text.as_str()))
            },
            _ => self.to_string_with(None),
        }
    }
}

/// When the focused column is centred.
#[derive(Debug, Clone, Copy, PartialEq, Eq, Structural)]
pub enum CenterFocusedColumn {
    Never,
    Always,
    OnOverflow,
}

impl Default for CenterFocusedColumn {
    fn default() -> (r: Self)
        ensures
            r == CenterFocusedColumn::Never,
    {
        CenterFocusedColumn::Never
    }
}

impl CenterFocusedColumn {
    /// The keyword of a value.
    pub open spec fn keyword(self) -> Seq<char> {
        match self {
            CenterFocusedColumn::Never => "never"@,
            CenterFocusedColumn::Always => "always"@,
            CenterFocusedColumn::OnOverflow => "on-overflow"@,
        }
    }

    /// The value that a keyword names.
    pub open spec fn of_keyword(s: Seq<char>) -> Option<CenterFocusedColumn> {
        if s == "never"@ {
            Some(CenterFocusedColumn::Never)
        } else if s == "always"@ {
            Some(CenterFocusedColumn::Always)
        } else if s == "on-overflow"@ {
            Some(CenterFocusedColumn::OnOverflow)
        } else {
            None
        }
    }

    /// The value after this one, in a cycle.
    pub open spec fn after(self) -> CenterFocusedColumn {
        match self {
            CenterFocusedColumn::Never => CenterFocusedColumn::Always,
            CenterFocusedColumn::Always => CenterFocusedColumn::OnOverflow,
            CenterFocusedColumn::OnOverflow => CenterFocusedColumn::Never,
        }
    }

    /// The value before this one, in the same cycle.
    pub open spec fn before(self) -> CenterFocusedColumn {
        match self {
            CenterFocusedColumn::Never => CenterFocusedColumn::OnOverflow,
            CenterFocusedColumn::Always => CenterFocusedColumn::Never,
            CenterFocusedColumn::OnOverflow => CenterFocusedColumn::Always,
        }
    }

    pub fn as_str(&self) -> (r: &'static str)
        ensures
            r@ == self.keyword(),
    {
        match self {
            CenterFocusedColumn::Never => "never",
            CenterFocusedColumn::Always => "always",
            CenterFocusedColumn::OnOverflow => "on-overflow",
        }
    }

    pub fn from_str(s: &str) -> (r: Option<Self>)
        ensures
            r == CenterFocusedColumn::of_keyword(s@),
    {
        if text_eq(s, "never") {
            Some(CenterFocusedColumn::Never)
        } else if text_eq(s, "always") {
            Some(CenterFocusedColumn::Always)
        } else if text_eq(s, "on-overflow") {
            Some(CenterFocusedColumn::OnOverflow)
        } else {
            None
        }
    }

    pub fn next(&self) -> (r: Self)
        ensures
            r == self.after(),
    {
        match self {
            CenterFocusedColumn::Never => CenterFocusedColumn::Always,
            CenterFocusedColumn::Always => CenterFocusedColumn::OnOverflow,
            CenterFocusedColumn::OnOverflow => CenterFocusedColumn::Never,
        }
    }

    /// The value before this one: the one whose successor this is.
    pub fn prev(&self) -> (r: Self)
        ensures
            r == self.before(),
            r.after() == *self,
    {
        match self {
            CenterFocusedColumn::Never => CenterFocusedColumn::OnOverflow,
            CenterFocusedColumn::Always => CenterFocusedColumn::Never,
            CenterFocusedColumn::OnOverflow => CenterFocusedColumn::Always,
        }
    }

    /// The keyword as an owned text.
    pub fn to_string(&self) -> (r: String)
        ensures
            r@ == self.keyword(),
    {
        self.as_str().to_owned()
    }
}

/// The settings of the focus ring.
#[derive(Debug, PartialEq, Eq)]
pub struct FocusRingSettings {
    pub off: bool,
    pub width: i32,
    pub active_color: ColorValue,
    pub inactive_color: ColorValue,
    /// The gradient that was read for the active colour, if one was.
    pub active_gradient: Option<ColorValue>,
    /// The gradient that was read for the inactive colour, if one was.
    pub inactive_gradient: Option<ColorValue>,
}

/// What `FocusRingSettings` hold.
pub struct FocusRingView {
    pub off: bool,
    pub width: i32,
    pub active_color: ColorView,
    pub inactive_color: ColorView,
    pub active_gradient: Option<ColorView>,
    pub inactive_gradient: Option<ColorView>,
}

impl FocusRingView {
    /// The settings that hold where the document says nothing.
    pub open spec fn initial() -> FocusRingView {
        FocusRingView {
            off: false,
            width: 4,
            active_color: ColorView::Solid("#7fc8ff"@),
            inactive_color: ColorView::Solid("#505050"@),
            active_gradient: None,
            inactive_gradient: None,
        }
    }
}

impl View for FocusRingSettings {
    type V = FocusRingView;

    open spec fn view(&self) -> FocusRingView {
        FocusRingView {
            off: self.off,
            width: self.width,
            active_color: self.active_color@,
            inactive_color: self.inactive_color@,
            active_gradient: optional_color(self.active_gradient),
            inactive_gradient: optional_color(self.inactive_gradient),
        }
    }
}

impl Clone for FocusRingSettings {
    fn clone(&self) -> (r: Self)
        ensures
            r@ == self@,
    {
        FocusRingSettings {
            off: self.off,
            width: self.width,
            active_color: self.active_color.clone(),
            inactive_color: self.inactive_color.clone(),
            active_gradient: clone_optional_color(&self.active_gradient),
            inactive_gradient: clone_optional_color(&self.inactive_gradient),
        }
    }
}

impl Default for FocusRingSettings {
    fn default() -> (r: Self)
        ensures
            r@ == FocusRingView::initial(),
    {
        FocusRingSettings {
            off: false,
            width: 4,
            active_color: ColorValue::Solid("#7fc8ff".to_owned()),
            inactive_color: ColorValue::Solid("#505050".to_owned()),
            active_gradient: None,
            inactive_gradient: None,
        }
    }
}

/// The settings of the border.
#[derive(Debug, PartialEq, Eq)]
pub struct BorderSettings {
    pub off: bool,
    pub width: i32,
    pub active_color: ColorValue,
    pub inactive_color: ColorValue,
    pub urgent_color: Option<ColorValue>,
    /// The gradient that was read for the active colour, if one was.
    pub active_gradient: Option<ColorValue>,
    /// The gradient that was read for the inactive colour, if one was.
    pub inactive_gradient: Option<ColorValue>,
}

/// What `BorderSettings` hold.
pub struct BorderView {
    pub off: bool,
    pub width: i32,
    pub active_color: ColorView,
    pub inactive_color: ColorView,
    pub urgent_color: Option<ColorView>,
    pub active_gradient: Option<ColorView>,
    pub inactive_gradient: Option<ColorView>,
}

impl BorderView {
    /// The settings that hold where the document says nothing.
    pub open spec fn initial() -> BorderView {
        BorderView {
            off: true,
            width: 4,
            active_color: ColorView::Solid("#ffc87f"@),
            inactive_color: ColorView::Solid("#505050"@),
            urgent_color: Some(ColorView::Solid("#9b0000"@)),
            active_gradient: None,
            inactive_gradient: None,
        }
    }
}

impl View for BorderSettings {
    type V = BorderView;

    open spec fn view(&self) -> BorderView {
        BorderView {
            off: self.off,
            width: self.width,
            active_color: self.active_color@,
            inactive_color: self.inactive_color@,
            urgent_color: optional_color(self.urgent_color),
            active_gradient: optional_color(self.active_gradient),
            inactive_gradient: optional_color(self.inactive_gradient),
        }
    }
}

impl Clone for BorderSettings {
    fn clone(&self) -> (r: Self)
        ensures
            r@ == self@,
    {
        BorderSettings {
            off: self.off,
            width: self.width,
            active_color: self.active_color.clone(),
            inactive_color: self.inactive_color.clone(),
            urgent_color: clone_optional_color(&self.urgent_color),
            active_gradient: clone_optional_color(&self.active_gradient),
            inactive_gradient: clone_optional_color(&self.inactive_gradient),
        }
    }
}

impl Default for BorderSettings {
    fn default() -> (r: Self)
        ensures
            r@ == BorderView::initial(),
    {
        BorderSettings {
            off: true,
            width: 4,
            active_color: ColorValue::Solid("#ffc87f".to_owned()),
            inactive_color: ColorValue::Solid("#505050".to_owned()),
            urgent_color: Some(ColorValue::Solid("#9b0000".to_owned())),
            active_gradient: None,
            inactive_gradient: None,
        }
    }
}

/// The settings of the shadow.
#[derive(Debug, PartialEq, Eq)]
pub struct ShadowSettings {
    pub on: bool,
    pub draw_behind_window: bool,
    pub softness: i32,
    pub spread: i32,
    pub offset_x: i32,
    pub offset_y: i32,
    pub color: ColorValue,
}

/// What `ShadowSettings` hold.
pub struct ShadowView {
    pub on: bool,
    pub draw_behind_window: bool,
    pub softness: i32,
    pub spread: i32,
    pub offset_x: i32,
    pub offset_y: i32,
    pub color: ColorView,
}

impl ShadowView {
    /// The settings that hold where the document says nothing.
    pub open spec fn initial() -> ShadowView {
        ShadowView {
            on: false,
            draw_behind_window: false,
            softness: 30,
            spread: 5,
            offset_x: 0,
            offset_y: 5,
            color: ColorView::Solid("#0007"@),
        }
    }
}

impl View for ShadowSettings {
    type V = ShadowView;

    open spec fn view(&self) -> ShadowView {
        ShadowView {
            on: self.on,
            draw_behind_window: self.draw_behind_window,
            softness: self.softness,
            spread: self.spread,
            offset_x: self.offset_x,
            offset_y: self.offset_y,
            color: self.color@,
        }
    }
}

impl Clone for ShadowSettings {
    fn clone(&self) -> (r: Self)
        ensures
            r@ == self@,
    {
        ShadowSettings {
            on: self.on,
            draw_behind_window: self.draw_behind_window,
            softness: self.softness,
            spread: self.spread,
            offset_x: self.offset_x,
            offset_y: self.offset_y,
            color: self.color.clone(),
        }
    }
}

impl Default for ShadowSettings {
    fn default() -> (r: Self)
        ensures
            r@ == ShadowView::initial(),
    {
        ShadowSettings {
            on: false,
            draw_behind_window: false,
            softness: 30,
            spread: 5,
            offset_x: 0,
            offset_y: 5,
            color: ColorValue::Solid("#0007".to_owned()),
        }
    }
}

/// The struts: outer margins reserved at the four edges of the screen,
/// each set or not on its own.
#[derive(Debug, Clone, Copy, PartialEq, Eq, Structural)]
pub struct StrutsSettings {
    pub left: Option<i32>,
    pub right: Option<i32>,
    pub top: Option<i32>,
    pub bottom: Option<i32>,
}

impl StrutsSettings {
    /// No strut is set.
    pub open spec fn initial() -> StrutsSettings {
        StrutsSettings { left: None, right: None, top: None, bottom: None }
    }
}

impl Default for StrutsSettings {
    fn default() -> (r: Self)
        ensures
            r == StrutsSettings::initial(),
    {
        StrutsSettings { left: None, right: None, top: None, bottom: None }
    }
}

/// All appearance settings of the layout block.
#[derive(Debug, PartialEq, Eq)]
pub struct AppearanceSettings {
    pub gaps: i32,
    pub center_focused_column: CenterFocusedColumn,
    pub focus_ring: FocusRingSettings,
    pub border: BorderSettings,
    pub shadow: ShadowSettings,
    pub struts: StrutsSettings,
}

/// What `AppearanceSettings` hold.
pub struct AppearanceView {
    pub gaps: i32,
    pub center_focused_column: CenterFocusedColumn,
    pub focus_ring: FocusRingView,
    pub border: BorderView,
    pub shadow: ShadowView,
    pub struts: StrutsSettings,
}

impl AppearanceView {
    /// The settings that hold where the document says nothing.
    pub open spec fn initial() -> AppearanceView {
        AppearanceView {
            gaps: 16,
            center_focused_column: CenterFocusedColumn::Never,
            focus_ring: FocusRingView::initial(),
            border: BorderView::initial(),
            shadow: ShadowView::initial(),
            struts: StrutsSettings::initial(),
        }
    }
}

impl View for AppearanceSettings {
    type V = AppearanceView;

    open spec fn view(&self) -> AppearanceView {
        AppearanceView {
            gaps: self.gaps,
            center_focused_column: self.center_focused_column,
            focus_ring: self.focus_ring@,
            border: self.border@,
            shadow: self.shadow@,
            struts: self.struts,
        }
    }
}

impl Clone for AppearanceSettings {
    fn clone(&self) -> (r: Self)
        ensures
            r@ == self@,
    {
        AppearanceSettings {
            gaps: self.gaps,
            center_focused_column: self.center_focused_column,
            focus_ring: self.focus_ring.clone(),
            border: self.border.clone(),
            shadow: self.shadow.clone(),
            struts: self.struts,
        }
    }
}

impl Default for AppearanceSettings {
    fn default() -> (r: Self)
        ensures
            r@ == AppearanceView::initial(),
    {
        AppearanceSettings {
            gaps: 16,
            center_focused_column: CenterFocusedColumn::Never,
            focus_ring: FocusRingSettings::default(),
            border: BorderSettings::default(),
            shadow: ShadowSettings::default(),
            struts: StrutsSettings::default(),
        }
    }
}

} // verus!
