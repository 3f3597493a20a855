//! The state of the dialog in which one appearance setting is edited.

use vstd::prelude::*;
use crate::model::appearance::{ColorValue, ColorView};
use crate::model::appearance_fields::AppearanceField;
use crate::text::{
    char_count, clamped, cursor_after, cursor_before, decimal, decimal_of, delete_before, erased,
    erased_cursor, i32_of, insert_at, parse_i32, text_eq, typed,
};

verus! {

/// The field of the colour editor that has the focus.
#[derive(Debug, Clone, Copy, PartialEq, Eq, Structural)]
pub enum ColorEditField {
    /// The choice between a solid colour and a gradient.
    ColorType,
    SolidColor,
    GradientFrom,
    GradientTo,
    GradientAngle,
    GradientRelativeTo,
}

impl Default for ColorEditField {
    fn default() -> (r: Self)
        ensures
            r == ColorEditField::ColorType,
    {
        ColorEditField::ColorType
    }
}

impl ColorEditField {
    /// The field after this one: the two fields of a solid colour form one
    /// cycle, the four fields of a gradient another.
    pub open spec fn after(self) -> ColorEditField {
        match self {
            ColorEditField::ColorType => ColorEditField::SolidColor,
            ColorEditField::SolidColor => ColorEditField::ColorType,
            ColorEditField::GradientFrom => ColorEditField::GradientTo,
            ColorEditField::GradientTo => ColorEditField::GradientAngle,
            ColorEditField::GradientAngle => ColorEditField::GradientRelativeTo,
            ColorEditField::GradientRelativeTo => ColorEditField::GradientFrom,
        }
    }

    /// Whether the field is shown in the given mode of the editor.
    pub open spec fn shown_in(self, is_gradient: bool) -> bool {
        match self {
            ColorEditField::ColorType => true,
            ColorEditField::SolidColor => !is_gradient,
            _ => is_gradient,
        }
    }

    /// The field after this one in the given mode. From a field that the
    /// mode does not show, the first text field of the mode comes next.
    pub open spec fn after_in(self, is_gradient: bool) -> ColorEditField {
        if is_gradient {
            match self {
                ColorEditField::ColorType => ColorEditField::GradientFrom,
                ColorEditField::GradientFrom => ColorEditField::GradientTo,
                ColorEditField::GradientTo => ColorEditField::GradientAngle,
                ColorEditField::GradientAngle => ColorEditField::GradientRelativeTo,
                ColorEditField::GradientRelativeTo => ColorEditField::ColorType,
                ColorEditField::SolidColor => ColorEditField::GradientFrom,
            }
        } else {
            match self {
                ColorEditField::SolidColor => ColorEditField::ColorType,
                _ => ColorEditField::SolidColor,
            }
        }
    }

    pub fn next(&self) -> (r: Self)
        ensures
            r == self.after(),
    {
        match self {
            ColorEditField::ColorType => ColorEditField::SolidColor,
            ColorEditField::SolidColor => ColorEditField::ColorType,
            ColorEditField::GradientFrom => ColorEditField::GradientTo,
            ColorEditField::GradientTo => ColorEditField::GradientAngle,
            ColorEditField::GradientAngle => ColorEditField::GradientRelativeTo,
            ColorEditField::GradientRelativeTo => ColorEditField::GradientFrom,
        }
    }

    /// The field before this one: the one whose successor this is.
    pub fn prev(&self) -> (r: Self)
        ensures
            r.after() == *self,
    {
        match self {
            ColorEditField::ColorType => ColorEditField::SolidColor,
            ColorEditField::SolidColor => ColorEditField::ColorType,
            ColorEditField::GradientFrom => ColorEditField::GradientRelativeTo,
            ColorEditField::GradientTo => ColorEditField::GradientFrom,
            ColorEditField::GradientAngle => ColorEditField::GradientTo,
            ColorEditField::GradientRelativeTo => ColorEditField::GradientAngle,
        }
    }

    pub fn next_for_mode(&self, is_gradient: bool) -> (r: Self)
        ensures
            r == self.after_in(is_gradient),
    {
        if is_gradient {
            match self {
                ColorEditField::ColorType => ColorEditField::GradientFrom,
                ColorEditField::GradientFrom => ColorEditField::GradientTo,
                ColorEditField::GradientTo => ColorEditField::GradientAngle,
                ColorEditField::GradientAngle => ColorEditField::GradientRelativeTo,
                ColorEditField::GradientRelativeTo => ColorEditField::ColorType,
                _ => ColorEditField::GradientFrom,
            }
        } else {
            match self {
                ColorEditField::ColorType => ColorEditField::SolidColor,
                ColorEditField::SolidColor => ColorEditField::ColorType,
                _ => ColorEditField::SolidColor,
            }
        }
    }

    /// The field before this one in the given mode: for a field that the
    /// mode shows, the one whose successor it is; from a field that the
    /// mode does not show, the first text field of the mode.
    pub fn prev_for_mode(&self, is_gradient: bool) -> (r: Self)
        ensures
            r.shown_in(is_gradient),
            self.shown_in(is_gradient) ==> r.after_in(is_gradient) == *self,
            !self.shown_in(is_gradient) ==> r == if is_gradient {
                ColorEditField::GradientFrom
            } else {
                ColorEditField::SolidColor
            },
    {
        if is_gradient {
            match self {
                ColorEditField::ColorType => ColorEditField::GradientRelativeTo,
                ColorEditField::GradientFrom => ColorEditField::ColorType,
                ColorEditField::GradientTo => ColorEditField::GradientFrom,
                ColorEditField::GradientAngle => ColorEditField::GradientTo,
                ColorEditField::GradientRelativeTo => ColorEditField::GradientAngle,
                _ => ColorEditField::GradientFrom,
            }
        } else {
            match self {
                ColorEditField::ColorType => ColorEditField::SolidColor,
                ColorEditField::SolidColor => ColorEditField::ColorType,
                _ => ColorEditField::SolidColor,
            }
        }
    }
}

/// What the colour editor holds. Cursors count characters.
#[derive(Debug)]
pub struct ColorEditState {
    pub is_gradient: bool,
    pub focused_field: ColorEditField,
    pub solid_color: String,
    pub solid_cursor: usize,
    pub gradient_from: String,
    pub gradient_from_cursor: usize,
    pub gradient_to: String,
    pub gradient_to_cursor: usize,
    pub gradient_angle: String,
    pub gradient_angle_cursor: usize,
    /// Either `window` or `workspace-view`.
    pub gradient_relative_to: String,
}

impl Clone for ColorEditState {
    fn clone(&self) -> (r: Self)
        ensures
            r == *self,
    {
        ColorEditState {
            is_gradient: self.is_gradient,
            focused_field: self.focused_field,
            solid_color: self.solid_color.clone(),
            solid_cursor: self.solid_cursor,
            gradient_from: self.gradient_from.clone(),
            gradient_from_cursor: self.gradient_from_cursor,
            gradient_to: self.gradient_to.clone(),
            gradient_to_cursor: self.gradient_to_cursor,
            gradient_angle: self.gradient_angle.clone(),
            gradient_angle_cursor: self.gradient_angle_cursor,
            gradient_relative_to: self.gradient_relative_to.clone(),
        }
    }
}

impl ColorEditState {
    /// The text of the focused field and its cursor, if a text field has
    /// the focus.
    pub open spec fn focused_text(self) -> Option<(Seq<char>, usize)> {
        match self.focused_field {
            ColorEditField::SolidColor => Some((self.solid_color@, self.solid_cursor)),
            ColorEditField::GradientFrom => Some((self.gradient_from@, self.gradient_from_cursor)),
            ColorEditField::GradientTo => Some((self.gradient_to@, self.gradient_to_cursor)),
            ColorEditField::GradientAngle => Some(
                (self.gradient_angle@, self.gradient_angle_cursor),
            ),
            _ => None,
        }
    }

    /// Whether `after` differs from this state at most in the text of the
    /// focused field and its cursor.
    pub open spec fn same_but_focused(self, after: ColorEditState) -> bool {
        match self.focused_field {
            ColorEditField::SolidColor => after == (ColorEditState {
                solid_color: after.solid_color,
                solid_cursor: after.solid_cursor,
                ..self
            }),
            ColorEditField::GradientFrom => after == (ColorEditState {
                gradient_from: after.gradient_from,
                gradient_from_cursor: after.gradient_from_cursor,
                ..self
            }),
            ColorEditField::GradientTo => after == (ColorEditState {
                gradient_to: after.gradient_to,
                gradient_to_cursor: after.gradient_to_cursor,
                ..self
            }),
            ColorEditField::GradientAngle => after == (ColorEditState {
                gradient_angle: after.gradient_angle,
                gradient_angle_cursor: after.gradient_angle_cursor,
                ..self
            }),
            _ => after == self,
        }
    }

    /// Whether `after` is this state with the text and the cursor of the
    /// focused field replaced by the given ones; the same state where no
    /// text field has the focus.
    pub open spec fn becomes(self, after: ColorEditState, text: Seq<char>, cursor: int) -> bool {
        self.same_but_focused(after) && (self.focused_text() is Some ==> after.focused_text()
            == Some((text, cursor as usize)))
    }

    /// Whether `after` is this state after typing `c`.
    pub open spec fn typed_char(self, after: ColorEditState, c: char) -> bool {
        match self.focused_text() {
            Some((text, cursor)) => self.becomes(
                after,
                typed(text, cursor, c),
                clamped(cursor, text.len()) + 1,
            ),
            None => after == self,
        }
    }

    /// Whether `after` is this state after deleting before the cursor.
    pub open spec fn erased_char(self, after: ColorEditState) -> bool {
        match self.focused_text() {
            Some((text, cursor)) => self.becomes(
                after,
                erased(text, cursor),
                erased_cursor(text, cursor),
            ),
            None => after == self,
        }
    }

    /// Whether `after` is this state with the cursor of the focused field
    /// at `cursor`, and nothing else changed.
    pub open spec fn cursor_at(self, after: ColorEditState, cursor: int) -> bool {
        match self.focused_text() {
            Some((text, _)) => self.becomes(after, text, cursor) && match self.focused_field {
                ColorEditField::SolidColor => after.solid_color == self.solid_color,
                ColorEditField::GradientFrom => after.gradient_from == self.gradient_from,
                ColorEditField::GradientTo => after.gradient_to == self.gradient_to,
                _ => after.gradient_angle == self.gradient_angle,
            },
            None => after == self,
        }
    }

    /// Whether this is the editor as it opens for a solid colour: the
    /// colour focused, with the cursor at its end, and the fields of the
    /// gradient empty.
    pub open spec fn opens_solid(self, color: Seq<char>) -> bool {
        &&& !self.is_gradient
        &&& self.focused_field == ColorEditField::SolidColor
        &&& self.solid_color@ == color
        &&& self.solid_cursor == color.len()
        &&& self.gradient_from@.len() == 0 && self.gradient_from_cursor == 0
        &&& self.gradient_to@.len() == 0 && self.gradient_to_cursor == 0
        &&& self.gradient_angle@.len() == 0 && self.gradient_angle_cursor == 0
        &&& self.gradient_relative_to@ == "window"@
    }

    /// Whether this is the editor as it opens for a gradient: its first
    /// colour focused, every cursor at the end of its text, the angle in
    /// decimal or empty, and `window` where nothing says what the gradient
    /// is relative to.
    pub open spec fn opens_gradient(
        self,
        from: Seq<char>,
        to: Seq<char>,
        angle: Option<i32>,
        relative_to: Option<Seq<char>>,
    ) -> bool {
        &&& self.is_gradient
        &&& self.focused_field == ColorEditField::GradientFrom
        &&& self.solid_color@.len() == 0 && self.solid_cursor == 0
        &&& self.gradient_from@ == from && self.gradient_from_cursor == from.len()
        &&& self.gradient_to@ == to && self.gradient_to_cursor == to.len()
        &&& self.gradient_angle@ == match angle {
            Some(a) => decimal_of(a as i64),
            None => Seq::empty(),
        }
        &&& self.gradient_angle_cursor == self.gradient_angle@.len()
        &&& self.gradient_relative_to@ == match relative_to {
            Some(t) => t,
            None => "window"@,
        }
    }

    /// The editor for a solid colour, with the cursor at the end.
    pub fn from_solid(color: &str) -> (r: Self)
        ensures
            r.opens_solid(color@),
    {
        ColorEditState {
            is_gradient: false,
            focused_field: ColorEditField::SolidColor,
            solid_color: color.to_owned(),
            solid_cursor: char_count(color),
            gradient_from: String::new(),
            gradient_from_cursor: 0,
            gradient_to: String::new(),
            gradient_to_cursor: 0,
            gradient_angle: String::new(),
            gradient_angle_cursor: 0,
            gradient_relative_to: "window".to_owned(),
        }
    }

    /// The editor for a gradient, with every cursor at the end.
    pub fn from_gradient(from: &str, to: &str, angle: Option<i32>, relative_to: Option<&str>) -> (r:
        Self)
        ensures
            r.opens_gradient(
                from@,
                to@,
                angle,
                match relative_to {
                    Some(t) => Some(t@),
                    None => None,
                },
            ),
    {
        let angle_text = match angle {
            Some(a) => decimal(a as i64),
            None => String::new(),
        };
        let angle_cursor = char_count(angle_text.as_str());
        ColorEditState {
            is_gradient: true,
            focused_field: ColorEditField::GradientFrom,
            solid_color: String::new(),
            solid_cursor: 0,
            gradient_from: from.to_owned(),
            gradient_from_cursor: char_count(from),
            gradient_to: to.to_owned(),
            gradient_to_cursor: char_count(to),
            gradient_angle: angle_text,
            gradient_angle_cursor: angle_cursor,
            gradient_relative_to: match relative_to {
                Some(t) => t.to_owned(),
                None => "window".to_owned(),
            },
        }
    }

    /// Switches between solid colour and gradient. The colour that was
    /// typed is carried over into the other mode where that has none yet.
    pub fn toggle_type(&mut self)
        ensures
            final(self).is_gradient == !old(self).is_gradient,
            final(self).is_gradient ==> final(self).focused_field == ColorEditField::GradientFrom
                && if old(self).gradient_from@.len() == 0 && old(self).solid_color@.len() > 0 {
                final(self).gradient_from@ == old(self).solid_color@
                    && final(self).gradient_from_cursor == old(self).solid_color@.len()
                    && *final(self) == (ColorEditState {
                    is_gradient: true,
                    focused_field: ColorEditField::GradientFrom,
                    gradient_from: final(self).gradient_from,
                    gradient_from_cursor: final(self).gradient_from_cursor,
                    ..*old(self)
                })
            } else {
                *final(self) == (ColorEditState {
                    is_gradient: true,
                    focused_field: ColorEditField::GradientFrom,
                    ..*old(self)
                })
            },
            !final(self).is_gradient ==> final(self).focused_field == ColorEditField::SolidColor
                && if old(self).solid_color@.len() == 0 && old(self).gradient_from@.len() > 0 {
                final(self).solid_color@ == old(self).gradient_from@ && final(self).solid_cursor
                    == old(self).gradient_from@.len() && *final(self) == (ColorEditState {
                    is_gradient: false,
                    focused_field: ColorEditField::SolidColor,
                    solid_color: final(self).solid_color,
                    solid_cursor: final(self).solid_cursor,
                    ..*old(self)
                })
            } else {
                *final(self) == (ColorEditState {
                    is_gradient: false,
                    focused_field: ColorEditField::SolidColor,
                    ..*old(self)
                })
            },
    {
        self.is_gradient = !self.is_gradient;
        if self.is_gradient {
            self.focused_field = ColorEditField::GradientFrom;
            if self.gradient_from.as_str().is_empty() && !self.solid_color.as_str().is_empty() {
                self.gradient_from = self.solid_color.clone();
                self.gradient_from_cursor = char_count(self.gradient_from.as_str());
            }
        } else {
            self.focused_field = ColorEditField::SolidColor;
            if self.solid_color.as_str().is_empty() && !self.gradient_from.as_str().is_empty() {
                self.solid_color = self.gradient_from.clone();
                self.solid_cursor = char_count(self.solid_color.as_str());
            }
        }
    }

    /// Switches what the gradient is relative to: from `window` to
    /// `workspace-view`, from anything else to `window`.
    pub fn cycle_relative_to(&mut self)
        ensures
            final(self).gradient_relative_to@ == if old(self).gradient_relative_to@ == "window"@ {
                "workspace-view"@
            } else {
                "window"@
            },
            *final(self) == (ColorEditState {
                gradient_relative_to: final(self).gradient_relative_to,
                ..*old(self)
            }),
    {
        self.gradient_relative_to = if text_eq(self.gradient_relative_to.as_str(), "window") {
            "workspace-view".to_owned()
        } else {
            "window".to_owned()
        };
    }

    /// Types a character at the cursor of the focused text field.
    pub fn insert_char(&mut self, c: char)
        ensures
            old(self).typed_char(*final(self), c),
    {
        match self.focused_field {
            ColorEditField::SolidColor => {
                insert_at(&mut self.solid_color, &mut self.solid_cursor, c);
            },
            ColorEditField::GradientFrom => {
                insert_at(&mut self.gradient_from, &mut self.gradient_from_cursor, c);
            },
            ColorEditField::GradientTo => {
                insert_at(&mut self.gradient_to, &mut self.gradient_to_cursor, c);
            },
            ColorEditField::GradientAngle => {
                insert_at(&mut self.gradient_angle, &mut self.gradient_angle_cursor, c);
            },
            _ => {},
        }
    }

    /// Deletes the character before the cursor of the focused text field.
    pub fn delete_char(&mut self)
        ensures
            old(self).erased_char(*final(self)),
    {
        match self.focused_field {
            ColorEditField::SolidColor => {
                delete_before(&mut self.solid_color, &mut self.solid_cursor);
            },
            ColorEditField::GradientFrom => {
                delete_before(&mut self.gradient_from, &mut self.gradient_from_cursor);
            },
            ColorEditField::GradientTo => {
                delete_before(&mut self.gradient_to, &mut self.gradient_to_cursor);
            },
            ColorEditField::GradientAngle => {
                delete_before(&mut self.gradient_angle, &mut self.gradient_angle_cursor);
            },
            _ => {},
        }
    }

    /// Moves the cursor of the focused text field one to the left.
    pub fn cursor_left(&mut self)
        ensures
            match old(self).focused_text() {
                Some((_, cursor)) => old(self).cursor_at(
                    *final(self),
                    if cursor > 0 {
                        cursor - 1
                    } else {
                        0
                    },
                ),
                None => *final(self) == *old(self),
            },
    {
        match self.focused_field {
            ColorEditField::SolidColor => {
                self.solid_cursor = cursor_before(self.solid_cursor);
            },
            ColorEditField::GradientFrom => {
                self.gradient_from_cursor = cursor_before(self.gradient_from_cursor);
            },
            ColorEditField::GradientTo => {
                self.gradient_to_cursor = cursor_before(self.gradient_to_cursor);
            },
            ColorEditField::GradientAngle => {
                self.gradient_angle_cursor = cursor_before(self.gradient_angle_cursor);
            },
            _ => {},
        }
    }

    /// Moves the cursor of the focused text field one to the right, no
    /// further than the end of the text.
    pub fn cursor_right(&mut self)
        ensures
            match old(self).focused_text() {
                Some((text, cursor)) => old(self).cursor_at(
                    *final(self),
                    if cursor < text.len() {
                        cursor + 1
                    } else {
                        text.len() as int
                    },
                ),
                None => *final(self) == *old(self),
            },
    {
        match self.focused_field {
            ColorEditField::SolidColor => {
                self.solid_cursor = cursor_after(self.solid_color.as_str(), self.solid_cursor);
            },
            ColorEditField::GradientFrom => {
                self.gradient_from_cursor = cursor_after(
                    self.gradient_from.as_str(),
                    self.gradient_from_cursor,
                );
            },
            ColorEditField::GradientTo => {
                self.gradient_to_cursor = cursor_after(
                    self.gradient_to.as_str(),
                    self.gradient_to_cursor,
                );
            },
            ColorEditField::GradientAngle => {
                self.gradient_angle_cursor = cursor_after(
                    self.gradient_angle.as_str(),
                    self.gradient_angle_cursor,
                );
            },
            _ => {},
        }
    }

    /// Moves the cursor of the focused text field to the start.
    pub fn cursor_home(&mut self)
        ensures
            old(self).cursor_at(*final(self), 0),
    {
        match self.focused_field {
            ColorEditField::SolidColor => {
                self.solid_cursor = 0;
            },
            ColorEditField::GradientFrom => {
                self.gradient_from_cursor = 0;
            },
            ColorEditField::GradientTo => {
                self.gradient_to_cursor = 0;
            },
            ColorEditField::GradientAngle => {
                self.gradient_angle_cursor = 0;
            },
            _ => {},
        }
    }

    /// Moves the cursor of the focused text field to the end.
    pub fn cursor_end(&mut self)
        ensures
            match old(self).focused_text() {
                Some((text, _)) => old(self).cursor_at(*final(self), text.len() as int),
                None => *final(self) == *old(self),
            },
    {
        match self.focused_field {
            ColorEditField::SolidColor => {
                self.solid_cursor = char_count(self.solid_color.as_str());
            },
            ColorEditField::GradientFrom => {
                self.gradient_from_cursor = char_count(self.gradient_from.as_str());
            },
            ColorEditField::GradientTo => {
                self.gradient_to_cursor = char_count(self.gradient_to.as_str());
            },
            ColorEditField::GradientAngle => {
                self.gradient_angle_cursor = char_count(self.gradient_angle.as_str());
            },
            _ => {},
        }
    }

    /// The colour that the editor stands for, given what parsing the angle
    /// as a number gave. There is none where a required text is empty.
    pub open spec fn color_with(self, angle: Option<i32>) -> Option<ColorView> {
        if self.is_gradient {
            if self.gradient_from@.len() == 0 || self.gradient_to@.len() == 0 {
                None
            } else {
                Some(
                    ColorView::Gradient {
                        from: self.gradient_from@,
                        to: self.gradient_to@,
                        angle,
                        relative_to: if self.gradient_relative_to@ == "window"@ {
                            None
                        } else {
                            Some(self.gradient_relative_to@)
                        },
                        color_space: None,
                    },
                )
            }
        } else {
            if self.solid_color@.len() == 0 {
                None
            } else {
                Some(ColorView::Solid(self.solid_color@))
            }
        }
    }

    /// The colour that the editor stands for, given what parsing the angle
    /// as a number gave.
    pub fn color_from_parts(&self, angle: Option<i32>) -> (r: Option<ColorValue>)
        ensures
            match r {
                Some(c) => self.color_with(angle) == Some(c@),
                None => self.color_with(angle) is None,
            },
    {
        if self.is_gradient {
            if self.gradient_from.as_str().is_empty() || self.gradient_to.as_str().is_empty() {
                return None;
            }
            let relative_to = if text_eq(self.gradient_relative_to.as_str(), "window") {
                None
            } else {
                Some(self.gradient_relative_to.clone())
            };
            Some(
                ColorValue::Gradient {
                    from: self.gradient_from.clone(),
                    to: self.gradient_to.clone(),
                    angle,
                    relative_to,
                    color_space: None,
                },
            )
        } else {
            if self.solid_color.as_str().is_empty() {
                return None;
            }
            Some(ColorValue::Solid(self.solid_color.clone()))
        }
    }

    /// The colour that the editor stands for: a gradient needs both of its
    /// colours, a solid colour needs its text; an angle that is no number
    /// counts as not set.
    pub fn to_color_value(&self) -> (r: Option<ColorValue>)
        ensures
            match r {
                Some(c) => self.color_with(i32_of(self.gradient_angle@)) == Some(c@),
                None => self.color_with(i32_of(self.gradient_angle@)) is None,
            },
    {
        let angle = parse_i32(self.gradient_angle.as_str());
        self.color_from_parts(angle)
    }
}

/// What the edit dialog holds while one setting is edited: a text and its
/// cursor for simple values, or a colour editor.
#[derive(Debug)]
pub struct AppearanceEditMode {
    pub field: AppearanceField,
    pub value: String,
    pub cursor: usize,
    pub color_state: Option<ColorEditState>,
}

impl Clone for AppearanceEditMode {
    fn clone(&self) -> (r: Self)
        ensures
            r == *self,
    {
        AppearanceEditMode {
            field: self.field,
            value: self.value.clone(),
            cursor: self.cursor,
            color_state: match &self.color_state {
                Some(cs) => Some(cs.clone()),
                None => None,
            },
        }
    }
}

impl AppearanceEditMode {
    /// The dialog for a simple value, with the cursor at the end.
    pub fn new(field: AppearanceField, initial_value: &str) -> (r: Self)
        ensures
            r.field == field,
            r.value@ == initial_value@,
            r.cursor == initial_value@.len(),
            r.color_state is None,
    {
        AppearanceEditMode {
            field,
            value: initial_value.to_owned(),
            cursor: char_count(initial_value),
            color_state: None,
        }
    }

    /// The dialog for a colour.
    pub fn new_color(field: AppearanceField, color: &ColorValue) -> (r: Self)
        ensures
            r.field == field,
            r.value@.len() == 0,
            r.cursor == 0,
            r.color_state is Some,
            match color@ {
                ColorView::Solid(c) => r.color_state->0.opens_solid(c),
                ColorView::Gradient { from, to, angle, relative_to, .. } => {
                    r.color_state->0.opens_gradient(from, to, angle, relative_to)
                },
            },
    {
        let color_state = match color {
            ColorValue::Solid(c) => ColorEditState::from_solid(c.as_str()),
            ColorValue::Gradient { from, to, angle, relative_to, .. } => {
                match relative_to {
                    Some(t) => ColorEditState::from_gradient(
                        from.as_str(),
                        to.as_str(),
                        *angle,
                        Some(t.as_str()),
                    ),
                    None => ColorEditState::from_gradient(from.as_str(), to.as_str(), *angle, None),
                }
            },
        };
        AppearanceEditMode { field, value: String::new(), cursor: 0, color_state: Some(color_state) }
    }

    /// Types a character: into the colour editor if there is one, else into
    /// the text.
    pub fn insert_char(&mut self, c: char)
        ensures
            final(self).field == old(self).field,
            match old(self).color_state {
                Some(cs) => final(self).color_state matches Some(after) && cs.typed_char(after, c)
                    && final(self).value == old(self).value && final(self).cursor == old(
                    self,
                ).cursor,
                None => final(self).color_state is None && final(self).value@ == typed(
                    old(self).value@,
                    old(self).cursor,
                    c,
                ) && final(self).cursor == clamped(old(self).cursor, old(self).value@.len()) + 1,
            },
    {
        match &mut self.color_state {
            Some(cs) => {
                cs.insert_char(c);
            },
            None => {
                insert_at(&mut self.value, &mut self.cursor, c);
            },
        }
    }

    /// Deletes the character before the cursor: in the colour editor if
    /// there is one, else in the text.
    pub fn delete_char(&mut self)
        ensures
            final(self).field == old(self).field,
            match old(self).color_state {
                Some(cs) => final(self).color_state matches Some(after) && cs.erased_char(after)
                    && final(self).value == old(self).value && final(self).cursor == old(
                    self,
                ).cursor,
                None => final(self).color_state is None && final(self).value@ == erased(
                    old(self).value@,
                    old(self).cursor,
                ) && final(self).cursor == erased_cursor(old(self).value@, old(self).cursor),
            },
    {
        match &mut self.color_state {
            Some(cs) => {
                cs.delete_char();
            },
            None => {
                delete_before(&mut self.value, &mut self.cursor);
            },
        }
    }

    /// Moves the cursor one to the left.
    pub fn cursor_left(&mut self)
        ensures
            final(self).field == old(self).field,
            final(self).value == old(self).value,
            match old(self).color_state {
                Some(cs) => final(self).color_state matches Some(after) && final(self).cursor
                    == old(self).cursor && match cs.focused_text() {
                    Some((_, cursor)) => cs.cursor_at(
                        after,
                        if cursor > 0 {
                            cursor - 1
                        } else {
                            0
                        },
                    ),
                    None => after == cs,
                },
                None => final(self).color_state is None && final(self).cursor == if old(
                    self,
                ).cursor > 0 {
                    old(self).cursor - 1
                } else {
                    0
                },
            },
    {
        match &mut self.color_state {
            Some(cs) => {
                cs.cursor_left();
            },
            None => {
                self.cursor = cursor_before(self.cursor);
            },
        }
    }

    /// Moves the cursor one to the right, no further than the end.
    pub fn cursor_right(&mut self)
        ensures
            final(self).field == old(self).field,
            final(self).value == old(self).value,
            match old(self).color_state {
                Some(cs) => final(self).color_state matches Some(after) && final(self).cursor
                    == old(self).cursor && match cs.focused_text() {
                    Some((text, cursor)) => cs.cursor_at(
                        after,
                        if cursor < text.len() {
                            cursor + 1
                        } else {
                            text.len() as int
                        },
                    ),
                    None => after == cs,
                },
                None => final(self).color_state is None && final(self).cursor == if old(
                    self,
                ).cursor < old(self).value@.len() {
                    old(self).cursor + 1
                } else {
                    old(self).value@.len() as int
                },
            },
    {
        match &mut self.color_state {
            Some(cs) => {
                cs.cursor_right();
            },
            None => {
                self.cursor = cursor_after(self.value.as_str(), self.cursor);
            },
        }
    }

    /// Moves the cursor of the text, and that of the focused field of the
    /// colour editor if there is one, to the start.
    pub fn cursor_home(&mut self)
        ensures
            final(self).field == old(self).field,
            final(self).value == old(self).value,
            final(self).cursor == 0,
            match old(self).color_state {
                Some(cs) => final(self).color_state matches Some(after) && cs.cursor_at(after, 0),
                None => final(self).color_state is None,
            },
    {
        self.cursor = 0;
        match &mut self.color_state {
            Some(cs) => {
                cs.cursor_home();
            },
            None => {},
        }
    }

    /// Moves the cursor of the text, and that of the focused field of the
    /// colour editor if there is one, to the end.
    pub fn cursor_end(&mut self)
        ensures
            final(self).field == old(self).field,
            final(self).value == old(self).value,
            final(self).cursor == old(self).value@.len(),
            match old(self).color_state {
                Some(cs) => final(self).color_state matches Some(after) && match cs.focused_text() {
                    Some((text, _)) => cs.cursor_at(after, text.len() as int),
                    None => after == cs,
                },
                None => final(self).color_state is None,
            },
    {
        self.cursor = char_count(self.value.as_str());
        match &mut self.color_state {
            Some(cs) => {
                cs.cursor_end();
            },
            None => {},
        }
    }
}

} // verus!
