//! The state of the dialog in which one key binding is edited, and how the
//! typed text becomes a binding.

use vstd::prelude::*;
use crate::model::keybindings::{
    ActionView, ArgView, BindingAction, BindingArg, BindingProperties, Keybinding, KeybindingView,
    Modifiers,
};
use crate::text::{
    char_count, chars_of, concat, cursor_after, cursor_before, delete_before, erased,
    erased_cursor, first_index, i64_of, insert_at, join, joined, parse_i64, split_once,
    string_of, text_eq, texts, trim, trimmed, typed, clamped,
};

verus! {

/// The field of the edit dialog that has the focus.
#[derive(Debug, Clone, Copy, PartialEq, Eq, Structural)]
pub enum EditField {
    KeyCombo,
    ActionType,
    ActionValue,
    Repeat,
    AllowWhenLocked,
}

impl Default for EditField {
    fn default() -> (r: Self)
        ensures
            r == EditField::KeyCombo,
    {
        EditField::KeyCombo
    }
}

impl EditField {
    /// The field after this one, in a cycle.
    pub open spec fn after(self) -> EditField {
        match self {
            EditField::KeyCombo => EditField::ActionType,
            EditField::ActionType => EditField::ActionValue,
            EditField::ActionValue => EditField::Repeat,
            EditField::Repeat => EditField::AllowWhenLocked,
            EditField::AllowWhenLocked => EditField::KeyCombo,
        }
    }

    pub fn next(&self) -> (r: Self)
        ensures
            r == self.after(),
    {
        match self {
            EditField::KeyCombo => EditField::ActionType,
            EditField::ActionType => EditField::ActionValue,
            EditField::ActionValue => EditField::Repeat,
            EditField::Repeat => EditField::AllowWhenLocked,
            EditField::AllowWhenLocked => EditField::KeyCombo,
        }
    }

    /// The field before this one: the one whose successor this is.
    pub fn prev(&self) -> (r: Self)
        ensures
            r.after() == *self,
    {
        match self {
            EditField::KeyCombo => EditField::AllowWhenLocked,
            EditField::ActionType => EditField::KeyCombo,
            EditField::ActionValue => EditField::ActionType,
            EditField::Repeat => EditField::ActionValue,
            EditField::AllowWhenLocked => EditField::Repeat,
        }
    }
}

/// The kind of action that is being edited.
#[derive(Debug, Clone, Copy, PartialEq, Eq, Structural)]
pub enum ActionType {
    /// Run a command.
    Spawn,
    /// Run a shell command line.
    SpawnSh,
    /// A built-in action of the compositor.
    BuiltIn,
}

impl Default for ActionType {
    fn default() -> (r: Self)
        ensures
            r == ActionType::Spawn,
    {
        ActionType::Spawn
    }
}

impl ActionType {
    /// The kind after this one, in a cycle.
    pub open spec fn after(self) -> ActionType {
        match self {
            ActionType::Spawn => ActionType::SpawnSh,
            ActionType::SpawnSh => ActionType::BuiltIn,
            ActionType::BuiltIn => ActionType::Spawn,
        }
    }

    /// The label of a kind.
    pub open spec fn label_text(self) -> Seq<char> {
        match self {
            ActionType::Spawn => "Run Command"@,
            ActionType::SpawnSh => "Shell Command"@,
            ActionType::BuiltIn => "Built-in Action"@,
        }
    }

    pub fn next(&self) -> (r: Self)
        ensures
            r == self.after(),
    {
        match self {
            ActionType::Spawn => ActionType::SpawnSh,
            ActionType::SpawnSh => ActionType::BuiltIn,
            ActionType::BuiltIn => ActionType::Spawn,
        }
    }

    /// The kind before this one: the one whose successor this is.
    pub fn prev(&self) -> (r: Self)
        ensures
            r.after() == *self,
    {
        match self {
            ActionType::Spawn => ActionType::BuiltIn,
            ActionType::SpawnSh => ActionType::Spawn,
            ActionType::BuiltIn => ActionType::SpawnSh,
        }
    }

    pub fn label(&self) -> (r: &'static str)
        ensures
            r@ == self.label_text(),
    {
        match self {
            ActionType::Spawn => "Run Command",
            ActionType::SpawnSh => "Shell Command",
            ActionType::BuiltIn => "Built-in Action",
        }
    }
}

/// Where the scan of a command line stands: the arguments that are
/// complete, the one being read, and the quote that is open, if any.
pub struct ArgScan {
    pub args: Seq<Seq<char>>,
    pub current: Seq<char>,
    pub in_quotes: bool,
    pub quote: char,
}

/// The scan after one more character. A quote character opens a quoted
/// stretch, and the same character closes it; a space outside quotes ends
/// the argument being read, if it is not empty; any other character
/// belongs to the argument.
pub open spec fn scan_step(st: ArgScan, c: char) -> ArgScan {
    if (c == '"' || c == '\'') && !st.in_quotes {
        ArgScan { in_quotes: true, quote: c, ..st }
    } else if c == st.quote && st.in_quotes {
        ArgScan { in_quotes: false, ..st }
    } else if c == ' ' && !st.in_quotes {
        if st.current.len() > 0 {
            ArgScan { args: st.args.push(st.current), current: Seq::empty(), ..st }
        } else {
            st
        }
    } else {
        ArgScan { current: st.current.push(c), ..st }
    }
}

/// The scan after the first `k` characters of `s`.
pub open spec fn scan(s: Seq<char>, k: int) -> ArgScan
    decreases k,
{
    if k <= 0 || k > s.len() {
        ArgScan { args: Seq::empty(), current: Seq::empty(), in_quotes: false, quote: '"' }
    } else {
        scan_step(scan(s, k - 1), s[k - 1])
    }
}

/// The arguments of a command line: split at spaces, with quoted stretches
/// kept together and the quotes dropped.
pub open spec fn command_args(s: Seq<char>) -> Seq<Seq<char>> {
    let st = scan(s, s.len() as int);
    if st.current.len() > 0 {
        st.args.push(st.current)
    } else {
        st.args
    }
}

/// Splits a command line into arguments. Single and double quotes keep
/// spaces inside one argument and are themselves dropped.
pub fn parse_command_args(s: &str) -> (r: Vec<String>)
    ensures
        texts(r@) == command_args(s@),
{
    let v = chars_of(s);
    let mut args: Vec<String> = Vec::new();
    let mut current: Vec<char> = Vec::new();
    let mut in_quotes = false;
    let mut quote_char = '"';
    let mut i: usize = 0;
    while i < v.len()
        invariant
            i <= v.len(),
            v@ == s@,
            scan(s@, i as int).args == texts(args@),
            scan(s@, i as int).current == current@,
            scan(s@, i as int).in_quotes == in_quotes,
            scan(s@, i as int).quote == quote_char,
        decreases v.len() - i,
    {
        let c = v[i];
        if (c == '"' || c == '\'') && !in_quotes {
            in_quotes = true;
            quote_char = c;
        } else if c == quote_char && in_quotes {
            in_quotes = false;
        } else if c == ' ' && !in_quotes {
            if current.len() > 0 {
                let ghost before = texts(args@);
                args.push(string_of(&current));
                assert(texts(args@) =~= before.push(current@));
                current = Vec::new();
            }
        } else {
            current.push(c);
        }
        i += 1;
    }
    if current.len() > 0 {
        let ghost before = texts(args@);
        args.push(string_of(&current));
        assert(texts(args@) =~= before.push(current@));
    }
    args
}

/// The argument that a text stands for, given what parsing it as a number
/// gave: the number, else `true` or `false`, else the text itself.
pub open spec fn argument_of(text: Seq<char>, number: Option<i64>) -> ArgView {
    match number {
        Some(n) => ArgView::Number(n),
        None => if text == "true"@ {
            ArgView::Bool(true)
        } else if text == "false"@ {
            ArgView::Bool(false)
        } else {
            ArgView::Text(text)
        },
    }
}

/// The action that a trimmed, non-empty text stands for, given its kind.
pub open spec fn action_of(kind: ActionType, value: Seq<char>) -> Option<ActionView> {
    match kind {
        ActionType::Spawn => if command_args(value).len() == 0 {
            None
        } else {
            Some(ActionView::Spawn(command_args(value)))
        },
        ActionType::SpawnSh => Some(ActionView::SpawnSh(value)),
        ActionType::BuiltIn => {
            let at = first_index(value, ' ');
            if at == value.len() {
                Some(ActionView::Simple(value))
            } else {
                let arg = trimmed(value.skip(at + 1));
                Some(ActionView::WithArg(value.take(at), argument_of(arg, i64_of(arg))))
            }
        },
    }
}

/// The action that the typed text stands for: nothing where the text is
/// blank.
pub open spec fn built_action(kind: ActionType, typed: Seq<char>) -> Option<ActionView> {
    if trimmed(typed).len() == 0 {
        None
    } else {
        action_of(kind, trimmed(typed))
    }
}

/// The argument that a text stands for, given what parsing it as a number
/// gave.
pub fn argument_from(text: &str, number: Option<i64>) -> (r: BindingArg)
    ensures
        r@ == argument_of(text@, number),
{
    match number {
        Some(n) => BindingArg::Number(n),
        None => if text_eq(text, "true") {
            BindingArg::Bool(true)
        } else if text_eq(text, "false") {
            BindingArg::Bool(false)
        } else {
            BindingArg::String(text.to_owned())
        },
    }
}

/// What the edit dialog holds while a key binding is edited. Cursors count
/// characters.
#[derive(Debug)]
pub struct EditMode {
    /// The position of the edited binding in the list as it was loaded.
    pub original_index: usize,
    /// Whether a new binding is being added.
    pub is_new: bool,
    pub focused_field: EditField,
    pub key_combo: String,
    pub key_combo_cursor: usize,
    pub action_type: ActionType,
    pub action_value: String,
    pub action_value_cursor: usize,
    pub repeat: Option<bool>,
    pub allow_when_locked: Option<bool>,
}

/// The kind and the text under which an action is edited.
pub open spec fn action_parts(action: ActionView) -> (ActionType, Seq<char>) {
    match action {
        ActionView::Spawn(args) => (ActionType::Spawn, joined(args, " "@)),
        ActionView::SpawnSh(cmd) => (ActionType::SpawnSh, cmd),
        ActionView::Simple(name) => (ActionType::BuiltIn, name),
        ActionView::WithArg(name, arg) => (ActionType::BuiltIn, name + " "@ + arg.shown()),
    }
}

impl Clone for EditMode {
    fn clone(&self) -> (r: Self)
        ensures
            r == *self,
    {
        EditMode {
            original_index: self.original_index,
            is_new: self.is_new,
            focused_field: self.focused_field,
            key_combo: self.key_combo.clone(),
            key_combo_cursor: self.key_combo_cursor,
            action_type: self.action_type,
            action_value: self.action_value.clone(),
            action_value_cursor: self.action_value_cursor,
            repeat: self.repeat,
            allow_when_locked: self.allow_when_locked,
        }
    }
}

impl EditMode {
    /// Whether this is the dialog as it opens for the binding at position
    /// `index`: the combo and the action as text, both cursors at the end,
    /// the combo focused.
    pub open spec fn edits(self, index: usize, binding: KeybindingView) -> bool {
        &&& self.original_index == index
        &&& !self.is_new
        &&& self.focused_field == EditField::KeyCombo
        &&& self.key_combo@ == binding.combo()
        &&& self.key_combo_cursor == self.key_combo@.len()
        &&& (self.action_type, self.action_value@) == action_parts(binding.action)
        &&& self.action_value_cursor == self.action_value@.len()
        &&& self.repeat == binding.properties.repeat
        &&& self.allow_when_locked == binding.properties.allow_when_locked
    }

    /// Whether this is the dialog as it opens for a new binding: empty.
    pub open spec fn is_blank(self) -> bool {
        &&& self.original_index == 0
        &&& self.is_new
        &&& self.focused_field == EditField::KeyCombo
        &&& self.key_combo@.len() == 0
        &&& self.key_combo_cursor == 0
        &&& self.action_type == ActionType::Spawn
        &&& self.action_value@.len() == 0
        &&& self.action_value_cursor == 0
        &&& self.repeat is None
        &&& self.allow_when_locked is None
    }

    /// The binding that the dialog stands for. There is none where the combo
    /// or the action text is empty, or the action text gives no action.
    pub open spec fn binding(self) -> Option<KeybindingView> {
        if self.key_combo@.len() == 0 || self.action_value@.len() == 0 {
            None
        } else {
            match built_action(self.action_type, self.action_value@) {
                None => None,
                Some(action) => Some(
                    KeybindingView {
                        modifiers: Modifiers::of_combo(self.key_combo@),
                        key: Modifiers::key_of_combo(self.key_combo@),
                        properties: BindingProperties {
                            repeat: self.repeat,
                            cooldown_ms: None,
                            allow_when_locked: self.allow_when_locked,
                        },
                        action,
                        kdl_index: None,
                    },
                ),
            }
        }
    }

    /// The dialog for an existing binding, with both cursors at the end.
    pub fn from_binding(index: usize, binding: &Keybinding) -> (r: Self)
        ensures
            r.edits(index, binding@),
    {
        let (action_type, action_value) = Self::action_to_parts(&binding.action);
        let key_combo = binding.combo();
        let key_combo_cursor = char_count(key_combo.as_str());
        let action_value_cursor = char_count(action_value.as_str());
        EditMode {
            original_index: index,
            is_new: false,
            focused_field: EditField::KeyCombo,
            key_combo,
            key_combo_cursor,
            action_type,
            action_value,
            action_value_cursor,
            repeat: binding.properties.repeat,
            allow_when_locked: binding.properties.allow_when_locked,
        }
    }

    /// The dialog for a new binding: empty.
    pub fn new_binding() -> (r: Self)
        ensures
            r.is_blank(),
    {
        EditMode {
            original_index: 0,
            is_new: true,
            focused_field: EditField::KeyCombo,
            key_combo: String::new(),
            key_combo_cursor: 0,
            action_type: ActionType::Spawn,
            action_value: String::new(),
            action_value_cursor: 0,
            repeat: None,
            allow_when_locked: None,
        }
    }

    /// Types a character at the cursor of the focused text field.
    pub fn insert_char(&mut self, c: char)
        ensures
            *final(self) == match old(self).focused_field {
                EditField::KeyCombo => EditMode {
                    key_combo: final(self).key_combo,
                    key_combo_cursor: (clamped(
                        old(self).key_combo_cursor,
                        old(self).key_combo@.len(),
                    ) + 1) as usize,
                    ..*old(self)
                },
                EditField::ActionValue => EditMode {
                    action_value: final(self).action_value,
                    action_value_cursor: (clamped(
                        old(self).action_value_cursor,
                        old(self).action_value@.len(),
                    ) + 1) as usize,
                    ..*old(self)
                },
                _ => *old(self),
            },
            final(self).key_combo@ == if old(self).focused_field == EditField::KeyCombo {
                typed(old(self).key_combo@, old(self).key_combo_cursor, c)
            } else {
                old(self).key_combo@
            },
            final(self).action_value@ == if old(self).focused_field == EditField::ActionValue {
                typed(old(self).action_value@, old(self).action_value_cursor, c)
            } else {
                old(self).action_value@
            },
    {
        match self.focused_field {
            EditField::KeyCombo => {
                insert_at(&mut self.key_combo, &mut self.key_combo_cursor, c);
            },
            EditField::ActionValue => {
                insert_at(&mut self.action_value, &mut self.action_value_cursor, c);
            },
            _ => {},
        }
    }

    /// Deletes the character before the cursor of the focused text field.
    pub fn delete_char(&mut self)
        ensures
            *final(self) == match old(self).focused_field {
                EditField::KeyCombo => EditMode {
                    key_combo: final(self).key_combo,
                    key_combo_cursor: erased_cursor(
                        old(self).key_combo@,
                        old(self).key_combo_cursor,
                    ) as usize,
                    ..*old(self)
                },
                EditField::ActionValue => EditMode {
                    action_value: final(self).action_value,
                    action_value_cursor: erased_cursor(
                        old(self).action_value@,
                        old(self).action_value_cursor,
                    ) as usize,
                    ..*old(self)
                },
                _ => *old(self),
            },
            final(self).key_combo@ == if old(self).focused_field == EditField::KeyCombo {
                erased(old(self).key_combo@, old(self).key_combo_cursor)
            } else {
                old(self).key_combo@
            },
            final(self).action_value@ == if old(self).focused_field == EditField::ActionValue {
                erased(old(self).action_value@, old(self).action_value_cursor)
            } else {
                old(self).action_value@
            },
    {
        match self.focused_field {
            EditField::KeyCombo => {
                delete_before(&mut self.key_combo, &mut self.key_combo_cursor);
            },
            EditField::ActionValue => {
                delete_before(&mut self.action_value, &mut self.action_value_cursor);
            },
            _ => {},
        }
    }

    /// Moves the cursor of the focused text field one to the left.
    pub fn cursor_left(&mut self)
        ensures
            *final(self) == match old(self).focused_field {
                EditField::KeyCombo => EditMode {
                    key_combo_cursor: if old(self).key_combo_cursor > 0 {
                        (old(self).key_combo_cursor - 1) as usize
                    } else {
                        0
                    },
                    ..*old(self)
                },
                EditField::ActionValue => EditMode {
                    action_value_cursor: if old(self).action_value_cursor > 0 {
                        (old(self).action_value_cursor - 1) as usize
                    } else {
                        0
                    },
                    ..*old(self)
                },
                _ => *old(self),
            },
    {
        match self.focused_field {
            EditField::KeyCombo => {
                self.key_combo_cursor = cursor_before(self.key_combo_cursor);
            },
            EditField::ActionValue => {
                self.action_value_cursor = cursor_before(self.action_value_cursor);
            },
            _ => {},
        }
    }

    /// Moves the cursor of the focused text field one to the right, no
    /// further than the end of the text.
    pub fn cursor_right(&mut self)
        ensures
            *final(self) == match old(self).focused_field {
                EditField::KeyCombo => EditMode {
                    key_combo_cursor: if old(self).key_combo_cursor < old(self).key_combo@.len() {
                        (old(self).key_combo_cursor + 1) as usize
                    } else {
                        old(self).key_combo@.len() as usize
                    },
                    ..*old(self)
                },
                EditField::ActionValue => EditMode {
                    action_value_cursor: if old(self).action_value_cursor < old(
                        self,
                    ).action_value@.len() {
                        (old(self).action_value_cursor + 1) as usize
                    } else {
                        old(self).action_value@.len() as usize
                    },
                    ..*old(self)
                },
                _ => *old(self),
            },
    {
        match self.focused_field {
            EditField::KeyCombo => {
                self.key_combo_cursor = cursor_after(self.key_combo.as_str(), self.key_combo_cursor);
            },
            EditField::ActionValue => {
                self.action_value_cursor = cursor_after(
                    self.action_value.as_str(),
                    self.action_value_cursor,
                );
            },
            _ => {},
        }
    }

    /// Moves the cursor of the focused text field to the start.
    pub fn cursor_home(&mut self)
        ensures
            *final(self) == match old(self).focused_field {
                EditField::KeyCombo => EditMode { key_combo_cursor: 0, ..*old(self) },
                EditField::ActionValue => EditMode { action_value_cursor: 0, ..*old(self) },
                _ => *old(self),
            },
    {
        match self.focused_field {
            EditField::KeyCombo => {
                self.key_combo_cursor = 0;
            },
            EditField::ActionValue => {
                self.action_value_cursor = 0;
            },
            _ => {},
        }
    }

    /// Moves the cursor of the focused text field to the end.
    pub fn cursor_end(&mut self)
        ensures
            *final(self) == match old(self).focused_field {
                EditField::KeyCombo => EditMode {
                    key_combo_cursor: old(self).key_combo@.len() as usize,
                    ..*old(self)
                },
                EditField::ActionValue => EditMode {
                    action_value_cursor: old(self).action_value@.len() as usize,
                    ..*old(self)
                },
                _ => *old(self),
            },
    {
        match self.focused_field {
            EditField::KeyCombo => {
                self.key_combo_cursor = char_count(self.key_combo.as_str());
            },
            EditField::ActionValue => {
                self.action_value_cursor = char_count(self.action_value.as_str());
            },
            _ => {},
        }
    }

    /// The kind and the text under which an action is edited.
    pub fn action_to_parts(action: &BindingAction) -> (r: (ActionType, String))
        ensures
            (r.0, r.1@) == action_parts(action@),
    {
        match action {
            BindingAction::Spawn(args) => (ActionType::Spawn, join(args, " ")),
            BindingAction::SpawnSh(cmd) => (ActionType::SpawnSh, cmd.clone()),
            BindingAction::Simple(name) => (ActionType::BuiltIn, name.clone()),
            BindingAction::WithArg(name, arg) => {
                let shown = arg.to_string();
                let head = concat(name.as_str(), " ");
                (ActionType::BuiltIn, concat(head.as_str(), shown.as_str()))
            },
        }
    }

    /// The binding that the dialog stands for, if it stands for one: both
    /// the combo and the action are required.
    pub fn to_keybinding(&self) -> (r: Option<Keybinding>)
        ensures
            match r {
                Some(b) => self.binding() == Some(b@),
                None => self.binding() is None,
            },
    {
        if self.key_combo.as_str().is_empty() || self.action_value.as_str().is_empty() {
            return None;
        }
        let action = match self.build_action() {
            Some(a) => a,
            None => {
                return None;
            },
        };
        let (modifiers, key) = Modifiers::parse(self.key_combo.as_str());
        Some(
            Keybinding {
                modifiers,
                key,
                properties: BindingProperties {
                    repeat: self.repeat,
                    cooldown_ms: None,
                    allow_when_locked: self.allow_when_locked,
                },
                action,
                kdl_index: None,
            },
        )
    }

    /// The action that a trimmed, non-empty text stands for. A command is
    /// split into arguments; a shell command is taken whole; a built-in
    /// action is a name, or a name and, after the first space, one argument.
    pub fn action_from_text(kind: ActionType, value: &str) -> (r: Option<BindingAction>)
        ensures
            match r {
                Some(a) => action_of(kind, value@) == Some(a@),
                None => action_of(kind, value@) is None,
            },
    {
        match kind {
            ActionType::Spawn => {
                let args = parse_command_args(value);
                if args.len() == 0 {
                    None
                } else {
                    Some(BindingAction::Spawn(args))
                }
            },
            ActionType::SpawnSh => Some(BindingAction::SpawnSh(value.to_owned())),
            ActionType::BuiltIn => {
                let (name, rest) = split_once(value, ' ');
                match rest {
                    None => {
                        assert(value@.take(value@.len() as int) == value@);
                        Some(BindingAction::Simple(name))
                    },
                    Some(rest) => {
                        let arg = trim(rest.as_str());
                        let number = parse_i64(arg.as_str());
                        Some(BindingAction::WithArg(name, argument_from(arg.as_str(), number)))
                    },
                }
            },
        }
    }

    /// The action that the typed text stands for, if it stands for one.
    pub fn build_action(&self) -> (r: Option<BindingAction>)
        ensures
            match r {
                Some(a) => built_action(self.action_type, self.action_value@) == Some(a@),
                None => built_action(self.action_type, self.action_value@) is None,
            },
    {
        let value = trim(self.action_value.as_str());
        if value.as_str().is_empty() {
            return None;
        }
        Self::action_from_text(self.action_type, value.as_str())
    }

    /// Steps the repeat property: default, explicitly off, explicitly on.
    pub fn toggle_repeat(&mut self)
        ensures
            *final(self) == (EditMode {
                repeat: match old(self).repeat {
                    None => Some(false),
                    Some(false) => Some(true),
                    Some(true) => None,
                },
                ..*old(self)
            }),
    {
        self.repeat = match self.repeat {
            None => Some(false),
            Some(false) => Some(true),
            Some(true) => None,
        };
    }

    /// Steps the allow-when-locked property: default, explicitly on,
    /// explicitly off.
    pub fn toggle_allow_when_locked(&mut self)
        ensures
            *final(self) == (EditMode {
                allow_when_locked: match old(self).allow_when_locked {
                    None => Some(true),
                    Some(true) => Some(false),
                    Some(false) => None,
                },
                ..*old(self)
            }),
    {
        self.allow_when_locked = match self.allow_when_locked {
            None => Some(true),
            Some(true) => Some(false),
            Some(false) => None,
        };
    }

    /// Steps the kind of action forward.
    pub fn next_action_type(&mut self)
        ensures
            *final(self) == (EditMode { action_type: old(self).action_type.after(), ..*old(self) }),
    {
        self.action_type = self.action_type.next();
    }

    /// Steps the kind of action backward.
    pub fn prev_action_type(&mut self)
        ensures
            final(self).action_type.after() == old(self).action_type,
            *final(self) == (EditMode { action_type: final(self).action_type, ..*old(self) }),
    {
        self.action_type = self.action_type.prev();
    }
}

} // verus!
