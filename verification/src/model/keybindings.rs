//! Key bindings: modifiers, actions, and how they are spelled.

use vstd::prelude::*;
use crate::text::{
    after_last, chars_of, clone_texts, concat, contains, decimal, decimal_of, join, joined,
    lowercase_of, occurs_in, quoted, quoted_of, split, split_on, starts_with, string_of_range,
    tail_after, text_eq, texts, to_lowercase,
};

verus! {

/// The modifier keys of a key binding.
#[derive(Debug, Clone, Copy, PartialEq, Eq, Structural)]
pub struct Modifiers {
    /// The primary modifier (Super/Logo).
    pub mod_key: bool,
    pub ctrl: bool,
    pub shift: bool,
    pub alt: bool,
}

impl Default for Modifiers {
    fn default() -> (r: Self)
        ensures
            r == Modifiers::none(),
    {
        Modifiers { mod_key: false, ctrl: false, shift: false, alt: false }
    }
}

/// Whether a lower-case word names the primary modifier.
pub open spec fn is_mod_word(w: Seq<char>) -> bool {
    w == "mod"@ || w == "super"@ || w == "logo"@
}

/// Whether a lower-case word names the control key.
pub open spec fn is_ctrl_word(w: Seq<char>) -> bool {
    w == "ctrl"@ || w == "control"@
}

impl Modifiers {
    /// No modifier at all.
    pub open spec fn none() -> Modifiers {
        Modifiers { mod_key: false, ctrl: false, shift: false, alt: false }
    }

    /// These modifiers with the one that the lower-case word `w` names, if
    /// it names one.
    pub open spec fn with_word(self, w: Seq<char>) -> Modifiers {
        Modifiers {
            mod_key: self.mod_key || is_mod_word(w),
            ctrl: self.ctrl || is_ctrl_word(w),
            shift: self.shift || w == "shift"@,
            alt: self.alt || w == "alt"@,
        }
    }

    /// The modifiers named by the first `k` pieces of a combo, case ignored.
    pub open spec fn of_pieces(pieces: Seq<Seq<char>>, k: int) -> Modifiers
        decreases k,
    {
        if k <= 0 || k > pieces.len() {
            Modifiers::none()
        } else {
            Modifiers::of_pieces(pieces, k - 1).with_word(lowercase_of(pieces[k - 1]))
        }
    }

    /// The modifiers of a combo such as `Mod+Shift+T`: those named by every
    /// piece but the last.
    pub open spec fn of_combo(combo: Seq<char>) -> Modifiers {
        Modifiers::of_pieces(split_on(combo, '+'), split_on(combo, '+').len() - 1)
    }

    /// The key of a combo: its last piece.
    pub open spec fn key_of_combo(combo: Seq<char>) -> Seq<char> {
        split_on(combo, '+').last()
    }

    /// The names of the modifiers that are set, in the order Mod, Ctrl,
    /// Shift, Alt.
    pub open spec fn names(self) -> Seq<Seq<char>> {
        (if self.mod_key {
            seq!["Mod"@]
        } else {
            seq![]
        }) + (if self.ctrl {
            seq!["Ctrl"@]
        } else {
            seq![]
        }) + (if self.shift {
            seq!["Shift"@]
        } else {
            seq![]
        }) + (if self.alt {
            seq!["Alt"@]
        } else {
            seq![]
        })
    }

    /// The modifiers spelled out: their names joined by `+`.
    pub open spec fn spelled(self) -> Seq<char> {
        joined(self.names(), "+"@)
    }

    /// Adds the modifier that a word names, given the word in lower case:
    /// `mod`, `super` or `logo`; `ctrl` or `control`; `shift`; `alt`. Any
    /// other word changes nothing.
    pub fn with_keyword(self, lowered: &str) -> (r: Modifiers)
        ensures
            r == self.with_word(lowered@),
    {
        let mut r = self;
        if text_eq(lowered, "mod") || text_eq(lowered, "super") || text_eq(lowered, "logo") {
            r.mod_key = true;
        }
        if text_eq(lowered, "ctrl") || text_eq(lowered, "control") {
            r.ctrl = true;
        }
        if text_eq(lowered, "shift") {
            r.shift = true;
        }
        if text_eq(lowered, "alt") {
            r.alt = true;
        }
        r
    }

    /// Splits a combo at `+`: the last piece is the key, and every piece
    /// before it that names a modifier, in any case, sets that modifier.
    pub fn parse(combo: &str) -> (r: (Modifiers, String))
        ensures
            r.0 == Modifiers::of_combo(combo@),
            r.1@ == Modifiers::key_of_combo(combo@),
    {
        let pieces = split(combo, '+');
        let mut mods = Modifiers { mod_key: false, ctrl: false, shift: false, alt: false };
        let last = pieces.len() - 1;
        let mut i: usize = 0;
        while i < last
            invariant
                i <= last,
                last == pieces@.len() - 1,
                texts(pieces@) == split_on(combo@, '+'),
                mods == Modifiers::of_pieces(split_on(combo@, '+'), i as int),
            decreases last - i,
        {
            let lowered = to_lowercase(pieces[i].as_str());
            assert(texts(pieces@)[i as int] == pieces@[i as int]@);
            mods = mods.with_keyword(lowered.as_str());
            i += 1;
        }
        assert(texts(pieces@)[last as int] == pieces@[last as int]@);
        (mods, pieces[last].clone())
    }

    /// The modifiers as text, such as `Mod+Shift`; empty where none is set.
    pub fn to_string(&self) -> (r: String)
        ensures
            r@ == self.spelled(),
    {
        let mut parts: Vec<String> = Vec::new();
        if self.mod_key {
            parts.push("Mod".to_owned());
        }
        if self.ctrl {
            parts.push("Ctrl".to_owned());
        }
        if self.shift {
            parts.push("Shift".to_owned());
        }
        if self.alt {
            parts.push("Alt".to_owned());
        }
        assert(texts(parts@) =~= self.names());
        join(&parts, "+")
    }
}

/// The properties that a key binding may set.
#[derive(Debug, Clone, Copy, PartialEq, Eq, Structural)]
pub struct BindingProperties {
    /// Whether the binding repeats while held; repeats where absent.
    pub repeat: Option<bool>,
    /// The delay between repeats, in milliseconds.
    pub cooldown_ms: Option<u32>,
    /// Whether the binding works while the screen is locked.
    pub allow_when_locked: Option<bool>,
}

impl Default for BindingProperties {
    fn default() -> (r: Self)
        ensures
            r == (BindingProperties { repeat: None, cooldown_ms: None, allow_when_locked: None }),
    {
        BindingProperties { repeat: None, cooldown_ms: None, allow_when_locked: None }
    }
}

impl BindingProperties {
    pub fn has_custom_properties(&self) -> (r: bool)
        ensures
            r == (self.repeat is Some || self.cooldown_ms is Some || self.allow_when_locked
                is Some),
    {
        self.repeat.is_some() || self.cooldown_ms.is_some() || self.allow_when_locked.is_some()
    }
}

/// The argument of an action.
#[derive(Debug, PartialEq, Eq)]
pub enum BindingArg {
    Number(i64),
    String(String),
    Bool(bool),
}

/// What a `BindingArg` holds.
pub enum ArgView {
    Number(i64),
    Text(Seq<char>),
    Bool(bool),
}

impl ArgView {
    /// The argument as it is shown.
    pub open spec fn shown(self) -> Seq<char> {
        match self {
            ArgView::Number(n) => decimal_of(n),
            ArgView::Text(s) => s,
            ArgView::Bool(b) => if b {
                "true"@
            } else {
                "false"@
            },
        }
    }
}

impl View for BindingArg {
    type V = ArgView;

    open spec fn view(&self) -> ArgView {
        match self {
            BindingArg::Number(n) => ArgView::Number(*n),
            BindingArg::String(s) => ArgView::Text(s@),
            BindingArg::Bool(b) => ArgView::Bool(*b),
        }
    }
}

impl Clone for BindingArg {
    fn clone(&self) -> (r: Self)
        ensures
            r@ == self@,
    {
        match self {
            BindingArg::Number(n) => BindingArg::Number(*n),
            BindingArg::String(s) => BindingArg::String(s.clone()),
            BindingArg::Bool(b) => BindingArg::Bool(*b),
        }
    }
}

impl BindingArg {
    /// The argument as text: a number in decimal, a string as it is, a
    /// boolean as `true` or `false`.
    pub fn to_string(&self) -> (r: String)
        ensures
            r@ == self@.shown(),
    {
        match self {
            BindingArg::Number(n) => decimal(*n),
            BindingArg::String(s) => s.clone(),
            BindingArg::Bool(b) => if *b {
                "true".to_owned()
            } else {
                "false".to_owned()
            },
        }
    }
}

/// What a key binding does.
#[derive(Debug, PartialEq, Eq)]
pub enum BindingAction {
    /// Runs a command with arguments.
    Spawn(Vec<String>),
    /// Runs a shell command line.
    SpawnSh(String),
    /// A built-in action without an argument.
    Simple(String),
    /// A built-in action with one argument.
    WithArg(String, BindingArg),
}

/// What a `BindingAction` holds.
pub enum ActionView {
    Spawn(Seq<Seq<char>>),
    SpawnSh(Seq<char>),
    Simple(Seq<char>),
    WithArg(Seq<char>, ArgView),
}

/// The first `n` characters of `s`, or all of it where it has fewer.
pub open spec fn prefix(s: Seq<char>, n: int) -> Seq<char> {
    if s.len() > n {
        s.take(n)
    } else {
        s
    }
}

impl ActionView {
    /// The action in full, as it is shown in a detail view.
    pub open spec fn shown(self) -> Seq<char> {
        match self {
            ActionView::Spawn(args) => "spawn "@ + quoted_of(
                if args.len() == 1 {
                    args[0]
                } else {
                    joined(args, " "@)
                },
            ),
            ActionView::SpawnSh(cmd) => "spawn-sh "@ + quoted_of(cmd),
            ActionView::Simple(name) => name,
            ActionView::WithArg(name, arg) => name + " "@ + arg.shown(),
        }
    }

    /// The action in short, as it is shown in a list: the command's file
    /// name, the first 20 characters of a shell command, or the action
    /// with its argument.
    pub open spec fn short(self) -> Seq<char> {
        match self {
            ActionView::Spawn(args) => if args.len() == 0 {
                "spawn"@
            } else if args.len() > 1 {
                args[0].skip(after_last(args[0], '/')) + " ..."@
            } else {
                args[0].skip(after_last(args[0], '/'))
            },
            ActionView::SpawnSh(cmd) => if cmd.len() > 20 {
                cmd.take(20) + "..."@
            } else {
                cmd
            },
            ActionView::Simple(name) => name,
            ActionView::WithArg(name, arg) => name + " "@ + arg.shown(),
        }
    }

    /// The group under which an action is listed.
    pub open spec fn group(self) -> Seq<char> {
        match self {
            ActionView::Spawn(_) | ActionView::SpawnSh(_) => "Program Execution"@,
            ActionView::Simple(name) | ActionView::WithArg(name, _) => builtin_group(name),
        }
    }
}

/// The group of a built-in action, by its name.
pub open spec fn builtin_group(name: Seq<char>) -> Seq<char> {
    if name == "close-window"@ || name == "quit"@ || name == "power-off-monitors"@ {
        "Window Management"@
    } else if "focus-"@.is_prefix_of(name) {
        "Focus"@
    } else if "move-"@.is_prefix_of(name) {
        "Movement"@
    } else if "set-"@.is_prefix_of(name) {
        "Layout"@
    } else if "switch-"@.is_prefix_of(name) {
        "Workspace"@
    } else if "consume-"@.is_prefix_of(name) || "expel-"@.is_prefix_of(name) {
        "Column"@
    } else if name == "screenshot"@ || name == "screenshot-screen"@ || name
        == "screenshot-window"@ {
        "Screenshot"@
    } else {
        "Other"@
    }
}

impl View for BindingAction {
    type V = ActionView;

    open spec fn view(&self) -> ActionView {
        match self {
            BindingAction::Spawn(args) => ActionView::Spawn(texts(args@)),
            BindingAction::SpawnSh(cmd) => ActionView::SpawnSh(cmd@),
            BindingAction::Simple(name) => ActionView::Simple(name@),
            BindingAction::WithArg(name, arg) => ActionView::WithArg(name@, arg@),
        }
    }
}

impl Clone for BindingAction {
    fn clone(&self) -> (r: Self)
        ensures
            r@ == self@,
    {
        match self {
            BindingAction::Spawn(args) => BindingAction::Spawn(clone_texts(args)),
            BindingAction::SpawnSh(cmd) => BindingAction::SpawnSh(cmd.clone()),
            BindingAction::Simple(name) => BindingAction::Simple(name.clone()),
            BindingAction::WithArg(name, arg) => BindingAction::WithArg(name.clone(), arg.clone()),
        }
    }
}

fn builtin_category(name: &str) -> (r: &'static str)
    ensures
        r@ == builtin_group(name@),
{
    if text_eq(name, "close-window") || text_eq(name, "quit") || text_eq(
        name,
        "power-off-monitors",
    ) {
        "Window Management"
    } else if starts_with(name, "focus-") {
        "Focus"
    } else if starts_with(name, "move-") {
        "Movement"
    } else if starts_with(name, "set-") {
        "Layout"
    } else if starts_with(name, "switch-") {
        "Workspace"
    } else if starts_with(name, "consume-") || starts_with(name, "expel-") {
        "Column"
    } else if text_eq(name, "screenshot") || text_eq(name, "screenshot-screen") || text_eq(
        name,
        "screenshot-window",
    ) {
        "Screenshot"
    } else {
        "Other"
    }
}

impl BindingAction {
    /// The action in full.
    pub fn to_string(&self) -> (r: String)
        ensures
            r@ == self@.shown(),
    {
        match self {
            BindingAction::Spawn(args) => {
                let shown = if args.len() == 1 {
                    assert(texts(args@)[0] == args@[0]@);
                    quoted(args[0].as_str())
                } else {
                    let all = join(args, " ");
                    quoted(all.as_str())
                };
                concat("spawn ", shown.as_str())
            },
            BindingAction::SpawnSh(cmd) => {
                let shown = quoted(cmd.as_str());
                concat("spawn-sh ", shown.as_str())
            },
            BindingAction::Simple(name) => name.clone(),
            BindingAction::WithArg(name, arg) => {
                let shown = arg.to_string();
                let head = concat(name.as_str(), " ");
                concat(head.as_str(), shown.as_str())
            },
        }
    }

    /// A short description for a list.
    pub fn short_description(&self) -> (r: String)
        ensures
            r@ == self@.short(),
    {
        match self {
            BindingAction::Spawn(args) => {
                if args.len() == 0 {
                    "spawn".to_owned()
                } else {
                    assert(texts(args@)[0] == args@[0]@);
                    let file = tail_after(args[0].as_str(), '/');
                    if args.len() > 1 {
                        concat(file.as_str(), " ...")
                    } else {
                        file
                    }
                }
            },
            BindingAction::SpawnSh(cmd) => {
                let v = chars_of(cmd.as_str());
                if v.len() > 20 {
                    let head = string_of_range(&v, 0, 20);
                    concat(head.as_str(), "...")
                } else {
                    cmd.clone()
                }
            },
            BindingAction::Simple(name) => name.clone(),
            BindingAction::WithArg(name, arg) => {
                let shown = arg.to_string();
                let head = concat(name.as_str(), " ");
                concat(head.as_str(), shown.as_str())
            },
        }
    }

    /// The group under which the action is listed.
    pub fn category(&self) -> (r: &'static str)
        ensures
            r@ == self@.group(),
    {
        match self {
            BindingAction::Spawn(_) => "Program Execution",
            BindingAction::SpawnSh(_) => "Program Execution",
            BindingAction::Simple(name) => builtin_category(name.as_str()),
            BindingAction::WithArg(name, _) => builtin_category(name.as_str()),
        }
    }
}

/// One key binding.
#[derive(Debug, PartialEq, Eq)]
pub struct Keybinding {
    pub modifiers: Modifiers,
    /// The key name, such as `T`, `Left` or `XF86AudioRaiseVolume`.
    pub key: String,
    pub properties: BindingProperties,
    pub action: BindingAction,
    /// The position of the binding in the document's list of bindings;
    /// absent for a binding that was not saved yet.
    pub kdl_index: Option<usize>,
}

/// What a `Keybinding` holds.
pub struct KeybindingView {
    pub modifiers: Modifiers,
    pub key: Seq<char>,
    pub properties: BindingProperties,
    pub action: ActionView,
    pub kdl_index: Option<usize>,
}

impl KeybindingView {
    /// The combo of a binding, such as `Mod+Shift+T`: the modifiers and the
    /// key joined by `+`, or the key alone where no modifier is set.
    pub open spec fn combo(self) -> Seq<char> {
        if self.modifiers.spelled().len() == 0 {
            self.key
        } else {
            self.modifiers.spelled() + "+"@ + self.key
        }
    }

    /// Whether a binding matches what lower-casing made of a search query:
    /// whether the combo or the short description, in lower case, holds it.
    pub open spec fn matches_lowered(self, lowered_query: Seq<char>) -> bool {
        occurs_in(lowercase_of(self.combo()), lowered_query) || occurs_in(
            lowercase_of(self.action.short()),
            lowered_query,
        )
    }

    /// Whether a binding matches a search query, case ignored.
    pub open spec fn matches(self, query: Seq<char>) -> bool {
        self.matches_lowered(lowercase_of(query))
    }
}

impl View for Keybinding {
    type V = KeybindingView;

    open spec fn view(&self) -> KeybindingView {
        KeybindingView {
            modifiers: self.modifiers,
            key: self.key@,
            properties: self.properties,
            action: self.action@,
            kdl_index: self.kdl_index,
        }
    }
}

impl Clone for Keybinding {
    fn clone(&self) -> (r: Self)
        ensures
            r@ == self@,
    {
        Keybinding {
            modifiers: self.modifiers,
            key: self.key.clone(),
            properties: self.properties,
            action: self.action.clone(),
            kdl_index: self.kdl_index,
        }
    }
}

/// The views of a sequence of bindings.
pub open spec fn binding_views(v: Seq<Keybinding>) -> Seq<KeybindingView> {
    v.map_values(|b: Keybinding| b@)
}

impl Keybinding {
    /// The full combo, such as `Mod+Shift+T`.
    pub fn combo(&self) -> (r: String)
        ensures
            r@ == self@.combo(),
    {
        let mods = self.modifiers.to_string();
        if mods.as_str().is_empty() {
            self.key.clone()
        } else {
            let head = concat(mods.as_str(), "+");
            concat(head.as_str(), self.key.as_str())
        }
    }

    /// Whether one of two texts holds a query; all three are taken as they
    /// are.
    pub fn holds_query(combo: &str, description: &str, query: &str) -> (r: bool)
        ensures
            r == (occurs_in(combo@, query@) || occurs_in(description@, query@)),
    {
        contains(combo, query) || contains(description, query)
    }

    /// Whether the combo or the short description holds a query that is
    /// already in lower case.
    pub fn matches_lowered(&self, lowered_query: &str) -> (r: bool)
        ensures
            r == self@.matches_lowered(lowered_query@),
    {
        let combo = self.combo();
        let combo = to_lowercase(combo.as_str());
        let short = self.action.short_description();
        let short = to_lowercase(short.as_str());
        Self::holds_query(combo.as_str(), short.as_str(), lowered_query)
    }

    /// Whether this binding matches a search query, case ignored.
    pub fn matches_search(&self, query: &str) -> (r: bool)
        ensures
            r == self@.matches(query@),
    {
        let lowered = to_lowercase(query);
        self.matches_lowered(lowered.as_str())
    }
}

/// One pending change to the list of key bindings. `Modify` and `Delete`
/// name a position in the list as it was loaded, never one in a filtered
/// view.
#[derive(Debug, PartialEq, Eq)]
pub enum KeybindingChange {
    Add(Keybinding),
    Modify { index: usize, new: Keybinding },
    Delete(usize),
}

/// What a `KeybindingChange` holds.
pub enum ChangeView {
    Add(KeybindingView),
    Modify { index: usize, new: KeybindingView },
    Delete(usize),
}

impl View for KeybindingChange {
    type V = ChangeView;

    open spec fn view(&self) -> ChangeView {
        match self {
            KeybindingChange::Add(b) => ChangeView::Add(b@),
            KeybindingChange::Modify { index, new } => ChangeView::Modify {
                index: *index,
                new: new@,
            },
            KeybindingChange::Delete(i) => ChangeView::Delete(*i),
        }
    }
}

impl Clone for KeybindingChange {
    fn clone(&self) -> (r: Self)
        ensures
            r@ == self@,
    {
        match self {
            KeybindingChange::Add(b) => KeybindingChange::Add(b.clone()),
            KeybindingChange::Modify { index, new } => KeybindingChange::Modify {
                index: *index,
                new: new.clone(),
            },
            KeybindingChange::Delete(i) => KeybindingChange::Delete(*i),
        }
    }
}

/// The views of a sequence of changes.
pub open spec fn change_views(v: Seq<KeybindingChange>) -> Seq<ChangeView> {
    v.map_values(|c: KeybindingChange| c@)
}

} // verus!
