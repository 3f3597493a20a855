//! The settings categories the operator can switch between.

use vstd::prelude::*;

verus! {

/// Available settings categories.
#[derive(Clone, Copy, PartialEq, Eq, Debug, Structural)]
pub enum Category {
    Outputs,
    Keybindings,
    Appearance,
}

impl Default for Category {
    fn default() -> (r: Self)
        ensures
            r == Category::Outputs,
    {
        Category::Outputs
    }
}

impl Category {
    /// The display name of a category.
    pub open spec fn name_text(self) -> Seq<char> {
        match self {
            Category::Outputs => "Outputs"@,
            Category::Keybindings => "Keybindings"@,
            Category::Appearance => "Appearance"@,
        }
    }

    /// The number of the function key that selects a category.
    pub open spec fn key_number(self) -> int {
        match self {
            Category::Outputs => 1,
            Category::Keybindings => 2,
            Category::Appearance => 3,
        }
    }

    /// The keys of a category with what they do, as the status bar shows
    /// them.
    pub open spec fn hints(self) -> Seq<(Seq<char>, Seq<char>)> {
        match self {
            Category::Outputs => seq![
                ("q"@, "Quit"@),
                ("Tab"@, "Select"@),
                ("hjkl"@, "Move"@),
                ("HJKL"@, "Snap"@),
                ("n"@, "Normalize"@),
                ("s"@, "Save"@),
            ],
            Category::Keybindings => seq![
                ("q"@, "Quit"@),
                ("j/k"@, "Navigate"@),
                ("/"@, "Search"@),
                ("Enter"@, "Edit"@),
                ("a"@, "Add"@),
                ("d"@, "Delete"@),
                ("s"@, "Save"@),
            ],
            Category::Appearance => seq![
                ("q"@, "Quit"@),
                ("j/k"@, "Navigate"@),
                ("Tab"@, "Expand/Collapse"@),
                ("Enter"@, "Edit"@),
                ("Space"@, "Toggle"@),
                ("+/-"@, "Adjust"@),
                ("s"@, "Save"@),
            ],
        }
    }

    /// The category selected by function key `n`, if any.
    pub fn from_function_key(n: u8) -> (r: Option<Category>)
        ensures
            match r {
                Some(c) => c.key_number() == n,
                None => forall|c: Category| c.key_number() != n,
            },
    {
        if n == 1 {
            Some(Category::Outputs)
        } else if n == 2 {
            Some(Category::Keybindings)
        } else if n == 3 {
            Some(Category::Appearance)
        } else {
            None
        }
    }

    /// All categories in display order.
    pub fn all() -> (r: &'static [Category])
        ensures
            r@ == seq![Category::Outputs, Category::Keybindings, Category::Appearance],
    {
        &[Category::Outputs, Category::Keybindings, Category::Appearance]
    }

    /// The display name for this category.
    pub fn name(&self) -> (r: &'static str)
        ensures
            r@ == self.name_text(),
    {
        match self {
            Category::Outputs => "Outputs",
            Category::Keybindings => "Keybindings",
            Category::Appearance => "Appearance",
        }
    }

    /// The function key number for this category, counted from 1.
    pub fn function_key(&self) -> (r: u8)
        ensures
            r == self.key_number(),
    {
        match self {
            Category::Outputs => 1,
            Category::Keybindings => 2,
            Category::Appearance => 3,
        }
    }

    /// The keys of this category with what they do.
    pub fn keybinds(&self) -> (r: &'static [(&'static str, &'static str)])
        ensures
            hint_texts(r@) == self.hints(),
    {
        match self {
            Category::Outputs => {
                let r: &'static [(&'static str, &'static str)] = &[
                    ("q", "Quit"),
                    ("Tab", "Select"),
                    ("hjkl", "Move"),
                    ("HJKL", "Snap"),
                    ("n", "Normalize"),
                    ("s", "Save"),
                ];
                assert(hint_texts(r@) =~= self.hints());
                r
            },
            Category::Keybindings => {
                let r: &'static [(&'static str, &'static str)] = &[
                    ("q", "Quit"),
                    ("j/k", "Navigate"),
                    ("/", "Search"),
                    ("Enter", "Edit"),
                    ("a", "Add"),
                    ("d", "Delete"),
                    ("s", "Save"),
                ];
                assert(hint_texts(r@) =~= self.hints());
                r
            },
            Category::Appearance => {
                let r: &'static [(&'static str, &'static str)] = &[
                    ("q", "Quit"),
                    ("j/k", "Navigate"),
                    ("Tab", "Expand/Collapse"),
                    ("Enter", "Edit"),
                    ("Space", "Toggle"),
                    ("+/-", "Adjust"),
                    ("s", "Save"),
                ];
                assert(hint_texts(r@) =~= self.hints());
                r
            },
        }
    }
}

/// The texts of pairs of keys and what they do.
pub open spec fn hint_texts(pairs: Seq<(&'static str, &'static str)>) -> Seq<
    (Seq<char>, Seq<char>),
> {
    pairs.map_values(|p: (&'static str, &'static str)| (p.0@, p.1@))
}

} // verus!
