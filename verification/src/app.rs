//! The application state: the three settings domains with their overlays,
//! the loaded document and the current error. Messages are handled one at
//! a time. What a message needs from outside (files, the compositor, the
//! canvas) is handed back as an effect; the shell performs it and reports
//! the outcome.

use vstd::prelude::*;
use crate::category::Category;
use crate::config::appearance_parser::{appearance_of, parse_appearance};
use crate::config::appearance_writer::{with_appearance, write_appearance};
use crate::config::keybindings_parser::{keybindings_of, parse_keybindings};
use crate::config::keybindings_writer::{with_keybindings, write_keybindings};
use crate::config::parser::{configured_positions, get_configured_positions, pairs};
use crate::config::writer::{write_positions, written};
use crate::error::ConfigError;
use crate::message::Message;
use crate::model::appearance::AppearanceView;
use crate::model::appearance_fields::FieldValueView;
use crate::model::appearance_view::{
    edit_text, edited_value, cycled, field_value, incremented, toggled, AppearanceListItem,
    AppearanceViewModel,
};
use crate::model::config::ConfigDocument;
use crate::model::keybinding_edit::EditMode;
use crate::model::keybindings::{binding_views, change_views};
use crate::model::keybindings_view::KeybindingsViewModel;
use crate::model::output::{OutputState, OutputViewModel, Position};
use crate::text::{concat, i32_of, trimmed};
use crate::update::output_update::{pending_after, selected_after, update_output};

verus! {

/// What the shell is to do after a message was handled.
pub enum Effect {
    /// Nothing is to be done.
    Nothing,
    /// Zoom the canvas in.
    ZoomIn,
    /// Zoom the canvas out.
    ZoomOut,
    /// Put the canvas back to its initial view.
    ResetView,
    /// Save the document through its save steps, then report with
    /// `save_finished`.
    Save,
    /// Ask the compositor to read its configuration again, then report with
    /// `compositor_reloaded`.
    ReloadCompositor,
    /// Query the outputs, then report with `outputs_reloaded`.
    Reload,
    /// Read the configuration file, then report with `config_loaded`.
    LoadConfig,
    /// Query the outputs, then report with `outputs_refreshed`.
    RefreshOutputs,
    /// Ask the compositor to show these positions without persisting them,
    /// in this order, stopping at the first failure.
    Preview(Vec<(String, Position)>),
}

/// The application state.
pub struct App {
    pub current_category: Category,
    pub view_model: OutputViewModel,
    pub keybindings_view_model: KeybindingsViewModel,
    pub appearance_view_model: AppearanceViewModel,
    /// The loaded document, if one could be loaded.
    pub config: Option<ConfigDocument>,
    /// The current error message; a new one replaces it.
    pub error: Option<String>,
    pub should_quit: bool,
}

/// The text of an optional message.
pub open spec fn message_text(m: Option<String>) -> Option<Seq<char>> {
    match m {
        Some(s) => Some(s@),
        None => None,
    }
}

/// The message with which a failed save is reported, by category.
pub open spec fn save_failure(category: Category, cause: Seq<char>) -> Seq<char> {
    match category {
        Category::Outputs => "Failed to save: "@ + cause,
        Category::Keybindings => "Failed to save keybindings: "@ + cause,
        Category::Appearance => "Failed to save appearance: "@ + cause,
    }
}

impl App {
    /// Whether `after` differs from this state at most in the error.
    pub open spec fn same_but_error(self, after: App) -> bool {
        after == (App { error: after.error, ..self })
    }

    /// Whether `after` has the same three view models as this state.
    pub open spec fn same_models(self, after: App) -> bool {
        &&& after.view_model == self.view_model
        &&& after.keybindings_view_model == self.keybindings_view_model
        &&& after.appearance_view_model == self.appearance_view_model
    }

    /// The state at start: nothing loaded, nothing pending, no error.
    pub fn new() -> (r: App)
        ensures
            r.current_category == Category::Outputs,
            r.view_model.outputs@.len() == 0,
            r.view_model.pending_changes@ == Map::<Seq<char>, Position>::empty(),
            r.keybindings_view_model.bindings@.len() == 0,
            r.keybindings_view_model.pending_changes@.len() == 0,
            r.appearance_view_model.settings@ == AppearanceView::initial(),
            r.appearance_view_model.pending_changes@.len() == 0,
            r.config is None,
            r.error is None,
            !r.should_quit,
    {
        App {
            current_category: Category::Outputs,
            view_model: OutputViewModel::default(),
            keybindings_view_model: KeybindingsViewModel::default(),
            appearance_view_model: AppearanceViewModel::default(),
            config: None,
            error: None,
            should_quit: false,
        }
    }

    /// Whether the current category has pending changes.
    pub open spec fn has_pending(self) -> bool {
        match self.current_category {
            Category::Outputs => self.view_model.pending_changes@ != Map::<
                Seq<char>,
                Position,
            >::empty(),
            Category::Keybindings => self.keybindings_view_model.pending_changes@.len() > 0,
            Category::Appearance => self.appearance_view_model.pending_changes@.len() > 0,
        }
    }

    /// What writing the pending changes of the current category makes of
    /// the document; none where the write fails.
    pub open spec fn document_after_write(self) -> Option<Seq<crate::model::tree::NodeTree>> {
        match self.config {
            Some(config) => match self.current_category {
                Category::Outputs => Some(
                    written(
                        config.tree(),
                        self.view_model.pending_changes.listed(),
                        self.view_model.pending_changes.listed().len() as int,
                    ),
                ),
                Category::Keybindings => with_keybindings(
                    config.tree(),
                    change_views(self.keybindings_view_model.pending_changes@),
                ),
                Category::Appearance => Some(
                    with_appearance(config.tree(), self.appearance_view_model.settings@),
                ),
            },
            None => None,
        }
    }

    /// Whether `after` and `effect` are what asking for a save makes of this
    /// state. Nothing happens where nothing is pending. Without a document
    /// the error says so. Else the pending changes of the current category
    /// are written into the document and a save is asked for. The one
    /// write that can fail is that of key bindings into a document without
    /// a `binds` block: the document is then not touched, no save is asked
    /// for, and the error says so.
    /// The view models, and with them the overlays, are never touched.
    pub open spec fn asked_to_save(self, after: App, effect: Effect) -> bool {
        &&& self.same_models(after)
        &&& after.current_category == self.current_category
        &&& after.should_quit == self.should_quit
        &&& if !self.has_pending() {
            effect is Nothing && after == self
        } else {
            match (self.config, self.document_after_write()) {
                (None, _) => {
                    &&& effect is Nothing
                    &&& after.config is None
                    &&& message_text(after.error) == Some("No config loaded"@)
                },
                (Some(_), Some(tree)) => {
                    &&& effect is Save
                    &&& after.config is Some
                    &&& after.config->0.tree() == tree
                    &&& after.config->0.path == self.config->0.path
                    &&& after.error == self.error
                },
                (Some(config), None) => {
                    &&& effect is Nothing
                    &&& after.config is Some
                    &&& after.config->0.doc == config.doc
                    &&& after.config->0.path == config.path
                    &&& message_text(after.error) == Some(
                        "Failed to save keybindings: "@ + "No binds block found in config"@,
                    )
                },
            }
        }
    }

    /// Writes the pending changes of the current category into the
    /// document and asks for the document to be saved. The overlay is not
    /// touched: it is folded into the base only when the save is reported
    /// to have succeeded.
    pub fn save_config(&mut self) -> (r: Effect)
        ensures
            old(self).asked_to_save(*final(self), r),
    {
        let pending = match self.current_category {
            Category::Outputs => self.view_model.has_pending_changes(),
            Category::Keybindings => self.keybindings_view_model.has_pending_changes(),
            Category::Appearance => self.appearance_view_model.has_pending_changes(),
        };
        if !pending {
            return Effect::Nothing;
        }
        match &mut self.config {
            Some(config) => {
                let outcome = match self.current_category {
                    Category::Outputs => write_positions(config, &self.view_model.pending_changes),
                    Category::Keybindings => write_keybindings(
                        config,
                        self.keybindings_view_model.pending_changes.as_slice(),
                    ),
                    Category::Appearance => write_appearance(
                        config,
                        &self.appearance_view_model.settings,
                    ),
                };
                match outcome {
                    Ok(()) => Effect::Save,
                    Err(e) => {
                        let cause = e.message();
                        self.error = Some(
                            concat("Failed to save keybindings: ", cause.as_str()),
                        );
                        Effect::Nothing
                    },
                }
            },
            None => {
                self.error = Some("No config loaded".to_owned());
                Effect::Nothing
            },
        }
    }

    /// Whether `after` is this state after a save of the current category
    /// that succeeded: the overlay is folded into the base and cleared, and
    /// no error is left.
    pub open spec fn committed(self, after: App) -> bool {
        &&& after.error is None
        &&& after.current_category == self.current_category
        &&& after.should_quit == self.should_quit
        &&& after.config == self.config
        &&& match self.current_category {
            Category::Outputs => {
                &&& after.view_model.outputs@ == crate::model::output::committed(
                    self.view_model.outputs@,
                    self.view_model.pending_changes.listed(),
                    self.view_model.pending_changes.listed().len() as int,
                )
                &&& after.view_model.pending_changes@ == Map::<Seq<char>, Position>::empty()
                &&& after.view_model.selected_index == self.view_model.selected_index
                &&& after.keybindings_view_model == self.keybindings_view_model
                &&& after.appearance_view_model == self.appearance_view_model
            },
            Category::Keybindings => {
                &&& after.view_model == self.view_model
                &&& after.appearance_view_model == self.appearance_view_model
                &&& after.keybindings_view_model.pending_changes@.len() == 0
                &&& match self.config {
                    Some(config) => binding_views(after.keybindings_view_model.bindings@)
                        == keybindings_of(config.tree()),
                    None => after.keybindings_view_model.bindings
                        == self.keybindings_view_model.bindings,
                }
                &&& after.keybindings_view_model == (KeybindingsViewModel {
                    bindings: after.keybindings_view_model.bindings,
                    pending_changes: after.keybindings_view_model.pending_changes,
                    selected_index: 0,
                    ..self.keybindings_view_model
                })
            },
            Category::Appearance => {
                &&& after.view_model == self.view_model
                &&& after.keybindings_view_model == self.keybindings_view_model
                &&& after.appearance_view_model.original_settings@
                    == self.appearance_view_model.settings@
                &&& after.appearance_view_model.pending_changes@.len() == 0
                &&& after.appearance_view_model == (AppearanceViewModel {
                    original_settings: after.appearance_view_model.original_settings,
                    pending_changes: after.appearance_view_model.pending_changes,
                    ..self.appearance_view_model
                })
            },
        }
    }

    /// Takes the outcome of a save. After a save that failed, the error is
    /// reported and nothing else changes: the overlay stays as it was.
    /// After one that succeeded, the overlay is folded into the base and
    /// cleared; for key bindings and appearance the compositor is then asked
    /// to read its configuration again.
    pub fn save_finished(&mut self, outcome: Result<(), ConfigError>) -> (r: Effect)
        ensures
            match outcome {
                Err(e) => r is Nothing && old(self).same_but_error(*final(self)) && message_text(
                    final(self).error,
                ) == Some(save_failure(old(self).current_category, e.text())),
                Ok(_) => old(self).committed(*final(self)) && match old(self).current_category {
                    Category::Outputs => r is Nothing,
                    _ => r is ReloadCompositor,
                },
            },
    {
        match outcome {
            Err(e) => {
                let cause = e.message();
                let prefix = match self.current_category {
                    Category::Outputs => "Failed to save: ",
                    Category::Keybindings => "Failed to save keybindings: ",
                    Category::Appearance => "Failed to save appearance: ",
                };
                self.error = Some(concat(prefix, cause.as_str()));
                Effect::Nothing
            },
            Ok(()) => {
                self.error = None;
                match self.current_category {
                    Category::Outputs => {
                        self.view_model.commit_pending();
                        Effect::Nothing
                    },
                    Category::Keybindings => {
                        match &self.config {
                            Some(config) => {
                                self.keybindings_view_model.bindings = parse_keybindings(config);
                            },
                            None => {},
                        }
                        self.keybindings_view_model.pending_changes = Vec::new();
                        self.keybindings_view_model.selected_index = 0;
                        Effect::ReloadCompositor
                    },
                    Category::Appearance => {
                        self.appearance_view_model.apply_changes();
                        Effect::ReloadCompositor
                    },
                }
            },
        }
    }

    /// Takes the outcome of asking the compositor to read its
    /// configuration again after a save: a failure is reported, and
    /// nothing else changes.
    pub fn compositor_reloaded(&mut self, outcome: Result<(), ConfigError>)
        ensures
            match outcome {
                Ok(_) => *final(self) == *old(self),
                Err(e) => old(self).same_but_error(*final(self)) && message_text(final(self).error)
                    == Some("Saved, but failed to reload niri config: "@ + e.text()),
            },
    {
        match outcome {
            Ok(()) => {},
            Err(e) => {
                let cause = e.message();
                self.error = Some(
                    concat("Saved, but failed to reload niri config: ", cause.as_str()),
                );
            },
        }
    }

    /// Takes the outputs that were queried for a reload: they replace the
    /// outputs, and the configuration file is to be read next. A failure
    /// is reported, and nothing else changes.
    pub fn outputs_reloaded(&mut self, outcome: Result<Vec<OutputState>, ConfigError>) -> (r:
        Effect)
        ensures
            match outcome {
                Ok(outputs) => r is LoadConfig && *final(self) == (App {
                    view_model: OutputViewModel { outputs, ..old(self).view_model },
                    ..*old(self)
                }),
                Err(e) => r is Nothing && old(self).same_but_error(*final(self)) && message_text(
                    final(self).error,
                ) == Some("Failed to reload: "@ + e.text()),
            },
    {
        match outcome {
            Ok(outputs) => {
                self.view_model.outputs = outputs;
                Effect::LoadConfig
            },
            Err(e) => {
                let cause = e.message();
                self.error = Some(concat("Failed to reload: ", cause.as_str()));
                Effect::Nothing
            },
        }
    }

    /// Takes the outputs that were queried for a refresh: they replace the
    /// outputs. A failure is reported, and nothing else changes.
    pub fn outputs_refreshed(&mut self, outcome: Result<Vec<OutputState>, ConfigError>)
        ensures
            match outcome {
                Ok(outputs) => *final(self) == (App {
                    view_model: OutputViewModel { outputs, ..old(self).view_model },
                    ..*old(self)
                }),
                Err(e) => old(self).same_but_error(*final(self)) && message_text(final(self).error)
                    == Some("Failed to refresh: "@ + e.text()),
            },
    {
        match outcome {
            Ok(outputs) => {
                self.view_model.outputs = outputs;
            },
            Err(e) => {
                let cause = e.message();
                self.error = Some(concat("Failed to refresh: ", cause.as_str()));
            },
        }
    }

    /// Whether `after` is this state after `config` was loaded into it.
    pub open spec fn loaded(self, config: ConfigDocument, after: App) -> bool {
        let tree = config.tree();
        &&& after.config == Some(config)
        &&& after.error == self.error
        &&& after.current_category == self.current_category
        &&& after.should_quit == self.should_quit
        &&& after.view_model.outputs@ == crate::model::output::marked(
            self.view_model.outputs@,
            configured_positions(tree),
            configured_positions(tree).len() as int,
        )
        &&& after.view_model.pending_changes == self.view_model.pending_changes
        &&& after.view_model.selected_index == self.view_model.selected_index
        &&& binding_views(after.keybindings_view_model.bindings@) == keybindings_of(tree)
        &&& after.keybindings_view_model == (KeybindingsViewModel {
            bindings: after.keybindings_view_model.bindings,
            ..self.keybindings_view_model
        })
        &&& after.appearance_view_model.settings@ == appearance_of(tree)
        &&& after.appearance_view_model.original_settings@ == appearance_of(tree)
        &&& after.appearance_view_model.pending_changes@.len() == 0
        &&& after.appearance_view_model.edit_mode is None
        &&& after.appearance_view_model.selected_index == 0
        &&& after.appearance_view_model.scroll_offset == 0
    }

    /// Takes the document that was loaded: the outputs that it has a
    /// position for are marked as configured, the key bindings and the
    /// appearance settings are read from it, and it becomes the loaded
    /// document. A failure is reported, and nothing else changes.
    pub fn config_loaded(&mut self, outcome: Result<ConfigDocument, ConfigError>)
        ensures
            match outcome {
                Ok(config) => old(self).loaded(config, *final(self)),
                Err(e) => old(self).same_but_error(*final(self)) && message_text(final(self).error)
                    == Some("Failed to load config: "@ + e.text()),
            },
    {
        match outcome {
            Ok(config) => {
                let positions = get_configured_positions(&config);
                self.view_model.mark_configured(&positions);
                self.keybindings_view_model.bindings = parse_keybindings(&config);
                self.appearance_view_model = AppearanceViewModel::new(parse_appearance(&config));
                self.config = Some(config);
            },
            Err(e) => {
                let cause = e.message();
                self.error = Some(concat("Failed to load config: ", cause.as_str()));
            },
        }
    }

    /// The positions to preview: the pending ones, in the order in which
    /// the overlay lists them.
    pub fn preview_changes(&self) -> (r: Effect)
        ensures
            match r {
                Effect::Preview(list) => list@.len() > 0 && pairs(list@) == pairs(
                    self.view_model.pending_changes.listed(),
                ),
                Effect::Nothing => self.view_model.pending_changes.listed().len() == 0,
                _ => false,
            },
    {
        let n = self.view_model.pending_changes.len();
        if n == 0 {
            return Effect::Nothing;
        }
        let mut list: Vec<(String, Position)> = Vec::new();
        let mut i: usize = 0;
        while i < n
            invariant
                i <= n,
                n == self.view_model.pending_changes.listed().len(),
                pairs(list@) == pairs(self.view_model.pending_changes.listed()).take(i as int),
            decreases n - i,
        {
            let (name, position) = self.view_model.pending_changes.entry(i);
            let ghost before = pairs(list@);
            list.push((name.to_owned(), position));
            assert(pairs(list@) =~= before.push((name@, position)));
            assert(pairs(list@) =~= pairs(self.view_model.pending_changes.listed()).take(
                i as int + 1,
            ));
            i += 1;
        }
        assert(pairs(self.view_model.pending_changes.listed()).take(n as int) =~= pairs(
            self.view_model.pending_changes.listed(),
        ));
        Effect::Preview(list)
    }
}

impl App {
    /// Whether `after` is this state with the output view model as the
    /// message leaves it.
    pub open spec fn handled_by_outputs(self, message: Message, after: App) -> bool {
        &&& after.view_model.outputs == self.view_model.outputs
        &&& after.view_model.pending_changes@ == pending_after(self.view_model, message)
        &&& after.view_model.selected_index == selected_after(self.view_model, message)
        &&& after == (App { view_model: after.view_model, ..self })
    }

    /// What the messages that concern no single domain make of this state.
    pub open spec fn handled_generally(self, message: Message, after: App, effect: Effect) -> bool {
        match message {
            Message::Quit => effect is Nothing && after == (App { should_quit: true, ..self }),
            Message::SwitchCategory(category) => effect is Nothing && after == (App {
                current_category: category,
                error: None,
                ..self
            }),
            Message::PanCanvas { .. } | Message::UpdateAppearanceValue(_) => effect is Nothing
                && after == self,
            Message::ZoomIn => effect is ZoomIn && after == self,
            Message::ZoomOut => effect is ZoomOut && after == self,
            Message::ResetView => effect is ResetView && after == self,
            Message::Error(text) => effect is Nothing && after == (App {
                error: Some(text),
                ..self
            }),
            Message::ClearError => effect is Nothing && after == (App { error: None, ..self }),
            Message::RefreshOutputs => effect is RefreshOutputs && after == self,
            _ => effect is Nothing && after == self,
        }
    }

    /// Whether `after` is this state with every overlay discarded: the
    /// pending positions, the pending changes of key bindings, and the
    /// pending changes of the appearance, whose working copy is put back.
    pub open spec fn reverted(self, after: App) -> bool {
        let keys = self.keybindings_view_model;
        let looks = self.appearance_view_model;
        &&& after.view_model.pending_changes@ == Map::<Seq<char>, Position>::empty()
        &&& after.view_model.outputs == self.view_model.outputs
        &&& after.view_model.selected_index == self.view_model.selected_index
        &&& after.keybindings_view_model.pending_changes@.len() == 0
        &&& after.keybindings_view_model == (KeybindingsViewModel {
            pending_changes: after.keybindings_view_model.pending_changes,
            ..keys
        })
        &&& after.appearance_view_model.settings@ == looks.original_settings@
        &&& after.appearance_view_model.pending_changes@.len() == 0
        &&& looks.same_but_pending(after.appearance_view_model)
        &&& after.current_category == self.current_category
        &&& after.config == self.config
        &&& after.error == self.error
        &&& after.should_quit == self.should_quit
    }

    /// What the messages of saving, reloading and previewing make of this
    /// state.
    pub open spec fn handled_by_persistence(
        self,
        message: Message,
        after: App,
        effect: Effect,
    ) -> bool {
        match message {
            Message::Save => self.asked_to_save(after, effect),
            Message::Reload => effect is Reload && self.reverted(after),
            Message::PreviewChanges => after == self && match effect {
                Effect::Preview(list) => list@.len() > 0 && pairs(list@) == pairs(
                    self.view_model.pending_changes.listed(),
                ),
                Effect::Nothing => self.view_model.pending_changes.listed().len() == 0,
                _ => false,
            },
            Message::RevertPreview => {
                &&& effect is Nothing
                &&& after.view_model.pending_changes@ == Map::<Seq<char>, Position>::empty()
                &&& after.view_model.outputs == self.view_model.outputs
                &&& after.view_model.selected_index == self.view_model.selected_index
                &&& after == (App { view_model: after.view_model, ..self })
            },
            _ => effect is Nothing && after == self,
        }
    }

    /// What the messages of the key bindings make of this state.
    pub open spec fn handled_by_keybindings(
        self,
        message: Message,
        after: App,
        effect: Effect,
    ) -> bool {
        let keys = self.keybindings_view_model;
        let keys_after = after.keybindings_view_model;
        &&& effect is Nothing
        &&& after == (App { keybindings_view_model: keys_after, error: after.error, ..self })
        &&& match message {
            Message::SelectNextKeybinding
            | Message::SelectPrevKeybinding
            | Message::SelectKeybinding(_)
            | Message::StartSearch
            | Message::UpdateSearch(_)
            | Message::ClearSearch => after.error == self.error
                && crate::update::keybindings_update::updated(keys, message, keys_after),
            Message::StartEdit => keys.started_edit(keys_after) && after.error == if keys.selected_index
                < keys.visible().len() {
                None
            } else {
                self.error
            },
            Message::CancelEdit => after.error is None && keys_after == (KeybindingsViewModel {
                edit_mode: None,
                ..keys
            }),
            Message::ConfirmEdit => keys.confirmed_edit(keys_after) && match keys.edit_mode {
                Some(edit) => message_text(after.error) == match edit.binding() {
                    Some(_) => None,
                    None => Some("Invalid keybinding: key combo and action are required"@),
                },
                None => after.error == self.error,
            },
            Message::AddKeybinding => {
                &&& after.error is None
                &&& keys_after.edit_mode is Some
                &&& keys_after.edit_mode->0.is_blank()
                &&& keys_after == (KeybindingsViewModel { edit_mode: keys_after.edit_mode, ..keys })
            },
            Message::DeleteKeybinding => after.error == self.error && keys.deleted_selected(
                keys_after,
            ),
            _ => after == self,
        }
    }

    /// What the messages of the appearance settings make of this state.
    pub open spec fn handled_by_appearance(
        self,
        message: Message,
        after: App,
        effect: Effect,
    ) -> bool {
        let looks = self.appearance_view_model;
        let looks_after = after.appearance_view_model;
        &&& effect is Nothing
        &&& after == (App { appearance_view_model: looks_after, error: after.error, ..self })
        &&& match message {
            Message::SelectNextAppearanceSetting => after.error == self.error && looks_after == (
            AppearanceViewModel { selected_index: looks_after.selected_index, ..looks })
                && looks_after.selected_index == if looks.visible().len() == 0 {
                looks.selected_index as int
            } else {
                (looks.selected_index + 1) % (looks.visible().len() as int)
            },
            Message::SelectPrevAppearanceSetting => after.error == self.error && looks_after == (
            AppearanceViewModel { selected_index: looks_after.selected_index, ..looks })
                && looks_after.selected_index == if looks.visible().len() == 0 {
                looks.selected_index as int
            } else if looks.selected_index == 0 {
                looks.visible().len() - 1
            } else {
                looks.selected_index - 1
            },
            Message::ToggleSection => after.error == self.error && looks_after == (
            AppearanceViewModel { collapsed_sections: looks_after.collapsed_sections, ..looks })
                && forall|s: crate::model::appearance_fields::AppearanceSection|
                looks_after.collapsed_sections.holds(s) == if looks.selected_index
                    < looks.visible().len() && looks.visible()[looks.selected_index as int]
                    == AppearanceListItem::SectionHeader(s) {
                    !looks.collapsed_sections.holds(s)
                } else {
                    looks.collapsed_sections.holds(s)
                },
            Message::StartAppearanceEdit => looks.started_edit(looks_after)
                && match looks.selected_field() {
                Some(f) => match field_value(looks.settings@, f) {
                    FieldValueView::Boolean(_) | FieldValueView::Enum(_) => after.error
                        == self.error,
                    value => message_text(after.error) == match edit_text(value) {
                        Some(_) => None,
                        None => Some("Gradient editing not supported yet"@),
                    },
                },
                None => after.error == self.error,
            },
            Message::CancelAppearanceEdit => after.error is None && looks_after == (
            AppearanceViewModel { edit_mode: None, ..looks }),
            Message::ConfirmAppearanceEdit => looks.confirmed_edit(looks_after)
                && match looks.edit_mode {
                Some(edit) => message_text(after.error) == match edited_value(
                    edit.field,
                    trimmed(edit.value@),
                    i32_of(trimmed(edit.value@)),
                ) {
                    Ok(_) => None,
                    Err(m) => Some(m),
                },
                None => after.error == self.error,
            },
            Message::ToggleAppearanceBool
            | Message::IncrementValue
            | Message::DecrementValue
            | Message::CycleEnumForward
            | Message::CycleEnumBackward => after.error == self.error && looks.same_but_pending(
                looks_after,
            ) && looks_after.pending() == match looks.selected_field() {
                Some(f) => match message {
                    Message::ToggleAppearanceBool => toggled(looks.pending(), f),
                    Message::IncrementValue => incremented(looks.pending(), f, 1),
                    Message::DecrementValue => incremented(looks.pending(), f, -1i32),
                    _ => cycled(looks.pending(), f, message is CycleEnumForward),
                },
                None => looks.pending(),
            },
            _ => after == self,
        }
    }

    /// Whether `after` and `effect` are what handling `message` makes of
    /// this state.
    pub open spec fn handled(self, message: Message, after: App, effect: Effect) -> bool {
        match message {
            Message::Quit
            | Message::SwitchCategory(_)
            | Message::PanCanvas { .. }
            | Message::UpdateAppearanceValue(_)
            | Message::ZoomIn
            | Message::ZoomOut
            | Message::ResetView
            | Message::Error(_)
            | Message::ClearError
            | Message::RefreshOutputs => self.handled_generally(message, after, effect),
            Message::Save
            | Message::Reload
            | Message::PreviewChanges
            | Message::RevertPreview => self.handled_by_persistence(message, after, effect),
            Message::SelectNextKeybinding
            | Message::SelectPrevKeybinding
            | Message::SelectKeybinding(_)
            | Message::StartSearch
            | Message::UpdateSearch(_)
            | Message::ClearSearch
            | Message::StartEdit
            | Message::CancelEdit
            | Message::ConfirmEdit
            | Message::AddKeybinding
            | Message::DeleteKeybinding => self.handled_by_keybindings(message, after, effect),
            Message::SelectNextAppearanceSetting
            | Message::SelectPrevAppearanceSetting
            | Message::ToggleSection
            | Message::StartAppearanceEdit
            | Message::CancelAppearanceEdit
            | Message::ConfirmAppearanceEdit
            | Message::ToggleAppearanceBool
            | Message::IncrementValue
            | Message::DecrementValue
            | Message::CycleEnumForward
            | Message::CycleEnumBackward => self.handled_by_appearance(message, after, effect),
            _ => effect is Nothing && self.handled_by_outputs(message, after),
        }
    }

    /// Handles the messages that concern no single domain.
    fn update_generally(&mut self, message: Message) -> (r: Effect)
        ensures
            old(self).handled_generally(message, *final(self), r),
    {
        match message {
            Message::Quit => {
                self.should_quit = true;
                Effect::Nothing
            },
            Message::SwitchCategory(category) => {
                self.current_category = category;
                self.error = None;
                Effect::Nothing
            },
            Message::PanCanvas { .. } => Effect::Nothing,
            Message::ZoomIn => Effect::ZoomIn,
            Message::ZoomOut => Effect::ZoomOut,
            Message::ResetView => Effect::ResetView,
            Message::Error(text) => {
                self.error = Some(text);
                Effect::Nothing
            },
            Message::ClearError => {
                self.error = None;
                Effect::Nothing
            },
            Message::RefreshOutputs => Effect::RefreshOutputs,
            Message::UpdateAppearanceValue(_) => Effect::Nothing,
            _ => Effect::Nothing,
        }
    }

    /// Handles the messages of saving, reloading and previewing.
    fn update_persistence(&mut self, message: Message) -> (r: Effect)
        ensures
            old(self).handled_by_persistence(message, *final(self), r),
    {
        match message {
            Message::Save => self.save_config(),
            Message::Reload => {
                self.view_model.clear_pending_changes();
                self.keybindings_view_model.pending_changes = Vec::new();
                self.appearance_view_model.reset_changes();
                Effect::Reload
            },
            Message::PreviewChanges => self.preview_changes(),
            Message::RevertPreview => {
                self.view_model.clear_pending_changes();
                Effect::Nothing
            },
            _ => Effect::Nothing,
        }
    }

    /// Handles the messages of the key bindings.
    fn update_keybindings(&mut self, message: Message) -> (r: Effect)
        ensures
            old(self).handled_by_keybindings(message, *final(self), r),
    {
        match message {
            Message::SelectNextKeybinding
            | Message::SelectPrevKeybinding
            | Message::SelectKeybinding(_)
            | Message::StartSearch
            | Message::UpdateSearch(_)
            | Message::ClearSearch => {
                crate::update::keybindings_update::update_keybindings(
                    &mut self.keybindings_view_model,
                    &message,
                );
                Effect::Nothing
            },
            Message::StartEdit => {
                if self.keybindings_view_model.start_edit() {
                    self.error = None;
                }
                Effect::Nothing
            },
            Message::CancelEdit => {
                self.keybindings_view_model.edit_mode = None;
                self.error = None;
                Effect::Nothing
            },
            Message::ConfirmEdit => {
                if self.keybindings_view_model.edit_mode.is_some() {
                    match self.keybindings_view_model.confirm_edit() {
                        Ok(()) => {
                            self.error = None;
                        },
                        Err(e) => {
                            self.error = Some(e.message());
                        },
                    }
                }
                Effect::Nothing
            },
            Message::AddKeybinding => {
                self.keybindings_view_model.edit_mode = Some(EditMode::new_binding());
                self.error = None;
                Effect::Nothing
            },
            Message::DeleteKeybinding => {
                self.keybindings_view_model.delete_selected();
                Effect::Nothing
            },
            _ => Effect::Nothing,
        }
    }

    /// Handles the messages of the appearance settings.
    fn update_appearance(&mut self, message: Message) -> (r: Effect)
        ensures
            old(self).handled_by_appearance(message, *final(self), r),
    {
        match message {
            Message::SelectNextAppearanceSetting => {
                self.appearance_view_model.select_next();
                Effect::Nothing
            },
            Message::SelectPrevAppearanceSetting => {
                self.appearance_view_model.select_prev();
                Effect::Nothing
            },
            Message::ToggleSection => {
                self.appearance_view_model.toggle_selected_section();
                Effect::Nothing
            },
            Message::StartAppearanceEdit => {
                let opens = match self.appearance_view_model.selected_field_of() {
                    Some(f) => !f.is_boolean() && !f.is_enum(),
                    None => false,
                };
                match self.appearance_view_model.start_edit() {
                    Ok(()) => {
                        if opens {
                            self.error = None;
                        }
                    },
                    Err(e) => {
                        self.error = Some(e.message());
                    },
                }
                Effect::Nothing
            },
            Message::CancelAppearanceEdit => {
                self.appearance_view_model.edit_mode = None;
                self.error = None;
                Effect::Nothing
            },
            Message::ConfirmAppearanceEdit => {
                if self.appearance_view_model.edit_mode.is_some() {
                    match self.appearance_view_model.confirm_edit() {
                        Ok(()) => {
                            self.error = None;
                        },
                        Err(e) => {
                            self.error = Some(e.message());
                        },
                    }
                }
                Effect::Nothing
            },
            Message::ToggleAppearanceBool => {
                self.appearance_view_model.toggle_selected();
                Effect::Nothing
            },
            Message::IncrementValue => {
                self.appearance_view_model.adjust_selected(1);
                Effect::Nothing
            },
            Message::DecrementValue => {
                self.appearance_view_model.adjust_selected(-1);
                Effect::Nothing
            },
            Message::CycleEnumForward => {
                self.appearance_view_model.cycle_selected(true);
                Effect::Nothing
            },
            Message::CycleEnumBackward => {
                self.appearance_view_model.cycle_selected(false);
                Effect::Nothing
            },
            _ => Effect::Nothing,
        }
    }

    /// Handles one message. What the message needs from outside is handed
    /// back as an effect; the state itself never fails, and an error is
    /// kept as the current error message, which replaces an earlier one
    /// and is cleared by the next successful action.
    pub fn update(&mut self, message: Message) -> (r: Effect)
        ensures
            old(self).handled(message, *final(self), r),
    {
        match message {
            Message::Quit
            | Message::SwitchCategory(_)
            | Message::PanCanvas { .. }
            | Message::UpdateAppearanceValue(_)
            | Message::ZoomIn
            | Message::ZoomOut
            | Message::ResetView
            | Message::Error(_)
            | Message::ClearError
            | Message::RefreshOutputs => self.update_generally(message),
            Message::Save
            | Message::Reload
            | Message::PreviewChanges
            | Message::RevertPreview => self.update_persistence(message),
            Message::SelectNextKeybinding
            | Message::SelectPrevKeybinding
            | Message::SelectKeybinding(_)
            | Message::StartSearch
            | Message::UpdateSearch(_)
            | Message::ClearSearch
            | Message::StartEdit
            | Message::CancelEdit
            | Message::ConfirmEdit
            | Message::AddKeybinding
            | Message::DeleteKeybinding => self.update_keybindings(message),
            Message::SelectNextAppearanceSetting
            | Message::SelectPrevAppearanceSetting
            | Message::ToggleSection
            | Message::StartAppearanceEdit
            | Message::CancelAppearanceEdit
            | Message::ConfirmAppearanceEdit
            | Message::ToggleAppearanceBool
            | Message::IncrementValue
            | Message::DecrementValue
            | Message::CycleEnumForward
            | Message::CycleEnumBackward => self.update_appearance(message),
            Message::SelectOutput(_)
            | Message::SelectNextOutput
            | Message::SelectPrevOutput
            | Message::MoveOutput { .. }
            | Message::SetPosition { .. }
            | Message::SnapLeft
            | Message::SnapRight
            | Message::SnapAbove
            | Message::SnapBelow
            | Message::Normalize => {
                let _ = update_output(&mut self.view_model, &message);
                Effect::Nothing
            },
        }
    }
}

} // verus!
