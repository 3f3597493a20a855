//! The typed settings domains and their pending-change overlays.

pub mod appearance;
pub mod appearance_edit;
pub mod appearance_fields;
pub mod appearance_view;
pub mod config;
pub mod keybinding_edit;
pub mod keybindings;
pub mod keybindings_view;
pub mod output;
pub mod tree;

pub use appearance::{
    AppearanceSettings, BorderSettings, CenterFocusedColumn, ColorValue, FocusRingSettings,
    ShadowSettings, StrutsSettings,
};
pub use appearance_edit::{AppearanceEditMode, ColorEditField, ColorEditState};
pub use appearance_fields::{
    AppearanceChange, AppearanceField, AppearanceSection, FieldKind, FieldValue,
};
pub use appearance_view::{AppearanceListItem, AppearanceViewModel, CollapsedSections};
pub use config::{ConfigDocument, SaveStep};
pub use keybinding_edit::{parse_command_args, ActionType, EditField, EditMode};
pub use keybindings::{
    BindingAction, BindingArg, BindingProperties, Keybinding, KeybindingChange, Modifiers,
};
pub use keybindings_view::{BindingStatus, EffectiveBinding, KeybindingsViewModel};
pub use output::{
    OutputMode, OutputState, OutputTransform, OutputViewModel, Position, PositionOverlay, Size,
};
