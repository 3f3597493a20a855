//! The messages that drive the settings state.

use vstd::prelude::*;
use crate::category::Category;

verus! {

/// Every operation the front-end can ask for; each message maps to exactly
/// one operation and messages are handled one at a time.
#[derive(Debug, Clone)]
pub enum Message {
    // Navigation
    Quit,
    SwitchCategory(Category),
    // Output selection
    SelectOutput(usize),
    SelectNextOutput,
    SelectPrevOutput,
    // Position editing
    MoveOutput { dx: i32, dy: i32 },
    SetPosition { x: i32, y: i32 },
    // Snap positioning
    SnapLeft,
    SnapRight,
    SnapAbove,
    SnapBelow,
    Normalize,
    // Canvas controls
    PanCanvas { dx: i32, dy: i32 },
    ZoomIn,
    ZoomOut,
    ResetView,
    // Config actions
    Save,
    Reload,
    // Preview through the compositor
    PreviewChanges,
    RevertPreview,
    // Error handling
    Error(String),
    ClearError,
    // Refresh outputs from the compositor
    RefreshOutputs,
    // Keybindings navigation
    SelectNextKeybinding,
    SelectPrevKeybinding,
    SelectKeybinding(usize),
    // Keybindings search
    StartSearch,
    UpdateSearch(String),
    ClearSearch,
    // Keybindings editing
    StartEdit,
    CancelEdit,
    ConfirmEdit,
    AddKeybinding,
    DeleteKeybinding,
    // Appearance navigation
    SelectNextAppearanceSetting,
    SelectPrevAppearanceSetting,
    ToggleSection,
    // Appearance editing
    StartAppearanceEdit,
    CancelAppearanceEdit,
    ConfirmAppearanceEdit,
    ToggleAppearanceBool,
    IncrementValue,
    DecrementValue,
    CycleEnumForward,
    CycleEnumBackward,
    UpdateAppearanceValue(String),
}

} // verus!
