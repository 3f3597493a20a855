//! How messages change the settings state.

pub mod keybindings_update;
pub mod output_update;

pub use keybindings_update::update_keybindings;
pub use output_update::update_output;
