//! The accessors between the document and the typed settings: output
//! positions, key bindings and appearance.

pub mod appearance_laws;
pub mod appearance_parser;
pub mod appearance_writer;
pub mod keybindings_parser;
pub mod keybindings_writer;
pub mod parser;
pub mod writer;

pub use appearance_parser::parse_appearance;
pub use appearance_writer::write_appearance;
pub use keybindings_parser::parse_keybindings;
pub use keybindings_writer::write_keybindings;
pub use parser::get_configured_positions;
pub use writer::write_positions;
