//! Two nested value records, a person and the identity document they hold,
//! with a deep duplication and a plain-text rendering of each.
pub mod documento;
pub mod pessoa;

pub use documento::Documento;
pub use pessoa::Pessoa;
pub mod programa;

pub use programa::program_output;
