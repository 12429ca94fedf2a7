//! Analysis engine for systemd unit descriptions: diagnostics, completion
//! candidates and hover text, computed from the full text of a document.

pub mod backend;
pub mod completion;
pub mod diagnostics;
pub mod hover;
pub mod knowledge;
pub mod model;
pub mod parser;
pub mod scanner;
pub mod store;
pub mod syntax;
pub mod text;

pub use backend::Backend;
pub use parser::parse_unit_file;
