//! Decoding of the sfnt container used by OpenType and TrueType fonts: the
//! table directory and the `head`, `name` and `cmap` tables.
pub mod error;
pub mod types;
pub mod utils;
pub mod t_head;
pub mod t_name;
pub mod t_cmap;
pub mod font;

pub use error::DecodeError;
pub use font::{Font, TableDirectory, TableKind, TableRecord};
