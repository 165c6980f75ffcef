//! A document model for a JSON rich-text format: a closed tree of typed
//! nodes and marks, read from and written to generic JSON values under
//! contracts that fix exactly which values read as which trees.
pub mod attrs;
pub mod decode;
pub mod encode;
pub mod error;
pub mod fields;
pub mod json;
pub mod laws;
pub mod model;
mod names;
pub mod text;

pub use error::{DecodeError, DecodeErrorKind, PathStep};
pub use json::{JsonNumber, JsonValue};
pub use model::{Mark, Node};
pub use text::{encode, encode_text, from_str, from_value, value_from_str};
