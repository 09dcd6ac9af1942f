//! A canonical value model for structured data, with a projection engine that
//! builds values and a reconstruction engine that hands them back shape by shape.
pub mod de;
pub mod error;
pub mod fields;
pub mod laws;
pub mod ser;
pub mod value;

pub use de::Deserializer;
pub use error::{Error, ErrorKind, Expected, Protocol};
pub use value::Value;
