//! Conversions between a dynamic runtime's generic sequences and an
//! inline-capacity vector.
//!
//! Extraction refuses text values, then values without the sequence
//! capability, then walks the sequence and converts each item in order,
//! stopping at the first failure. The borrowing and the consuming conversion
//! build a list object of the elements' own conversions.
pub mod convert;
pub mod error;
pub mod export;
pub mod extract;
pub mod theorems;
pub mod sequence;
pub mod small_vec;
pub mod value;

pub use convert::{FromDynamic, IntoDynamic, ToDynamic};
pub use error::ConversionError;
pub use extract::extract_sequence;
pub use sequence::{SequenceIter, SequenceRef};
pub use small_vec::SmallVec;
pub use value::{DynValue, HostError};
