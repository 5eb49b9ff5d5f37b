//! A verified reader for TSPLIB problem files.
//!
//! [`TspBuilder`] reads the text of a file into a [`Tsp`], which answers for
//! the weight of each edge. Numbers are kept as the decimal numerals of the
//! file; a distance between coordinates is left to the caller to compute.

pub mod builder;
pub mod draft;
pub mod encoding;
pub mod error;
pub mod kinds;
pub mod layout;
pub mod number;
pub mod point;
pub mod sections;
pub mod text;
pub mod tsp;

pub use builder::TspBuilder;
pub use error::ParseTspError;
pub use kinds::CoordKind;
pub use kinds::DisplayKind;
pub use kinds::EdgeFormat;
pub use kinds::TspKind;
pub use kinds::WeightFormat;
pub use kinds::WeightKind;
pub use number::Number;
pub use point::Point;
pub use tsp::Tsp;
pub use tsp::Weight;
