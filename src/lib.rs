//! Decoding of EBML content as used by Matroska and WebM files: identifiers
//! and variable-size integers, element headers and typed bodies, block
//! headers, resynchronisation after corruption, a chunked driver and the
//! reconstruction of the element tree.

pub mod ancestory;
pub mod driver;
pub mod element;
pub mod elements;
pub mod enumerations;
pub mod error;
pub mod metadata;
pub mod parse;
pub mod reader;
pub mod status;
pub mod stream;
pub mod text;
pub mod tree;
pub mod vint;

pub use element::{BinaryValue, Block, Body, Date, Element, FloatBits, Header, Lacing, SimpleBlock, Unsigned};
pub use elements::{Id, Type};
pub use enumerations::Enumeration;
pub use error::Error;
