//! Phone-number interpretation for a host language: parsing text into
//! numbers, validity and viability checks, classification and rendering.
//! The numbering-plan work is done by the `phonenumber` crate; this library
//! holds the decisions around it and proves them.

mod outside;

pub mod class_interface;
pub mod nilable;
pub mod number_type;
pub mod parts;
pub mod phone_number;

pub use class_interface::{ClassInterface, UnknownRegion};
pub use nilable::{Nilable, NilableConvert};
pub use number_type::NumberType;
pub use parts::{CodeSource, FormatMode, NumberParts};
pub use phone_number::RubyPhoneNumber;
