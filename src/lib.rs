//! A generator of helper code for enums: variant predicates, unwrapping and
//! optional accessors by value, by reference and by mutable reference, a
//! fieldless tag enum, and view enums that hold references into a value.
//!
//! The enum comes in as a [`shape::SumType`], with its types and other
//! syntax as text; [`expand::generate_enum_helper`] gives back the source
//! text of everything requested.

pub mod accessors;
pub mod companion;
pub mod expand;
pub mod generics;
pub mod item;
pub mod laws;
pub mod naming;
pub mod options;
pub mod render;
pub mod shape;
pub mod text;

pub use expand::generate_enum_helper;
