//! Translation of host type descriptors into an interface-description type
//! tree, and of struct field descriptors into field records.

pub mod descriptor;
pub mod error;
pub mod idl_field;
pub mod idl_type;
pub mod text;
