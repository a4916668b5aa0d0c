//! Properties for structs: named, typed get/set capabilities that a trait can
//! promise and a structure can supply, with the structure's own type erased
//! behind the value type.
//!
//! An owning structure keeps its value in a shared cell of a
//! [`store::CellStore`], binds itself and its two accessor functions into a
//! [`property::PropertyImplementation`], and erases that into a
//! [`property::Property`] which any caller can drive knowing only the value
//! type.

pub mod laws;
pub mod property;
pub mod store;
