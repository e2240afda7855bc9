//! Validated, normalised names and the small value objects that travel with
//! them.

pub mod animation;
pub mod name;
pub mod notification;
pub mod text;
pub mod validation;
