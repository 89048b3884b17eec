//! A catalog of the packages and build targets of a workspace, and the
//! construction of build requests scoped to one target of it.

pub mod dispatch;
pub mod error;
pub mod kind;
pub mod loader;
pub mod model;
pub mod record;
pub mod session;
