//! The call side of the library: the values that cross the process boundary,
//! the handles and builders that collect a call, and the callbacks.
pub mod callback;
pub mod library;
pub mod registry;
pub mod session;
pub mod types;
