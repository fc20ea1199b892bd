//! The filters that the library comes with.
pub mod any;
pub mod method;
pub mod path;
pub mod trace;
