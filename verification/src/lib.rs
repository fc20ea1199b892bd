//! Composable request filters and the rejections they produce.
//!
//! A filter looks at one request and either extracts an ordered tuple of
//! values or rejects the request. Filters are combined in sequence and as
//! alternatives; the rejections of competing alternatives are collected and
//! resolved into a single response.
//!
//! - [`route`] holds the request as the filters see it, with the cursor into
//!   its path.
//! - [`filter`] holds what a filter is, and the ways to compose filters.
//! - [`generic`] holds the algebra of the extracted tuples.
//! - [`reject`] holds the rejections and their resolution.
//! - [`headers`] holds what is told of the header map that a request comes
//!   with.
//! - [`filters`] holds the filters that the library comes with.
pub mod filter;
pub mod filters;
pub mod generic;
pub mod headers;
pub mod reject;
pub mod reply;
pub mod route;
pub mod status;

pub use self::filter::wrap::wrap_fn;
pub use self::filter::{Filter, FilterBase};
pub use self::filters::any::any;
pub use self::filters::method::{delete, get, head, method, options, patch, post, put};
pub use self::filters::path::path;
pub use self::filters::trace::trace;
pub use self::filters::{path, trace};
pub use self::reject::{reject, Rejection};
pub use self::reply::{reply, Reply};
pub use self::route::Route;
