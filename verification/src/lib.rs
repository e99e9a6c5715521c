//! Verified core of an nginx HTTP module SDK.
//!
//! Native nginx objects are plain values of this crate: an address is a `usize`, a string is its
//! length with the bytes its data pointer leads to, a request is a [`native::NativeRequest`] in a
//! [`native::NativeState`]. Checked views and builders work on those values, and an operation that
//! ends in nginx hands back the call to make as a [`native::NginxCall`].

pub mod buffer;
pub mod bytes;
pub mod laws;
pub mod native;
pub mod request;
pub mod status;
pub mod subrequest;
pub mod text;
pub mod upstream;
pub mod variable;
