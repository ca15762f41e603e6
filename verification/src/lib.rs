//! A safety-oriented façade over the Inochi2D native animation library.
//!
//! The native library is a process-wide, thread-affine resource reached through
//! raw handles. This crate holds everything that can be decided without
//! touching it: which native calls an operation asks for and in which order,
//! how a failed load becomes an error, when a context may be built, and how the
//! scene bracket opens and closes. Every operation that changes native state
//! returns the calls to make as plain [`ffi::NativeCall`] values; every
//! operation that depends on native state takes what the host read as a plain
//! argument. The host performs the calls in the order given.

pub mod builder;
pub mod camera;
pub mod claims;
pub mod context;
pub mod error;
pub mod ffi;
pub mod native;
pub mod puppet;
pub mod scene;

pub use crate::builder::Inochi2DBuilder;
