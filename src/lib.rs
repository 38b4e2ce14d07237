//! A typed, sans-I/O core for the native compute-platform API: status
//! mapping, the property-query protocol, enumeration, and the lifetime of
//! reference-counted native objects.
//!
//! The library never calls the native runtime itself. Every operation is a
//! pure decision: it names the native call to make next and turns the
//! runtime's answer into a typed result.

pub mod status;
pub mod flags;
pub mod handle;
pub mod protocol;
pub mod decode;
pub mod query;
pub mod enumerate;
pub mod resource;
pub mod lifetime;
pub mod hl;
