//! A vector path model: drawing segments held in drawing order, validated
//! append operations, merging of one path into another under an affine
//! transform, and the resolution of the point from which drawing continues.
//!
//! Numbers are held as IEEE 754 bit patterns. The library classifies and
//! compares them; arithmetic on them is handed in by the caller, as
//! functions: the contracts say on which numbers each function is called and
//! where its answers go.
//!
//! Beside the path stand a few small parts of the engine around it: two
//! actors of the debugging protocol, the embedder policy of a request's
//! environment, and the decoding of a script engine's strings.
pub mod number;
pub mod segment;
pub mod path;
pub mod append;
pub mod last_point;
pub mod transform;
pub mod merge;
pub mod actor;
pub mod accessibility;
pub mod framerate;
pub mod environment;
pub mod conversions;
