//! Value-encoding and execution engine for a function-evaluation service.
//!
//! The library covers the self-describing wire notation for typed objects
//! (labels, envelopes, typed lists), the runtime value representation with
//! its byte-level boundary contract, argument decoding, and the generation
//! of the compilable unit that hosts submitted code.

pub mod evaluator;
pub mod ffi;
pub mod label;
pub mod model;
pub mod runtime;
pub mod template;
pub mod ty;
pub mod wire;

pub use wire::Wire;
pub use wire::WireV;
