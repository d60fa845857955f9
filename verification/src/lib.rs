//! Preparation of untrusted WebAssembly contract code for execution.
//!
//! A call payload carries the contract's binary module and, either appended to
//! it or in a field of its own, the call data. [`payload`] finds where the
//! module ends, decodes it, turns away modules that declare a linear memory of
//! their own, and has the gas counter and the stack height limiter injected,
//! in that order. Every failure is reported as one [`PayloadError`]; no stage is
//! retried and nothing partial is handed back. A module that refers to the
//! largest function index there is leaves the gas injector no room to add
//! its import, and counts as one that could not be metered.

pub mod boundary;
pub mod counts;
pub mod decoder;
pub mod error;
pub mod indices;
pub mod instrument;
pub mod params;
pub mod pipeline;
pub mod validator;
pub mod wasm;

pub use boundary::{resolve, split_embedded, split_separate, BoundarySplit, Regions};
pub use counts::{count_bodies, count_instructions};
pub use decoder::{decode, decoded_or_error};
pub use error::{Failure, Malformation, PayloadError};
pub use indices::is_renumberable;
pub use instrument::{instrument, limit_metered, limited_or_error, meter, metered_or_error};
pub use params::{ActionParams, CallPayload, ParamsType};
pub use pipeline::payload;
pub use validator::{check_memories, count_internal_memories, validate};
