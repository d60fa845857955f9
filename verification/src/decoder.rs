//! Decoding of the module's bytes.

use vstd::prelude::*;
use parity_wasm::elements::Module;
use crate::error::{agrees, fails_to_decode, Failure, PayloadError};
use crate::wasm::{debug_string, debug_text, deserialize_module, deserialized};

verus! {

/// What the pipeline makes of the decoder's answer: the module, or the decode
/// error that carries the decoder's diagnostic.
pub open spec fn decoding_outcome(decoded: Result<Module, parity_wasm::elements::Error>) -> Result<
    Module,
    Failure,
> {
    match decoded {
        Ok(module) => Ok(module),
        Err(error) => Err(Failure::DecodeError(debug_text(error))),
    }
}

/// Turns the decoder's answer into the pipeline's: the module passes through,
/// an error becomes a decode error with the decoder's diagnostic as its text.
pub fn decoded_or_error(
    decoded: Result<Module, parity_wasm::elements::Error>,
) -> (outcome: Result<Module, PayloadError>)
    ensures
        agrees(outcome, decoding_outcome(decoded)),
{
    match decoded {
        Ok(module) => Ok(module),
        Err(error) => Err(PayloadError::DecodeError(debug_string(&error))),
    }
}

/// Decodes `bytes` as one binary module.
///
/// Fewer than eight bytes cannot hold a module's header and are always
/// turned away.
pub fn decode(bytes: &[u8]) -> (outcome: Result<Module, PayloadError>)
    ensures
        agrees(outcome, decoding_outcome(deserialized(bytes@))),
        bytes@.len() < 8 ==> fails_to_decode(outcome),
{
    decoded_or_error(deserialize_module(bytes))
}

} // verus!
