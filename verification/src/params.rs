//! The part of a call's parameters that carries contract code and call data.

use vstd::prelude::*;

verus! {

/// How the call data reaches the contract.
#[derive(Debug, Clone, Copy, PartialEq, Eq, Structural)]
pub enum ParamsType {
    /// The call data follows the module in the code buffer.
    Embedded,
    /// The call data travels in the `data` field.
    Separate,
}

/// Code and data of one contract call.
#[derive(Debug, Clone, PartialEq, Eq)]
pub struct ActionParams {
    /// The contract's binary module, followed by the call data when
    /// `params_type` is `Embedded`.
    pub code: Option<Vec<u8>>,
    /// The call data when `params_type` is `Separate`.
    pub data: Option<Vec<u8>>,
    /// Where the call data is to be found.
    pub params_type: ParamsType,
}

/// [`ActionParams`] as contracts see them: the buffers are sequences of
/// bytes.
pub struct CallPayload {
    /// The bytes of the code buffer, if there is one.
    pub code: Option<Seq<u8>>,
    /// The bytes of the data field, if there is one.
    pub data: Option<Seq<u8>>,
    /// Where the call data is to be found.
    pub params_type: ParamsType,
}

/// The bytes of a buffer that may be absent.
pub open spec fn optional_bytes(buffer: Option<Vec<u8>>) -> Option<Seq<u8>> {
    match buffer {
        Some(bytes) => Some(bytes@),
        None => None,
    }
}

impl View for ActionParams {
    type V = CallPayload;

    open spec fn view(&self) -> CallPayload {
        CallPayload {
            code: optional_bytes(self.code),
            data: optional_bytes(self.data),
            params_type: self.params_type,
        }
    }
}

impl Default for ActionParams {
    /// Parameters that carry neither code nor data, the data being expected
    /// in its own field.
    fn default() -> (params: ActionParams)
        ensures
            params@ == (CallPayload { code: None, data: None, params_type: ParamsType::Separate }),
    {
        ActionParams { code: None, data: None, params_type: ParamsType::Separate }
    }
}

} // verus!
