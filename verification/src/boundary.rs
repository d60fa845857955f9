//! Where the module ends and the call data begins.

use vstd::prelude::*;
use vstd::slice::slice_subrange;
use crate::error::{agrees_on, Failure, PayloadError};
use crate::params::{optional_bytes, ActionParams, CallPayload, ParamsType};
use crate::wasm::peeked_size;

verus! {

/// The two regions of a payload. Both borrow from the payload's buffers;
/// nothing is copied.
#[derive(Debug, Clone, Copy)]
pub struct BoundarySplit<'a> {
    /// The bytes of the binary module.
    pub module_bytes: &'a [u8],
    /// The bytes of the call data.
    pub data_bytes: &'a [u8],
}

/// A [`BoundarySplit`] as contracts see it: two sequences of bytes.
pub struct Regions {
    /// The bytes of the binary module.
    pub module_bytes: Seq<u8>,
    /// The bytes of the call data.
    pub data_bytes: Seq<u8>,
}

impl<'a> View for BoundarySplit<'a> {
    type V = Regions;

    open spec fn view(&self) -> Regions {
        Regions { module_bytes: self.module_bytes@, data_bytes: self.data_bytes@ }
    }
}

/// The regions of a code buffer whose first `module_size` bytes are the
/// module: the module, then all that follows it.
pub open spec fn embedded_regions(code: Seq<u8>, module_size: int) -> Regions {
    Regions {
        module_bytes: code.subrange(0, module_size),
        data_bytes: code.subrange(module_size, code.len() as int),
    }
}

/// The regions of a payload whose call data has a field of its own: all of
/// the code buffer is the module, and an absent data field is empty data.
pub open spec fn separate_regions(code: Seq<u8>, data: Option<Seq<u8>>) -> Regions {
    Regions {
        module_bytes: code,
        data_bytes: match data {
            Some(bytes) => bytes,
            None => Seq::empty(),
        },
    }
}

/// The regions of a payload with code buffer `code`. With embedded data the
/// module's length is the one that the size probe finds in `code`.
pub open spec fn regions_of(
    code: Seq<u8>,
    data: Option<Seq<u8>>,
    params_type: ParamsType,
) -> Regions {
    match params_type {
        ParamsType::Embedded => embedded_regions(code, peeked_size(code) as int),
        ParamsType::Separate => separate_regions(code, data),
    }
}

/// What resolving a payload comes to: its regions, or the failure for a
/// payload without code.
pub open spec fn resolution(payload: CallPayload) -> Result<Regions, Failure> {
    match payload.code {
        Some(code) => Ok(regions_of(code, payload.data, payload.params_type)),
        None => Err(Failure::MissingCode),
    }
}

/// Cuts `code` after its first `module_size` bytes.
pub fn split_embedded<'a>(code: &'a [u8], module_size: usize) -> (split: BoundarySplit<'a>)
    requires
        module_size <= code@.len(),
    ensures
        split@ == embedded_regions(code@, module_size as int),
        split.module_bytes@ + split.data_bytes@ == code@,
{
    let module_bytes = slice_subrange(code, 0, module_size);
    let data_bytes = slice_subrange(code, module_size, code.len());
    assert(module_bytes@ + data_bytes@ =~= code@);
    BoundarySplit { module_bytes, data_bytes }
}

/// Takes all of `code` as the module and the data field, where there is one,
/// as the call data.
pub fn split_separate<'a>(code: &'a [u8], data: &'a Option<Vec<u8>>) -> (split: BoundarySplit<'a>)
    ensures
        split@ == separate_regions(code@, optional_bytes(*data)),
{
    let data_bytes = match data {
        Some(bytes) => bytes.as_slice(),
        None => slice_subrange(code, 0, 0),
    };
    assert(code@.subrange(0, 0) =~= Seq::<u8>::empty());
    BoundarySplit { module_bytes: code, data_bytes }
}

/// Finds the module and the call data in a payload.
///
/// A payload without code is turned away. Otherwise the answer is always a
/// split: with separate data the code buffer is the module whatever it holds,
/// and with embedded data the module ends where the size probe says and the
/// two regions together are the code buffer again, neither reaching beyond
/// it. A code buffer too short for the probe gives an empty module.
pub fn resolve<'a>(params: &'a ActionParams) -> (resolved: Result<BoundarySplit<'a>, PayloadError>)
    ensures
        agrees_on(resolved, resolution(params@)),
        match (resolved, params@.code) {
            (Ok(split), Some(code)) => params.params_type == ParamsType::Embedded ==> {
                &&& peeked_size(code) <= code.len()
                &&& split.module_bytes@.len() == peeked_size(code)
                &&& split.module_bytes@.len() + split.data_bytes@.len() == code.len()
                &&& split.module_bytes@ + split.data_bytes@ == code
                &&& code.len() < 9 ==> split.module_bytes@.len() == 0
            },
            _ => true,
        },
{
    let code = match &params.code {
        Some(code) => code.as_slice(),
        None => {
            return Err(PayloadError::MissingCode);
        },
    };
    match params.params_type {
        ParamsType::Embedded => {
            let module_size = parity_wasm::elements::peek_size(code);
            Ok(split_embedded(code, module_size))
        },
        ParamsType::Separate => Ok(split_separate(code, &params.data)),
    }
}

/// Cutting a concatenation where its first part ends gives back both parts.
pub proof fn lemma_split_recovers_parts(module_bytes: Seq<u8>, trailer: Seq<u8>)
    ensures
        embedded_regions(module_bytes + trailer, module_bytes.len() as int) == (Regions {
            module_bytes,
            data_bytes: trailer,
        }),
{
    let code = module_bytes + trailer;
    assert(code.subrange(0, module_bytes.len() as int) =~= module_bytes);
    assert(code.subrange(module_bytes.len() as int, code.len() as int) =~= trailer);
}

/// The two regions of an embedded payload, one after the other, are the code
/// buffer, wherever within it the module ends.
pub proof fn lemma_split_round_trip(code: Seq<u8>, module_size: int)
    requires
        0 <= module_size <= code.len(),
    ensures
        embedded_regions(code, module_size).module_bytes + embedded_regions(
            code,
            module_size,
        ).data_bytes == code,
{
    assert(code.subrange(0, module_size) + code.subrange(module_size, code.len() as int)
        =~= code);
}

/// With embedded data, a module followed by a trailer is resolved into that
/// module and that trailer whenever the size probe measures the module at its
/// own length. The data field has no part in it.
pub proof fn lemma_embedded_recovers_parts(
    module_bytes: Seq<u8>,
    trailer: Seq<u8>,
    data: Option<Seq<u8>>,
)
    ensures
        peeked_size(module_bytes + trailer) == module_bytes.len() ==> resolution(
            CallPayload {
                code: Some(module_bytes + trailer),
                data,
                params_type: ParamsType::Embedded,
            },
        ) == Ok::<Regions, Failure>(Regions { module_bytes, data_bytes: trailer }),
{
    lemma_split_recovers_parts(module_bytes, trailer);
}

/// With separate data, the code buffer is the module as it stands and the
/// data field is the call data as it stands, whatever the code buffer holds.
pub proof fn lemma_separate_keeps_both(code: Seq<u8>, data: Seq<u8>)
    ensures
        resolution(
            CallPayload { code: Some(code), data: Some(data), params_type: ParamsType::Separate },
        ) == Ok::<Regions, Failure>(Regions { module_bytes: code, data_bytes: data }),
        resolution(CallPayload { code: Some(code), data: None, params_type: ParamsType::Separate })
            == Ok::<Regions, Failure>(Regions { module_bytes: code, data_bytes: Seq::empty() }),
{
}

} // verus!
