//! The pipeline from a call's payload to an instrumented module and the call
//! data: resolve the boundary, decode, validate, meter, limit.

use vstd::prelude::*;
use parity_wasm::elements::Module;
use crate::boundary::{resolution, resolve, Regions};
use crate::counts::{body_count, instruction_count};
use crate::decoder::{decode, decoding_outcome};
use crate::error::{
    ends_in, fails_to_decode, fails_with, Failure, Malformation, PayloadError,
};
use crate::indices::renumberable;
use crate::instrument::{chain_outcome, instrument, instrumentation_outcome};
use crate::params::{ActionParams, CallPayload, ParamsType};
use crate::validator::{internal_memories, memory_verdict, validate, validation_outcome};
use crate::wasm::{deserialized, gas_metered, height_limited, peeked_size};

verus! {

/// What the pipeline comes to, given what each stage answered. A stage's
/// answer counts only where all stages before it went well, and the first
/// failure is the pipeline's. `shiftable` says whether the module's function
/// indices leave room for the gas import.
pub open spec fn staged_outcome(
    resolved: Result<Regions, Failure>,
    decoded: Result<Module, parity_wasm::elements::Error>,
    memories: nat,
    shiftable: bool,
    metered: Result<Module, Module>,
    limited: Result<Module, pwasm_utils::stack_height::Error>,
) -> Result<(Module, Seq<u8>), Failure> {
    match resolved {
        Err(kind) => Err(kind),
        Ok(regions) => match decoding_outcome(decoded) {
            Err(kind) => Err(kind),
            Ok(_) => match memory_verdict(memories) {
                Err(kind) => Err(kind),
                Ok(_) => match chain_outcome(shiftable, metered, limited) {
                    Err(kind) => Err(kind),
                    Ok(module) => Ok((module, regions.data_bytes)),
                },
            },
        },
    }
}

/// What the pipeline makes of a payload: the instrumented module with the
/// call data, or the failure of the first stage that fails.
pub open spec fn payload_outcome(
    payload: CallPayload,
    rules: pwasm_utils::rules::Set,
    stack_limit: u32,
) -> Result<(Module, Seq<u8>), Failure> {
    match resolution(payload) {
        Err(kind) => Err(kind),
        Ok(regions) => match decoding_outcome(deserialized(regions.module_bytes)) {
            Err(kind) => Err(kind),
            Ok(module) => match validation_outcome(module) {
                Err(kind) => Err(kind),
                Ok(valid) => match instrumentation_outcome(valid, rules, stack_limit) {
                    Err(kind) => Err(kind),
                    Ok(instrumented) => Ok((instrumented, regions.data_bytes)),
                },
            },
        },
    }
}

/// The module that the pipeline decodes from a payload, where it gets as far
/// as that and the decoder succeeds.
pub open spec fn decoded_module(payload: CallPayload) -> Option<Module> {
    match resolution(payload) {
        Ok(regions) => match deserialized(regions.module_bytes) {
            Ok(module) => Some(module),
            Err(_) => None,
        },
        Err(_) => None,
    }
}

/// Splits the payload into code and data as `params.params_type` says,
/// decodes the module, turns it away if it declares a memory of its own, and
/// injects the gas counter under `costs` and the stack height limiter under
/// `max_stack_height`.
///
/// The result is the instrumented module with the call data, which borrows
/// from the payload, or the failure of the first stage that failed. A payload
/// without code is a missing code failure. With embedded data, a code buffer
/// of fewer than nine bytes is too short for the size probe and ends in a
/// decode failure; so does, with separate data, one of fewer than the eight
/// bytes of a module's header. Embedded call data lies within the code
/// buffer, after the module. The instrumented module holds at least two
/// instructions more for each function body of the decoded one.
pub fn payload<'a>(
    params: &'a ActionParams,
    costs: &pwasm_utils::rules::Set,
    max_stack_height: u32,
) -> (prepared: Result<(Module, &'a [u8]), PayloadError>)
    ensures
        match payload_outcome(params@, *costs, max_stack_height) {
            Ok(expected) => prepared matches Ok(contract) && contract.0 == expected.0
                && contract.1@ == expected.1,
            Err(kind) => fails_with(prepared, kind),
        },
        match params@.code {
            Some(code) => {
                &&& params.params_type == ParamsType::Embedded && code.len() < 9
                    ==> fails_to_decode(prepared)
                &&& params.params_type == ParamsType::Separate && code.len() < 8
                    ==> fails_to_decode(prepared)
                &&& params.params_type == ParamsType::Embedded ==> peeked_size(code) <= code.len()
            },
            None => fails_with(prepared, Failure::MissingCode),
        },
        match (prepared, params@.code) {
            (Ok(contract), Some(code)) => {
                &&& params.params_type == ParamsType::Embedded ==> {
                    &&& contract.1@.len() + peeked_size(code) == code.len()
                    &&& contract.1@ == code.subrange(peeked_size(code) as int, code.len() as int)
                }
                &&& decoded_module(params@) matches Some(module) && instruction_count(contract.0)
                    >= instruction_count(module) + 2 * body_count(module)
            },
            _ => true,
        },
{
    let split = match resolve(params) {
        Ok(split) => split,
        Err(error) => {
            return Err(error);
        },
    };
    let module = match decode(split.module_bytes) {
        Ok(module) => module,
        Err(error) => {
            return Err(error);
        },
    };
    let module = match validate(module) {
        Ok(module) => module,
        Err(error) => {
            return Err(error);
        },
    };
    match instrument(module, costs, max_stack_height) {
        Ok(module) => Ok((module, split.data_bytes)),
        Err(error) => Err(error),
    }
}

/// The pipeline's outcome is the staged outcome of what the stages answer,
/// each stage being asked about what the stage before it returned.
pub proof fn lemma_outcome_by_stages(
    payload: CallPayload,
    rules: pwasm_utils::rules::Set,
    stack_limit: u32,
)
    ensures
        ({
            let resolved = resolution(payload);
            let decoded = deserialized(resolved->Ok_0.module_bytes);
            let metered = gas_metered(decoded->Ok_0, rules);
            let limited = height_limited(metered->Ok_0, stack_limit);
            payload_outcome(payload, rules, stack_limit) == staged_outcome(
                resolved,
                decoded,
                internal_memories(decoded->Ok_0),
                renumberable(decoded->Ok_0),
                metered,
                limited,
            )
        }),
{
}

/// A payload without code fails for its missing code, whatever any later
/// stage would have answered: the decoder's answer has no part in it.
pub proof fn lemma_missing_code_ends_pipeline(
    decoded: Result<Module, parity_wasm::elements::Error>,
    memories: nat,
    shiftable: bool,
    metered: Result<Module, Module>,
    limited: Result<Module, pwasm_utils::stack_height::Error>,
)
    ensures
        ends_in(
            staged_outcome(
                Err(Failure::MissingCode),
                decoded,
                memories,
                shiftable,
                metered,
                limited,
            ),
            Failure::MissingCode,
        ),
{
}

/// A payload without code fails for its missing code under every cost table
/// and stack limit.
pub proof fn lemma_missing_code(
    payload: CallPayload,
    rules: pwasm_utils::rules::Set,
    stack_limit: u32,
)
    requires
        payload.code is None,
    ensures
        ends_in(payload_outcome(payload, rules, stack_limit), Failure::MissingCode),
{
}

/// A decoded module that declares a memory of its own is malformed, whatever
/// else it holds and whatever the rewriting passes would have made of it; one
/// that declares none passes validation as it is.
pub proof fn lemma_internal_memory_decides(
    regions: Regions,
    module: Module,
    memories: nat,
    shiftable: bool,
    metered: Result<Module, Module>,
    limited: Result<Module, pwasm_utils::stack_height::Error>,
)
    ensures
        memories >= 1 ==> ends_in(
            staged_outcome(Ok(regions), Ok(module), memories, shiftable, metered, limited),
            Failure::MalformedModule(Malformation::InternalMemory),
        ),
        internal_memories(module) >= 1 ==> ends_in(
            validation_outcome(module),
            Failure::MalformedModule(Malformation::InternalMemory),
        ),
        internal_memories(module) == 0 ==> validation_outcome(module) == Ok::<Module, Failure>(
            module,
        ),
{
}

/// A module that fails metering, or whose indices leave no room for the gas
/// import, ends the pipeline there, whatever the stack height limiter would
/// have answered.
pub proof fn lemma_metering_failure_decides(
    regions: Regions,
    module: Module,
    shiftable: bool,
    metered: Result<Module, Module>,
    limited: Result<Module, pwasm_utils::stack_height::Error>,
)
    ensures
        !shiftable || metered is Err ==> ends_in(
            staged_outcome(Ok(regions), Ok(module), 0, shiftable, metered, limited),
            Failure::MeteringInjectionFailed,
        ),
{
}

/// Where the module decodes, declares no memory of its own, leaves room for
/// the gas import and both passes succeed, the pipeline succeeds with the
/// limiter's module and the data region of the payload.
pub proof fn lemma_all_stages_pass(
    regions: Regions,
    module: Module,
    metered: Module,
    limited: Module,
)
    ensures
        staged_outcome(Ok(regions), Ok(module), 0, true, Ok(metered), Ok(limited)) == Ok::<
            (Module, Seq<u8>),
            Failure,
        >((limited, regions.data_bytes)),
{
}

} // verus!
