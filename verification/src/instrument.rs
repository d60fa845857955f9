//! The two rewriting passes: gas metering first, then the stack height limit.
//!
//! The limiter's own instructions have to be paid for like any others, so the
//! order is fixed, and a module that the first pass gives up on is not shown
//! to the second. A module whose function indices leave no room for the gas
//! import cannot be metered and is not shown to either.

use vstd::prelude::*;
use parity_wasm::elements::Module;
use crate::error::{agrees, ends_in, fails_with, Failure, PayloadError};
use crate::counts::{body_count, instruction_count};
use crate::indices::{is_renumberable, renumberable};
use crate::wasm::{gas_metered, height_limited};

verus! {

/// What the pipeline makes of the gas injector's answer.
pub open spec fn metering_outcome(metered: Result<Module, Module>) -> Result<Module, Failure> {
    match metered {
        Ok(module) => Ok(module),
        Err(_) => Err(Failure::MeteringInjectionFailed),
    }
}

/// What the pipeline makes of the stack height limiter's answer.
pub open spec fn limiting_outcome(
    limited: Result<Module, pwasm_utils::stack_height::Error>,
) -> Result<Module, Failure> {
    match limited {
        Ok(module) => Ok(module),
        Err(_) => Err(Failure::StackLimiterFailed),
    }
}

/// What the chain comes to, given whether the module's indices can be
/// shifted and the answers of its two passes. The injector's answer counts
/// only where the indices can be shifted, the limiter's only where metering
/// went well.
pub open spec fn chain_outcome(
    shiftable: bool,
    metered: Result<Module, Module>,
    limited: Result<Module, pwasm_utils::stack_height::Error>,
) -> Result<Module, Failure> {
    if !shiftable {
        Err(Failure::MeteringInjectionFailed)
    } else {
        match metering_outcome(metered) {
            Ok(_) => limiting_outcome(limited),
            Err(kind) => Err(kind),
        }
    }
}

/// What the chain makes of `module`. A module that refers to a function
/// index which cannot be raised fails metering. On any other the gas injector
/// runs, and the limiter runs on what the injector returned.
pub open spec fn instrumentation_outcome(
    module: Module,
    rules: pwasm_utils::rules::Set,
    stack_limit: u32,
) -> Result<Module, Failure> {
    if !renumberable(module) {
        Err(Failure::MeteringInjectionFailed)
    } else {
        match gas_metered(module, rules) {
            Ok(metered) => limiting_outcome(height_limited(metered, stack_limit)),
            Err(_) => Err(Failure::MeteringInjectionFailed),
        }
    }
}

/// Turns the gas injector's answer into the pipeline's.
pub fn metered_or_error(metered: Result<Module, Module>) -> (outcome: Result<
    Module,
    PayloadError,
>)
    ensures
        agrees(outcome, metering_outcome(metered)),
{
    match metered {
        Ok(module) => Ok(module),
        Err(_) => Err(PayloadError::MeteringInjectionFailed),
    }
}

/// Turns the stack height limiter's answer into the pipeline's.
pub fn limited_or_error(
    limited: Result<Module, pwasm_utils::stack_height::Error>,
) -> (outcome: Result<Module, PayloadError>)
    ensures
        agrees(outcome, limiting_outcome(limited)),
{
    match limited {
        Ok(module) => Ok(module),
        Err(_) => Err(PayloadError::StackLimiterFailed),
    }
}

/// Injects the gas counter under `rules`, unless the module refers to a
/// function index that leaves no room for it, which is a failed metering.
pub fn meter(module: Module, rules: &pwasm_utils::rules::Set) -> (metered: Result<
    Module,
    PayloadError,
>)
    ensures
        renumberable(module) ==> agrees(metered, metering_outcome(gas_metered(module, *rules))),
        !renumberable(module) ==> fails_with(metered, Failure::MeteringInjectionFailed),
        match metered {
            Ok(rewritten) => instruction_count(rewritten) >= instruction_count(module) + 2
                * body_count(module),
            Err(_) => true,
        },
{
    if is_renumberable(&module) {
        metered_or_error(pwasm_utils::inject_gas_counter(module, rules))
    } else {
        Err(PayloadError::MeteringInjectionFailed)
    }
}

/// Goes on from the outcome of metering: a metered module gets the stack
/// height limiter, a failed metering is the end of the chain.
pub fn limit_metered(metered: Result<Module, PayloadError>, stack_limit: u32) -> (outcome: Result<
    Module,
    PayloadError,
>)
    ensures
        match metered {
            Ok(module) => {
                &&& agrees(outcome, limiting_outcome(height_limited(module, stack_limit)))
                &&& outcome matches Ok(rewritten) ==> instruction_count(rewritten)
                    >= instruction_count(module)
            },
            Err(error) => outcome == Err::<Module, PayloadError>(error),
        },
{
    match metered {
        Ok(module) => limited_or_error(
            pwasm_utils::stack_height::inject_limiter(module, stack_limit),
        ),
        Err(error) => Err(error),
    }
}

/// Injects the gas counter under `rules` and then the stack height limiter
/// under `stack_limit`.
///
/// A module that refers to function index `u32::MAX`, as the target of a
/// call, as an exported function, as a table element or as the start
/// function, cannot be metered: the injector has no index left to move it to.
/// An instrumented module holds at least two instructions more for each
/// function body that it had.
pub fn instrument(
    module: Module,
    rules: &pwasm_utils::rules::Set,
    stack_limit: u32,
) -> (outcome: Result<Module, PayloadError>)
    ensures
        agrees(outcome, instrumentation_outcome(module, *rules, stack_limit)),
        !renumberable(module) ==> fails_with(outcome, Failure::MeteringInjectionFailed),
        match outcome {
            Ok(rewritten) => instruction_count(rewritten) >= instruction_count(module) + 2
                * body_count(module),
            Err(_) => true,
        },
{
    limit_metered(meter(module, rules), stack_limit)
}

/// Once metering has failed the chain has failed, whatever the limiter would
/// have answered.
pub proof fn lemma_failed_metering_ends_chain(
    shiftable: bool,
    rejected: Module,
    limited: Result<Module, pwasm_utils::stack_height::Error>,
)
    ensures
        ends_in(
            chain_outcome(shiftable, Err(rejected), limited),
            Failure::MeteringInjectionFailed,
        ),
{
}

/// A module whose indices cannot be shifted fails metering, whatever either
/// pass would have answered.
pub proof fn lemma_unshiftable_indices_end_chain(
    metered: Result<Module, Module>,
    limited: Result<Module, pwasm_utils::stack_height::Error>,
)
    ensures
        ends_in(chain_outcome(false, metered, limited), Failure::MeteringInjectionFailed),
{
}

/// What the chain makes of a module is what its two passes answer, the
/// limiter being asked about the metered module.
pub proof fn lemma_instrumentation_by_passes(
    module: Module,
    rules: pwasm_utils::rules::Set,
    stack_limit: u32,
)
    ensures
        instrumentation_outcome(module, rules, stack_limit) == chain_outcome(
            renumberable(module),
            gas_metered(module, rules),
            height_limited(gas_metered(module, rules)->Ok_0, stack_limit),
        ),
        gas_metered(module, rules) is Err || !renumberable(module) ==> ends_in(
            instrumentation_outcome(module, rules, stack_limit),
            Failure::MeteringInjectionFailed,
        ),
{
}

} // verus!
