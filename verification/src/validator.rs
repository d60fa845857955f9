//! The rule of the sandbox: a contract brings no linear memory of its own.

use vstd::prelude::*;
use parity_wasm::elements::Module;
use crate::error::{agrees, fails_with, Failure, Malformation, PayloadError};
use crate::wasm::{memory_entries_of, memory_section_of};

verus! {

/// How many linear memories `module` declares itself. A module without a
/// memory section declares none.
pub open spec fn internal_memories(module: Module) -> nat {
    match memory_section_of(module) {
        Some(section) => memory_entries_of(section).len(),
        None => 0,
    }
}

/// What the rule says of a module that declares `memories` linear memories.
pub open spec fn memory_verdict(memories: nat) -> Result<(), Failure> {
    if memories == 0 {
        Ok(())
    } else {
        Err(Failure::MalformedModule(Malformation::InternalMemory))
    }
}

/// What validation makes of `module`: the module itself, or the failure that
/// the rule gives.
pub open spec fn validation_outcome(module: Module) -> Result<Module, Failure> {
    match memory_verdict(internal_memories(module)) {
        Ok(_) => Ok(module),
        Err(kind) => Err(kind),
    }
}

/// Counts the linear memories that `module` declares itself.
pub fn count_internal_memories(module: &Module) -> (memories: usize)
    ensures
        memories == internal_memories(*module),
{
    match module.memory_section() {
        Some(section) => section.entries().len(),
        None => 0,
    }
}

/// Applies the rule to a count of declared memories: none passes, one or
/// more is a malformed module.
pub fn check_memories(memories: usize) -> (verdict: Result<(), PayloadError>)
    ensures
        agrees(verdict, memory_verdict(memories as nat)),
        memories == 0 <==> verdict is Ok,
{
    if memories > 0 {
        Err(PayloadError::MalformedModule(Malformation::InternalMemory))
    } else {
        Ok(())
    }
}

/// Lets a module through, unchanged, if it declares no linear memory of its
/// own, and turns it away as malformed otherwise, whatever else it holds.
pub fn validate(module: Module) -> (outcome: Result<Module, PayloadError>)
    ensures
        agrees(outcome, validation_outcome(module)),
        internal_memories(module) == 0 ==> outcome == Ok::<_, PayloadError>(module),
        internal_memories(module) >= 1 ==> fails_with(
            outcome,
            Failure::MalformedModule(Malformation::InternalMemory),
        ),
{
    match check_memories(count_internal_memories(&module)) {
        Ok(_) => Ok(module),
        Err(error) => Err(error),
    }
}

} // verus!
