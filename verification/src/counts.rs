//! How much code a module holds: its function bodies and their instructions.
//!
//! Both rewriting passes only ever add instructions, which is what a caller
//! can hold an instrumented module against.

use vstd::prelude::*;
use parity_wasm::elements::{FuncBody, Module};
use crate::wasm::{bodies_of, code_of, code_section_of, instructions_of};

verus! {

/// The number of instructions in `bodies`, all bodies taken together.
pub open spec fn total_instructions(bodies: Seq<FuncBody>) -> nat
    decreases bodies.len(),
{
    if bodies.len() == 0 {
        0
    } else {
        total_instructions(bodies.drop_last()) + instructions_of(code_of(bodies.last())).len()
    }
}

/// The number of function bodies in the code section of `module`; none where
/// it has no code section.
pub open spec fn body_count(module: Module) -> nat {
    match code_section_of(module) {
        Some(section) => bodies_of(section).len(),
        None => 0,
    }
}

/// The number of instructions in the code section of `module`; none where it
/// has no code section.
pub open spec fn instruction_count(module: Module) -> nat {
    match code_section_of(module) {
        Some(section) => total_instructions(bodies_of(section)),
        None => 0,
    }
}

/// Counts the function bodies in the code section of `module`.
pub fn count_bodies(module: &Module) -> (bodies: usize)
    ensures
        bodies == body_count(*module),
{
    match module.code_section() {
        Some(section) => section.bodies().len(),
        None => 0,
    }
}

/// Counts the instructions in the code section of `module`, or says that
/// the count does not fit a `usize`.
pub fn count_instructions(module: &Module) -> (instructions: Option<usize>)
    ensures
        match instructions {
            Some(count) => count == instruction_count(*module),
            None => instruction_count(*module) > usize::MAX,
        },
{
    let section = match module.code_section() {
        Some(section) => section,
        None => {
            return Some(0);
        },
    };
    let bodies = section.bodies();
    let mut total: usize = 0;
    let mut b: usize = 0;
    assert(bodies@.take(0) =~= Seq::<FuncBody>::empty());
    while b < bodies.len()
        invariant
            b <= bodies@.len(),
            bodies@ == bodies_of(*section),
            code_section_of(*module) == Some(*section),
            total == total_instructions(bodies@.take(b as int)),
        decreases bodies@.len() - b,
    {
        let length = bodies[b].code().elements().len();
        proof {
            let next = bodies@.take(b + 1);
            assert(next.drop_last() =~= bodies@.take(b as int));
            assert(next.last() == bodies@[b as int]);
            lemma_total_grows(bodies@, b + 1);
        }
        if length > usize::MAX - total {
            return None;
        }
        total = total + length;
        b += 1;
    }
    assert(bodies@.take(bodies@.len() as int) =~= bodies@);
    Some(total)
}

/// The instructions of the first `n` bodies are no more than those of all.
pub proof fn lemma_total_grows(bodies: Seq<FuncBody>, n: int)
    requires
        0 <= n <= bodies.len(),
    ensures
        total_instructions(bodies.take(n)) <= total_instructions(bodies),
    decreases bodies.len() - n,
{
    if n < bodies.len() {
        let next = bodies.take(n + 1);
        assert(next.drop_last() =~= bodies.take(n));
        lemma_total_grows(bodies, n + 1);
    } else {
        assert(bodies.take(n) =~= bodies);
    }
}

} // verus!
