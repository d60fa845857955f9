//! The function indices that a module refers to, and whether the gas
//! injector can shift them.
//!
//! The injector puts one more import in front of the module's functions and
//! raises every function index by one. An index that is already the largest
//! `u32` cannot be raised, so a module that refers to it is not metered.

use vstd::prelude::*;
use parity_wasm::elements::{
    CodeSection, ElementSection, ElementSegment, ExportSection, FuncBody, Module,
};
use crate::wasm::{
    bodies_of, call_target, called_function, code_of, code_section_of, element_section_of,
    export_section_of, exported_function, exports_of, function_of, instructions_of, internal_of,
    members_of, segments_of, start_of,
};

verus! {

/// Whether `index` can be raised by one: it is absent, or below the largest
/// `u32`.
pub open spec fn raisable(index: Option<u32>) -> bool {
    index != Some(u32::MAX)
}

/// Whether every call in `body` has a target that can be raised.
pub open spec fn body_renumberable(body: FuncBody) -> bool {
    forall|i: int|
        0 <= i < instructions_of(code_of(body)).len() ==> raisable(
            called_function(#[trigger] instructions_of(code_of(body))[i]),
        )
}

/// Whether every call in every body of `section` has a target that can be
/// raised.
pub open spec fn code_renumberable(section: CodeSection) -> bool {
    forall|b: int|
        0 <= b < bodies_of(section).len() ==> body_renumberable(#[trigger] bodies_of(section)[b])
}

/// Whether every function that `section` exports has an index that can be
/// raised.
pub open spec fn exports_renumberable(section: ExportSection) -> bool {
    forall|e: int|
        0 <= e < exports_of(section).len() ==> raisable(
            function_of(internal_of(#[trigger] exports_of(section)[e])),
        )
}

/// Whether every member of `segment` can be raised.
pub open spec fn segment_renumberable(segment: ElementSegment) -> bool {
    forall|m: int|
        0 <= m < members_of(segment).len() ==> #[trigger] members_of(segment)[m] < u32::MAX
}

/// Whether every member of every segment of `section` can be raised.
pub open spec fn elements_renumberable(section: ElementSection) -> bool {
    forall|s: int|
        0 <= s < segments_of(section).len() ==> segment_renumberable(
            #[trigger] segments_of(section)[s],
        )
}

/// Whether every function index that `module` refers to can be raised by
/// one: the targets of its calls, its exported functions, the members of its
/// element segments and its start function.
pub open spec fn renumberable(module: Module) -> bool {
    &&& match code_section_of(module) {
        Some(section) => code_renumberable(section),
        None => true,
    }
    &&& match export_section_of(module) {
        Some(section) => exports_renumberable(section),
        None => true,
    }
    &&& match element_section_of(module) {
        Some(section) => elements_renumberable(section),
        None => true,
    }
    &&& raisable(start_of(module))
}

/// Tests whether an index, where there is one, is below the largest `u32`.
pub fn is_raisable(index: Option<u32>) -> (answer: bool)
    ensures
        answer == raisable(index),
{
    match index {
        Some(value) => value < u32::MAX,
        None => true,
    }
}

/// Tests whether every call in `body` has a target that can be raised.
pub fn is_body_renumberable(body: &FuncBody) -> (answer: bool)
    ensures
        answer == body_renumberable(*body),
{
    let instructions = body.code().elements();
    let mut i: usize = 0;
    while i < instructions.len()
        invariant
            i <= instructions@.len(),
            instructions@ == instructions_of(code_of(*body)),
            forall|k: int| 0 <= k < i ==> raisable(called_function(#[trigger] instructions@[k])),
        decreases instructions@.len() - i,
    {
        if !is_raisable(call_target(&instructions[i])) {
            return false;
        }
        i += 1;
    }
    true
}

/// Tests whether every call in every body of `section` has a target that can
/// be raised.
pub fn is_code_renumberable(section: &CodeSection) -> (answer: bool)
    ensures
        answer == code_renumberable(*section),
{
    let bodies = section.bodies();
    let mut b: usize = 0;
    while b < bodies.len()
        invariant
            b <= bodies@.len(),
            bodies@ == bodies_of(*section),
            forall|k: int| 0 <= k < b ==> body_renumberable(#[trigger] bodies@[k]),
        decreases bodies@.len() - b,
    {
        if !is_body_renumberable(&bodies[b]) {
            return false;
        }
        b += 1;
    }
    true
}

/// Tests whether every function that `section` exports has an index that can
/// be raised.
pub fn is_exports_renumberable(section: &ExportSection) -> (answer: bool)
    ensures
        answer == exports_renumberable(*section),
{
    let exports = section.entries();
    let mut e: usize = 0;
    while e < exports.len()
        invariant
            e <= exports@.len(),
            exports@ == exports_of(*section),
            forall|k: int|
                0 <= k < e ==> raisable(function_of(internal_of(#[trigger] exports@[k]))),
        decreases exports@.len() - e,
    {
        if !is_raisable(exported_function(exports[e].internal())) {
            return false;
        }
        e += 1;
    }
    true
}

/// Tests whether every member of `segment` can be raised.
pub fn is_segment_renumberable(segment: &ElementSegment) -> (answer: bool)
    ensures
        answer == segment_renumberable(*segment),
{
    let members = segment.members();
    let mut m: usize = 0;
    while m < members.len()
        invariant
            m <= members@.len(),
            members@ == members_of(*segment),
            forall|k: int| 0 <= k < m ==> #[trigger] members@[k] < u32::MAX,
        decreases members@.len() - m,
    {
        if members[m] == u32::MAX {
            return false;
        }
        m += 1;
    }
    true
}

/// Tests whether every member of every segment of `section` can be raised.
pub fn is_elements_renumberable(section: &ElementSection) -> (answer: bool)
    ensures
        answer == elements_renumberable(*section),
{
    let segments = section.entries();
    let mut s: usize = 0;
    while s < segments.len()
        invariant
            s <= segments@.len(),
            segments@ == segments_of(*section),
            forall|k: int| 0 <= k < s ==> segment_renumberable(#[trigger] segments@[k]),
        decreases segments@.len() - s,
    {
        if !is_segment_renumberable(&segments[s]) {
            return false;
        }
        s += 1;
    }
    true
}

/// Tests whether every function index that `module` refers to can be raised
/// by one.
pub fn is_renumberable(module: &Module) -> (answer: bool)
    ensures
        answer == renumberable(*module),
{
    let code = match module.code_section() {
        Some(section) => is_code_renumberable(section),
        None => true,
    };
    let exports = match module.export_section() {
        Some(section) => is_exports_renumberable(section),
        None => true,
    };
    let elements = match module.elements_section() {
        Some(section) => is_elements_renumberable(section),
        None => true,
    };
    code && exports && elements && is_raisable(module.start_section())
}

} // verus!
