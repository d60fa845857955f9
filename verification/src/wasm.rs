//! What this library takes on trust from `parity-wasm` and `pwasm-utils`.
//!
//! Verus does not look into these crates. Each item below either makes one of
//! their types known, opaque as it is, or states what one of their functions
//! returns. Where a result is too involved to write down, it is given a name,
//! a spec function without a body, and the contract equates the call's result
//! with that name applied to the call's arguments.

use vstd::prelude::*;
use parity_wasm::elements::Deserialize;
use crate::counts::{body_count, instruction_count};
use crate::indices::renumberable;

verus! {

/// A decoded module. Nothing of its inside is visible to proofs.
#[verifier::external_type_specification]
#[verifier::external_body]
pub struct ExModule(parity_wasm::elements::Module);

/// The memory section of a decoded module.
#[verifier::external_type_specification]
#[verifier::external_body]
pub struct ExMemorySection(parity_wasm::elements::MemorySection);

/// One declaration of a linear memory.
#[verifier::external_type_specification]
#[verifier::external_body]
pub struct ExMemoryType(parity_wasm::elements::MemoryType);

/// The code section of a decoded module.
#[verifier::external_type_specification]
#[verifier::external_body]
pub struct ExCodeSection(parity_wasm::elements::CodeSection);

/// The body of one function.
#[verifier::external_type_specification]
#[verifier::external_body]
pub struct ExFuncBody(parity_wasm::elements::FuncBody);

/// The instructions of one function body.
#[verifier::external_type_specification]
#[verifier::external_body]
pub struct ExInstructions(parity_wasm::elements::Instructions);

/// One instruction.
#[verifier::external_type_specification]
#[verifier::external_body]
pub struct ExInstruction(parity_wasm::elements::Instruction);

/// The export section of a decoded module.
#[verifier::external_type_specification]
#[verifier::external_body]
pub struct ExExportSection(parity_wasm::elements::ExportSection);

/// One export.
#[verifier::external_type_specification]
#[verifier::external_body]
pub struct ExExportEntry(parity_wasm::elements::ExportEntry);

/// What an export refers to.
#[verifier::external_type_specification]
#[verifier::external_body]
pub struct ExInternal(parity_wasm::elements::Internal);

/// The element section of a decoded module.
#[verifier::external_type_specification]
#[verifier::external_body]
pub struct ExElementSection(parity_wasm::elements::ElementSection);

/// One segment of table elements.
#[verifier::external_type_specification]
#[verifier::external_body]
pub struct ExElementSegment(parity_wasm::elements::ElementSegment);

/// Why a byte string could not be decoded.
#[verifier::external_type_specification]
#[verifier::external_body]
pub struct ExDecodeError(parity_wasm::elements::Error);

/// The table of gas costs per kind of instruction.
#[verifier::external_type_specification]
#[verifier::external_body]
pub struct ExCostRules(pwasm_utils::rules::Set);

/// Why the stack height limiter gave up on a module.
#[verifier::external_type_specification]
#[verifier::external_body]
pub struct ExLimiterError(pwasm_utils::stack_height::Error);

/// The length that `parity_wasm::elements::peek_size` finds for the module at
/// the start of `source`.
pub uninterp spec fn peeked_size(source: Seq<u8>) -> nat;

/// What `Module::deserialize` makes of `bytes`.
pub uninterp spec fn deserialized(bytes: Seq<u8>) -> Result<
    parity_wasm::elements::Module,
    parity_wasm::elements::Error,
>;

/// The first memory section of `module`, as `Module::memory_section` finds it.
pub uninterp spec fn memory_section_of(module: parity_wasm::elements::Module) -> Option<
    parity_wasm::elements::MemorySection,
>;

/// The memory declarations that `section` lists.
pub uninterp spec fn memory_entries_of(section: parity_wasm::elements::MemorySection) -> Seq<
    parity_wasm::elements::MemoryType,
>;

/// The first code section of `module`, as `Module::code_section` finds it.
pub uninterp spec fn code_section_of(module: parity_wasm::elements::Module) -> Option<
    parity_wasm::elements::CodeSection,
>;

/// The function bodies that `section` lists.
pub uninterp spec fn bodies_of(section: parity_wasm::elements::CodeSection) -> Seq<
    parity_wasm::elements::FuncBody,
>;

/// The code of `body`.
pub uninterp spec fn code_of(
    body: parity_wasm::elements::FuncBody,
) -> parity_wasm::elements::Instructions;

/// The instructions that `code` is made of, in order.
pub uninterp spec fn instructions_of(code: parity_wasm::elements::Instructions) -> Seq<
    parity_wasm::elements::Instruction,
>;

/// The index of the function that `instruction` calls, where it is a `call`.
pub uninterp spec fn called_function(
    instruction: parity_wasm::elements::Instruction,
) -> Option<u32>;

/// The first export section of `module`, as `Module::export_section` finds it.
pub uninterp spec fn export_section_of(module: parity_wasm::elements::Module) -> Option<
    parity_wasm::elements::ExportSection,
>;

/// The exports that `section` lists.
pub uninterp spec fn exports_of(section: parity_wasm::elements::ExportSection) -> Seq<
    parity_wasm::elements::ExportEntry,
>;

/// What `export` refers to.
pub uninterp spec fn internal_of(
    export: parity_wasm::elements::ExportEntry,
) -> parity_wasm::elements::Internal;

/// The index of the function that `internal` refers to, where it refers to a
/// function.
pub uninterp spec fn function_of(internal: parity_wasm::elements::Internal) -> Option<u32>;

/// The first element section of `module`, as `Module::elements_section` finds
/// it.
pub uninterp spec fn element_section_of(module: parity_wasm::elements::Module) -> Option<
    parity_wasm::elements::ElementSection,
>;

/// The segments that `section` lists.
pub uninterp spec fn segments_of(section: parity_wasm::elements::ElementSection) -> Seq<
    parity_wasm::elements::ElementSegment,
>;

/// The function indices that `segment` puts into the table.
pub uninterp spec fn members_of(segment: parity_wasm::elements::ElementSegment) -> Seq<u32>;

/// The index of the start function of `module`, as `Module::start_section`
/// finds it.
pub uninterp spec fn start_of(module: parity_wasm::elements::Module) -> Option<u32>;

/// What `pwasm_utils::inject_gas_counter` makes of `module` under `rules`.
pub uninterp spec fn gas_metered(
    module: parity_wasm::elements::Module,
    rules: pwasm_utils::rules::Set,
) -> Result<parity_wasm::elements::Module, parity_wasm::elements::Module>;

/// What `pwasm_utils::stack_height::inject_limiter` makes of `module` under
/// `stack_limit`.
pub uninterp spec fn height_limited(
    module: parity_wasm::elements::Module,
    stack_limit: u32,
) -> Result<parity_wasm::elements::Module, pwasm_utils::stack_height::Error>;

/// The text that the `Debug` formatting of `error` writes.
pub uninterp spec fn debug_text(error: parity_wasm::elements::Error) -> Seq<char>;

/// `parity_wasm::elements::peek_size` walks the section headers that follow
/// the eight bytes of magic number and version, and returns the offset at
/// which it stopped. It never reports more than `source` holds, and it
/// answers 0 for anything shorter than nine bytes.
///
/// The walk adds a section's 32-bit length to an offset within `source`. This
/// is claimed for targets whose `usize` has 64 bits, where that sum fits.
pub assume_specification[ parity_wasm::elements::peek_size ](source: &[u8]) -> (size: usize)
    ensures
        size == peeked_size(source@),
        size <= source@.len(),
        source@.len() < 9 ==> size == 0,
;

/// `Module::memory_section` returns the first section of the module that is
/// a memory section, if there is one.
pub assume_specification[ parity_wasm::elements::Module::memory_section ](
    module: &parity_wasm::elements::Module,
) -> (section: Option<&parity_wasm::elements::MemorySection>)
    ensures
        match section {
            Some(found) => memory_section_of(*module) == Some(*found),
            None => memory_section_of(*module) is None,
        },
;

/// `MemorySection::entries` returns the section's declarations as a slice.
pub assume_specification[ parity_wasm::elements::MemorySection::entries ](
    section: &parity_wasm::elements::MemorySection,
) -> (entries: &[parity_wasm::elements::MemoryType])
    ensures
        entries@ == memory_entries_of(*section),
;

/// `Module::code_section` returns the first section of the module that is a
/// code section, if there is one.
pub assume_specification[ parity_wasm::elements::Module::code_section ](
    module: &parity_wasm::elements::Module,
) -> (section: Option<&parity_wasm::elements::CodeSection>)
    ensures
        match section {
            Some(found) => code_section_of(*module) == Some(*found),
            None => code_section_of(*module) is None,
        },
;

/// `CodeSection::bodies` returns the section's function bodies as a slice.
pub assume_specification[ parity_wasm::elements::CodeSection::bodies ](
    section: &parity_wasm::elements::CodeSection,
) -> (bodies: &[parity_wasm::elements::FuncBody])
    ensures
        bodies@ == bodies_of(*section),
;

/// `FuncBody::code` returns the body's instructions.
pub assume_specification[ parity_wasm::elements::FuncBody::code ](
    body: &parity_wasm::elements::FuncBody,
) -> (code: &parity_wasm::elements::Instructions)
    ensures
        *code == code_of(*body),
;

/// `Instructions::elements` returns the instructions as a slice.
pub assume_specification[ parity_wasm::elements::Instructions::elements ](
    code: &parity_wasm::elements::Instructions,
) -> (instructions: &[parity_wasm::elements::Instruction])
    ensures
        instructions@ == instructions_of(*code),
;

/// `Module::export_section` returns the first section of the module that is
/// an export section, if there is one.
pub assume_specification[ parity_wasm::elements::Module::export_section ](
    module: &parity_wasm::elements::Module,
) -> (section: Option<&parity_wasm::elements::ExportSection>)
    ensures
        match section {
            Some(found) => export_section_of(*module) == Some(*found),
            None => export_section_of(*module) is None,
        },
;

/// `ExportSection::entries` returns the section's exports as a slice.
pub assume_specification[ parity_wasm::elements::ExportSection::entries ](
    section: &parity_wasm::elements::ExportSection,
) -> (exports: &[parity_wasm::elements::ExportEntry])
    ensures
        exports@ == exports_of(*section),
;

/// `ExportEntry::internal` returns what the export refers to.
pub assume_specification[ parity_wasm::elements::ExportEntry::internal ](
    export: &parity_wasm::elements::ExportEntry,
) -> (internal: &parity_wasm::elements::Internal)
    ensures
        *internal == internal_of(*export),
;

/// `Module::elements_section` returns the first section of the module that is
/// an element section, if there is one.
pub assume_specification[ parity_wasm::elements::Module::elements_section ](
    module: &parity_wasm::elements::Module,
) -> (section: Option<&parity_wasm::elements::ElementSection>)
    ensures
        match section {
            Some(found) => element_section_of(*module) == Some(*found),
            None => element_section_of(*module) is None,
        },
;

/// `ElementSection::entries` returns the section's segments as a slice.
pub assume_specification[ parity_wasm::elements::ElementSection::entries ](
    section: &parity_wasm::elements::ElementSection,
) -> (segments: &[parity_wasm::elements::ElementSegment])
    ensures
        segments@ == segments_of(*section),
;

/// `ElementSegment::members` returns the segment's function indices as a
/// slice.
pub assume_specification[ parity_wasm::elements::ElementSegment::members ](
    segment: &parity_wasm::elements::ElementSegment,
) -> (members: &[u32])
    ensures
        members@ == members_of(*segment),
;

/// `Module::start_section` returns the index held by the first start section
/// of the module, if there is one.
pub assume_specification[ parity_wasm::elements::Module::start_section ](
    module: &parity_wasm::elements::Module,
) -> (start: Option<u32>)
    ensures
        start == start_of(*module),
;

/// `pwasm_utils::inject_gas_counter` rewrites the module so that every block
/// of instructions first pays for itself through a call of the imported
/// function `env.gas`. It gives back `Err` where it cannot price a function
/// body, as when `rules` forbid one of its instructions.
///
/// Where it succeeds, every function body has got two instructions in front
/// of each of its blocks, the body as a whole being the first block, and no
/// body has lost any; so the code has grown by at least two instructions for
/// each body. Nothing else is claimed of the rewritten module beyond its
/// being the injector's answer.
///
/// The injector rebuilds the module from the first section of each kind and
/// makes room for the import by adding 1, unchecked, to the function indices
/// it finds there: the targets of calls, the exported functions, the members
/// of element segments and the start function. Where one of these is
/// `u32::MAX` the addition overflows, so such a module is not to be handed
/// in. Its other unchecked arithmetic is on counts of types, imports and
/// functions, which a module's sections keep far below the range of `u32`.
pub assume_specification[ pwasm_utils::inject_gas_counter ](
    module: parity_wasm::elements::Module,
    rules: &pwasm_utils::rules::Set,
) -> (metered: Result<parity_wasm::elements::Module, parity_wasm::elements::Module>)
    requires
        renumberable(module),
    ensures
        metered == gas_metered(module, *rules),
        match metered {
            Ok(rewritten) => instruction_count(rewritten) >= instruction_count(module) + 2
                * body_count(module),
            Err(_) => true,
        },
;

/// `pwasm_utils::stack_height::inject_limiter` rewrites the module so that a
/// call traps once the stack height would pass `stack_limit`. It gives back
/// `Err` for a module whose functions it cannot account for.
///
/// Where it succeeds, it has put instructions around calls and added
/// functions of its own, and taken nothing away; so the code has not shrunk.
/// Nothing else is claimed of the rewritten module beyond its being the
/// limiter's answer.
///
/// The limiter adds to no function index of the module, and its walk over a
/// body's instructions uses checked arithmetic. What it leaves unchecked are
/// a body's number of local groups added to its stack height, and the
/// numbering of globals and thunks; a module's sections keep all of these far
/// below the range of `u32`.
pub assume_specification[ pwasm_utils::stack_height::inject_limiter ](
    module: parity_wasm::elements::Module,
    stack_limit: u32,
) -> (limited: Result<parity_wasm::elements::Module, pwasm_utils::stack_height::Error>)
    ensures
        limited == height_limited(module, stack_limit),
        match limited {
            Ok(rewritten) => instruction_count(rewritten) >= instruction_count(module),
            Err(_) => true,
        },
;

/// `Module::deserialize`, reading from a cursor over `bytes`. The decoder
/// starts with four bytes of magic number and four of version, so it fails on
/// anything shorter than eight bytes. It is taken to return, with a module or
/// an error, on every byte string.
#[verifier::external_body]
pub(crate) fn deserialize_module(bytes: &[u8]) -> (decoded: Result<
    parity_wasm::elements::Module,
    parity_wasm::elements::Error,
>)
    ensures
        decoded == deserialized(bytes@),
        bytes@.len() < 8 ==> decoded is Err,
{
    let mut cursor = std::io::Cursor::new(bytes);
    parity_wasm::elements::Module::deserialize(&mut cursor)
}

/// Tells a `call` from the other instructions: the index it holds, or
/// nothing for anything else.
#[verifier::external_body]
pub(crate) fn call_target(instruction: &parity_wasm::elements::Instruction) -> (target: Option<
    u32,
>)
    ensures
        target == called_function(*instruction),
{
    match instruction {
        parity_wasm::elements::Instruction::Call(index) => Some(*index),
        _ => None,
    }
}

/// Tells an export of a function from the other exports: the index it holds,
/// or nothing for a table, a memory or a global.
#[verifier::external_body]
pub(crate) fn exported_function(internal: &parity_wasm::elements::Internal) -> (function: Option<
    u32,
>)
    ensures
        function == function_of(*internal),
{
    match internal {
        parity_wasm::elements::Internal::Function(index) => Some(*index),
        _ => None,
    }
}

/// The `Debug` formatting of a decoder error, as `format!` writes it.
#[verifier::external_body]
pub(crate) fn debug_string(error: &parity_wasm::elements::Error) -> (text: String)
    ensures
        text@ == debug_text(*error),
{
    format!("{:?}", error)
}

} // verus!
