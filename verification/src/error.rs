//! The one error type of the pipeline.

use vstd::prelude::*;
use vstd::string::StringExecFns;

verus! {

/// A sandboxing rule that a decoded module breaks.
#[derive(Debug, Clone, Copy, PartialEq, Eq, Structural)]
pub enum Malformation {
    /// The module declares a linear memory of its own. The host is the only
    /// provider of memory, so such a module is not run.
    InternalMemory,
}

/// Why a payload could not be prepared. Each of these ends the call.
#[derive(Debug, Clone, PartialEq, Eq)]
pub enum PayloadError {
    /// The payload carries no code at all.
    MissingCode,
    /// The module's bytes could not be decoded. The text is the decoder's
    /// diagnostic, meant for a log and not for a program to take apart.
    DecodeError(String),
    /// The module was decoded but breaks a rule of the sandbox.
    MalformedModule(Malformation),
    /// The gas counter could not be injected.
    MeteringInjectionFailed,
    /// The stack height limiter could not be injected.
    StackLimiterFailed,
}

/// A [`PayloadError`] as contracts see it: the same five kinds, the decoder's
/// diagnostic being a sequence of characters.
pub enum Failure {
    /// The payload carries no code at all.
    MissingCode,
    /// The module's bytes could not be decoded; the decoder's diagnostic.
    DecodeError(Seq<char>),
    /// The module was decoded but breaks a rule of the sandbox.
    MalformedModule(Malformation),
    /// The gas counter could not be injected.
    MeteringInjectionFailed,
    /// The stack height limiter could not be injected.
    StackLimiterFailed,
}

impl View for PayloadError {
    type V = Failure;

    open spec fn view(&self) -> Failure {
        match self {
            PayloadError::MissingCode => Failure::MissingCode,
            PayloadError::DecodeError(detail) => Failure::DecodeError(detail@),
            PayloadError::MalformedModule(reason) => Failure::MalformedModule(*reason),
            PayloadError::MeteringInjectionFailed => Failure::MeteringInjectionFailed,
            PayloadError::StackLimiterFailed => Failure::StackLimiterFailed,
        }
    }
}

impl Malformation {
    /// The words that name the broken rule.
    pub open spec fn description_text(self) -> Seq<char> {
        match self {
            Malformation::InternalMemory => "internal memory"@,
        }
    }

    /// The words that name the broken rule.
    pub fn description(&self) -> (text: &'static str)
        ensures
            text@ == self.description_text(),
    {
        match self {
            Malformation::InternalMemory => "internal memory",
        }
    }
}

impl Failure {
    /// The message that a caller shows for this error.
    pub open spec fn message(self) -> Seq<char> {
        match self {
            Failure::MissingCode => "Invalid wasm call"@,
            Failure::DecodeError(detail) => "Error deserializing contract code ("@ + detail
                + ")"@,
            Failure::MalformedModule(reason) => "Malformed wasm module: "@
                + reason.description_text(),
            Failure::MeteringInjectionFailed => "Wasm contract error: bytecode invalid"@,
            Failure::StackLimiterFailed => "Wasm contract error: stack limiter failure"@,
        }
    }
}

impl PayloadError {
    /// The message that a caller shows for this error.
    pub fn message(&self) -> (text: String)
        ensures
            text@ == self@.message(),
    {
        match self {
            PayloadError::MissingCode => String::from_str("Invalid wasm call"),
            PayloadError::DecodeError(detail) => String::from_str(
                "Error deserializing contract code (",
            ).concat(detail.as_str()).concat(")"),
            PayloadError::MalformedModule(reason) => String::from_str(
                "Malformed wasm module: ",
            ).concat(reason.description()),
            PayloadError::MeteringInjectionFailed => String::from_str(
                "Wasm contract error: bytecode invalid",
            ),
            PayloadError::StackLimiterFailed => String::from_str(
                "Wasm contract error: stack limiter failure",
            ),
        }
    }
}

/// Whether `outcome` is the failure `kind`.
pub open spec fn ends_in<T>(outcome: Result<T, Failure>, kind: Failure) -> bool {
    outcome == Err::<T, Failure>(kind)
}

/// Whether `result` is the failure `kind`.
pub open spec fn fails_with<T>(result: Result<T, PayloadError>, kind: Failure) -> bool {
    result matches Err(error) && error@ == kind
}

/// Whether `result` is what `expected` describes: the same value on success,
/// the failure of that kind otherwise.
pub open spec fn agrees<T>(result: Result<T, PayloadError>, expected: Result<T, Failure>) -> bool {
    match expected {
        Ok(value) => result == Ok::<T, PayloadError>(value),
        Err(kind) => fails_with(result, kind),
    }
}

/// Whether `result` is what `expected` describes, a successful value being
/// compared by its view.
pub open spec fn agrees_on<T: View>(
    result: Result<T, PayloadError>,
    expected: Result<T::V, Failure>,
) -> bool {
    match expected {
        Ok(value) => result matches Ok(found) && found@ == value,
        Err(kind) => fails_with(result, kind),
    }
}

/// Whether `result` is a decode failure, whatever its diagnostic.
pub open spec fn fails_to_decode<T>(result: Result<T, PayloadError>) -> bool {
    result matches Err(error) && error@ is DecodeError
}

} // verus!
