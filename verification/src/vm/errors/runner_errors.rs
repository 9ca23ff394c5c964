//! What can go wrong while a runner sets a machine up and reads its results.

use crate::types::field_int::{decimal_of_int, FieldInt};
use crate::types::relocatable::{MaybeRelocatable, Word};
use crate::vm::errors::memory_errors::{MemoryError, MemoryErrorView};
use vstd::prelude::*;
use vstd::string::StringExecFns;

verus! {

/// What can go wrong while a machine is set up for a program.
#[derive(Debug, PartialEq)]
pub enum RunnerError {
    NoExecBase,
    NoExecBaseForEntrypoint,
    NoProgBase,
    MissingMain,
    UninitializedBase,
    WriteFail,
    NoPC,
    NoAP,
    NoFP,
    MemoryValidationError(MemoryError),
    MemoryInitializationError(MemoryError),
    NonRelocatableAddress,
    FailedStringConversion,
    ExpectedInteger(MaybeRelocatable),
    MemoryGet(MaybeRelocatable),
    FailedMemoryGet(MemoryError),
    EcOpBuiltinScalarLimit(FieldInt),
    FailedToParseIdsNameFromPath(String),
}

/// The mathematical value of a [`RunnerError`].
pub enum RunnerErrorView {
    NoExecBase,
    NoExecBaseForEntrypoint,
    NoProgBase,
    MissingMain,
    UninitializedBase,
    WriteFail,
    NoPC,
    NoAP,
    NoFP,
    MemoryValidationError(MemoryErrorView),
    MemoryInitializationError(MemoryErrorView),
    NonRelocatableAddress,
    FailedStringConversion,
    ExpectedInteger(Word),
    MemoryGet(Word),
    FailedMemoryGet(MemoryErrorView),
    EcOpBuiltinScalarLimit(int),
    FailedToParseIdsNameFromPath(Seq<char>),
}

impl View for RunnerError {
    type V = RunnerErrorView;

    open spec fn view(&self) -> RunnerErrorView {
        match self {
            RunnerError::NoExecBase => RunnerErrorView::NoExecBase,
            RunnerError::NoExecBaseForEntrypoint => RunnerErrorView::NoExecBaseForEntrypoint,
            RunnerError::NoProgBase => RunnerErrorView::NoProgBase,
            RunnerError::MissingMain => RunnerErrorView::MissingMain,
            RunnerError::UninitializedBase => RunnerErrorView::UninitializedBase,
            RunnerError::WriteFail => RunnerErrorView::WriteFail,
            RunnerError::NoPC => RunnerErrorView::NoPC,
            RunnerError::NoAP => RunnerErrorView::NoAP,
            RunnerError::NoFP => RunnerErrorView::NoFP,
            RunnerError::MemoryValidationError(e) => RunnerErrorView::MemoryValidationError(e@),
            RunnerError::MemoryInitializationError(e) => {
                RunnerErrorView::MemoryInitializationError(e@)
            },
            RunnerError::NonRelocatableAddress => RunnerErrorView::NonRelocatableAddress,
            RunnerError::FailedStringConversion => RunnerErrorView::FailedStringConversion,
            RunnerError::ExpectedInteger(addr) => RunnerErrorView::ExpectedInteger(addr@),
            RunnerError::MemoryGet(addr) => RunnerErrorView::MemoryGet(addr@),
            RunnerError::FailedMemoryGet(e) => RunnerErrorView::FailedMemoryGet(e@),
            RunnerError::EcOpBuiltinScalarLimit(scalar) => RunnerErrorView::EcOpBuiltinScalarLimit(
                scalar@,
            ),
            RunnerError::FailedToParseIdsNameFromPath(path) => {
                RunnerErrorView::FailedToParseIdsNameFromPath(path@)
            },
        }
    }
}

/// What `Debug` of std writes for a string: the text between double quotes,
/// with the characters that cannot stand there escaped.
pub uninterp spec fn debug_quoted(text: Seq<char>) -> Seq<char>;

/// `Debug` of std for `str`, through `format!`: the text as
/// [`debug_quoted`] names it.
#[verifier::external_body]
fn quote_for_debug(text: &String) -> (r: String)
    ensures
        r@ == debug_quoted(text@),
{
    format!("{:?}", text)
}

/// The message of the error that no name was found in a path, given the path
/// in quotes.
pub open spec fn ids_name_failure_message(quoted_path: Seq<char>) -> Seq<char> {
    "Failed to get variable name from path: "@ + quoted_path
        + ", when parsing reference ids"@
}

/// The message of the error that no name was found in a path, given the path
/// in quotes.
pub fn ids_name_failure(quoted_path: &str) -> (r: String)
    ensures
        r@ == ids_name_failure_message(quoted_path@),
{
    String::from_str("Failed to get variable name from path: ").concat(quoted_path).concat(
        ", when parsing reference ids",
    )
}

impl RunnerErrorView {
    /// The message of the error.
    pub open spec fn message(self) -> Seq<char> {
        match self {
            RunnerErrorView::NoExecBase => "Can't initialize state without an execution base"@,
            RunnerErrorView::NoProgBase => "Can't without a program base"@,
            RunnerErrorView::NoExecBaseForEntrypoint => "Can't initialize the function entrypoint without an execution base"@,
            RunnerErrorView::MissingMain => "Missing main()"@,
            RunnerErrorView::UninitializedBase => "Uninitialized self.base"@,
            RunnerErrorView::WriteFail => "Failed to write program output"@,
            RunnerErrorView::NoPC => "Found None PC during VM initialization"@,
            RunnerErrorView::NoAP => "Found None AP during VM initialization"@,
            RunnerErrorView::NoFP => "Found None FP during VM initialization"@,
            RunnerErrorView::MemoryValidationError(error) => "Memory validation failed during VM initialization."@
                + error.message(),
            RunnerErrorView::MemoryInitializationError(error) => "Memory loading failed during state initialization."@
                + error.message(),
            RunnerErrorView::NonRelocatableAddress => "Memory addresses must be relocatable"@,
            RunnerErrorView::FailedStringConversion => "Failed to convert string to FieldElement"@,
            RunnerErrorView::ExpectedInteger(addr) => "Expected integer at address "@
                + addr.text(),
            RunnerErrorView::MemoryGet(addr) => "Failed to retrieve value from address "@
                + addr.text(),
            RunnerErrorView::FailedMemoryGet(error) => "Failed to fetch memory address."@
                + error.message(),
            RunnerErrorView::EcOpBuiltinScalarLimit(scalar) => "EcOpBuiltin: m should be at most "@
                + decimal_of_int(scalar),
            RunnerErrorView::FailedToParseIdsNameFromPath(path) => ids_name_failure_message(
                debug_quoted(path),
            ),
        }
    }
}

impl RunnerError {
    /// The message of the error.
    pub fn to_string(&self) -> (r: String)
        ensures
            r@ == self@.message(),
    {
        match self {
            RunnerError::NoExecBase => String::from_str(
                "Can't initialize state without an execution base",
            ),
            RunnerError::NoProgBase => String::from_str("Can't without a program base"),
            RunnerError::NoExecBaseForEntrypoint => String::from_str(
                "Can't initialize the function entrypoint without an execution base",
            ),
            RunnerError::MissingMain => String::from_str("Missing main()"),
            RunnerError::UninitializedBase => String::from_str("Uninitialized self.base"),
            RunnerError::WriteFail => String::from_str("Failed to write program output"),
            RunnerError::NoPC => String::from_str("Found None PC during VM initialization"),
            RunnerError::NoAP => String::from_str("Found None AP during VM initialization"),
            RunnerError::NoFP => String::from_str("Found None FP during VM initialization"),
            RunnerError::MemoryValidationError(error) => String::from_str(
                "Memory validation failed during VM initialization.",
            ).concat(error.to_string().as_str()),
            RunnerError::MemoryInitializationError(error) => String::from_str(
                "Memory loading failed during state initialization.",
            ).concat(error.to_string().as_str()),
            RunnerError::NonRelocatableAddress => String::from_str(
                "Memory addresses must be relocatable",
            ),
            RunnerError::FailedStringConversion => String::from_str(
                "Failed to convert string to FieldElement",
            ),
            RunnerError::ExpectedInteger(addr) => String::from_str(
                "Expected integer at address ",
            ).concat(addr.to_string().as_str()),
            RunnerError::MemoryGet(addr) => String::from_str(
                "Failed to retrieve value from address ",
            ).concat(addr.to_string().as_str()),
            RunnerError::FailedMemoryGet(error) => String::from_str(
                "Failed to fetch memory address.",
            ).concat(error.to_string().as_str()),
            RunnerError::EcOpBuiltinScalarLimit(scalar) => String::from_str(
                "EcOpBuiltin: m should be at most ",
            ).concat(scalar.to_string().as_str()),
            RunnerError::FailedToParseIdsNameFromPath(path) => ids_name_failure(
                quote_for_debug(path).as_str(),
            ),
        }
    }
}

} // verus!
