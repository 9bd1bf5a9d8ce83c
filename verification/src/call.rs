//! What a call from the web front end needs besides its arguments: the
//! wording of a failure, and the judgement of a program text that the
//! caller has had parsed.

use cairo_lang_sierra::program::Program;
use vstd::prelude::*;
use vstd::string::*;

verus! {

/// A program in the compiler's intermediate representation. Nothing is
/// known of what a value holds.
#[verifier::external_type_specification]
#[verifier::external_body]
pub struct ExSierraProgram(Program);

/// The text of a failure of a call, with the detail that the runner gave.
pub open spec fn call_error_text(detail: Seq<char>) -> Seq<char> {
    "Error from CairoRunner: "@ + detail
}

/// Words a failure of a call: the detail, marked as coming from the runner.
pub fn call_error_message(detail: &str) -> (r: String)
    ensures
        r@ == call_error_text(detail@),
{
    let mut r = String::from_str("Error from CairoRunner: ");
    r.append(detail);
    r
}

/// Judges what parsing a program text gave: the program as it is, or the
/// parser's objection worded as a failure of the call.
pub fn judge_program(parsed: Result<Program, String>) -> (r: Result<Program, String>)
    ensures
        parsed is Ok ==> r == parsed,
        parsed is Err ==> r is Err && r->Err_0@ == call_error_text(parsed->Err_0@),
{
    match parsed {
        Ok(program) => Ok(program),
        Err(detail) => Err(call_error_message(detail.as_str())),
    }
}

} // verus!
