//! The execution driver's decisions: what one run of a loaded program comes
//! to, and what is reported when it fails.
//!
//! The run itself is made by the caller, who hands in what the machine gave
//! as plain values. A failed run leaves no partial result.

use cairo_lang_runner::casm_run::format_for_panic;
use cairo_vm::Felt252;
use vstd::prelude::*;
use vstd::string::*;

use crate::arguments::numbers_of;
use crate::field::FieldElement;
use crate::program::{failure_text, render_failure};

verus! {

/// What the machine gave for one run.
#[derive(Debug, PartialEq, Eq)]
pub enum MachineOutcome {
    /// The program halted; the text is what stands in its output segment.
    Halted(String),
    /// The program halted, but its output could not be written out; the
    /// text is the machine's description of why.
    OutputFailed(String),
    /// The run faulted. `fault` is the machine's description, `markers` are
    /// the markers that the program recorded before, in their order.
    Faulted { fault: String, markers: Vec<Vec<FieldElement>> },
}

/// Why a run failed.
#[derive(Debug, PartialEq, Eq)]
pub enum ExecutionError {
    /// The program itself reported the failure: the text of the last marker
    /// it recorded.
    ProgramReported(String),
    /// The machine faulted: its description of the fault.
    EngineFault(String),
    /// The program halted, but its output could not be written out: the
    /// machine's description of why.
    OutputUnwritten(String),
}

/// The text that the compiler's runner writes for the data of a panic.
pub uninterp spec fn panic_message(data: Seq<nat>) -> Seq<char>;

/// `format_for_panic` of the compiler's runner, on the data of a marker.
/// Its result depends on the data alone.
#[verifier::external_body]
fn panic_text(data: &Vec<FieldElement>) -> (r: String)
    ensures
        r@ == panic_message(numbers_of(data@)),
{
    format_for_panic(data.iter().map(|value| Felt252::from_bytes_be(&value.to_bytes_be())))
}

/// The failure to report, given the text of the last marker, if the run
/// recorded any, and the machine's description of the fault: what the
/// program itself reported comes before what the machine says.
pub fn classify_failure(marker_text: Option<String>, fault: String) -> (r: ExecutionError)
    ensures
        r == match marker_text {
            Some(text) => ExecutionError::ProgramReported(text),
            None => ExecutionError::EngineFault(fault),
        },
{
    match marker_text {
        Some(text) => ExecutionError::ProgramReported(text),
        None => ExecutionError::EngineFault(fault),
    }
}

/// Reports the failure of a run. Where the run recorded markers, the
/// report is the text of the last one; the machine's own description is
/// reported only where there is none.
pub fn report_failure(markers: &Vec<Vec<FieldElement>>, fault: String) -> (r: ExecutionError)
    ensures
        markers@.len() > 0 ==> r is ProgramReported && r->ProgramReported_0@ == panic_message(
            numbers_of(markers@.last()@),
        ),
        markers@.len() == 0 ==> r == ExecutionError::EngineFault(fault),
{
    let marker_text = if markers.len() > 0 {
        Some(panic_text(&markers[markers.len() - 1]))
    } else {
        None
    };
    classify_failure(marker_text, fault)
}

/// Whether `r` is what the outcome of a run comes to: the output of a
/// program that halted; the machine's bare words where the output could not
/// be written; and for a fault the text of the last marker, or the
/// machine's words where the program recorded none.
pub open spec fn is_conclusion_of(outcome: MachineOutcome, r: Result<String, ExecutionError>) -> bool {
    match outcome {
        MachineOutcome::Halted(output) => r == Ok::<String, ExecutionError>(output),
        MachineOutcome::OutputFailed(fault) => r == Err::<String, ExecutionError>(
            ExecutionError::OutputUnwritten(fault),
        ),
        MachineOutcome::Faulted { fault, markers } => if markers@.len() > 0 {
            r is Err && r->Err_0 is ProgramReported && r->Err_0->ProgramReported_0@
                == panic_message(numbers_of(markers@.last()@))
        } else {
            r == Err::<String, ExecutionError>(ExecutionError::EngineFault(fault))
        },
    }
}

/// Concludes a run from what the machine gave: the output text on success,
/// and on failure a single error, with no partial result beside it.
pub fn conclude_run(outcome: MachineOutcome) -> (r: Result<String, ExecutionError>)
    ensures
        is_conclusion_of(outcome, r),
{
    match outcome {
        MachineOutcome::Halted(output) => Ok(output),
        MachineOutcome::OutputFailed(fault) => Err(ExecutionError::OutputUnwritten(fault)),
        MachineOutcome::Faulted { fault, markers } => Err(report_failure(&markers, fault)),
    }
}

/// What an execution error says.
pub open spec fn execution_error_text(error: ExecutionError) -> Seq<char> {
    match error {
        ExecutionError::ProgramReported(text) => text@,
        ExecutionError::EngineFault(fault) => failure_text(
            "Cairo program run failed."@,
            Some(fault@),
        ),
        ExecutionError::OutputUnwritten(fault) => fault@,
    }
}

impl ExecutionError {
    /// The message for the caller: the program's own report as it is, the
    /// machine's fault below a line that says that the run failed, and the
    /// failure to write the output in the machine's words alone.
    pub fn message(&self) -> (r: String)
        ensures
            r@ == execution_error_text(*self),
    {
        match self {
            ExecutionError::ProgramReported(text) => text.clone(),
            ExecutionError::EngineFault(fault) => render_failure(
                "Cairo program run failed.",
                Some(fault),
            ),
            ExecutionError::OutputUnwritten(fault) => fault.clone(),
        }
    }
}

} // verus!
