//! The result serializer: from what a run returned to the text handed to
//! the caller.
//!
//! The text has a labelled section for the structured output, where the run
//! produced one, and then a labelled section that lists every raw return
//! value by its position, in the order in which the machine returned them.

use vstd::prelude::*;
use vstd::string::*;

use crate::decimal::{decimal_text, u64_to_decimal};
use crate::field::FieldElement;

verus! {

/// One raw return value: a cell of the machine's memory, which holds either
/// a field element or the address of another cell.
#[derive(Clone, Copy, Debug, PartialEq, Eq)]
pub enum MemoryCell {
    Value(FieldElement),
    Address { segment: isize, offset: usize },
}

/// A memory cell as plain numbers.
pub enum CellModel {
    Value(nat),
    Address { segment: int, offset: nat },
}

impl View for MemoryCell {
    type V = CellModel;

    open spec fn view(&self) -> CellModel {
        match self {
            MemoryCell::Value(value) => CellModel::Value(value@),
            MemoryCell::Address { segment, offset } => CellModel::Address {
                segment: *segment as int,
                offset: *offset as nat,
            },
        }
    }
}

/// What one successful run returned.
#[derive(Debug, PartialEq, Eq)]
pub struct ExecutionResult {
    /// The raw return values, in the order of the machine's output region.
    pub return_values: Vec<MemoryCell>,
    /// The structured rendering of the program's output, where it was asked
    /// for.
    pub serialized: Option<String>,
}

/// The models of a vector of cells, position by position.
pub open spec fn cell_models(cells: Seq<MemoryCell>) -> Seq<CellModel> {
    Seq::new(cells.len(), |i: int| cells[i]@)
}

/// The decimal text of an integer: a minus sign before the digits of a
/// negative one.
pub open spec fn integer_text(i: int) -> Seq<char> {
    if i < 0 {
        "-"@ + decimal_text((-i) as nat)
    } else {
        decimal_text(i as nat)
    }
}

/// The text of one cell: the decimal value of a field element, or segment
/// and offset of an address with a colon between them.
pub open spec fn cell_text(cell: CellModel) -> Seq<char> {
    match cell {
        CellModel::Value(value) => decimal_text(value),
        CellModel::Address { segment, offset } => integer_text(segment) + ":"@ + decimal_text(
            offset,
        ),
    }
}

/// The line of the return value at position `index`.
pub open spec fn value_line(index: nat, cell: CellModel) -> Seq<char> {
    "["@ + decimal_text(index) + "] "@ + cell_text(cell)
}

/// The lines of the return values, in their order, each after a line break.
pub open spec fn value_lines(cells: Seq<CellModel>) -> Seq<char>
    decreases cells.len(),
{
    if cells.len() == 0 {
        Seq::empty()
    } else {
        value_lines(cells.drop_last()) + "\n"@ + value_line(
            (cells.len() - 1) as nat,
            cells.last(),
        )
    }
}

/// The section that carries the structured output, with its line break.
pub open spec fn serialized_section(serialized: Option<Seq<char>>) -> Seq<char> {
    match serialized {
        Some(text) => "SERIALIZED: "@ + text + "\n"@,
        None => Seq::empty(),
    }
}

/// The whole text of a result.
pub open spec fn result_text(serialized: Option<Seq<char>>, cells: Seq<CellModel>) -> Seq<char> {
    serialized_section(serialized) + "RETURN_VALUES:"@ + value_lines(cells)
}

/// The text of an optional string.
pub open spec fn optional_text(text: Option<String>) -> Option<Seq<char>> {
    match text {
        Some(s) => Some(s@),
        None => None,
    }
}

/// Renders a signed integer in decimal.
pub fn isize_to_decimal(i: isize) -> (r: String)
    ensures
        r@ == integer_text(i as int),
{
    if i < 0 {
        let magnitude: u64 = (-(i as i128)) as u64;
        let mut r = String::from_str("-");
        let digits = u64_to_decimal(magnitude);
        r.append(digits.as_str());
        r
    } else {
        u64_to_decimal(i as u64)
    }
}

/// Renders one cell.
pub fn render_cell(cell: &MemoryCell) -> (r: String)
    ensures
        r@ == cell_text(cell@),
{
    match cell {
        MemoryCell::Value(value) => value.to_decimal(),
        MemoryCell::Address { segment, offset } => {
            let mut r = isize_to_decimal(*segment);
            r.append(":");
            let digits = u64_to_decimal(*offset as u64);
            r.append(digits.as_str());
            r
        },
    }
}

/// Renders the line of the return value at position `index`.
pub fn render_value_line(index: usize, cell: &MemoryCell) -> (r: String)
    ensures
        r@ == value_line(index as nat, cell@),
{
    let mut r = String::from_str("[");
    let position = u64_to_decimal(index as u64);
    r.append(position.as_str());
    r.append("] ");
    let value = render_cell(cell);
    r.append(value.as_str());
    assert(r@ =~= value_line(index as nat, cell@));
    r
}

/// Renders a result: the structured output first, where there is one, then
/// every return value on a line of its own.
pub fn render_result(result: &ExecutionResult) -> (r: String)
    ensures
        r@ == result_text(optional_text(result.serialized), cell_models(result.return_values@)),
{
    let mut r = String::new();
    match &result.serialized {
        Some(text) => {
            r.append("SERIALIZED: ");
            r.append(text.as_str());
            r.append("\n");
        },
        None => {},
    }
    assert(r@ =~= serialized_section(optional_text(result.serialized)));
    r.append("RETURN_VALUES:");
    let ghost cells = cell_models(result.return_values@);
    let ghost head = r@;
    let mut i: usize = 0;
    assert(cells.take(0) =~= Seq::<CellModel>::empty());
    while i < result.return_values.len()
        invariant
            i <= result.return_values@.len(),
            cells == cell_models(result.return_values@),
            r@ == head + value_lines(cells.take(i as int)),
        decreases result.return_values@.len() - i,
    {
        let line = render_value_line(i, &result.return_values[i]);
        r.append("\n");
        r.append(line.as_str());
        proof {
            let next = cells.take(i + 1);
            assert(next.drop_last() =~= cells.take(i as int));
            assert(next.last() == cells[i as int]);
            assert(r@ =~= head + value_lines(next));
        }
        i = i + 1;
    }
    assert(cells.take(i as int) =~= cells);
    r
}

/// The output of a program between two rules, for the console; nothing
/// where the program wrote nothing.
pub open spec fn framed_output(text: Seq<char>) -> Seq<char> {
    if text.len() == 0 {
        Seq::empty()
    } else {
        "--- Program output ---\n"@ + text + "----------------------\n"@
    }
}

/// Frames the output of a program for the console.
pub fn frame_output(text: &str) -> (r: String)
    ensures
        r@ == framed_output(text@),
{
    if text.is_empty() {
        String::new()
    } else {
        let mut r = String::from_str("--- Program output ---\n");
        r.append(text);
        r.append("----------------------\n");
        r
    }
}

/// A result with `n` return values has `n` value lines: the text of the
/// values grows by exactly one line for each value, in order.
pub proof fn lemma_value_lines_extend(cells: Seq<CellModel>, cell: CellModel)
    ensures
        value_lines(cells.push(cell)) == value_lines(cells) + "\n"@ + value_line(cells.len(), cell),
{
    let longer = cells.push(cell);
    assert(longer.drop_last() =~= cells);
    assert(longer.last() == cell);
}

/// Without structured output the text is the label and the value lines
/// alone.
pub proof fn lemma_result_text_without_serialized(cells: Seq<CellModel>)
    ensures
        result_text(None, cells) == "RETURN_VALUES:"@ + value_lines(cells),
{
    assert(result_text(None, cells) =~= "RETURN_VALUES:"@ + value_lines(cells));
}

} // verus!
