//! The argument decoder: from the loosely typed descriptors that a caller
//! supplies to the positional arguments of a program call.
//!
//! Decoding is total. A text that is not a decimal integer the reader
//! accepts stands for zero; it never fails the call.

use vstd::prelude::*;
use vstd::string::*;

use crate::decimal::{all_digits, decimal_text, digits_value, is_canonical, lemma_decimal_text_is_canonical, lemma_decimal_text_of_value, lemma_value_of_decimal_text, u64_to_decimal};
use crate::field::{field_prime, has_minus, is_readable, magnitude_text, reader_bound, residue_of, FieldElement};

verus! {

/// What a caller supplies for one argument: the text of one value, or the
/// texts of the elements of an array. A number is supplied as its decimal
/// text.
#[derive(Debug, PartialEq, Eq)]
pub enum ArgumentDescriptor {
    Scalar(String),
    Sequence(Vec<String>),
}

/// One positional argument of a program call.
#[derive(Debug, PartialEq, Eq)]
pub enum CallArgument {
    Single(FieldElement),
    Array(Vec<FieldElement>),
}

/// A descriptor as plain text.
pub enum DescriptorModel {
    Scalar(Seq<char>),
    Sequence(Seq<Seq<char>>),
}

/// A call argument as plain numbers.
pub enum ArgumentModel {
    Single(nat),
    Array(Seq<nat>),
}

/// The texts that a vector of strings holds.
pub open spec fn texts_of(items: Seq<String>) -> Seq<Seq<char>> {
    Seq::new(items.len(), |i: int| items[i]@)
}

/// The numbers that a vector of field elements holds.
pub open spec fn numbers_of(items: Seq<FieldElement>) -> Seq<nat> {
    Seq::new(items.len(), |i: int| items[i]@)
}

impl View for ArgumentDescriptor {
    type V = DescriptorModel;

    open spec fn view(&self) -> DescriptorModel {
        match self {
            ArgumentDescriptor::Scalar(text) => DescriptorModel::Scalar(text@),
            ArgumentDescriptor::Sequence(items) => DescriptorModel::Sequence(texts_of(items@)),
        }
    }
}

impl View for CallArgument {
    type V = ArgumentModel;

    open spec fn view(&self) -> ArgumentModel {
        match self {
            CallArgument::Single(value) => ArgumentModel::Single(value@),
            CallArgument::Array(values) => ArgumentModel::Array(numbers_of(values@)),
        }
    }
}

/// The models of a vector of descriptors, position by position.
pub open spec fn descriptor_models(items: Seq<ArgumentDescriptor>) -> Seq<DescriptorModel> {
    Seq::new(items.len(), |i: int| items[i]@)
}

/// The models of a vector of call arguments, position by position.
pub open spec fn argument_models(items: Seq<CallArgument>) -> Seq<ArgumentModel> {
    Seq::new(items.len(), |i: int| items[i]@)
}

/// The number that one text decodes to: the integer it writes modulo the
/// prime where the reader accepts it, and zero otherwise.
pub open spec fn decode_text(s: Seq<char>) -> nat {
    if is_readable(s) {
        residue_of(s)
    } else {
        0
    }
}

/// The numbers that the texts of an array decode to, each by itself and in
/// the order given.
pub open spec fn decode_texts(items: Seq<Seq<char>>) -> Seq<nat> {
    Seq::new(items.len(), |i: int| decode_text(items[i]))
}

/// The call argument that one descriptor decodes to.
pub open spec fn decode_model(d: DescriptorModel) -> ArgumentModel {
    match d {
        DescriptorModel::Scalar(text) => ArgumentModel::Single(decode_text(text)),
        DescriptorModel::Sequence(items) => ArgumentModel::Array(decode_texts(items)),
    }
}

/// The call arguments that a list of descriptors decodes to, each by itself
/// and in the order given.
pub open spec fn decode_models(items: Seq<DescriptorModel>) -> Seq<ArgumentModel> {
    Seq::new(items.len(), |i: int| decode_model(items[i]))
}

/// Decodes the text of one value.
pub fn decode_scalar(text: &str) -> (r: FieldElement)
    ensures
        r@ == decode_text(text@),
{
    match FieldElement::from_decimal(text) {
        Some(value) => value,
        None => FieldElement::zero(),
    }
}

/// Decodes the texts of an array, element by element.
pub fn decode_sequence(items: &Vec<String>) -> (r: Vec<FieldElement>)
    ensures
        numbers_of(r@) == decode_texts(texts_of(items@)),
{
    let mut out: Vec<FieldElement> = Vec::new();
    let mut i: usize = 0;
    while i < items.len()
        invariant
            i <= items@.len(),
            out@.len() == i,
            forall|k: int| 0 <= k < i ==> (#[trigger] out@[k])@ == decode_text(items@[k]@),
        decreases items@.len() - i,
    {
        let value = decode_scalar(items[i].as_str());
        out.push(value);
        i = i + 1;
    }
    assert(numbers_of(out@) =~= decode_texts(texts_of(items@)));
    out
}

/// Decodes one descriptor.
pub fn decode_argument(descriptor: &ArgumentDescriptor) -> (r: CallArgument)
    ensures
        r@ == decode_model(descriptor@),
{
    match descriptor {
        ArgumentDescriptor::Scalar(text) => CallArgument::Single(decode_scalar(text.as_str())),
        ArgumentDescriptor::Sequence(items) => CallArgument::Array(decode_sequence(items)),
    }
}

/// Decodes the arguments of a call: as many as there are descriptors, each
/// at the position of its descriptor.
pub fn decode_arguments(descriptors: &Vec<ArgumentDescriptor>) -> (r: Vec<CallArgument>)
    ensures
        r@.len() == descriptors@.len(),
        argument_models(r@) == decode_models(descriptor_models(descriptors@)),
{
    let mut out: Vec<CallArgument> = Vec::new();
    let mut i: usize = 0;
    while i < descriptors.len()
        invariant
            i <= descriptors@.len(),
            out@.len() == i,
            forall|k: int| 0 <= k < i ==> (#[trigger] out@[k])@ == decode_model(descriptors@[k]@),
        decreases descriptors@.len() - i,
    {
        let argument = decode_argument(&descriptors[i]);
        out.push(argument);
        i = i + 1;
    }
    assert(argument_models(out@) =~= decode_models(descriptor_models(descriptors@)));
    out
}

/// Where strict decoding found a text that the reader does not accept: the
/// position of the argument and, inside an array, of the element.
#[derive(Clone, Copy, Debug, PartialEq, Eq)]
pub struct ArgumentDecodeError {
    pub argument: usize,
    pub element: Option<usize>,
}

/// Whether `index` is the position of the first text that the reader does
/// not accept.
pub open spec fn is_first_unreadable(items: Seq<Seq<char>>, index: int) -> bool {
    &&& 0 <= index < items.len()
    &&& !is_readable(items[index])
    &&& forall|k: int| 0 <= k < index ==> is_readable(#[trigger] items[k])
}

/// Whether the reader accepts every text.
pub open spec fn all_readable(items: Seq<Seq<char>>) -> bool {
    forall|k: int| 0 <= k < items.len() ==> is_readable(#[trigger] items[k])
}

/// Whether the reader accepts every text of a descriptor.
pub open spec fn is_decodable(d: DescriptorModel) -> bool {
    match d {
        DescriptorModel::Scalar(text) => is_readable(text),
        DescriptorModel::Sequence(items) => all_readable(items),
    }
}

/// Whether `element` is where the reader first objects inside a
/// descriptor: nowhere to point at in a single value, the first text it
/// does not accept in an array.
pub open spec fn is_first_objection(d: DescriptorModel, element: Option<usize>) -> bool {
    match d {
        DescriptorModel::Scalar(text) => !is_readable(text) && element is None,
        DescriptorModel::Sequence(items) => element is Some && is_first_unreadable(
            items,
            element->0 as int,
        ),
    }
}

/// Decodes the texts of an array and fails where lenient decoding would
/// put zero for a text that the reader does not accept: at the position of
/// the first such text.
pub fn decode_sequence_strict(items: &Vec<String>) -> (r: Result<Vec<FieldElement>, usize>)
    ensures
        match r {
            Ok(values) => all_readable(texts_of(items@)) && numbers_of(values@) == decode_texts(
                texts_of(items@),
            ),
            Err(index) => is_first_unreadable(texts_of(items@), index as int),
        },
{
    let mut out: Vec<FieldElement> = Vec::new();
    let mut i: usize = 0;
    while i < items.len()
        invariant
            i <= items@.len(),
            out@.len() == i,
            forall|k: int| 0 <= k < i ==> is_readable(#[trigger] texts_of(items@)[k]),
            forall|k: int| 0 <= k < i ==> (#[trigger] out@[k])@ == decode_text(items@[k]@),
        decreases items@.len() - i,
    {
        match FieldElement::from_decimal(items[i].as_str()) {
            Some(value) => {
                out.push(value);
            },
            None => {
                assert(texts_of(items@)[i as int] == items@[i as int]@);
                return Err(i);
            },
        }
        assert(texts_of(items@)[i as int] == items@[i as int]@);
        i = i + 1;
    }
    assert(numbers_of(out@) =~= decode_texts(texts_of(items@)));
    Ok(out)
}

/// Decodes the arguments of a call and fails where lenient decoding would
/// put zero for a text that the reader does not accept: at the first
/// argument that holds such a text. Where it succeeds, the arguments are
/// those of [`decode_arguments`].
pub fn decode_arguments_strict(descriptors: &Vec<ArgumentDescriptor>) -> (r: Result<
    Vec<CallArgument>,
    ArgumentDecodeError,
>)
    ensures
        match r {
            Ok(arguments) => {
                &&& forall|k: int|
                    0 <= k < descriptors@.len() ==> is_decodable((#[trigger] descriptors@[k])@)
                &&& argument_models(arguments@) == decode_models(descriptor_models(descriptors@))
            },
            Err(error) => {
                &&& error.argument < descriptors@.len()
                &&& forall|k: int|
                    0 <= k < error.argument ==> is_decodable((#[trigger] descriptors@[k])@)
                &&& is_first_objection(descriptors@[error.argument as int]@, error.element)
            },
        },
{
    let mut out: Vec<CallArgument> = Vec::new();
    let mut i: usize = 0;
    while i < descriptors.len()
        invariant
            i <= descriptors@.len(),
            out@.len() == i,
            forall|k: int| 0 <= k < i ==> is_decodable((#[trigger] descriptors@[k])@),
            forall|k: int| 0 <= k < i ==> (#[trigger] out@[k])@ == decode_model(descriptors@[k]@),
        decreases descriptors@.len() - i,
    {
        match &descriptors[i] {
            ArgumentDescriptor::Scalar(text) => {
                match FieldElement::from_decimal(text.as_str()) {
                    Some(value) => {
                        out.push(CallArgument::Single(value));
                    },
                    None => {
                        return Err(ArgumentDecodeError { argument: i, element: None });
                    },
                }
            },
            ArgumentDescriptor::Sequence(items) => {
                match decode_sequence_strict(items) {
                    Ok(values) => {
                        out.push(CallArgument::Array(values));
                    },
                    Err(element) => {
                        return Err(ArgumentDecodeError { argument: i, element: Some(element) });
                    },
                }
            },
        }
        i = i + 1;
    }
    assert(argument_models(out@) =~= decode_models(descriptor_models(descriptors@)));
    Ok(out)
}

/// Decoding keeps the number of arguments and their positions.
pub proof fn lemma_decoding_keeps_positions(descriptors: Seq<DescriptorModel>, i: int)
    requires
        0 <= i < descriptors.len(),
    ensures
        decode_models(descriptors).len() == descriptors.len(),
        decode_models(descriptors)[i] == decode_model(descriptors[i]),
{
}

/// A run of decimal digits that writes a number below the reader's bound
/// decodes to that number modulo the prime.
pub proof fn lemma_decimal_decodes_to_residue(s: Seq<char>)
    requires
        s.len() > 0,
        all_digits(s),
        digits_value(s) < reader_bound(),
    ensures
        decode_text(s) == digits_value(s) % field_prime(),
{
    assert(!has_minus(s));
    assert(magnitude_text(s) == s);
}

/// A text that the reader does not accept decodes to zero, and zero is
/// what its rendering decodes to again.
pub proof fn lemma_unreadable_decodes_to_zero(s: Seq<char>)
    requires
        !is_readable(s),
    ensures
        decode_text(s) == 0,
        decode_text(decimal_text(decode_text(s))) == 0,
{
    lemma_rendering_decodes_back(0);
}

/// The canonical text of a field element decodes to that element.
pub proof fn lemma_rendering_decodes_back(n: nat)
    requires
        n < field_prime(),
    ensures
        decode_text(decimal_text(n)) == n,
{
    let s = decimal_text(n);
    lemma_decimal_text_is_canonical(n);
    lemma_value_of_decimal_text(n);
    assert(s[0] != '-');
    assert(magnitude_text(s) == s);
    lemma_decimal_decodes_to_residue(s);
}

/// Decoding twice through the rendering changes nothing: what a text
/// decodes to is what the rendering of that value decodes to.
pub proof fn lemma_decoding_is_idempotent(s: Seq<char>)
    ensures
        decode_text(decimal_text(decode_text(s))) == decode_text(s),
{
    lemma_rendering_decodes_back(decode_text(s));
}

/// The elements of an array decode one by one, in their order.
pub proof fn lemma_sequence_decodes_elementwise(items: Seq<Seq<char>>, i: int)
    requires
        0 <= i < items.len(),
    ensures
        decode_texts(items).len() == items.len(),
        decode_texts(items)[i] == decode_text(items[i]),
        decode_model(DescriptorModel::Sequence(items)) == ArgumentModel::Array(decode_texts(items)),
        decode_model(DescriptorModel::Scalar(items[i])) == ArgumentModel::Single(
            decode_texts(items)[i],
        ),
{
}

/// The canonical decimal text of a field element survives decoding and
/// rendering unchanged.
pub proof fn lemma_decode_then_render(s: Seq<char>)
    requires
        is_canonical(s),
        digits_value(s) < field_prime(),
    ensures
        decimal_text(decode_text(s)) == s,
{
    lemma_decimal_decodes_to_residue(s);
    lemma_decimal_text_of_value(s);
}

/// The line that records one argument for diagnosis: its position, and
/// either the text supplied for a single value or the number of elements
/// of an array.
pub open spec fn record_text(label: Seq<char>, index: nat, d: DescriptorModel) -> Seq<char> {
    match d {
        DescriptorModel::Scalar(text) => label + "Arg "@ + decimal_text(index) + ": Single("@ + text
            + ")"@,
        DescriptorModel::Sequence(items) => label + "Arg "@ + decimal_text(index)
            + ": Array with "@ + decimal_text(items.len()) + " elements"@,
    }
}

/// Writes the diagnostic record of the argument at position `index`. The
/// record is for the log alone: the decoded value does not depend on it.
pub fn describe_argument(label: &str, index: usize, descriptor: &ArgumentDescriptor) -> (r: String)
    ensures
        r@ == record_text(label@, index as nat, descriptor@),
{
    let mut line = String::from_str(label);
    line.append("Arg ");
    let position = u64_to_decimal(index as u64);
    line.append(position.as_str());
    match descriptor {
        ArgumentDescriptor::Scalar(text) => {
            line.append(": Single(");
            line.append(text.as_str());
            line.append(")");
        },
        ArgumentDescriptor::Sequence(items) => {
            line.append(": Array with ");
            let count = u64_to_decimal(items.len() as u64);
            line.append(count.as_str());
            line.append(" elements");
        },
    }
    assert(line@ =~= record_text(label@, index as nat, descriptor@));
    line
}

} // verus!
