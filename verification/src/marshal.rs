//! Decoding the host's values into text, and encoding text for the host.

use vstd::prelude::*;
use crate::error::{outcome, BridgeError, Failure, Param};
use crate::value::{Dynamic, HostValue};

verus! {

/// The text that a value decodes to, or the failure naming `param`.
///
/// Only text decodes. No other shape is converted into text.
pub open spec fn decoded(value: Dynamic, param: Param) -> Result<Seq<char>, Failure> {
    match value {
        Dynamic::Text(text) => Ok(text),
        _ => Err(Failure::InvalidInputKind(param)),
    }
}

/// Every value of `values` is text.
pub open spec fn all_text(values: Seq<Dynamic>) -> bool {
    forall|i: int| 0 <= i < values.len() ==> (#[trigger] values[i]) is Text
}

/// `index` is the place of the first value of `values` that is not text.
pub open spec fn first_non_text_at(values: Seq<Dynamic>, index: int) -> bool {
    &&& 0 <= index < values.len()
    &&& !(values[index] is Text)
    &&& forall|j: int| 0 <= j < index ==> (#[trigger] values[j]) is Text
}

/// The place of the first value of `values` that is not text, where there is one.
pub open spec fn first_non_text(values: Seq<Dynamic>) -> int {
    choose|index: int| first_non_text_at(values, index)
}

/// The texts that `values` hold, in their order.
pub open spec fn texts_of(values: Seq<Dynamic>) -> Seq<Seq<char>> {
    Seq::new(values.len(), |i: int| values[i]->Text_0)
}

/// The texts of `values` in their order, or the failure naming the first
/// value that is not text.
pub open spec fn decoded_sequence(values: Seq<Dynamic>) -> Result<Seq<Seq<char>>, Failure> {
    if all_text(values) {
        Ok(texts_of(values))
    } else {
        Err(Failure::InvalidInputKind(Param::PublicValue(first_non_text(values) as usize)))
    }
}

/// The value that carries `text` back to the host.
pub open spec fn encoded(text: Seq<char>) -> Dynamic {
    Dynamic::Text(text)
}

/// The contents of a sequence of host values.
pub open spec fn contents(values: Seq<HostValue>) -> Seq<Dynamic> {
    Seq::new(values.len(), |i: int| values[i]@)
}

/// A sequence has at most one first value that is not text.
pub proof fn lemma_first_non_text_unique(values: Seq<Dynamic>, index: int)
    requires
        first_non_text_at(values, index),
    ensures
        !all_text(values),
        first_non_text(values) == index,
{
    let chosen = first_non_text(values);
    assert(first_non_text_at(values, chosen));
    if chosen < index {
        assert(values[chosen] is Text);
    } else if index < chosen {
        assert(values[index] is Text);
    }
}

/// Decodes one host value that stands in the place `param`.
///
/// Text comes back as it is. Any other shape fails with
/// `InvalidInputKind(param)`; nothing is coerced into text.
pub fn decode_text(value: &HostValue, param: Param) -> (result: Result<String, BridgeError>)
    ensures
        outcome(result) == decoded(value@, param),
{
    match value {
        HostValue::Text(text) => Ok(text.clone()),
        _ => Err(BridgeError::InvalidInputKind(param)),
    }
}

/// Decodes the public values of a verification call, keeping their order.
///
/// Fails at the first value that is not text, with `InvalidInputKind` naming
/// its index.
pub fn decode_text_sequence(values: &Vec<HostValue>) -> (result: Result<Vec<String>, BridgeError>)
    ensures
        match decoded_sequence(contents(values@)) {
            Ok(texts) => result matches Ok(decoded_texts) && decoded_texts.deep_view() == texts,
            Err(failure) => result matches Err(error) && error@ == failure,
        },
{
    let ghost given = contents(values@);
    let mut texts: Vec<String> = Vec::new();
    let mut i: usize = 0;
    while i < values.len()
        invariant
            i <= values.len(),
            given == contents(values@),
            texts.len() == i,
            forall|j: int| 0 <= j < i ==> (#[trigger] given[j]) is Text,
            forall|j: int| 0 <= j < i ==> (#[trigger] texts[j])@ == given[j]->Text_0,
        decreases values.len() - i,
    {
        match decode_text(&values[i], Param::PublicValue(i)) {
            Ok(text) => {
                texts.push(text);
            },
            Err(error) => {
                proof {
                    assert(given[i as int] == values[i as int]@);
                    lemma_first_non_text_unique(given, i as int);
                }
                return Err(error);
            },
        }
        proof {
            assert(given[i as int] == values[i as int]@);
        }
        i = i + 1;
    }
    proof {
        assert(all_text(given));
        assert(texts.deep_view() =~= texts_of(given));
    }
    Ok(texts)
}

/// Wraps a text for the host. Cannot fail.
pub fn encode_text(text: String) -> (value: HostValue)
    ensures
        value@ == encoded(text@),
{
    HostValue::Text(text)
}

} // verus!
