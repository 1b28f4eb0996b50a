//! Writing JSON: texts as `serde_json` writes them, numbers in decimal, and
//! lists of either.

use vstd::prelude::*;
use vstd::string::*;
use crate::report::number::{int_decimal, push_i64};
use crate::report::text::views_of;

verus! {

/// How `serde_json` writes the text `text` as a JSON string: between
/// double quotes, with the characters that JSON does not take as they are
/// written as escapes.
pub uninterp spec fn json_string(text: Seq<char>) -> Seq<char>;

/// Writes `text` as a JSON string, by the `Display` of
/// `serde_json::Value::String`.
#[verifier::external_body]
fn quoted(text: &str) -> (json: String)
    ensures
        json@ == json_string(text@),
{
    serde_json::Value::String(text.to_string()).to_string()
}

/// Appends `text`, written as a JSON string, to `out`.
pub fn push_json_string(out: &mut String, text: &str)
    ensures
        final(out)@ == old(out)@ + json_string(text@),
{
    let json = quoted(text);
    out.append(json.as_str());
}

/// `parts`, one behind the other, with `separator` between one and the
/// next.
pub open spec fn joined(parts: Seq<Seq<char>>, separator: Seq<char>) -> Seq<char>
    decreases parts.len(),
{
    if parts.len() == 0 {
        Seq::empty()
    } else if parts.len() == 1 {
        parts[0]
    } else {
        joined(parts.drop_last(), separator) + separator + parts.last()
    }
}

/// A JSON list of `items`, each of them JSON already.
pub open spec fn json_list(items: Seq<Seq<char>>) -> Seq<char> {
    "["@ + joined(items, ","@) + "]"@
}

/// Each text written as a JSON string.
pub open spec fn json_strings(texts: Seq<Seq<char>>) -> Seq<Seq<char>> {
    Seq::new(texts.len(), |i: int| json_string(texts[i]))
}

/// Each number written in decimal.
pub open spec fn json_numbers(numbers: Seq<int>) -> Seq<Seq<char>> {
    Seq::new(numbers.len(), |i: int| int_decimal(numbers[i]))
}

/// The numbers as mathematical integers.
pub open spec fn ints_of(numbers: Seq<i64>) -> Seq<int> {
    Seq::new(numbers.len(), |i: int| numbers[i] as int)
}

/// Appends the JSON list of `texts` to `out`.
pub fn push_string_list(out: &mut String, texts: &Vec<String>)
    ensures
        final(out)@ == old(out)@ + json_list(json_strings(views_of(texts@))),
{
    let ghost items = json_strings(views_of(texts@));
    out.append("[");
    let mut at: usize = 0;
    while at < texts.len()
        invariant
            at <= texts@.len(),
            items == json_strings(views_of(texts@)),
            out@ == old(out)@ + "["@ + joined(items.take(at as int), ","@),
        decreases texts@.len() - at,
    {
        if at > 0 {
            out.append(",");
        }
        push_json_string(out, texts[at].as_str());
        proof {
            let done = items.take(at as int + 1);
            assert(done.drop_last() == items.take(at as int));
            assert(done.last() == json_string(texts@[at as int]@));
        }
        at += 1;
    }
    proof {
        assert(items.take(at as int) == items);
    }
    out.append("]");
}

/// Appends the JSON list of `numbers` to `out`.
pub fn push_number_list(out: &mut String, numbers: &Vec<i64>)
    ensures
        final(out)@ == old(out)@ + json_list(json_numbers(ints_of(numbers@))),
{
    let ghost items = json_numbers(ints_of(numbers@));
    out.append("[");
    let mut at: usize = 0;
    while at < numbers.len()
        invariant
            at <= numbers@.len(),
            items == json_numbers(ints_of(numbers@)),
            out@ == old(out)@ + "["@ + joined(items.take(at as int), ","@),
        decreases numbers@.len() - at,
    {
        if at > 0 {
            out.append(",");
        }
        push_i64(out, numbers[at]);
        proof {
            let done = items.take(at as int + 1);
            assert(done.drop_last() == items.take(at as int));
            assert(done.last() == int_decimal(numbers@[at as int] as int));
        }
        at += 1;
    }
    proof {
        assert(items.take(at as int) == items);
    }
    out.append("]");
}

} // verus!
