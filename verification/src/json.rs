//! Reading and writing JSON text.
//!
//! Reading is left to `serde_json`: a text is parsed and one value is looked
//! up in it by JSON Pointer (RFC 6901). What the parser finds is not spelled
//! out here; each lookup has a name, and the contracts of this crate speak of
//! those names. Writing is done here, by quoting strings and framing them.

use vstd::prelude::*;
use vstd::string::*;
use vstd::std_specs::iter::IteratorSpec;
use crate::text::{digit, digit_char};

verus! {

/// Whether `text` is one JSON value, as `serde_json::from_str` reads it.
pub uninterp spec fn json_valid(text: Seq<char>) -> bool;

/// Whether `text`, read as JSON, holds any value at `pointer`.
pub uninterp spec fn json_present(text: Seq<char>, pointer: Seq<char>) -> bool;

/// The string that `text`, read as JSON, holds at `pointer`, if it holds a
/// string there.
pub uninterp spec fn json_string(text: Seq<char>, pointer: Seq<char>) -> Option<Seq<char>>;

/// The unsigned integer that `text`, read as JSON, holds at `pointer`, if it
/// holds one there that fits in 64 bits.
pub uninterp spec fn json_unsigned(text: Seq<char>, pointer: Seq<char>) -> Option<u64>;

/// The boolean that `text`, read as JSON, holds at `pointer`, if it holds one
/// there.
pub uninterp spec fn json_flag(text: Seq<char>, pointer: Seq<char>) -> Option<bool>;

/// The length of the array that `text`, read as JSON, holds at `pointer`, if
/// it holds an array there.
pub uninterp spec fn json_array_len(text: Seq<char>, pointer: Seq<char>) -> Option<usize>;

/// The lists of strings that `text`, read as JSON, holds at `pointer`, if it
/// holds there an array whose items are all arrays of strings.
pub uninterp spec fn json_string_lists(text: Seq<char>, pointer: Seq<char>) -> Option<
    Seq<Seq<Seq<char>>>,
>;

/// One character as it stands in a JSON string literal: the quote, the
/// backslash and the control characters are escaped, the five of them that
/// have a short form by that form and the others by `\u00` and two
/// hexadecimal digits; every other character stands for itself.
pub open spec fn escape(c: char) -> Seq<char> {
    if c == '"' {
        seq!['\\', '"']
    } else if c == '\\' {
        seq!['\\', '\\']
    } else if c == '\u{8}' {
        seq!['\\', 'b']
    } else if c == '\u{c}' {
        seq!['\\', 'f']
    } else if c == '\n' {
        seq!['\\', 'n']
    } else if c == '\r' {
        seq!['\\', 'r']
    } else if c == '\t' {
        seq!['\\', 't']
    } else if (c as u32) < 0x20 {
        seq!['\\', 'u', '0', '0', digit_char((c as u32 / 16) as nat), digit_char((c as u32 % 16) as nat)]
    } else {
        seq![c]
    }
}

/// The characters of `s`, each escaped.
pub open spec fn escaped(s: Seq<char>) -> Seq<char>
    decreases s.len(),
{
    if s.len() == 0 {
        Seq::empty()
    } else {
        escaped(s.drop_last()) + escape(s.last())
    }
}

/// The JSON string literal for `s`: its characters escaped, between
/// quotes.
pub open spec fn json_quoted(s: Seq<char>) -> Seq<char> {
    seq!['"'] + escaped(s) + seq!['"']
}

/// Trusted: parses `text` with `serde_json::from_str` and reports whether it
/// was accepted.
#[verifier::external_body]
pub(crate) fn is_valid(text: &str) -> (ok: bool)
    ensures
        ok == json_valid(text@),
{
    serde_json::from_str::<serde_json::Value>(text).is_ok()
}

/// Trusted: parses `text` and looks `pointer` up with `Value::pointer`;
/// reports whether a value was found.
#[verifier::external_body]
pub(crate) fn is_present(text: &str, pointer: &str) -> (found: bool)
    ensures
        found == json_present(text@, pointer@),
{
    match serde_json::from_str::<serde_json::Value>(text) {
        Ok(value) => value.pointer(pointer).is_some(),
        Err(_) => false,
    }
}

/// Trusted: parses `text`, looks `pointer` up with `Value::pointer` and reads
/// the value found with `Value::as_str`.
#[verifier::external_body]
pub(crate) fn string_at(text: &str, pointer: &str) -> (found: Option<String>)
    ensures
        match found {
            Some(s) => json_string(text@, pointer@) == Some(s@),
            None => json_string(text@, pointer@) is None,
        },
{
    let value = serde_json::from_str::<serde_json::Value>(text).ok()?;
    value.pointer(pointer)?.as_str().map(|s| s.to_owned())
}

/// Trusted: parses `text`, looks `pointer` up with `Value::pointer` and reads
/// the value found with `Value::as_u64`.
#[verifier::external_body]
pub(crate) fn unsigned_at(text: &str, pointer: &str) -> (found: Option<u64>)
    ensures
        found == json_unsigned(text@, pointer@),
{
    let value = serde_json::from_str::<serde_json::Value>(text).ok()?;
    value.pointer(pointer)?.as_u64()
}

/// Trusted: parses `text`, looks `pointer` up with `Value::pointer` and reads
/// the value found with `Value::as_bool`.
#[verifier::external_body]
pub(crate) fn flag_at(text: &str, pointer: &str) -> (found: Option<bool>)
    ensures
        found == json_flag(text@, pointer@),
{
    let value = serde_json::from_str::<serde_json::Value>(text).ok()?;
    value.pointer(pointer)?.as_bool()
}

/// Trusted: parses `text`, looks `pointer` up with `Value::pointer` and reads
/// the value found with `Value::as_array`, of which it gives the length.
#[verifier::external_body]
pub(crate) fn array_len_at(text: &str, pointer: &str) -> (found: Option<usize>)
    ensures
        found == json_array_len(text@, pointer@),
{
    let value = serde_json::from_str::<serde_json::Value>(text).ok()?;
    value.pointer(pointer)?.as_array().map(|items| items.len())
}

/// Trusted: parses `text`, looks `pointer` up with `Value::pointer` and
/// converts the value found with `serde_json::from_value` into lists of
/// strings.
#[verifier::external_body]
pub(crate) fn string_lists_at(text: &str, pointer: &str) -> (found: Option<Vec<Vec<String>>>)
    ensures
        match found {
            Some(lists) => json_string_lists(text@, pointer@) == Some(lists.deep_view()),
            None => json_string_lists(text@, pointer@) is None,
        },
{
    let value = serde_json::from_str::<serde_json::Value>(text).ok()?;
    serde_json::from_value::<Vec<Vec<String>>>(value.pointer(pointer)?.clone()).ok()
}

/// Writes `s` as a JSON string literal.
pub fn quote(s: &str) -> (literal: String)
    ensures
        literal@ == json_quoted(s@),
{
    let mut out = String::new();
    out.push('"');
    assert(s@.take(0) =~= Seq::<char>::empty());
    for c in it: s.chars()
        invariant
            it.seq() == s@,
            out@ == seq!['"'] + escaped(s@.take(it.index() as int)),
    {
        let ghost before = out@;
        proof {
            assert(s@.take(it.index() + 1).drop_last() =~= s@.take(it.index() as int));
            assert(s@.take(it.index() + 1).last() == c);
        }
        if c == '"' {
            out.push('\\');
            out.push('"');
        } else if c == '\\' {
            out.push('\\');
            out.push('\\');
        } else if c == '\u{8}' {
            out.push('\\');
            out.push('b');
        } else if c == '\u{c}' {
            out.push('\\');
            out.push('f');
        } else if c == '\n' {
            out.push('\\');
            out.push('n');
        } else if c == '\r' {
            out.push('\\');
            out.push('r');
        } else if c == '\t' {
            out.push('\\');
            out.push('t');
        } else if (c as u32) < 0x20 {
            let code = c as u32;
            out.push('\\');
            out.push('u');
            out.push('0');
            out.push('0');
            out.push(digit((code / 16) as u8));
            out.push(digit((code % 16) as u8));
        } else {
            out.push(c);
        }
        assert(out@ =~= before + escape(c));
    }
    assert(s@.take(s@.len() as int) =~= s@);
    out.push('"');
    out
}

/// One member of a JSON object: the quoted key, a colon, and the value,
/// which is already JSON text.
pub open spec fn member(key: Seq<char>, value: Seq<char>) -> Seq<char> {
    json_quoted(key) + ":"@ + value
}

/// The members of a JSON object, separated by commas.
pub open spec fn members(fields: Seq<(Seq<char>, Seq<char>)>) -> Seq<char>
    decreases fields.len(),
{
    if fields.len() == 0 {
        Seq::empty()
    } else if fields.len() == 1 {
        member(fields[0].0, fields[0].1)
    } else {
        members(fields.drop_last()) + ","@ + member(fields.last().0, fields.last().1)
    }
}

/// A JSON object with the given keys and values, in the given order.
pub open spec fn object(fields: Seq<(Seq<char>, Seq<char>)>) -> Seq<char> {
    "{"@ + members(fields) + "}"@
}

/// The items of a JSON array, separated by commas.
pub open spec fn items(values: Seq<Seq<char>>) -> Seq<char>
    decreases values.len(),
{
    if values.len() == 0 {
        Seq::empty()
    } else if values.len() == 1 {
        values[0]
    } else {
        items(values.drop_last()) + ","@ + values.last()
    }
}

/// A JSON array of the given values, each already JSON text.
pub open spec fn array(values: Seq<Seq<char>>) -> Seq<char> {
    "["@ + items(values) + "]"@
}

/// The keys and values of a list of pairs, as sequences of characters.
pub open spec fn pairs_view(fields: Seq<(String, String)>) -> Seq<(Seq<char>, Seq<char>)> {
    fields.map_values(|f: (String, String)| (f.0@, f.1@))
}

/// The texts of a list of strings.
pub open spec fn texts_view(values: Seq<String>) -> Seq<Seq<char>> {
    values.map_values(|v: String| v@)
}

/// Writes a JSON object. Each key is quoted here; each value is taken as
/// JSON text and written as it stands.
pub fn write_object(fields: &Vec<(String, String)>) -> (text: String)
    ensures
        text@ == object(pairs_view(fields@)),
{
    let ghost all = pairs_view(fields@);
    let mut out = String::from_str("{");
    let mut i: usize = 0;
    while i < fields.len()
        invariant
            i <= fields@.len(),
            all == pairs_view(fields@),
            out@ == "{"@ + members(all.take(i as int)),
        decreases fields@.len() - i,
    {
        proof {
            assert(all.take(i + 1).drop_last() == all.take(i as int));
            assert(all.take(i + 1).last() == (fields@[i as int].0@, fields@[i as int].1@));
        }
        if i > 0 {
            out.append(",");
        }
        out.append(quote(fields[i].0.as_str()).as_str());
        out.append(":");
        out.append(fields[i].1.as_str());
        i += 1;
    }
    proof {
        assert(all.take(fields@.len() as int) == all);
    }
    out.append("}");
    out
}

/// Writes a JSON array. Each value is taken as JSON text and written as it
/// stands.
pub fn write_array(values: &Vec<String>) -> (text: String)
    ensures
        text@ == array(texts_view(values@)),
{
    let ghost all = texts_view(values@);
    let mut out = String::from_str("[");
    let mut i: usize = 0;
    while i < values.len()
        invariant
            i <= values@.len(),
            all == texts_view(values@),
            out@ == "["@ + items(all.take(i as int)),
        decreases values@.len() - i,
    {
        proof {
            assert(all.take(i + 1).drop_last() == all.take(i as int));
            assert(all.take(i + 1).last() == values@[i as int]@);
        }
        if i > 0 {
            out.append(",");
        }
        out.append(values[i].as_str());
        i += 1;
    }
    proof {
        assert(all.take(values@.len() as int) == all);
    }
    out.append("]");
    out
}

} // verus!
