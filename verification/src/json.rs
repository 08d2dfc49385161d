//! The JSON value tree that response decoding works on.
//!
//! Parsing text into the tree is delegated to serde_json behind a trusted
//! boundary; everything that reads the tree — field lookup, number reading —
//! is verified here.

use vstd::prelude::*;

verus! {

use crate::text::str_to_chars;

/// A JSON value. Numbers are carried as their decimal text, exactly as
/// serde_json prints them: integers as plain digits, floats in shortest
/// round-trip form.
#[derive(Debug)]
pub enum Json {
    Null,
    Bool(bool),
    Num(String),
    Str(String),
    Arr(Vec<Json>),
    Obj(Vec<(String, Json)>),
}

/// Declares serde_json's value type, so the parse boundary can handle it.
#[verifier::external_type_specification]
#[verifier::external_body]
pub struct ExValue(serde_json::Value);

/// What serde_json parses a text to, expressed as this library's value
/// tree; `None` when the text is not valid JSON. The result is a function
/// of the text alone.
pub uninterp spec fn json_of(s: Seq<char>) -> Option<Json>;

/// Relies on `serde_json::from_str::<serde_json::Value>`: parsing either
/// yields the document's value tree or fails on invalid JSON, as a function
/// of the input text alone. Object keys are deduplicated by the parser (the
/// last binding wins), so every object in the tree binds each key once.
#[verifier::external_body]
pub(crate) fn parse_json(s: &str) -> (r: Result<Json, String>)
    ensures
        match r {
            Ok(j) => json_of(s@) == Some(j),
            Err(_) => json_of(s@) is None,
        },
{
    match serde_json::from_str::<serde_json::Value>(s) {
        Ok(v) => Ok(convert_value(v)),
        Err(e) => Err(e.to_string()),
    }
}

/// Relies on `serde_json::Value`'s variants and `Number`'s `Display`: each
/// node maps one variant to one variant, moving fields, numbers to their
/// decimal text. Only `parse_json` calls this.
#[verifier::external_body]
fn convert_value(v: serde_json::Value) -> Json {
    match v {
        serde_json::Value::Null => Json::Null,
        serde_json::Value::Bool(b) => Json::Bool(b),
        serde_json::Value::Number(n) => Json::Num(n.to_string()),
        serde_json::Value::String(s) => Json::Str(s),
        serde_json::Value::Array(a) => Json::Arr(a.into_iter().map(convert_value).collect()),
        serde_json::Value::Object(m) => Json::Obj(
            m.into_iter().map(|e| (e.0, convert_value(e.1))).collect(),
        ),
    }
}

/// The value of the last binding of `key` in an object's field list.
pub open spec fn lookup(fields: Seq<(String, Json)>, key: Seq<char>) -> Option<Json>
    decreases fields.len(),
{
    if fields.len() == 0 {
        None
    } else if fields.last().0@ == key {
        Some(fields.last().1)
    } else {
        lookup(fields.drop_last(), key)
    }
}

/// The field `key` of `j`, when `j` is an object that has it.
pub open spec fn jfield(j: Json, key: Seq<char>) -> Option<Json> {
    match j {
        Json::Obj(fields) => lookup(fields@, key),
        _ => None,
    }
}

/// Finds the field `key` in an object's field list, taking the last binding.
pub fn get_field<'a>(fields: &'a Vec<(String, Json)>, key: &str) -> (r: Option<&'a Json>)
    ensures
        match r {
            Some(v) => lookup(fields@, key@) == Some(*v),
            None => lookup(fields@, key@) is None,
        },
{
    let k = key.to_owned();
    let mut i: usize = fields.len();
    proof {
        assert(fields@.take(fields@.len() as int) =~= fields@);
    }
    loop
        invariant
            0 <= i <= fields.len(),
            k@ == key@,
            lookup(fields@, key@) == lookup(fields@.take(i as int), key@),
        decreases i,
    {
        if i == 0 {
            proof {
                assert(fields@.take(0) =~= Seq::<(String, Json)>::empty());
            }
            return None;
        }
        i = i - 1;
        let ghost pre = fields@.take(i as int + 1);
        proof {
            assert(pre.last() == fields@[i as int]);
            assert(pre.drop_last() =~= fields@.take(i as int));
        }
        if fields[i].0 == k {
            return Some(&fields[i].1);
        }
    }
}

/// The field `key` of `j`, when `j` is an object that has it.
pub fn get<'a>(j: &'a Json, key: &str) -> (r: Option<&'a Json>)
    ensures
        match r {
            Some(v) => jfield(*j, key@) == Some(*v),
            None => jfield(*j, key@) is None,
        },
{
    match j {
        Json::Obj(fields) => get_field(fields, key),
        _ => None,
    }
}

/// Whether `c` is a decimal digit.
pub open spec fn is_digit(c: char) -> bool {
    48 <= c as u32 <= 57
}

pub open spec fn digit_val(c: char) -> nat {
    (c as u32 - 48) as nat
}

/// The value of a digit string, most significant digit first.
pub open spec fn digits_val(s: Seq<char>) -> nat
    decreases s.len(),
{
    if s.len() == 0 {
        0
    } else {
        digits_val(s.drop_last()) * 10 + digit_val(s.last())
    }
}

pub open spec fn all_digits(s: Seq<char>) -> bool {
    forall|i: int| 0 <= i < s.len() ==> is_digit(#[trigger] s[i])
}

/// The unsigned integer a JSON number text denotes: defined exactly when the
/// text is one or more digits whose value fits in a `u64` — the texts
/// serde_json prints for integers in range.
pub open spec fn dec_u64_of(s: Seq<char>) -> Option<u64> {
    if s.len() > 0 && all_digits(s) && digits_val(s) <= u64::MAX {
        Some(digits_val(s) as u64)
    } else {
        None
    }
}

proof fn lemma_digits_val_mono(s: Seq<char>, k: int)
    requires
        0 <= k <= s.len(),
    ensures
        digits_val(s) >= digits_val(s.take(k)),
    decreases s.len() - k,
{
    if k < s.len() {
        assert(s.take(k + 1).drop_last() =~= s.take(k));
        assert(s.take(k + 1).last() == s[k]);
        assert(digits_val(s.take(k + 1)) == digits_val(s.take(k)) * 10 + digit_val(s[k]));
        assert(digits_val(s.take(k)) * 10 >= digits_val(s.take(k))) by (nonlinear_arith);
        lemma_digits_val_mono(s, k + 1);
    } else {
        assert(s.take(k) =~= s);
    }
}

/// Reads a `u64` from decimal text; `None` when the text is not a plain
/// digit string or its value does not fit.
pub fn parse_u64(s: &str) -> (r: Option<u64>)
    ensures
        r == dec_u64_of(s@),
{
    let chars = str_to_chars(s);
    if chars.len() == 0 {
        return None;
    }
    let mut acc: u64 = 0;
    let mut i: usize = 0;
    proof {
        assert(s@.take(0) =~= Seq::<char>::empty());
    }
    while i < chars.len()
        invariant
            0 <= i <= chars.len(),
            chars@ == s@,
            chars@.len() > 0,
            all_digits(s@.take(i as int)),
            acc as nat == digits_val(s@.take(i as int)),
        decreases chars.len() - i,
    {
        let c = chars[i];
        let cu = c as u32;
        if cu < 48 || cu > 57 {
            proof {
                assert(!is_digit(s@[i as int]));
            }
            return None;
        }
        let d = (cu - 48) as u64;
        let limit = (u64::MAX - d) / 10;
        proof {
            assert(s@.take(i as int + 1).drop_last() =~= s@.take(i as int));
            assert(s@.take(i as int + 1).last() == s@[i as int]);
        }
        if acc > limit {
            proof {
                assert(acc * 10 + d > u64::MAX) by (nonlinear_arith)
                    requires
                        acc > (u64::MAX - d) / 10,
                        d <= 9,
                        acc <= u64::MAX,
                ;
                assert(digits_val(s@.take(i as int + 1)) > u64::MAX);
                lemma_digits_val_mono(s@, i as int + 1);
            }
            return None;
        }
        proof {
            assert(acc * 10 + d <= u64::MAX) by (nonlinear_arith)
                requires
                    acc <= (u64::MAX - d) / 10,
                    d <= 9,
            ;
        }
        acc = acc * 10 + d;
        i = i + 1;
    }
    proof {
        assert(s@.take(chars@.len() as int) =~= s@);
    }
    Some(acc)
}

} // verus!
