//! JSON text for flat documents whose members are all strings.

use vstd::prelude::*;
use vstd::string::StringExecFns;

verus! {

/// A lowercase hexadecimal digit.
pub open spec fn hex_digit(n: u32) -> char {
    seq!['0', '1', '2', '3', '4', '5', '6', '7', '8', '9', 'a', 'b', 'c', 'd', 'e', 'f'][(n
        % 16) as int]
}

/// How one character stands inside a JSON string literal: quote and
/// backslash behind a backslash, the five named control characters as
/// `\b \t \n \f \r`, the other characters below U+0020 as `\u00` and two
/// hex digits, everything else as itself.
pub open spec fn escape_char(c: char) -> Seq<char> {
    if c == '"' {
        seq!['\\', '"']
    } else if c == '\\' {
        seq!['\\', '\\']
    } else if c == '\u{8}' {
        seq!['\\', 'b']
    } else if c == '\t' {
        seq!['\\', 't']
    } else if c == '\n' {
        seq!['\\', 'n']
    } else if c == '\u{c}' {
        seq!['\\', 'f']
    } else if c == '\r' {
        seq!['\\', 'r']
    } else if (c as u32) < 0x20 {
        seq!['\\', 'u', '0', '0', hex_digit((c as u32) / 16), hex_digit((c as u32) % 16)]
    } else {
        seq![c]
    }
}

/// Each character of `s` escaped, in order.
pub open spec fn escape_text(s: Seq<char>) -> Seq<char>
    decreases s.len(),
{
    if s.len() == 0 {
        Seq::empty()
    } else {
        escape_text(s.drop_last()) + escape_char(s.last())
    }
}

/// The JSON string literal that denotes `s`: its escaped text in quotes.
pub open spec fn json_string_of(s: Seq<char>) -> Seq<char> {
    seq!['"'] + escape_text(s) + seq!['"']
}

#[verifier::external_type_specification]
#[verifier::external_body]
pub struct ExJsonError(serde_json::Error);

/// Relies on `serde_json::to_string` applied to a `str`: it yields the text
/// in quotes, escaped character by character as `escape_char` states, and
/// writing a string into memory never fails.
#[verifier::external_body]
fn quote(s: &str) -> (r: Result<String, serde_json::Error>)
    ensures
        r is Ok,
        r is Ok ==> r->Ok_0@ == json_string_of(s@),
{
    serde_json::to_string(s)
}

/// The member `"key":"value"`.
pub open spec fn member_text(key: Seq<char>, value: Seq<char>) -> Seq<char> {
    json_string_of(key) + seq![':'] + json_string_of(value)
}

/// The members of an object, in order, separated by commas.
pub open spec fn members_text(fields: Seq<(Seq<char>, Seq<char>)>) -> Seq<char>
    decreases fields.len(),
{
    if fields.len() == 0 {
        Seq::empty()
    } else if fields.len() == 1 {
        member_text(fields[0].0, fields[0].1)
    } else {
        members_text(fields.drop_last()) + seq![','] + member_text(
            fields.last().0,
            fields.last().1,
        )
    }
}

/// A JSON object holding the given string members in the given order.
pub open spec fn object_text(fields: Seq<(Seq<char>, Seq<char>)>) -> Seq<char> {
    seq!['{'] + members_text(fields) + seq!['}']
}

/// The abstract view of a list of string pairs.
pub open spec fn pairs_view(fields: Seq<(String, String)>) -> Seq<(Seq<char>, Seq<char>)> {
    fields.map_values(|p: (String, String)| (p.0@, p.1@))
}

/// The JSON string literal for `s`.
pub fn json_string(s: &str) -> (r: String)
    ensures
        r@ == json_string_of(s@),
{
    match quote(s) {
        Ok(t) => t,
        Err(_) => {
            proof {
                assert(false);
            }
            String::new()
        },
    }
}

/// Writes the members as one JSON object, keeping their order.
pub fn json_object(fields: &Vec<(String, String)>) -> (r: String)
    ensures
        r@ == object_text(pairs_view(fields@)),
{
    let mut out = String::new();
    out.append("{");
    proof {
        reveal_strlit("{");
    }
    let mut i: usize = 0;
    while i < fields.len()
        invariant
            0 <= i <= fields@.len(),
            out@ == seq!['{'] + members_text(pairs_view(fields@).take(i as int)),
        decreases fields@.len() - i,
    {
        if i > 0 {
            out.append(",");
            proof {
                reveal_strlit(",");
            }
        }
        let k = json_string(fields[i].0.as_str());
        let v = json_string(fields[i].1.as_str());
        out.append(k.as_str());
        out.append(":");
        proof {
            reveal_strlit(":");
        }
        out.append(v.as_str());
        proof {
            let all = pairs_view(fields@);
            let pre = all.take(i as int);
            let next = all.take(i + 1);
            assert(next.drop_last() =~= pre);
            assert(next.last() == (fields@[i as int].0@, fields@[i as int].1@));
            if i == 0 {
                assert(pre =~= Seq::empty());
                assert(out@ =~= seq!['{'] + members_text(next));
            } else {
                assert(out@ =~= seq!['{'] + members_text(next));
            }
        }
        i = i + 1;
    }
    out.append("}");
    proof {
        reveal_strlit("}");
        assert(pairs_view(fields@).take(fields@.len() as int) =~= pairs_view(fields@));
        assert(out@ =~= object_text(pairs_view(fields@)));
    }
    out
}

} // verus!
