//! JSON text of the request bodies, framed around string literals that
//! serde_json quotes.
use vstd::prelude::*;

verus! {

#[verifier::external_type_specification]
#[verifier::external_body]
pub struct ExJsonError(serde_json::Error);

/// A lower-case hexadecimal digit.
pub open spec fn hex_digit(d: int) -> char {
    seq!['0', '1', '2', '3', '4', '5', '6', '7', '8', '9', 'a', 'b', 'c', 'd', 'e', 'f'][d]
}

/// How serde_json writes the character `c` inside a string literal: `"`
/// and `\` behind a backslash, the control characters below 0x20 as `\b`,
/// `\t`, `\n`, `\f`, `\r` or `\u00xx`, every other character as is.
pub open spec fn json_escape(c: char) -> Seq<char> {
    let n = c as u32;
    if c == '"' {
        seq!['\\', '"']
    } else if c == '\\' {
        seq!['\\', '\\']
    } else if n == 8 {
        seq!['\\', 'b']
    } else if n == 9 {
        seq!['\\', 't']
    } else if n == 10 {
        seq!['\\', 'n']
    } else if n == 12 {
        seq!['\\', 'f']
    } else if n == 13 {
        seq!['\\', 'r']
    } else if n < 32 {
        seq!['\\', 'u', '0', '0', hex_digit(n as int / 16), hex_digit(n as int % 16)]
    } else {
        seq![c]
    }
}

/// The characters of `s`, each escaped.
pub open spec fn json_escaped(s: Seq<char>) -> Seq<char>
    decreases s.len(),
{
    if s.len() == 0 {
        Seq::empty()
    } else {
        json_escaped(s.drop_last()) + json_escape(s.last())
    }
}

/// The JSON string literal for the characters `s`.
pub open spec fn json_string_literal(s: Seq<char>) -> Seq<char> {
    seq!['"'] + json_escaped(s) + seq!['"']
}

/// Relies on `serde_json::to_string` on a `str` (`format_escaped_str` and
/// `Formatter::write_char_escape` in `ser.rs`): it writes into a `Vec`, which
/// cannot fail, the characters between quote marks with the escapes of
/// `json_escape`.
#[verifier::external_body]
fn quote_json(s: &str) -> (r: Result<String, serde_json::Error>)
    ensures
        r is Ok,
        r matches Ok(q) ==> q@ == json_string_literal(s@),
{
    serde_json::to_string(s)
}

/// `s` as a JSON string literal.
pub fn json_quoted(s: &str) -> (r: String)
    ensures
        r@ == json_string_literal(s@),
{
    match quote_json(s) {
        Ok(q) => q,
        Err(_) => String::new(),
    }
}

/// The decimal digit `d`.
pub open spec fn digit_char(d: nat) -> char {
    seq!['0', '1', '2', '3', '4', '5', '6', '7', '8', '9'][d as int]
}

/// Decimal notation of `n`, without sign or leading zeros.
pub open spec fn decimal_of(n: nat) -> Seq<char>
    decreases n,
{
    if n < 10 {
        seq![digit_char(n)]
    } else {
        decimal_of(n / 10) + seq![digit_char(n % 10)]
    }
}

fn digit_str(d: usize) -> (r: &'static str)
    requires
        d < 10,
    ensures
        r@ == seq![digit_char(d as nat)],
{
    proof {
        reveal_strlit("0");
        reveal_strlit("1");
        reveal_strlit("2");
        reveal_strlit("3");
        reveal_strlit("4");
        reveal_strlit("5");
        reveal_strlit("6");
        reveal_strlit("7");
        reveal_strlit("8");
        reveal_strlit("9");
    }
    let r = match d {
        0 => "0",
        1 => "1",
        2 => "2",
        3 => "3",
        4 => "4",
        5 => "5",
        6 => "6",
        7 => "7",
        8 => "8",
        _ => "9",
    };
    assert(r@ =~= seq![digit_char(d as nat)]);
    r
}

/// Decimal notation of `n`.
pub fn decimal_string(n: usize) -> (r: String)
    ensures
        r@ == decimal_of(n as nat),
    decreases n,
{
    if n < 10 {
        digit_str(n).to_string()
    } else {
        let mut s = decimal_string(n / 10);
        s.append(digit_str(n % 10));
        s
    }
}

/// Body of a transition request around the quoted transition id.
pub open spec fn transition_body(quoted_id: Seq<char>) -> Seq<char> {
    "{\"transition\":{\"id\":"@ + quoted_id + "}}"@
}

/// Body of an assignee update around the quoted user name.
pub open spec fn assignee_body(quoted_name: Seq<char>) -> Seq<char> {
    "{\"fields\":{\"assignee\":{\"name\":"@ + quoted_name + "}}}"@
}

/// Body of a story-points update: the quoted field id set to `value`, after
/// the assignee entry where one is given.
pub open spec fn story_points_body(
    quoted_assignee: Option<Seq<char>>,
    quoted_field: Seq<char>,
    value: nat,
) -> Seq<char> {
    let head = match quoted_assignee {
        Some(q) => "{\"fields\":{\"assignee\":{\"name\":"@ + q + "},"@,
        None => "{\"fields\":{"@,
    };
    head + quoted_field + ":"@ + decimal_of(value) + "}}"@
}

/// The transition request body for an already quoted id.
pub fn transition_body_from(quoted_id: &str) -> (r: String)
    ensures
        r@ == transition_body(quoted_id@),
{
    let mut s = "{\"transition\":{\"id\":".to_string();
    s.append(quoted_id);
    s.append("}}");
    s
}

/// The assignee update body for an already quoted name.
pub fn assignee_body_from(quoted_name: &str) -> (r: String)
    ensures
        r@ == assignee_body(quoted_name@),
{
    let mut s = "{\"fields\":{\"assignee\":{\"name\":".to_string();
    s.append(quoted_name);
    s.append("}}}");
    s
}

/// The story-points update body for already quoted parts.
pub fn story_points_body_from(
    quoted_assignee: Option<&str>,
    quoted_field: &str,
    value: usize,
) -> (r: String)
    ensures
        r@ == story_points_body(
            match quoted_assignee {
                Some(q) => Some(q@),
                None => None,
            },
            quoted_field@,
            value as nat,
        ),
{
    let mut s = match quoted_assignee {
        Some(q) => {
            let mut h = "{\"fields\":{\"assignee\":{\"name\":".to_string();
            h.append(q);
            h.append("},");
            h
        },
        None => "{\"fields\":{".to_string(),
    };
    s.append(quoted_field);
    s.append(":");
    let digits = decimal_string(value);
    s.append(digits.as_str());
    s.append("}}");
    s
}

} // verus!
