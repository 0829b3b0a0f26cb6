//! JSON text of the replies: string literals, integers, identifiers, error
//! objects, and the success and failure envelopes that go back to a client.
use vstd::prelude::*;
use crate::protocol::{ErrorView, Id, IdView, ReqInfo, ReqInfoView, RpcError, Version};

verus! {

/// A hexadecimal digit in lower case, for a value below 16.
pub open spec fn hex_digit(d: int) -> char {
    if d < 10 {
        (48 + d) as char
    } else {
        (87 + d) as char
    }
}

/// How one character stands inside a JSON string literal.
pub open spec fn escape_char(c: char) -> Seq<char> {
    if c == '"' {
        seq!['\\', '"']
    } else if c == '\\' {
        seq!['\\', '\\']
    } else if c == '\u{8}' {
        seq!['\\', 'b']
    } else if c == '\t' {
        seq!['\\', 't']
    } else if c == '\n' {
        seq!['\\', 'n']
    } else if c == '\u{c}' {
        seq!['\\', 'f']
    } else if c == '\r' {
        seq!['\\', 'r']
    } else if (c as int) < 0x20 {
        seq!['\\', 'u', '0', '0', hex_digit((c as int) / 16), hex_digit((c as int) % 16)]
    } else {
        seq![c]
    }
}

/// The characters of `s`, each written as `escape_char` writes it.
pub open spec fn escape_chars(s: Seq<char>) -> Seq<char>
    decreases s.len(),
{
    if s.len() == 0 {
        Seq::empty()
    } else {
        escape_chars(s.drop_last()) + escape_char(s.last())
    }
}

/// The JSON string literal that denotes `s`.
pub open spec fn json_string(s: Seq<char>) -> Seq<char> {
    seq!['"'] + escape_chars(s) + seq!['"']
}

/// A decimal digit, for a value below 10.
pub open spec fn digit_char(d: int) -> char {
    (48 + d) as char
}

/// The decimal numeral of `n`, without leading zeros.
pub open spec fn decimal(n: nat) -> Seq<char>
    decreases n,
{
    if n < 10 {
        seq![digit_char(n as int)]
    } else {
        decimal(n / 10) + seq![digit_char((n % 10) as int)]
    }
}

/// The JSON number of an integer: its decimal numeral, after a minus sign
/// where it is negative.
pub open spec fn int_text(n: int) -> Seq<char> {
    if n < 0 {
        seq!['-'] + decimal((-n) as nat)
    } else {
        decimal(n as nat)
    }
}

/// The JSON value of a request identifier.
pub open spec fn id_json(id: IdView) -> Seq<char> {
    match id {
        IdView::Null => "null"@,
        IdView::Num(n) => decimal(n as nat),
        IdView::Str(s) => json_string(s),
    }
}

/// The `jsonrpc` member and its comma, present only where the version is.
pub open spec fn version_member(v: Option<Version>) -> Seq<char> {
    match v {
        Some(Version::V2) => "\"jsonrpc\":\"2.0\","@,
        None => Seq::empty(),
    }
}

/// The `data` member of an error object with its leading comma, present only
/// where the error carries data.
pub open spec fn data_member(data: Option<Seq<char>>) -> Seq<char> {
    match data {
        Some(d) => ",\"data\":"@ + d,
        None => Seq::empty(),
    }
}

/// The JSON error object.
pub open spec fn error_json(e: ErrorView) -> Seq<char> {
    "{\"code\":"@ + int_text(e.code as int) + ",\"message\":"@ + json_string(e.message)
        + data_member(e.data) + "}"@
}

/// The reply to a refused request: it carries no version and a null identifier.
pub open spec fn failure_json(e: ErrorView) -> Seq<char> {
    "{\"id\":null,\"error\":"@ + error_json(e) + "}"@
}

/// The reply that carries `result` (JSON text) back to the request that
/// `info` describes.
pub open spec fn success_json(info: ReqInfoView, result: Seq<char>) -> Seq<char> {
    "{"@ + version_member(info.jsonrpc) + "\"id\":"@ + id_json(info.id) + ",\"result\":"@ + result
        + "}"@
}

#[verifier::external_type_specification]
#[verifier::external_body]
pub struct ExJsonError(serde_json::Error);

/// `serde_json::to_string` on a string slice. Its source serialises a `str`
/// with `serialize_str`, which writes a quote, then each byte that is a quote,
/// a backslash or a control character in its escaped form (`\"`, `\\`, `\b`,
/// `\t`, `\n`, `\f`, `\r`, else `\u00` and two lower-case hexadecimal digits)
/// and every other byte as it is, then a quote, into a `Vec<u8>`, which
/// never reports an I/O error: so the call succeeds, with `json_string`.
#[verifier::external_body]
fn serialize_str(s: &str) -> (r: Result<String, serde_json::Error>)
    ensures
        r is Ok,
        r is Ok ==> r->Ok_0@ == json_string(s@),
{
    serde_json::to_string(s)
}

/// Appends the JSON string literal of `s`.
pub fn push_json_string(out: &mut String, s: &str)
    ensures
        final(out)@ == old(out)@ + json_string(s@),
{
    match serialize_str(s) {
        Ok(t) => out.append(t.as_str()),
        Err(_) => {},
    }
}

fn digit_str(d: u64) -> (r: &'static str)
    requires
        d < 10,
    ensures
        r@ == seq![digit_char(d as int)],
{
    proof {
        reveal_strlit("0");
        reveal_strlit("1");
        reveal_strlit("2");
        reveal_strlit("3");
        reveal_strlit("4");
        reveal_strlit("5");
        reveal_strlit("6");
        reveal_strlit("7");
        reveal_strlit("8");
        reveal_strlit("9");
    }
    if d == 0 {
        "0"
    } else if d == 1 {
        "1"
    } else if d == 2 {
        "2"
    } else if d == 3 {
        "3"
    } else if d == 4 {
        "4"
    } else if d == 5 {
        "5"
    } else if d == 6 {
        "6"
    } else if d == 7 {
        "7"
    } else if d == 8 {
        "8"
    } else {
        "9"
    }
}

/// Appends the decimal numeral of `n`.
pub fn push_decimal(out: &mut String, n: u64)
    ensures
        final(out)@ == old(out)@ + decimal(n as nat),
    decreases n,
{
    if n >= 10 {
        push_decimal(out, n / 10);
        out.append(digit_str(n % 10));
        assert(final(out)@ == old(out)@ + decimal(n as nat));
    } else {
        out.append(digit_str(n));
    }
}

/// Appends the JSON number of `n`.
pub fn push_int(out: &mut String, n: i64)
    ensures
        final(out)@ == old(out)@ + int_text(n as int),
{
    if n < 0 {
        proof {
            reveal_strlit("-");
        }
        out.append("-");
        let wide: i128 = n as i128;
        let magnitude: u64 = (0i128 - wide) as u64;
        push_decimal(out, magnitude);
        assert(final(out)@ =~= old(out)@ + int_text(n as int));
    } else {
        push_decimal(out, n as u64);
    }
}

/// Appends the JSON value of a request identifier.
pub fn push_id(out: &mut String, id: &Id)
    ensures
        final(out)@ == old(out)@ + id_json(id@),
{
    match id {
        Id::Null => out.append("null"),
        Id::Num(n) => push_decimal(out, *n),
        Id::Str(s) => push_json_string(out, s.as_str()),
    }
}

/// Appends the JSON error object of `e`.
pub fn push_error(out: &mut String, e: &RpcError)
    ensures
        final(out)@ == old(out)@ + error_json(e@),
{
    out.append("{\"code\":");
    push_int(out, e.code);
    out.append(",\"message\":");
    push_json_string(out, e.message.as_str());
    match &e.data {
        Some(d) => {
            out.append(",\"data\":");
            out.append(d.as_str());
        },
        None => {},
    }
    out.append("}");
}

/// The text of the reply to a refused request: the failure envelope around
/// `err`, with no version and a null identifier.
pub fn from_err(err: RpcError) -> (text: String)
    ensures
        text@ == failure_json(err@),
{
    let mut out = String::new();
    out.append("{\"id\":null,\"error\":");
    push_error(&mut out, &err);
    out.append("}");
    out
}

/// The text of the reply that carries `result`, JSON text, back to the
/// request that `info` describes.
pub fn success_text(info: &ReqInfo, result: &str) -> (text: String)
    ensures
        text@ == success_json(info@, result@),
{
    let mut out = String::new();
    out.append("{");
    match info.jsonrpc {
        Some(Version::V2) => out.append("\"jsonrpc\":\"2.0\","),
        None => {},
    }
    out.append("\"id\":");
    push_id(&mut out, &info.id);
    out.append(",\"result\":");
    out.append(result);
    out.append("}");
    out
}

}
