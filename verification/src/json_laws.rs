//! The reply texts read back: a reader for JSON numerals and JSON string
//! literals, defined on its own, and the laws that the replies the handler
//! writes read back to what they were written from.
use vstd::prelude::*;
use crate::json::{
    decimal, digit_char, escape_char, escape_chars, failure_json, hex_digit, id_json, int_text,
    json_string, success_json,
};
use crate::protocol::{ErrorView, IdView, ReqInfoView, Version};

verus! {

/// `c` is a decimal digit.
pub open spec fn is_digit(c: char) -> bool {
    '0' <= c && c <= '9'
}

/// The value of a sequence of decimal digits, most significant first.
pub open spec fn numeral_value(s: Seq<char>) -> int
    decreases s.len(),
{
    if s.len() == 0 {
        0
    } else {
        numeral_value(s.drop_last()) * 10 + ((s.last() as int) - 48)
    }
}

/// `s` is a JSON numeral for a natural number: digits only, at least one,
/// and no leading zero unless it is the only digit.
pub open spec fn natural_numeral(s: Seq<char>) -> bool {
    &&& s.len() > 0
    &&& forall|i: int| 0 <= i < s.len() ==> is_digit(#[trigger] s[i])
    &&& (s.len() > 1 ==> s[0] != '0')
}

/// `s` is the JSON numeral of the integer `n`.
pub open spec fn denotes_int(s: Seq<char>, n: int) -> bool {
    ||| (natural_numeral(s) && numeral_value(s) == n)
    ||| (s.len() > 0 && s[0] == '-' && natural_numeral(s.drop_first())
        && numeral_value(s.drop_first()) == -n && n != 0)
}

proof fn lemma_digit(d: int)
    requires
        0 <= d < 10,
    ensures
        digit_char(d) as int == 48 + d,
        is_digit(digit_char(d)),
{
}

proof fn lemma_decimal(n: nat)
    ensures
        natural_numeral(decimal(n)),
        numeral_value(decimal(n)) == n,
        n > 0 ==> decimal(n)[0] != '0',
    decreases n,
{
    if n < 10 {
        lemma_digit(n as int);
        assert(decimal(n) =~= seq![digit_char(n as int)]);
        assert(decimal(n).drop_last() =~= Seq::<char>::empty());
        assert(numeral_value(Seq::<char>::empty()) == 0);
        assert(numeral_value(decimal(n)) == n);
    } else {
        lemma_decimal(n / 10);
        lemma_digit((n % 10) as int);
        let d = decimal(n);
        assert(d =~= decimal(n / 10) + seq![digit_char((n % 10) as int)]);
        assert(d.drop_last() =~= decimal(n / 10));
        assert(d[0] == decimal(n / 10)[0]);
        assert(d.last() == digit_char((n % 10) as int));
        assert(numeral_value(d) == numeral_value(decimal(n / 10)) * 10 + (n % 10));
        assert((n / 10) * 10 + n % 10 == n);
        assert forall|i: int| 0 <= i < d.len() implies is_digit(#[trigger] d[i]) by {
            if i < d.len() - 1 {
                assert(d[i] == decimal(n / 10)[i]);
            }
        }
    }
}

/// The numeral that `int_text` writes denotes the integer it was written from.
pub proof fn int_text_denotes(n: int)
    ensures
        denotes_int(int_text(n), n),
{
    if n < 0 {
        lemma_decimal((-n) as nat);
        assert(int_text(n).drop_first() =~= decimal((-n) as nat));
    } else {
        lemma_decimal(n as nat);
    }
}

/// The value of a hexadecimal digit, in either case.
pub open spec fn hex_value(c: char) -> Option<int> {
    if '0' <= c && c <= '9' {
        Some(c as int - 48)
    } else if 'a' <= c && c <= 'f' {
        Some(c as int - 87)
    } else if 'A' <= c && c <= 'F' {
        Some(c as int - 55)
    } else {
        None
    }
}

/// The character that a one-letter escape `\e` stands for in JSON.
pub open spec fn short_escape(e: char) -> Option<char> {
    if e == '"' {
        Some('"')
    } else if e == '\\' {
        Some('\\')
    } else if e == '/' {
        Some('/')
    } else if e == 'b' {
        Some('\u{8}')
    } else if e == 'f' {
        Some('\u{c}')
    } else if e == 'n' {
        Some('\n')
    } else if e == 'r' {
        Some('\r')
    } else if e == 't' {
        Some('\t')
    } else {
        None
    }
}

/// `c` in front of what `r` read, if it read anything.
pub open spec fn prepend(c: char, r: Option<Seq<char>>) -> Option<Seq<char>> {
    match r {
        Some(u) => Some(seq![c] + u),
        None => None,
    }
}

/// What the inside of a JSON string literal stands for, read from the
/// front, or `None` where it is not the inside of a valid literal: an
/// unescaped quote or control character, or an unknown escape.
pub open spec fn unescape(t: Seq<char>) -> Option<Seq<char>>
    decreases t.len(),
{
    if t.len() == 0 {
        Some(Seq::empty())
    } else if t[0] == '\\' {
        if t.len() >= 6 && t[1] == 'u' {
            match (hex_value(t[2]), hex_value(t[3]), hex_value(t[4]), hex_value(t[5])) {
                (Some(a), Some(b), Some(c), Some(d)) => {
                    let v = a * 4096 + b * 256 + c * 16 + d;
                    if v < 0xD800 || v >= 0xE000 {
                        prepend(v as char, unescape(t.subrange(6, t.len() as int)))
                    } else {
                        None
                    }
                },
                _ => None,
            }
        } else if t.len() >= 2 {
            match short_escape(t[1]) {
                Some(c) => prepend(c, unescape(t.subrange(2, t.len() as int))),
                None => None,
            }
        } else {
            None
        }
    } else if t[0] == '"' || (t[0] as int) < 0x20 {
        None
    } else {
        prepend(t[0], unescape(t.drop_first()))
    }
}

/// The characters that the JSON string literal `t` stands for, or `None`
/// where `t` is no such literal.
pub open spec fn read_json_string(t: Seq<char>) -> Option<Seq<char>> {
    if t.len() >= 2 && t[0] == '"' && t.last() == '"' {
        unescape(t.subrange(1, t.len() - 1))
    } else {
        None
    }
}

proof fn lemma_escape_concat(a: Seq<char>, b: Seq<char>)
    ensures
        escape_chars(a + b) == escape_chars(a) + escape_chars(b),
    decreases b.len(),
{
    if b.len() == 0 {
        assert(a + b =~= a);
        assert(escape_chars(a) + escape_chars(b) =~= escape_chars(a));
    } else {
        lemma_escape_concat(a, b.drop_last());
        assert((a + b).drop_last() =~= a + b.drop_last());
        assert((a + b).last() == b.last());
        assert(escape_chars(a + b) =~= escape_chars(a) + escape_chars(b));
    }
}

proof fn lemma_escape_front(s: Seq<char>)
    requires
        s.len() > 0,
    ensures
        escape_chars(s) == escape_char(s[0]) + escape_chars(s.drop_first()),
{
    let c = seq![s[0]];
    lemma_escape_concat(c, s.drop_first());
    assert(c + s.drop_first() =~= s);
    assert(c.drop_last() =~= Seq::<char>::empty());
    assert(escape_chars(Seq::<char>::empty()) =~= Seq::<char>::empty());
    assert(c.last() == s[0]);
    assert(escape_chars(c) == escape_chars(c.drop_last()) + escape_char(c.last()));
    assert(escape_chars(c) =~= escape_char(s[0]));
}

proof fn lemma_hex(d: int)
    requires
        0 <= d < 16,
    ensures
        hex_value(hex_digit(d)) == Some(d),
{
}

proof fn lemma_unescape_step(c: char, tail: Seq<char>)
    ensures
        unescape(escape_char(c) + tail) == prepend(c, unescape(tail)),
{
    let t = escape_char(c) + tail;
    if c == '"' || c == '\\' || c == '\u{8}' || c == '\t' || c == '\n' || c == '\u{c}' || c == '\r' {
        assert(t.subrange(2, t.len() as int) =~= tail);
    } else if (c as int) < 0x20 {
        let v = c as int;
        lemma_hex(v / 16);
        lemma_hex(v % 16);
        assert(t[2] == '0' && t[3] == '0');
        assert(t.subrange(6, t.len() as int) =~= tail);
        assert(0 * 4096 + 0 * 256 + (v / 16) * 16 + v % 16 == v);
        assert((v as char) == c);
    } else {
        assert(t.drop_first() =~= tail);
    }
}

proof fn lemma_unescape_escape(s: Seq<char>)
    ensures
        unescape(escape_chars(s)) == Some(s),
    decreases s.len(),
{
    if s.len() == 0 {
        assert(escape_chars(s) =~= Seq::<char>::empty());
    } else {
        lemma_escape_front(s);
        lemma_unescape_escape(s.drop_first());
        lemma_unescape_step(s[0], escape_chars(s.drop_first()));
        assert(seq![s[0]] + s.drop_first() =~= s);
    }
}

/// The JSON string literal written for `s` reads back as `s`.
pub proof fn json_string_reads_back(s: Seq<char>)
    ensures
        read_json_string(json_string(s)) == Some(s),
{
    let t = json_string(s);
    lemma_unescape_escape(s);
    assert(t.subrange(1, t.len() - 1) =~= escape_chars(s));
}

/// `t` is the JSON value of the request identifier `id`: `null`, a numeral
/// that reads as the number, or a string literal that reads as the string.
pub open spec fn is_id_value(t: Seq<char>, id: IdView) -> bool {
    match id {
        IdView::Null => t == "null"@,
        IdView::Num(n) => natural_numeral(t) && numeral_value(t) == n,
        IdView::Str(s) => read_json_string(t) == Some(s),
    }
}

/// The opening of a success reply up to the id value: with the version
/// member where the request had a version.
pub open spec fn success_opening(v: Option<Version>) -> Seq<char> {
    match v {
        Some(_) => "{\"jsonrpc\":\"2.0\",\"id\":"@,
        None => "{\"id\":"@,
    }
}

/// `body` is a success reply with version `v`, whose id member is the JSON
/// value of `id`, and whose result member is `result`.
pub open spec fn is_success_reply(body: Seq<char>, v: Option<Version>, id: IdView, result: Seq<char>) -> bool {
    exists|t: Seq<char>|
        #[trigger] is_id_value(t, id) && body == success_opening(v) + t + ",\"result\":"@ + result + "}"@
}

/// The data member of a failure reply, written out.
pub open spec fn failure_data(data: Option<Seq<char>>) -> Seq<char> {
    match data {
        Some(d) => ",\"data\":"@ + d,
        None => Seq::empty(),
    }
}

/// `body` is a failure reply with a null id, whose code member is the
/// numeral of the error's code and whose message member is a string literal
/// that reads as the error's message.
pub open spec fn is_failure_reply(body: Seq<char>, e: ErrorView) -> bool {
    exists|c: Seq<char>, t: Seq<char>|
        #![trigger denotes_int(c, e.code as int), read_json_string(t)]
        denotes_int(c, e.code as int) && read_json_string(t) == Some(e.message) && body
            == "{\"id\":null,\"error\":{\"code\":"@ + c + ",\"message\":"@ + t + failure_data(e.data)
            + "}}"@
}

proof fn lemma_id_value(id: IdView)
    ensures
        is_id_value(id_json(id), id),
{
    match id {
        IdView::Null => {},
        IdView::Num(n) => {
            lemma_decimal(n as nat);
        },
        IdView::Str(s) => {
            json_string_reads_back(s);
        },
    }
}

/// The success reply for a request reads back to the request's version and
/// identifier, and carries the result as it came.
pub proof fn success_reply_reads_back(info: ReqInfoView, result: Seq<char>)
    ensures
        is_success_reply(success_json(info, result), info.jsonrpc, info.id, result),
{
    reveal_strlit("{");
    reveal_strlit("\"jsonrpc\":\"2.0\",");
    reveal_strlit("\"id\":");
    reveal_strlit("{\"jsonrpc\":\"2.0\",\"id\":");
    reveal_strlit("{\"id\":");
    let t = id_json(info.id);
    lemma_id_value(info.id);
    match info.jsonrpc {
        Some(Version::V2) => {
            assert("{"@ + "\"jsonrpc\":\"2.0\","@ + "\"id\":"@ =~= "{\"jsonrpc\":\"2.0\",\"id\":"@);
        },
        None => {
            assert("{"@ + Seq::<char>::empty() + "\"id\":"@ =~= "{\"id\":"@);
        },
    }
    assert(success_json(info, result) =~= success_opening(info.jsonrpc) + t + ",\"result\":"@ + result + "}"@);
}

/// The failure reply for an error reads back to the error's code and
/// message, and carries its data as it came.
pub proof fn failure_reply_reads_back(e: ErrorView)
    ensures
        is_failure_reply(failure_json(e), e),
{
    reveal_strlit("{\"id\":null,\"error\":");
    reveal_strlit("{\"code\":");
    reveal_strlit("{\"id\":null,\"error\":{\"code\":");
    reveal_strlit("}");
    reveal_strlit("}}");
    let c = int_text(e.code as int);
    let t = json_string(e.message);
    int_text_denotes(e.code as int);
    json_string_reads_back(e.message);
    assert("{\"id\":null,\"error\":"@ + "{\"code\":"@ =~= "{\"id\":null,\"error\":{\"code\":"@);
    assert("}"@ + "}"@ =~= "}}"@);
    assert(crate::json::data_member(e.data) == failure_data(e.data));
    assert(failure_json(e) =~= "{\"id\":null,\"error\":{\"code\":"@ + c + ",\"message\":"@ + t
        + failure_data(e.data) + "}}"@);
}

}
