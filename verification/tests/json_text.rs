use jsonrpc::json::{from_err, push_decimal, push_int, push_json_string, success_text};
use jsonrpc::protocol::{Id, ReqInfo, RpcError, Version};

#[test]
fn parse_error_reply_text() {
    assert_eq!(
        from_err(RpcError::parse_error()),
        "{\"id\":null,\"error\":{\"code\":-32700,\"message\":\"Parse error\"}}".to_string()
    );
}

#[test]
fn error_reply_with_data() {
    let e = RpcError { code: -32602, message: "Invalid params".to_string(), data: Some("[1,2]".to_string()) };
    assert_eq!(
        from_err(e),
        "{\"id\":null,\"error\":{\"code\":-32602,\"message\":\"Invalid params\",\"data\":[1,2]}}".to_string()
    );
}

#[test]
fn success_reply_with_version_and_number_id() {
    let info = ReqInfo::new(Some(Version::V2), Id::Num(1));
    assert_eq!(success_text(&info, "\"0x14\""), "{\"jsonrpc\":\"2.0\",\"id\":1,\"result\":\"0x14\"}".to_string());
}

#[test]
fn success_reply_without_version_and_null_id() {
    let info = ReqInfo::new(None, Id::Null);
    assert_eq!(success_text(&info, "20"), "{\"id\":null,\"result\":20}".to_string());
}

#[test]
fn success_reply_with_string_id_is_escaped() {
    let info = ReqInfo::new(Some(Version::V2), Id::Str("a\"b\\c\n".to_string()));
    assert_eq!(
        success_text(&info, "true"),
        "{\"jsonrpc\":\"2.0\",\"id\":\"a\\\"b\\\\c\\n\",\"result\":true}".to_string()
    );
}

#[test]
fn json_string_escapes_control_characters() {
    let mut out = String::new();
    push_json_string(&mut out, "x\u{1}\u{8}\t\u{c}\r\u{1f}é");
    assert_eq!(out, "\"x\\u0001\\b\\t\\f\\r\\u001fé\"".to_string());
}

#[test]
fn json_string_of_empty_text() {
    let mut out = "prefix:".to_string();
    push_json_string(&mut out, "");
    assert_eq!(out, "prefix:\"\"".to_string());
}

#[test]
fn decimal_numerals() {
    let mut out = String::new();
    push_decimal(&mut out, 0);
    out.push(' ');
    push_decimal(&mut out, 9);
    out.push(' ');
    push_decimal(&mut out, 10);
    out.push(' ');
    push_decimal(&mut out, u64::MAX);
    assert_eq!(out, "0 9 10 18446744073709551615".to_string());
}

#[test]
fn integer_numerals() {
    let mut out = String::new();
    push_int(&mut out, -1);
    out.push(' ');
    push_int(&mut out, i64::MIN);
    out.push(' ');
    push_int(&mut out, i64::MAX);
    out.push(' ');
    push_int(&mut out, 0);
    assert_eq!(out, "-1 -9223372036854775808 9223372036854775807 0".to_string());
}
