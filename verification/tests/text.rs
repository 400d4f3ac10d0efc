use qrmi::codec::{decode_base64url, encode_base64};
use qrmi::json::{set_default_member, set_member, Json};
use qrmi::text::{
    char_ascii_lower, char_ascii_upper, char_is_whitespace, chars_are, chars_eq, contains_chars,
    format_i64, format_u64, index_of, join2, join3, join4, join5, lowercase_chars, matches_at,
    parse_i64_chars, skip_whitespace, skip_whitespace_back, slice_chars, starts_with, str_eq,
    trim_chars, trim_start_chars, uppercase_chars,
};

fn chars(s: &str) -> Vec<char> {
    s.chars().collect()
}

fn text(c: Vec<char>) -> String {
    c.into_iter().collect()
}

#[test]
fn whitespace_is_what_std_calls_whitespace() {
    for n in 0..=0x10ffffu32 {
        if let Some(c) = char::from_u32(n) {
            assert_eq!(char_is_whitespace(c), c.is_whitespace(), "U+{n:04X}");
        }
    }
}

#[test]
fn ascii_case_mapping_agrees_with_std() {
    for n in 0..=0x10ffffu32 {
        if let Some(c) = char::from_u32(n) {
            assert_eq!(char_ascii_lower(c), c.to_ascii_lowercase());
            assert_eq!(char_ascii_upper(c), c.to_ascii_uppercase());
        }
    }
    assert_eq!(text(lowercase_chars(&chars("AbC-\u{c9}z"))), "abc-\u{c9}z");
    assert_eq!(text(uppercase_chars(&chars("AbC-\u{e9}z"))), "ABC-\u{e9}Z");
}

#[test]
fn trimming_agrees_with_std() {
    for s in [
        "",
        " ",
        "a",
        "  a b \t\n",
        "\u{a0}x\u{3000}",
        "\u{2028}\u{2029}",
        "x\u{85}",
        "\r\n y \r\n",
        "\u{200b}z ",
    ] {
        assert_eq!(text(trim_chars(&chars(s))), s.trim(), "{s:?}");
        assert_eq!(text(trim_start_chars(&chars(s))), s.trim_start(), "{s:?}");
    }
    let c = chars("  ab  ");
    assert_eq!(skip_whitespace(&c, 0), 2);
    assert_eq!(skip_whitespace(&c, 3), 3);
    assert_eq!(skip_whitespace(&c, 4), 6);
    assert_eq!(skip_whitespace_back(&c, 0, 6), 4);
    assert_eq!(skip_whitespace_back(&c, 5, 6), 5);
    assert_eq!(text(slice_chars(&c, 1, 4)), " ab");
}

#[test]
fn searching_agrees_with_std() {
    let hay = "abcabd://x";
    for needle in ["", "a", "abd", "://", "abx", "x", "abcabd://x", "abcabd://xy", "bd:"] {
        assert_eq!(
            contains_chars(&chars(hay), &chars(needle)),
            hay.contains(needle),
            "{needle}"
        );
        assert_eq!(
            starts_with(&chars(hay), &chars(needle)),
            hay.starts_with(needle),
            "{needle}"
        );
    }
    assert!(contains_chars(&chars(""), &chars("")));
    assert!(!contains_chars(&chars(""), &chars("a")));
    assert!(matches_at(&chars(hay), &chars("abd"), 3));
    assert!(!matches_at(&chars(hay), &chars("abd"), 4));
    assert!(!matches_at(&chars(hay), &chars("x"), 11));
    assert!(matches_at(&chars(hay), &chars(""), 10));
    assert_eq!(index_of(&chars(hay), ':', 0), 6);
    assert_eq!(index_of(&chars(hay), 'a', 1), 3);
    assert_eq!(index_of(&chars(hay), 'z', 0), 10);
    assert_eq!(index_of(&chars(hay), 'a', 10), 10);
    assert!(chars_eq(&chars("ab"), &chars("ab")));
    assert!(!chars_eq(&chars("ab"), &chars("abc")));
    assert!(!chars_eq(&chars("ab"), &chars("ac")));
    assert!(chars_are(&chars("\u{e9}"), "\u{e9}"));
    assert!(str_eq("", ""));
    assert!(!str_eq("a", "A"));
}

#[test]
fn integers_are_read_as_std_reads_them() {
    for s in [
        "0",
        "7",
        "-7",
        "+7",
        "007",
        "-0",
        "9223372036854775807",
        "-9223372036854775808",
        "9223372036854775808",
        "-9223372036854775809",
        "99999999999999999999999999999999999999999999",
        "-99999999999999999999999999999999999999999999",
        "99999999999999999999x",
        "",
        "+",
        "-",
        "--1",
        "+-1",
        " 1",
        "1 ",
        "1_000",
        "1.0",
        "0x10",
        "\u{661}",
        "12a",
    ] {
        assert_eq!(parse_i64_chars(&chars(s)), s.parse::<i64>().ok(), "{s:?}");
    }
}

#[test]
fn integers_are_written_as_std_writes_them() {
    for n in [0i64, 1, 9, 10, 11, 99, 100, -1, -10, 1234567890, i64::MAX, i64::MIN, i64::MIN + 1] {
        assert_eq!(format_i64(n), n.to_string());
    }
    for n in [0u64, 5, 10, 18446744073709551615, 9223372036854775808] {
        assert_eq!(format_u64(n), n.to_string());
    }
}

#[test]
fn joins_put_the_parts_in_a_row() {
    assert_eq!(join2("a", "b"), "ab");
    assert_eq!(join3("a", "", "c"), "ac");
    assert_eq!(join4("1", "2", "3", "4"), "1234");
    assert_eq!(join5("\u{e9}", "-", "x", "-", "y"), "\u{e9}-x-y");
}

#[test]
fn base64_is_coded_by_the_engines() {
    assert_eq!(decode_base64url(b"eyJleHAiOjd9"), Some(b"{\"exp\":7}".to_vec()));
    assert_eq!(decode_base64url(b"_-8"), Some(vec![0xff, 0xef]));
    assert_eq!(decode_base64url(b""), Some(vec![]));
    assert_eq!(decode_base64url(b"/+8"), None);
    assert_eq!(decode_base64url(b"YQ=="), None);
    assert_eq!(decode_base64url(b"@@@"), None);
    assert_eq!(decode_base64url(b"a"), None);
    assert_eq!(encode_base64(b"a"), "YQ==");
    assert_eq!(encode_base64(b"user:pass"), "dXNlcjpwYXNz");
    assert_eq!(encode_base64(&[0xff, 0xef]), "/+8=");
    assert_eq!(encode_base64(b""), "");
}

#[test]
fn json_is_read_and_written_by_serde() {
    let doc = Json::parse(r#" {"b":[1,-2,3.5,18446744073709551615,null,true,"s"],"a":{"k":"v"}} "#)
        .unwrap();
    assert_eq!(
        doc.to_text(),
        r#"{"a":{"k":"v"},"b":[1,-2,3.5,18446744073709551615,null,true,"s"]}"#
    );
    assert_eq!(
        doc.to_pretty_text(),
        "{\n  \"a\": {\n    \"k\": \"v\"\n  },\n  \"b\": [\n    1,\n    -2,\n    3.5,\n    18446744073709551615,\n    null,\n    true,\n    \"s\"\n  ]\n}"
    );
    let items = doc.get("b").unwrap().as_array().unwrap();
    assert!(matches!(items[0], Json::Int(1)));
    assert!(matches!(items[1], Json::Int(-2)));
    assert!(matches!(&items[2], Json::Real(t) if t == "3.5"));
    assert!(matches!(items[3], Json::UInt(u64::MAX)));
    assert!(matches!(items[4], Json::Null));
    assert!(matches!(items[5], Json::Bool(true)));
    assert_eq!(items[0].as_i64(), Some(1));
    assert_eq!(items[1].as_u64(), None);
    assert_eq!(items[3].as_i64(), None);
    assert_eq!(items[3].as_u64(), Some(u64::MAX));
    assert_eq!(items[6].as_str().map(|s| s.as_str()), Some("s"));
    assert_eq!(doc.get("a").unwrap().get_str("k").map(|s| s.as_str()), Some("v"));
    assert!(doc.get("c").is_none());
    assert!(doc.has("a") && !doc.has("A"));
    assert!(items[0].get("a").is_none());
    assert_eq!(doc.copy().to_text(), doc.to_text());

    for bad in ["", "{", "{'a':1}", "[1,]", "01", "nul", "{\"a\":1}x", "\u{feff}1"] {
        assert!(Json::parse(bad).is_none(), "{bad:?}");
    }
    assert!(Json::parse_slice(&[0xff]).is_none());
    assert!(Json::parse_slice(b"[\"\xc3\xa9\"]").is_some());
    assert_eq!(
        Json::parse(r#"{"a":1,"a":2}"#).unwrap().to_text(),
        r#"{"a":2}"#
    );
    assert_eq!(Json::string("q\"\n").to_text(), r#""q\"\n""#);
    assert_eq!(Json::Real("1e3".to_string()).to_text(), "1000.0");
    assert_eq!(Json::Real("nonsense".to_string()).to_text(), "null");
}

#[test]
fn members_are_set_in_place_or_added() {
    let mut fields: Vec<(String, Json)> = Vec::new();
    set_member(&mut fields, "b".to_string(), Json::Int(1));
    set_member(&mut fields, "a".to_string(), Json::Int(2));
    set_member(&mut fields, "b".to_string(), Json::Int(3));
    set_default_member(&mut fields, "a".to_string(), Json::Int(4));
    set_default_member(&mut fields, "c".to_string(), Json::Int(5));
    let names: Vec<&str> = fields.iter().map(|(k, _)| k.as_str()).collect();
    assert_eq!(names, vec!["b", "a", "c"]);
    assert_eq!(Json::object(fields).to_text(), r#"{"a":2,"b":3,"c":5}"#);
}
