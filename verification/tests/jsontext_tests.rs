use venture_core::jsontext::{json_string, u32_dec};

#[test]
fn decimal_rendering_is_exact() {
    assert_eq!(u32_dec(0), "0");
    assert_eq!(u32_dec(7), "7");
    assert_eq!(u32_dec(10), "10");
    assert_eq!(u32_dec(1234567), "1234567");
    assert_eq!(u32_dec(u32::MAX), "4294967295");
}

#[test]
fn string_literals_are_quoted_and_escaped() {
    assert_eq!(json_string("plain"), "\"plain\"");
    assert_eq!(json_string(""), "\"\"");
    assert_eq!(json_string("a\"b"), "\"a\\\"b\"");
    assert_eq!(json_string("a\\b"), "\"a\\\\b\"");
    assert_eq!(json_string("a\nb\tc\rd"), "\"a\\nb\\tc\\rd\"");
    assert_eq!(json_string("\u{1}"), "\"\\u0001\"");
    assert_eq!(json_string("\u{1f}"), "\"\\u001f\"");
}

#[test]
fn escaped_literals_parse_back_to_the_original() {
    let awkward = "quote \" slash \\ newline \n tab \t bell \u{7} unicode é日本";
    let rendered = json_string(awkward);
    let parsed: serde_json::Value = serde_json::from_str(&rendered).expect("valid json");
    assert_eq!(parsed.as_str(), Some(awkward));
}
