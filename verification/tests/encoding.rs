use azure_devops_artifacts::encode::append_form_encoded;
use azure_devops_artifacts::encode::bool_str;
use azure_devops_artifacts::encode::dec_i64;

fn encoded(s: &str) -> String {
    let mut out = String::new();
    append_form_encoded(&mut out, s);
    out
}

#[test]
fn decimal_rendering_matches_to_string() {
    assert_eq!(dec_i64(0), "0");
    assert_eq!(dec_i64(7), "7");
    assert_eq!(dec_i64(1000), "1000");
    assert_eq!(dec_i64(-15), "-15");
    assert_eq!(dec_i64(i64::MAX), i64::MAX.to_string());
    assert_eq!(dec_i64(i64::MIN), i64::MIN.to_string());
}

#[test]
fn bool_rendering() {
    assert_eq!(bool_str(true), "true");
    assert_eq!(bool_str(false), "false");
}

#[test]
fn plain_text_passes_through() {
    assert_eq!(encoded("AZaz09*-._"), "AZaz09*-._");
    assert_eq!(encoded(""), "");
}

#[test]
fn space_becomes_plus() {
    assert_eq!(encoded("hello world"), "hello+world");
}

#[test]
fn reserved_bytes_are_percent_encoded_uppercase() {
    assert_eq!(encoded("a&b=c"), "a%26b%3Dc");
    assert_eq!(encoded("/?#"), "%2F%3F%23");
    assert_eq!(encoded("$top"), "%24top");
}

#[test]
fn multibyte_characters_encode_their_utf8_bytes() {
    assert_eq!(encoded("\u{03c0}"), "%CF%80");
    assert_eq!(encoded("caf\u{e9}"), "caf%C3%A9");
}
