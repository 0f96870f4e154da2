use urlshort::url::{find_scheme, percent_decode, Url};

#[test]
fn admits_plain_http_and_https() {
    let url = Url::from_form_value("http://example.com").expect("http is allowed");
    assert_eq!(url.as_str(), "http://example.com");
    let url = Url::from_form_value("https://example.com").expect("https is allowed");
    assert_eq!(url.as_str(), "https://example.com");
}

#[test]
fn decodes_percent_escapes() {
    let url = Url::from_form_value("https%3A%2F%2Fexample.com%2F").expect("decodes to https URL");
    assert_eq!(url.as_str(), "https://example.com/");
}

#[test]
fn rejects_other_schemes() {
    let err = Url::from_form_value("ftp://example.com").expect_err("ftp is not allowed");
    assert_eq!(err, "url not allowed");
    let err = Url::from_form_value("mailto%3Afoo%40bar").expect_err("mailto is not allowed");
    assert_eq!(err, "url not allowed");
}

#[test]
fn rejects_bytes_that_are_not_utf8() {
    let err = Url::from_form_value("%FF%FE").expect_err("invalid UTF-8 is rejected");
    assert_eq!(err, "not valid utf-8 value");
}

#[test]
fn scheme_match_ignores_ascii_case() {
    let url = Url::from_form_value("HtTpS://Example.Com").expect("case-insensitive scheme");
    assert_eq!(url.as_str(), "HtTpS://Example.Com");
}

#[test]
fn scheme_check_is_a_search_not_a_prefix_match() {
    let url = Url::from_form_value("notascheme%20http://evil").expect("any occurrence passes");
    assert_eq!(url.as_str(), "notascheme http://evil");
}

#[test]
fn rejects_text_without_any_scheme() {
    let err = Url::from_form_value("example.com").expect_err("no scheme anywhere");
    assert_eq!(err, "url not allowed");
    let err = Url::from_form_value("http:/example.com").expect_err("one slash is not a scheme");
    assert_eq!(err, "url not allowed");
}

#[test]
fn malformed_escapes_pass_through_verbatim() {
    let decoded = percent_decode(&b"http://a%2zb%".to_vec());
    assert_eq!(decoded, b"http://a%2zb%".to_vec());
}

#[test]
fn percent_decoding_matches_known_values() {
    assert_eq!(percent_decode(&b"a%20b".to_vec()), b"a b".to_vec());
    assert_eq!(percent_decode(&b"%41%6a%6A".to_vec()), b"Ajj".to_vec());
    assert_eq!(percent_decode(&b"%2525".to_vec()), b"%25".to_vec());
    assert_eq!(percent_decode(&b"".to_vec()), Vec::<u8>::new());
}

#[test]
fn scheme_search_on_plain_text() {
    assert!(find_scheme("see https://a"));
    assert!(find_scheme("http://"));
    assert!(!find_scheme("htt://nope"));
    assert!(!find_scheme(""));
    assert!(!find_scheme("https:/almost"));
}
