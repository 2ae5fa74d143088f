use catascii::json::search_urls_x;

fn urls_of(body: &str) -> Option<Vec<String>> {
    let bytes = body.as_bytes().to_vec();
    search_urls_x(&bytes).map(|us| {
        us.iter().map(|u| String::from_utf8(u.clone()).unwrap()).collect()
    })
}

#[test]
fn empty_array_parses_to_no_urls() {
    assert_eq!(urls_of("[]"), Some(vec![]));
    assert_eq!(urls_of("  [\n\t ]  "), Some(vec![]));
}

#[test]
fn one_record_parses_to_its_url() {
    assert_eq!(
        urls_of("[{\"url\":\"https://cdn.example/a.png\"}]"),
        Some(vec![String::from("https://cdn.example/a.png")])
    );
}

#[test]
fn records_keep_their_order() {
    let body = "[ {\"id\":\"x\", \"url\":\"a\"} , {\"url\":\"b\", \"id\":\"y\"} ]";
    assert_eq!(urls_of(body), Some(vec![String::from("a"), String::from("b")]));
}

#[test]
fn other_members_of_any_shape_are_skipped() {
    let body = "[{\"breeds\":[{\"name\":\"tabby\",\"tags\":[1,2.5,-3e2,true,false,null]}],\
                 \"note\":\"with \\\"escapes\\\" and \\u00e9\",\"url\":\"ok\",\"width\":880}]";
    assert_eq!(urls_of(body), Some(vec![String::from("ok")]));
}

#[test]
fn a_duplicate_url_member_is_malformed() {
    let body = "[{\"url\":\"first\",\"url\":\"second\"}]";
    assert_eq!(urls_of(body), None);
}

#[test]
fn a_record_without_url_is_malformed() {
    assert_eq!(urls_of("[{\"id\":\"a\"}]"), None);
    assert_eq!(urls_of("[{}]"), None);
    assert_eq!(urls_of("[{\"url\":\"a\"},{\"id\":\"b\"}]"), None);
}

#[test]
fn a_record_that_is_no_object_is_malformed() {
    assert_eq!(urls_of("[1]"), None);
    assert_eq!(urls_of("[\"url\"]"), None);
    assert_eq!(urls_of("[null]"), None);
}

#[test]
fn a_url_that_is_no_plain_string_is_malformed() {
    assert_eq!(urls_of("[{\"url\":7}]"), None);
    assert_eq!(urls_of("[{\"url\":\"with \\\"escape\\\"\"}]"), None);
    assert_eq!(urls_of("[{\"url\":\"caf\u{00e9}\"}]"), None);
}

#[test]
fn broken_syntax_is_malformed() {
    assert_eq!(urls_of(""), None);
    assert_eq!(urls_of("not json"), None);
    assert_eq!(urls_of("{\"url\":\"a\"}"), None);
    assert_eq!(urls_of("[{\"url\":\"a\"}"), None);
    assert_eq!(urls_of("[{\"url\":\"a\"},]"), None);
    assert_eq!(urls_of("[{\"url\" \"a\"}]"), None);
    assert_eq!(urls_of("[{\"url\":\"a\"}] trailing"), None);
    assert_eq!(urls_of("[{\"url\":\"a\" \"b\":1}]"), None);
    assert_eq!(urls_of("[{\"tags\":[1,]}]"), None);
    assert_eq!(urls_of("[{\"n\":01x}]"), None);
    assert_eq!(urls_of("[{\"s\":\"\\q\",\"url\":\"a\"}]"), None);
    assert_eq!(urls_of("[{\"s\":\"\\u12g4\",\"url\":\"a\"}]"), None);
}

#[test]
fn numbers_follow_the_grammar() {
    assert_eq!(urls_of("[{\"n\":0,\"url\":\"a\"}]"), Some(vec![String::from("a")]));
    assert_eq!(urls_of("[{\"n\":-12.75e+2,\"url\":\"a\"}]"), Some(vec![String::from("a")]));
    assert_eq!(urls_of("[{\"n\":3E9,\"url\":\"a\"}]"), Some(vec![String::from("a")]));
    assert_eq!(urls_of("[{\"n\":5.,\"url\":\"a\"}]"), None);
    assert_eq!(urls_of("[{\"n\":-,\"url\":\"a\"}]"), None);
    assert_eq!(urls_of("[{\"n\":1e,\"url\":\"a\"}]"), None);
}
