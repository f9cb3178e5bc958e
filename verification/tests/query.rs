use launchdarkly::FlagOptions;

fn options(env: Option<&str>, tag: Option<&str>) -> FlagOptions {
    FlagOptions { env: env.map(String::from), tag: tag.map(String::from) }
}

fn parse(query: &str) -> Vec<(String, String)> {
    serde_urlencoded::from_str::<Vec<(String, String)>>(query).unwrap()
}

#[test]
fn default_options_set_nothing() {
    let options = FlagOptions::default();
    assert_eq!(options.env, None);
    assert_eq!(options.tag, None);
}

#[test]
fn no_options_give_an_empty_query() {
    let options = options(None, None);
    assert!(options.pairs().is_empty());
    assert_eq!(options.query(), "");
}

#[test]
fn pairs_follow_the_options() {
    assert_eq!(
        options(Some("production"), None).pairs(),
        vec![(String::from("env"), String::from("production"))]
    );
    assert_eq!(
        options(None, Some("beta")).pairs(),
        vec![(String::from("tag"), String::from("beta"))]
    );
    assert_eq!(
        options(Some("production"), Some("beta")).pairs(),
        vec![
            (String::from("env"), String::from("production")),
            (String::from("tag"), String::from("beta")),
        ]
    );
}

#[test]
fn query_names_only_what_is_set() {
    assert_eq!(options(Some("production"), None).query(), "env=production");
    assert_eq!(options(None, Some("beta")).query(), "tag=beta");
    assert_eq!(options(Some("production"), Some("beta")).query(), "env=production&tag=beta");
}

#[test]
fn query_encodes_reserved_bytes() {
    assert_eq!(options(Some("a b"), None).query(), "env=a+b");
    assert_eq!(options(Some("a&b=c"), None).query(), "env=a%26b%3Dc");
    assert_eq!(options(Some("50%+"), None).query(), "env=50%25%2B");
    assert_eq!(options(Some("x/y?z#w"), None).query(), "env=x%2Fy%3Fz%23w");
    assert_eq!(options(Some("*-._~"), None).query(), "env=*-._%7E");
    assert_eq!(options(Some("AZaz09"), None).query(), "env=AZaz09");
    assert_eq!(options(Some("\n\u{7f}"), None).query(), "env=%0A%7F");
}

#[test]
fn query_encodes_text_as_utf8() {
    assert_eq!(options(None, Some("comt\u{e9}")).query(), "tag=comt%C3%A9");
    assert_eq!(options(None, Some("\u{20ac}")).query(), "tag=%E2%82%AC");
    assert_eq!(options(None, Some("\u{1f600}")).query(), "tag=%F0%9F%98%80");
}

#[test]
fn an_empty_value_is_still_named() {
    assert_eq!(options(Some(""), Some("")).query(), "env=&tag=");
}

#[test]
fn query_round_trips_through_a_parser() {
    let cases = [
        ("production", "beta"),
        ("a b", "c&d=e"),
        ("", ""),
        ("100%", "+plus+"),
        ("comt\u{e9}", "\u{1f600} face"),
        ("env=tag", "tag&env"),
    ];
    for (env, tag) in cases {
        let query = options(Some(env), Some(tag)).query();
        assert_eq!(
            parse(&query),
            vec![
                (String::from("env"), String::from(env)),
                (String::from("tag"), String::from(tag)),
            ]
        );
    }
}

#[test]
fn query_with_one_option_round_trips() {
    let query = options(None, Some("new ui")).query();
    assert_eq!(parse(&query), vec![(String::from("tag"), String::from("new ui"))]);
    assert_eq!(parse(&options(None, None).query()), vec![]);
}

#[test]
fn every_ascii_character_is_encoded_by_the_rule() {
    for code in 0u8..128 {
        let c = code as char;
        let expected = if c.is_ascii_alphanumeric() || "*-._".contains(c) {
            c.to_string()
        } else if c == ' ' {
            String::from("+")
        } else {
            format!("%{:02X}", code)
        };
        let value = c.to_string();
        assert_eq!(options(Some(&value), None).query(), format!("env={}", expected), "{:?}", c);
    }
}

#[test]
fn every_byte_of_a_character_is_encoded() {
    for c in ['\u{80}', '\u{7ff}', '\u{800}', '\u{ffff}', '\u{10000}', '\u{10ffff}'] {
        let value = c.to_string();
        let expected: String = value.bytes().map(|byte| format!("%{:02X}", byte)).collect();
        assert_eq!(options(None, Some(&value)).query(), format!("tag={}", expected));
    }
}
