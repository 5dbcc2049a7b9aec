use orchestrate::client::{Client, Method};
use orchestrate::json::{measure, parse, JsonValue, Measure, Number};
use orchestrate::key_value::KVResults;
use orchestrate::path::{parse_location, Path};
use orchestrate::text::{i64_to_string, split_segments, strip_prefix, u64_to_string};
use orchestrate::RepresentsJSON;

#[derive(Debug, PartialEq)]
struct User {
    name: String,
    email: String,
}

impl RepresentsJSON for User {
    fn from_json(value: &JsonValue) -> Option<User> {
        let name = value.field("name")?.as_text()?.clone();
        let email = value.field("email")?.as_text()?.clone();
        Some(User { name, email })
    }
}

#[test]
fn parse_reads_an_object() {
    let doc = parse("{\"name\":\"chad\",\"n\":3,\"x\":-2,\"f\":1.5,\"l\":[true,null]}").unwrap();
    assert_eq!(doc.field("name").unwrap().as_text().unwrap(), "chad");
    assert_eq!(doc.field("n").unwrap().as_u64(), Some(3));
    assert_eq!(doc.field("x").unwrap().as_i64(), Some(-2));
    assert_eq!(doc.field("x").unwrap().as_u64(), None);
    assert_eq!(
        doc.field("f").unwrap().as_number(),
        Some(Number::Real(1.5f64.to_bits()))
    );
    let items = doc.field("l").unwrap().as_array().unwrap();
    assert_eq!(items.len(), 2);
    assert_eq!(items[0], JsonValue::Boolean(true));
    assert!(items[1].is_null());
    assert!(doc.field("missing").is_none());
}

#[test]
fn parse_refuses_what_is_not_json() {
    assert!(parse("{\"name\":").is_none());
    assert!(parse("").is_none());
    assert!(parse("not json").is_none());
}

#[test]
fn decimal_numerals() {
    assert_eq!(u64_to_string(0), "0");
    assert_eq!(u64_to_string(7), "7");
    assert_eq!(u64_to_string(1234567890), "1234567890");
    assert_eq!(u64_to_string(u64::MAX), "18446744073709551615");
    assert_eq!(i64_to_string(-1), "-1");
    assert_eq!(i64_to_string(100), "100");
    assert_eq!(i64_to_string(i64::MIN), "-9223372036854775808");
    assert_eq!(i64_to_string(i64::MAX), "9223372036854775807");
}

#[test]
fn split_cuts_at_every_separator() {
    assert_eq!(split_segments("", '/'), vec![""]);
    assert_eq!(split_segments("a", '/'), vec!["a"]);
    assert_eq!(split_segments("/v0/users/k", '/'), vec!["", "v0", "users", "k"]);
    assert_eq!(split_segments("a//b/", '/'), vec!["a", "", "b", ""]);
}

#[test]
fn strip_prefix_only_where_it_leads() {
    assert_eq!(strip_prefix("/v0/users?limit=2", "/v0/"), "users?limit=2");
    assert_eq!(strip_prefix("users", "/v0/"), "users");
    assert_eq!(strip_prefix("/v", "/v0/"), "/v");
}

#[test]
fn location_is_found_by_its_marker() {
    let found = parse_location("/v0/users/0ab1/refs/cbb48f9464612f20");
    assert_eq!(
        found,
        Some(("0ab1".to_string(), "cbb48f9464612f20".to_string()))
    );
    let deeper = parse_location("https://api.orchestrate.io/api/v0/users/k/refs/r");
    assert_eq!(deeper, Some(("k".to_string(), "r".to_string())));
    let named_like_marker = parse_location("/v0/refs/refs/refs/r1");
    assert_eq!(named_like_marker, Some(("refs".to_string(), "r1".to_string())));
    assert_eq!(parse_location("/v0/users/k"), None);
    assert_eq!(parse_location("/v0/users/k/refs/"), None);
    assert_eq!(parse_location("refs/r"), None);
    assert_eq!(parse_location(""), None);
}

#[test]
fn query_string_is_form_encoded() {
    let q = Client::new("t")
        .trailing("users")
        .method(Method::Get)
        .query("query", "name:chad & co")
        .query("sort", "value.age:asc")
        .query("sort", "value.name:desc")
        .query("limit", "10")
        .query("caf\u{e9}", "*-._~")
        .request()
        .unwrap();
    assert_eq!(
        q.url,
        "https://api.orchestrate.io/v0/users?query=name%3Achad+%26+co&sort=value.age%3Aasc&sort=value.name%3Adesc&limit=10&caf%C3%A9=*-._%7E"
    );
}

#[test]
fn path_encode_then_decode() {
    let p = Path {
        collection: "users".to_string(),
        key: "k1".to_string(),
        ref_: Some("r1".to_string()),
    };
    assert_eq!(Path::decode(&p.encode()).unwrap(), p);
    let q = Path {
        collection: "users".to_string(),
        key: "k1".to_string(),
        ref_: None,
    };
    assert_eq!(Path::decode(&q.encode()).unwrap(), q);
}

#[test]
fn listing_page_is_decoded() {
    let body = "{\"count\":1,\"results\":[{\"path\":{\"collection\":\"users\",\"key\":\"k\",\"ref\":\"r\"},\"value\":{\"name\":\"chad\",\"email\":\"c@x.com\"}}],\"next\":\"/v0/users?limit=1&afterKey=k\"}";
    let doc = parse(body).unwrap();
    let page = KVResults::<User>::from_json(&doc).unwrap();
    assert_eq!(page.count, 1);
    assert_eq!(page.results.len(), 1);
    assert_eq!(page.results[0].path.key, "k");
    assert_eq!(
        page.results[0].value,
        User {
            name: "chad".to_string(),
            email: "c@x.com".to_string()
        }
    );
    assert!(page.has_next());
    let wrong_count = parse("{\"count\":2,\"results\":[]}").unwrap();
    assert!(KVResults::<User>::from_json(&wrong_count).is_none());
}

#[test]
fn nesting_is_measured_outside_strings() {
    assert_eq!(
        measure(""),
        Measure {
            nesting: 0,
            exponent: 0,
            key: 0,
            dangling: false
        }
    );
    assert_eq!(measure("{\"a\":[1,[2]],\"b\":{}}").nesting, 3);
    assert_eq!(measure("[\"[[[[\", \"\\\"[[\"]").nesting, 1);
    assert_eq!(measure("[][][]").nesting, 1);
}

#[test]
fn exponents_are_measured_outside_strings() {
    assert_eq!(measure("1e10").exponent, 2);
    assert_eq!(measure("[1.5E-123, 2e+7]").exponent, 3);
    assert_eq!(measure("1e0000000000000000000012").exponent, 2);
    assert_eq!(measure("\"1e99999999999999999999\"").exponent, 0);
    assert_eq!(measure("[true, false, 12345678901234567890]").exponent, 0);
    assert_eq!(measure("1e99999999999999999999").exponent, 20);
}

#[test]
fn names_are_measured_as_written() {
    assert_eq!(measure("{\"name\": 1}").key, 4);
    assert_eq!(measure("{\"a\":\"a long value\"}").key, 1);
    assert_eq!(measure("{\"a\\\"b\" \n\t: 1, \"abc\":2, \"\": 3}").key, 4);
    assert_eq!(measure("{\"\\u00e9\":1}").key, 6);
    assert_eq!(measure("{\"caf\u{e9}\":1}").key, 5);
    assert_eq!(measure("[\"not a name\", \"nor this\"]").key, 0);
    assert_eq!(measure("{\"k\" 1 : 2}").key, 0);
}

#[test]
fn commas_before_braces_are_found() {
    assert!(measure("{\"a\":1,}").dangling);
    assert!(measure("[{\"a\":{\"b\":1, \n\t\r},\"c\":2}]").dangling);
    assert!(!measure("{\"a\":1,\"b\":\",}\"}").dangling);
    assert!(!measure("{\"a\":[1,2],\"b\":{}}").dangling);
    assert!(!measure("[1,]").dangling);
}

#[test]
fn parse_refuses_a_comma_before_a_closing_brace() {
    assert!(parse("[{\"a\":{\"b\":1,},\"c\":2}]").is_none());
    assert!(parse("{\"a\":1,}").is_none());
    assert!(parse("{\"a\":{\"b\":{\"c\":1 , }}}").is_none());
    assert!(parse("[{\"a\":1,}]").is_none());
    assert!(parse("{\"a\":[{\"b\":1,}],\"c\":{\"d\":2}}").is_none());
    assert!(parse("[{\"a\":{\"b\":1},\"c\":\",}\"}]").is_some());
}

#[test]
fn parse_refuses_names_that_do_not_fit() {
    let fits = format!("{{\"{}\":1}}", "k".repeat(511));
    assert!(parse(&fits).is_some());
    let too_long = format!("{{\"{}\":1}}", "k".repeat(512));
    assert!(parse(&too_long).is_none());
    let cut = format!("{{\"\u{e9}{}\":1}}", "k".repeat(65535));
    assert!(parse(&cut).is_none());
    let stacked = format!(
        "{{\"{}\":{{\"{}\":1}}}}",
        "a".repeat(40000),
        "b".repeat(30000)
    );
    assert!(parse(&stacked).is_none());
    let long_value = format!("{{\"k\":\"{}\"}}", "v".repeat(100000));
    assert_eq!(
        parse(&long_value)
            .unwrap()
            .field("k")
            .unwrap()
            .as_text()
            .unwrap()
            .len(),
        100000
    );
    let mut nested = String::new();
    for _ in 0..127 {
        nested.push_str(&format!("{{\"{}\":", "n".repeat(511)));
    }
    nested.push_str("1");
    nested.push_str(&"}".repeat(127));
    let doc = parse(&nested).unwrap();
    assert!(doc.field(&"n".repeat(511)).is_some());
}

#[test]
fn parse_refuses_what_nests_too_deep() {
    let deep = format!("{}{}", "[".repeat(128), "]".repeat(128));
    assert_eq!(measure(&deep).nesting, 128);
    assert!(parse(&deep).is_some());
    let deeper = format!("{}{}", "[".repeat(129), "]".repeat(129));
    assert!(parse(&deeper).is_none());
    let endless = "[".repeat(200000);
    assert!(parse(&endless).is_none());
}

#[test]
fn parse_refuses_exponents_that_do_not_fit() {
    assert!(parse("1e99999999999999999999").is_none());
    assert!(parse("[1, 2.5e-1234567890]").is_none());
    assert!(parse("{\"a\": 1E+18446744073709551616}").is_none());
    assert!(parse("1e123456789").is_some());
    assert!(parse("1e0000000000000000000002").is_some());
    assert_eq!(
        parse("1e0000000000000000000002").unwrap().as_number(),
        Some(Number::Real(100f64.to_bits()))
    );
    assert!(parse("\"1e99999999999999999999\"").is_some());
    assert!(matches!(
        parse("2e3").unwrap(),
        JsonValue::Number(Number::Real(_))
    ));
}

#[test]
fn repeated_names_keep_the_last_value() {
    let doc = parse("{\"a\":1,\"b\":2,\"a\":3}").unwrap();
    assert_eq!(doc.field("a").unwrap().as_u64(), Some(3));
    match doc {
        JsonValue::Object(members) => assert_eq!(members.len(), 2),
        other => panic!("unexpected: {:?}", other),
    }
}
