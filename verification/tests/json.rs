use get_media_twitter::failure::Failure;
use get_media_twitter::json::parse_json;
use get_media_twitter::json::Json;

fn text(value: &str) -> Json {
    Json::Text(value.to_string())
}

fn member(key: &str, value: Json) -> (String, Json) {
    (key.to_string(), value)
}

#[test]
fn scalars_are_read() {
    assert_eq!(parse_json("null"), Ok(Json::Null));
    assert_eq!(parse_json("true"), Ok(Json::Bool(true)));
    assert_eq!(parse_json("false"), Ok(Json::Bool(false)));
    assert_eq!(parse_json("0"), Ok(Json::Unsigned(0)));
    assert_eq!(parse_json(" 42 "), Ok(Json::Unsigned(42)));
    assert_eq!(
        parse_json("18446744073709551615"),
        Ok(Json::Unsigned(u64::MAX))
    );
    assert_eq!(parse_json("\"a\\u00e9\\n\""), Ok(text("a\u{e9}\n")));
}

#[test]
fn other_numbers_keep_no_value() {
    assert_eq!(parse_json("-1"), Ok(Json::OtherNumber));
    assert_eq!(parse_json("1.5"), Ok(Json::OtherNumber));
    assert_eq!(parse_json("1e2"), Ok(Json::OtherNumber));
    assert_eq!(parse_json("18446744073709551616"), Ok(Json::OtherNumber));
}

#[test]
fn arrays_keep_their_order() {
    assert_eq!(
        parse_json("[3, [], \"x\", [null]]"),
        Ok(Json::Array(vec![
            Json::Unsigned(3),
            Json::Array(vec![]),
            text("x"),
            Json::Array(vec![Json::Null]),
        ]))
    );
}

#[test]
fn objects_list_each_key_once() {
    assert_eq!(
        parse_json("{\"a\": 1, \"b\": {\"c\": [true]}}"),
        Ok(Json::Object(vec![
            member("a", Json::Unsigned(1)),
            member(
                "b",
                Json::Object(vec![member("c", Json::Array(vec![Json::Bool(true)]))])
            ),
        ]))
    );
    let twice = parse_json("{\"k\": 1, \"k\": 2}").unwrap();
    assert_eq!(twice, Json::Object(vec![member("k", Json::Unsigned(2))]));
    assert_eq!(twice.get("k"), Some(&Json::Unsigned(2)));
}

fn refusal(words: &str) -> Result<Json, Failure> {
    Err(Failure::InvalidJson(words.to_string()))
}

#[test]
fn text_that_is_not_json_is_refused() {
    for bad in ["", "{", "[1,]", "{\"a\" 1}", "nul", "'x'", "1 2", "{\"a\": 1}}"] {
        assert!(
            matches!(parse_json(bad), Err(Failure::InvalidJson(_))),
            "on {:?}",
            bad
        );
    }
}

#[test]
fn refusal_says_where_and_why() {
    assert_eq!(parse_json("<html>"), refusal("expected value at line 1 column 1"));
    assert_eq!(
        parse_json(""),
        refusal("EOF while parsing a value at line 1 column 0")
    );
    assert_eq!(
        parse_json("{\"a\": 1} x"),
        refusal("trailing characters at line 1 column 10")
    );
    assert_eq!(
        parse_json("[1,\n 2,\n oops]"),
        refusal("expected value at line 3 column 2")
    );
}

#[test]
fn get_finds_the_first_member_of_a_name() {
    let object = Json::Object(vec![
        member("a", Json::Unsigned(1)),
        member("b", Json::Unsigned(2)),
        member("a", Json::Unsigned(3)),
    ]);
    assert_eq!(object.get("a"), Some(&Json::Unsigned(1)));
    assert_eq!(object.get("b"), Some(&Json::Unsigned(2)));
    assert_eq!(object.get("c"), None);
    assert_eq!(object.get(""), None);
    assert_eq!(Json::Object(vec![]).get("a"), None);
}

#[test]
fn get_finds_nothing_in_what_is_no_object() {
    assert_eq!(Json::Null.get("a"), None);
    assert_eq!(text("a").get("a"), None);
    assert_eq!(Json::Array(vec![text("a")]).get("a"), None);
}

#[test]
fn at_reads_arrays_only() {
    let array = Json::Array(vec![text("zero"), text("one")]);
    assert_eq!(array.at(0), Some(&text("zero")));
    assert_eq!(array.at(1), Some(&text("one")));
    assert_eq!(array.at(2), None);
    assert_eq!(array.at(usize::MAX), None);
    assert_eq!(Json::Object(vec![member("0", Json::Null)]).at(0), None);
    assert_eq!(text("zero").at(0), None);
}

#[test]
fn each_kind_is_told_apart() {
    let array = Json::Array(vec![Json::Null]);
    assert_eq!(array.as_array(), Some(&vec![Json::Null]));
    assert_eq!(Json::Object(vec![]).as_array(), None);
    assert_eq!(Json::Unsigned(7).as_u64(), Some(7));
    assert_eq!(Json::OtherNumber.as_u64(), None);
    assert_eq!(text("7").as_u64(), None);
    assert_eq!(text("7").as_str(), Some("7"));
    assert_eq!(Json::Unsigned(7).as_str(), None);
    assert_eq!(Json::Null.as_str(), None);
}
