use jukectl::tags::{find_member, frame, parse_tags_data, DecodeError, Field, TagsData};

fn list(items: &[&str]) -> Vec<String> {
    items.iter().map(|item| item.to_string()).collect()
}

fn filter(any: &[&str], not: &[&str]) -> TagsData {
    TagsData { any: list(any), not: list(not) }
}

#[test]
fn parse_cuts_at_commas_and_trims() {
    assert_eq!(
        parse_tags_data("rock, jazz ,blues", " live , demo"),
        filter(&["rock", "jazz", "blues"], &["live", "demo"])
    );
}

#[test]
fn parse_of_empty_texts_gives_one_empty_tag_each() {
    assert_eq!(parse_tags_data("", ""), filter(&[""], &[""]));
}

#[test]
fn parse_without_exclusions_counts_segments() {
    for text in ["", "a", "a,b", " a , b ,, c ", ",", "no comma", ",,,,"] {
        let data = parse_tags_data(text, "");
        assert_eq!(data.any.len(), text.split(',').count(), "{:?}", text);
        assert_eq!(data.not, vec![""], "{:?}", text);
    }
}

#[test]
fn parse_keeps_order_and_repeats() {
    assert_eq!(parse_tags_data("b,a,b", "z,y"), filter(&["b", "a", "b"], &["z", "y"]));
}

#[test]
fn encode_writes_both_lists_in_order() {
    assert_eq!(
        filter(&["rock", "jazz"], &["live"]).to_json(),
        Ok("{\"any\":[\"rock\",\"jazz\"],\"not\":[\"live\"]}".to_string())
    );
}

#[test]
fn encode_of_empty_lists() {
    assert_eq!(filter(&[], &[]).to_json(), Ok("{\"any\":[],\"not\":[]}".to_string()));
}

#[test]
fn encode_of_the_empty_tag() {
    assert_eq!(
        parse_tags_data("", "").to_json(),
        Ok("{\"any\":[\"\"],\"not\":[\"\"]}".to_string())
    );
}

#[test]
fn encode_escapes_what_json_escapes() {
    assert_eq!(
        filter(&["a\"b", "c\\d", "e\nf", "\u{e9}"], &["\u{1}"]).to_json(),
        Ok("{\"any\":[\"a\\\"b\",\"c\\\\d\",\"e\\nf\",\"\u{e9}\"],\"not\":[\"\\u0001\"]}".to_string())
    );
}

#[test]
fn frame_puts_the_lists_under_their_names() {
    assert_eq!(frame("[1]", "[2]"), "{\"any\":[1],\"not\":[2]}");
    assert_eq!(frame("", ""), "{\"any\":,\"not\":}");
}

#[test]
fn decode_reads_both_lists() {
    assert_eq!(
        TagsData::from_json("{\"any\":[\"rock\",\"jazz\"],\"not\":[\"live\"]}"),
        Ok(filter(&["rock", "jazz"], &["live"]))
    );
}

#[test]
fn decode_takes_the_members_in_any_order_and_layout() {
    assert_eq!(
        TagsData::from_json(" {\n \"not\" : [ \"x\" ] ,\n \"any\" : [ ]\n} "),
        Ok(filter(&[], &["x"]))
    );
}

#[test]
fn decode_passes_over_other_members() {
    assert_eq!(
        TagsData::from_json(
            "{\"version\":3,\"any\":[\"a\"],\"meta\":{\"k\":[1,2.5e3,null]},\"not\":[\"b\"],\"on\":true}"
        ),
        Ok(filter(&["a"], &["b"]))
    );
}

#[test]
fn decode_unescapes_what_json_escapes() {
    assert_eq!(
        TagsData::from_json("{\"any\":[\"a\\\"b\",\"\\u00e9\\n\"],\"not\":[\"\\\\\"]}"),
        Ok(filter(&["a\"b", "\u{e9}\n"], &["\\"]))
    );
}

#[test]
fn decode_rejects_text_that_is_no_json() {
    assert!(matches!(TagsData::from_json("not json"), Err(DecodeError::Document(_))));
    assert!(matches!(TagsData::from_json(""), Err(DecodeError::Document(_))));
    assert!(matches!(TagsData::from_json("{\"any\":[],\"not\":[]"), Err(DecodeError::Document(_))));
    assert!(matches!(
        TagsData::from_json("{\"any\":[],\"not\":[]} trailing"),
        Err(DecodeError::Document(_))
    ));
}

#[test]
fn decode_rejects_json_that_is_no_object() {
    assert!(matches!(TagsData::from_json("[\"a\"]"), Err(DecodeError::Document(_))));
    assert!(matches!(TagsData::from_json("\"any\""), Err(DecodeError::Document(_))));
    assert!(matches!(TagsData::from_json("null"), Err(DecodeError::Document(_))));
    assert!(matches!(TagsData::from_json("[[\"a\"],[\"b\"]]"), Err(DecodeError::Document(_))));
}

#[test]
fn decode_reports_a_missing_member() {
    assert_eq!(TagsData::from_json("{}"), Err(DecodeError::Missing(Field::Any)));
    assert_eq!(TagsData::from_json("{\"not\":[]}"), Err(DecodeError::Missing(Field::Any)));
    assert_eq!(TagsData::from_json("{\"any\":[]}"), Err(DecodeError::Missing(Field::Not)));
    assert_eq!(TagsData::from_json("{\"Any\":[],\"not\":[]}"), Err(DecodeError::Missing(Field::Any)));
}

#[test]
fn decode_reports_a_member_that_is_no_list_of_strings() {
    assert!(matches!(
        TagsData::from_json("{\"any\":[1],\"not\":[]}"),
        Err(DecodeError::Member(Field::Any, _))
    ));
    assert!(matches!(
        TagsData::from_json("{\"any\":\"a\",\"not\":[]}"),
        Err(DecodeError::Member(Field::Any, _))
    ));
    assert!(matches!(
        TagsData::from_json("{\"any\":[],\"not\":null}"),
        Err(DecodeError::Member(Field::Not, _))
    ));
    assert!(matches!(
        TagsData::from_json("{\"any\":[],\"not\":[\"a\",[\"b\"]]}"),
        Err(DecodeError::Member(Field::Not, _))
    ));
}

#[test]
fn decode_reports_any_before_not() {
    assert!(matches!(
        TagsData::from_json("{\"not\":7,\"any\":8}"),
        Err(DecodeError::Member(Field::Any, _))
    ));
    assert_eq!(TagsData::from_json("{\"not\":7}"), Err(DecodeError::Missing(Field::Any)));
}

#[test]
fn decode_error_messages() {
    assert_eq!(DecodeError::Missing(Field::Any).message(), "missing field `any`");
    assert_eq!(DecodeError::Missing(Field::Not).message(), "missing field `not`");
    assert_eq!(
        DecodeError::Member(Field::Not, "expected a list".to_string()).message(),
        "field `not`: expected a list"
    );
    assert_eq!(DecodeError::Document("bad".to_string()).message(), "bad");
    let error = TagsData::from_json("nonsense").unwrap_err();
    assert_eq!(error.message(), "expected ident at line 1 column 2");
}

#[test]
fn from_members_reads_the_named_members() {
    let members = vec![
        ("any".to_string(), "[\"a\",\"b\"]".to_string()),
        ("extra".to_string(), "{}".to_string()),
        ("not".to_string(), "[]".to_string()),
    ];
    assert_eq!(TagsData::from_members(&members), Ok(filter(&["a", "b"], &[])));
    assert_eq!(TagsData::from_members(&Vec::new()), Err(DecodeError::Missing(Field::Any)));
}

#[test]
fn from_lists_covers_every_case() {
    let ok = |items: &[&str]| Some(Ok(list(items)));
    let bad = |message: &str| Some(Err(message.to_string()));
    assert_eq!(TagsData::from_lists(ok(&["a"]), ok(&["b"])), Ok(filter(&["a"], &["b"])));
    assert_eq!(TagsData::from_lists(None, ok(&["b"])), Err(DecodeError::Missing(Field::Any)));
    assert_eq!(TagsData::from_lists(None, None), Err(DecodeError::Missing(Field::Any)));
    assert_eq!(TagsData::from_lists(ok(&["a"]), None), Err(DecodeError::Missing(Field::Not)));
    assert_eq!(
        TagsData::from_lists(bad("m"), None),
        Err(DecodeError::Member(Field::Any, "m".to_string()))
    );
    assert_eq!(
        TagsData::from_lists(ok(&[]), bad("n")),
        Err(DecodeError::Member(Field::Not, "n".to_string()))
    );
}

#[test]
fn find_member_gives_the_first_of_that_name() {
    let members = vec![
        ("a".to_string(), "1".to_string()),
        ("b".to_string(), "2".to_string()),
        ("a".to_string(), "3".to_string()),
    ];
    assert_eq!(find_member(&members, "a"), Some("1"));
    assert_eq!(find_member(&members, "b"), Some("2"));
    assert_eq!(find_member(&members, "c"), None);
    assert_eq!(find_member(&Vec::new(), "a"), None);
}

#[test]
fn field_names() {
    assert_eq!(Field::Any.name(), "any");
    assert_eq!(Field::Not.name(), "not");
}

#[test]
fn round_trip_gives_the_filter_back() {
    let filters = [
        filter(&[], &[]),
        filter(&[""], &[""]),
        filter(&["rock", "jazz", "rock"], &["live"]),
        filter(&["a\"b", "c\\d", "{\"any\":[]}", "[", "]", ","], &["\u{0}", "\u{1f}", "\u{7f}"]),
        filter(&["\u{e9}", "\u{1f3b5}", "\u{2028}", "\u{feff}"], &["\t", "\r\n", " "]),
        filter(&["any", "not"], &["not", "any"]),
    ];
    for f in filters {
        let text = f.to_json().unwrap();
        assert_eq!(TagsData::from_json(&text), Ok(f.clone()), "{}", text);
    }
}

#[test]
fn round_trip_keeps_the_order_of_both_lists() {
    let f = filter(&["z", "a", "m", "a"], &["2", "1", "3"]);
    let back = TagsData::from_json(&f.to_json().unwrap()).unwrap();
    assert_eq!(back.any, vec!["z", "a", "m", "a"]);
    assert_eq!(back.not, vec!["2", "1", "3"]);
}

#[test]
fn round_trip_of_what_the_command_line_gives() {
    for (tags, not_tags) in [("", ""), ("rock, pop", ""), (" a ,, b ", "x , y"), (",", ",")] {
        let f = parse_tags_data(tags, not_tags);
        assert_eq!(TagsData::from_json(&f.to_json().unwrap()), Ok(f.clone()));
    }
}

#[test]
fn describe_shows_both_lists() {
    assert_eq!(
        filter(&["rock", "a\"b"], &[""]).describe(),
        "{\n    any: [\"rock\", \"a\\\"b\"],\n    not: [\"\"]\n}"
    );
    assert_eq!(filter(&[], &[]).describe(), "{\n    any: [],\n    not: []\n}");
}
