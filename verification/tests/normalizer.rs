use json_migrate::json::{advance, normalize, Decoded, Step, Unwrapped};

fn wrap(text: &str, layers: usize) -> String {
    let mut wrapped = text.to_string();
    for _ in 0..layers {
        wrapped = serde_json::to_string(&wrapped).unwrap();
    }
    wrapped
}

fn value_and_layers(raw: &str) -> Option<(String, usize)> {
    normalize(raw).map(|unwrapped| (unwrapped.value, unwrapped.layers))
}

#[test]
fn encoded_once_gives_the_content() {
    assert_eq!(value_and_layers("\"hello\""), Some(("hello".to_string(), 1)));
}

#[test]
fn encoded_twice_gives_the_content() {
    assert_eq!(value_and_layers("\"\\\"hello\\\"\""), Some(("hello".to_string(), 2)));
}

#[test]
fn values_unwrap_to_x_and_y() {
    assert_eq!(value_and_layers("\"x\""), Some(("x".to_string(), 1)));
    assert_eq!(value_and_layers("\"\\\"y\\\"\""), Some(("y".to_string(), 2)));
}

#[test]
fn bare_word_is_rejected() {
    assert!(normalize("hello").is_none());
    assert!(normalize("not-json").is_none());
}

#[test]
fn empty_text_is_rejected() {
    assert!(normalize("").is_none());
}

#[test]
fn unterminated_string_is_rejected() {
    assert!(normalize("\"hello").is_none());
}

#[test]
fn normalizing_again_fails_on_plain_output() {
    let once = normalize("\"hello\"").unwrap();
    assert_eq!(once.value, "hello");
    assert!(normalize(&once.value).is_none());
}

#[test]
fn normalizing_again_keeps_output_that_is_json() {
    let once = normalize("\"{\\\"a\\\":1}\"").unwrap();
    assert_eq!(once.value, "{\"a\":1}");
    assert_eq!(once.layers, 1);
    let twice = normalize(&once.value).unwrap();
    assert_eq!(twice.value, "{\"a\":1}");
    assert_eq!(twice.layers, 0);
}

#[test]
fn json_that_is_no_string_comes_back_as_it_is() {
    assert_eq!(value_and_layers("123"), Some(("123".to_string(), 0)));
    assert_eq!(value_and_layers("null"), Some(("null".to_string(), 0)));
    assert_eq!(value_and_layers("true"), Some(("true".to_string(), 0)));
    assert_eq!(value_and_layers("[1, 2]"), Some(("[1, 2]".to_string(), 0)));
    assert_eq!(value_and_layers(" {\"a\": 1} "), Some((" {\"a\": 1} ".to_string(), 0)));
}

#[test]
fn string_of_a_number_stops_at_the_number() {
    assert_eq!(value_and_layers("\"123\""), Some(("123".to_string(), 1)));
}

#[test]
fn empty_string_is_the_innermost_content() {
    assert_eq!(value_and_layers("\"\""), Some(("".to_string(), 1)));
}

#[test]
fn escapes_are_decoded() {
    assert_eq!(value_and_layers("\"a\\nb\""), Some(("a\nb".to_string(), 1)));
    assert_eq!(value_and_layers("\"\\u00e9\""), Some(("\u{e9}".to_string(), 1)));
    assert_eq!(value_and_layers("\"\\ud83d\\ude00\""), Some(("\u{1f600}".to_string(), 1)));
}

#[test]
fn content_differs_from_the_text_it_came_from() {
    let raw = "\"hello\"";
    assert_ne!(normalize(raw).unwrap().value, raw);
}

#[test]
fn encoding_once_is_undone() {
    for content in ["hello", "say \"hi\"", "{\"a\":1}", "[1,2]", "123", "", "it's", "a\\b"] {
        let encoded = serde_json::to_string(content).unwrap();
        assert_eq!(value_and_layers(&encoded), Some((content.to_string(), 1)));
    }
}

#[test]
fn every_layer_is_counted() {
    for layers in 1..8 {
        let raw = wrap("inner text", layers);
        assert_eq!(value_and_layers(&raw), Some(("inner text".to_string(), layers)));
    }
}

#[test]
fn many_layers_unwrap() {
    let raw = wrap("deep", 12);
    assert_eq!(value_and_layers(&raw), Some(("deep".to_string(), 12)));
}

#[test]
fn layers_around_json_stop_at_the_json() {
    let raw = wrap("{\"k\":\"v\"}", 3);
    assert_eq!(value_and_layers(&raw), Some(("{\"k\":\"v\"}".to_string(), 3)));
}

#[test]
fn a_string_means_one_more_round() {
    assert_eq!(
        advance("\"x\"".to_string(), Decoded::Text("x".to_string()), 0),
        Step::Again("x".to_string())
    );
    assert_eq!(
        advance("outer".to_string(), Decoded::Text("inner".to_string()), 7),
        Step::Again("inner".to_string())
    );
}

#[test]
fn other_json_ends_the_unwrapping() {
    assert_eq!(
        advance("123".to_string(), Decoded::Other, 0),
        Step::Done(Unwrapped { value: "123".to_string(), layers: 0 })
    );
    assert_eq!(
        advance("[1]".to_string(), Decoded::Other, 2),
        Step::Done(Unwrapped { value: "[1]".to_string(), layers: 2 })
    );
}

#[test]
fn text_that_is_not_json_ends_the_unwrapping_after_the_first_layer() {
    assert_eq!(
        advance("hello".to_string(), Decoded::Invalid, 1),
        Step::Done(Unwrapped { value: "hello".to_string(), layers: 1 })
    );
}

#[test]
fn text_that_is_not_json_is_malformed_at_the_start() {
    assert_eq!(advance("hello".to_string(), Decoded::Invalid, 0), Step::Malformed);
}
