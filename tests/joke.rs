use pr_summary::{
    add_emoji_to_joke, fallback_joke, get_fallback_joke, joke_from_parts, joke_with_emoji,
    parse_joke_response, JokeError, FALLBACK_JOKE_COUNT, JOKE_API_COUNT,
};

#[test]
fn array_response_joins_setup_and_punchline() {
    let text = r#"[{"setup": "Why?", "punchline": "Because."}]"#;
    assert_eq!(parse_joke_response(0, text), Ok("Why? Because.".to_string()));
}

#[test]
fn array_response_errors() {
    assert_eq!(parse_joke_response(0, "[]"), Err(JokeError::EmptyResponse));
    assert_eq!(parse_joke_response(0, r#"[{"setup": "Why?"}]"#), Err(JokeError::InvalidFormat));
    assert_eq!(parse_joke_response(0, "not json"), Err(JokeError::InvalidJson));
    assert_eq!(parse_joke_response(0, r#"{"setup": "a"}"#), Err(JokeError::InvalidJson));
}

#[test]
fn object_responses_give_their_joke_member() {
    assert_eq!(parse_joke_response(1, r#"{"joke": "A bit."}"#), Ok("A bit.".to_string()));
    assert_eq!(parse_joke_response(1, r#"{"setup": "x"}"#), Err(JokeError::InvalidFormat));
    assert_eq!(parse_joke_response(2, r#"{"id": "q", "joke": "Dad."}"#), Ok("Dad.".to_string()));
    assert_eq!(parse_joke_response(2, r#"{"id": "q"}"#), Err(JokeError::InvalidJson));
}

#[test]
fn unknown_service() {
    assert_eq!(parse_joke_response(JOKE_API_COUNT, r#"{"joke": "x"}"#), Err(JokeError::UnknownApi));
}

#[test]
fn parts_must_both_be_there() {
    assert_eq!(joke_from_parts("a", "b"), Ok("a b".to_string()));
    assert_eq!(joke_from_parts("", "b"), Err(JokeError::InvalidFormat));
    assert_eq!(joke_from_parts("a", ""), Err(JokeError::InvalidFormat));
}

#[test]
fn emoji_is_appended_after_a_space() {
    assert_eq!(joke_with_emoji("Ha", 0), "Ha \u{1F602}");
    let s = add_emoji_to_joke("Ha");
    assert!(s.starts_with("Ha "));
    assert!(s.len() > 3);
}

#[test]
fn fallback_jokes_come_from_the_list() {
    assert_eq!(
        fallback_joke(9),
        "I'd tell you a UDP joke, but you might not get it."
    );
    let all: Vec<String> = (0..FALLBACK_JOKE_COUNT).map(fallback_joke).collect();
    assert!(all.contains(&get_fallback_joke()));
}
