use video_summary_bot::agents::anthropic::{answer_text, probe, read_answer, AnthropicSettings, ContentBlock, Message};
use video_summary_bot::error::Error;

fn agent_msg<T: std::fmt::Debug>(r: Result<T, Error>) -> String {
    match r {
        Err(Error::Agent(m)) => m,
        other => panic!("{:?}", other),
    }
}

#[test]
fn api_probe() {
    assert_eq!(probe(true, false, None, "dflt").backend, "Anthropic API ready (model: dflt)");
    assert_eq!(probe(false, true, Some("m".into()), "dflt").backend, "Anthropic API ready (model: m)");
    let r = probe(false, false, Some("m".into()), "dflt");
    assert!(!r.is_ok());
    assert_eq!(r.error.as_deref(), Some("ANTHROPIC_AUTH_TOKEN / ANTHROPIC_API_KEY not set"));
}

#[test]
fn settings_from_environment_values() {
    let s = AnthropicSettings::from_env_values(None, Some("k".into()), None, None, "dflt").unwrap();
    assert_eq!(s.api_key, "k");
    assert_eq!(s.base_url, "https://api.anthropic.com");
    assert_eq!(s.model(), "dflt");
    assert_eq!(s.max_tokens, 4096);
    assert_eq!(s.messages_url(), "https://api.anthropic.com/v1/messages");
    let s = AnthropicSettings::from_env_values(Some("t".into()), Some("k".into()), Some("http://p/".into()), Some("x".into()), "dflt")
        .unwrap()
        .with_max_tokens(10);
    assert_eq!(s.api_key, "t");
    assert_eq!(s.messages_url(), "http://p/v1/messages");
    assert_eq!(s.max_tokens, 10);
    assert_eq!(
        agent_msg(AnthropicSettings::from_env_values(None, None, None, None, "dflt")),
        "ANTHROPIC_AUTH_TOKEN / ANTHROPIC_API_KEY not set"
    );
}

fn block(kind: Option<&str>, text: Option<&str>) -> ContentBlock {
    ContentBlock { kind: kind.map(|s| s.to_string()), text: text.map(|s| s.to_string()) }
}

#[test]
fn answer_reading() {
    let blocks = vec![block(Some("thinking"), Some("hmm")), block(Some("text"), Some("answer")), block(Some("text"), Some("later"))];
    assert_eq!(answer_text(true, "200 OK", "{}", Ok(Some(blocks))).unwrap(), "answer");
    assert_eq!(agent_msg(answer_text(false, "400 Bad Request", "oops", Ok(None))), "API error 400 Bad Request: oops");
    assert_eq!(agent_msg(answer_text(true, "200 OK", "x", Err("eof".into()))), "invalid JSON response: eof");
    assert_eq!(agent_msg(answer_text(true, "200 OK", "b", Ok(None))), "no text block in response: b");
    let no_text = vec![block(Some("text"), None), block(Some("text"), Some("t"))];
    assert_eq!(agent_msg(answer_text(true, "200 OK", "b", Ok(Some(no_text)))), "no text block in response: b");
}

#[test]
fn messages() {
    let u = Message::user("hi".to_string());
    assert_eq!(u.role, "user");
    assert_eq!(Message::assistant("ok".to_string()).role, "assistant");
}

#[test]
fn answers_decoded_from_json() {
    let body = r#"{"content":[{"type":"thinking","thinking":"x"},{"type":"text","text":"hello"}]}"#;
    assert_eq!(read_answer(true, "200 OK", body).unwrap(), "hello");
    assert!(agent_msg(read_answer(true, "200 OK", "not json")).starts_with("invalid JSON response: "));
    assert_eq!(agent_msg(read_answer(true, "200 OK", "{}")), "no text block in response: {}");
    assert_eq!(agent_msg(read_answer(false, "500 Internal Server Error", "x")), "API error 500 Internal Server Error: x");
}
