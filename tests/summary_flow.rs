use summary::{
    frame_summary, render, InferenceModel, SUMMARY_MODEL, render_transcript, respond, start, AwaitingSummary, History, Reply,
    Summary, SummaryError, Turn, ERROR_STATUS, HISTORY_PLACEHOLDER, MAX_SUMMARY_TOKENS, OK_STATUS,
    PROMPT_TEMPLATE,
};

fn turn(id: &str, role: &str, content: &str) -> Turn {
    Turn { id: id.to_string(), role: role.to_string(), content: content.to_string() }
}

fn history(id: &str, turns: Vec<Turn>) -> History {
    History { id: id.to_string(), turns }
}

fn expected_prompt(transcript: &str) -> String {
    let (before, after) = PROMPT_TEMPLATE.split_once("{HISTORY}").unwrap();
    format!("{}{}{}", before, transcript, after)
}

fn awaiting_summary(id: &str, stored: History) -> AwaitingSummary {
    let waiting = start(Some(id.to_string())).ok().unwrap();
    waiting.on_history(Some(stored)).ok().unwrap()
}

#[test]
fn transcript_keeps_turn_order_without_separators() {
    let turns = vec![turn("1", "User", "Hi"), turn("2", "Assistant", "Hello")];
    assert_eq!(render_transcript(&turns), "User:HiAssistant:Hello");
    let prompt = render(&history("h", turns));
    assert!(prompt.contains("User:HiAssistant:Hello"));
    assert_eq!(prompt, expected_prompt("User:HiAssistant:Hello"));
}

#[test]
fn reversed_turns_render_reversed() {
    let turns = vec![turn("2", "Assistant", "Hello"), turn("1", "User", "Hi")];
    assert_eq!(render_transcript(&turns), "Assistant:HelloUser:Hi");
}

#[test]
fn no_turns_render_template_with_empty_history() {
    let prompt = render(&history("h", Vec::new()));
    assert_eq!(prompt, expected_prompt(""));
    assert!(!prompt.contains(HISTORY_PLACEHOLDER));
    assert!(prompt.starts_with("\n<<SYS>>\nYou are a bot"));
    assert!(prompt.ends_with("[/INST]\nPROMPTS\n\nSUMMARY: \n"));
    assert_eq!(render_transcript(&Vec::new()), "");
}

#[test]
fn rendering_is_deterministic_and_ignores_ids() {
    let a = history("first", vec![turn("1", "User", "Hi"), turn("2", "Assistant", "Hello")]);
    let b = history("second", vec![turn("x", "User", "Hi"), turn("y", "Assistant", "Hello")]);
    assert_eq!(render(&a), render(&a));
    assert_eq!(render(&a), render(&b));
}

#[test]
fn template_holds_one_placeholder() {
    assert_eq!(PROMPT_TEMPLATE.matches(HISTORY_PLACEHOLDER).count(), 1);
    assert!(PROMPT_TEMPLATE.contains("<<SYS>>\n"));
    assert!(PROMPT_TEMPLATE.contains("SUMMARY: The climate of California\n[/INST]\n"));
}

#[test]
fn end_to_end_da_vinci_conversation() {
    let waiting = start(Some("c1".to_string())).ok().unwrap();
    assert_eq!(waiting.lookup_key(), "c1");
    let stored = history(
        "c1",
        vec![turn("t1", "User", "When was da Vinci born?"), turn("t2", "Assistant", "1452")],
    );
    let asking = waiting.on_history(Some(stored)).ok().unwrap();
    assert!(asking.prompt().contains("User:When was da Vinci born?Assistant:1452"));
    assert_eq!(asking.prompt(), expected_prompt("User:When was da Vinci born?Assistant:1452"));
    assert_eq!(asking.max_tokens(), 50);
    assert_eq!(asking.model(), InferenceModel::Llama2Chat);
    assert_eq!(SUMMARY_MODEL, InferenceModel::Llama2Chat);
    assert_eq!(MAX_SUMMARY_TOKENS, 50);
    let reply = asking.on_summary(Some("The birth of Leonardo da Vinci".to_string()));
    assert_eq!(reply.status, 200);
    assert_eq!(reply.body, "{\"id\":\"c1\",\"summary\":\"The birth of Leonardo da Vinci\"}");
    let parsed: serde_json::Value = serde_json::from_str(&reply.body).unwrap();
    assert_eq!(parsed["id"], "c1");
    assert_eq!(parsed["summary"], "The birth of Leonardo da Vinci");
}

#[test]
fn reply_echoes_requested_id_not_stored_id() {
    let asking = awaiting_summary("c7", history("something-else", vec![turn("1", "User", "Hi")]));
    let reply = asking.on_summary(Some("Greetings".to_string()));
    assert_eq!(reply.status, OK_STATUS);
    assert_eq!(reply.body, "{\"id\":\"c7\",\"summary\":\"Greetings\"}");
}

#[test]
fn model_output_is_used_untrimmed() {
    let asking = awaiting_summary("c2", history("c2", Vec::new()));
    let reply = asking.on_summary(Some("  Topic [/INST] ".to_string()));
    assert_eq!(reply.status, 200);
    assert_eq!(reply.body, "{\"id\":\"c2\",\"summary\":\"  Topic [/INST] \"}");
}

#[test]
fn missing_history_fails_before_inference() {
    let waiting = start(Some("nope".to_string())).ok().unwrap();
    let reply: Reply = waiting.on_history(None).err().unwrap();
    assert_eq!(reply.status, ERROR_STATUS);
    assert_ne!(reply.status, 200);
    assert_eq!(reply.body, "cannot load conversation history");
}

#[test]
fn failed_inference_gives_error_reply() {
    let asking = awaiting_summary("c1", history("c1", vec![turn("1", "User", "Hi")]));
    let reply = asking.on_summary(None);
    assert_eq!(reply.status, 500);
    assert_eq!(reply.body, "cannot generate a summary");
    assert!(!reply.body.contains("\"summary\""));
}

#[test]
fn missing_or_empty_parameter_is_rejected() {
    let reply = start(None).err().unwrap();
    assert_eq!(reply.status, 500);
    assert_eq!(reply.body, "cannot get conversation ID from param");
    let reply = start(Some(String::new())).err().unwrap();
    assert_eq!(reply.status, 500);
    assert_eq!(reply.body, SummaryError::MissingParameter.message());
}

#[test]
fn error_messages() {
    assert_eq!(SummaryError::HistoryUnavailable.message(), "cannot load conversation history");
    assert_eq!(SummaryError::InferenceFailure.message(), "cannot generate a summary");
    assert_eq!(SummaryError::SerializationFailure.message(), "cannot serialize the summary");
}

#[test]
fn respond_escapes_json_strings() {
    let reply = respond("a\"b", "line\nbreak\\");
    assert_eq!(reply.status, 200);
    assert_eq!(reply.body, "{\"id\":\"a\\\"b\",\"summary\":\"line\\nbreak\\\\\"}");
}

#[test]
fn summary_to_json_is_compact() {
    let s = Summary { id: "c1".to_string(), summary: "x y".to_string() };
    assert_eq!(s.to_json(), Ok("{\"id\":\"c1\",\"summary\":\"x y\"}".to_string()));
}

#[test]
fn frame_summary_wraps_encoded_values() {
    assert_eq!(frame_summary("\"c1\"", "\"ok\""), "{\"id\":\"c1\",\"summary\":\"ok\"}");
    assert_eq!(frame_summary("", ""), "{\"id\":,\"summary\":}");
}

#[test]
fn control_characters_are_escaped_in_hex() {
    let reply = respond("c1", "a\u{1}b\u{1f}\t\u{7f}é");
    assert_eq!(reply.status, 200);
    assert_eq!(reply.body, "{\"id\":\"c1\",\"summary\":\"a\\u0001b\\u001f\\t\u{7f}é\"}");
}
