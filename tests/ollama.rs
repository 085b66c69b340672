use llmlog::diff::CommitInfo;
use llmlog::json::Json;
use llmlog::ollama::{
    check_status, create_changelog_request, decode_changelog, decode_commit_summary, decode_envelope,
    summarize_commit_request, ModelError, OllamaClient, OllamaMessage,
};
use llmlog::prompt::{
    changelog_prompt, commit_prompt, summary_from_json, summary_to_json, ChangeType, CommitSummary,
};

fn s(x: &str) -> Json {
    Json::Str(x.to_string())
}

fn obj(fields: Vec<(&str, Json)>) -> Json {
    Json::Object(fields.into_iter().map(|(k, v)| (k.to_string(), v)).collect())
}

fn schema() -> Json {
    obj(vec![("title", s("Changelog")), ("type", s("object"))])
}

fn envelope(content: &str) -> String {
    format!("{{\"message\":{{\"role\":\"assistant\",\"content\":{}}}}}", serde_json::to_string(content).unwrap())
}

fn sample_summary() -> CommitSummary {
    CommitSummary {
        commit_id: "abc123".to_string(),
        change_type: ChangeType::Fix,
        summary: "Fixed a crash \"on start\"".to_string(),
        changes: vec!["guard against None".to_string(), "add a test ✓".to_string()],
    }
}

#[test]
fn messages_carry_role() {
    let u = OllamaMessage::user("hi".to_string());
    assert_eq!(u.role, "user");
    assert_eq!(u.content, "hi");
    let a = OllamaMessage::assistant("yo".to_string());
    assert_eq!(a.role, "assistant");
    assert_eq!(a.content, "yo");
}

#[test]
fn chat_endpoint_appends_path() {
    let c = OllamaClient::new("http://localhost:11434".to_string(), "llama3.2:latest".to_string());
    assert_eq!(c.chat_endpoint(), "http://localhost:11434/api/chat");
    assert_eq!(c.model, "llama3.2:latest");
}

#[test]
fn request_body_names_model_and_schema() {
    let c = OllamaClient::new("http://h".to_string(), "m1".to_string());
    let info = CommitInfo { id: "1".to_string(), message: "msg".to_string(), diff: "+x\n".to_string() };
    let req = summarize_commit_request(&info, schema());
    let body = c.request_body(req);
    let v: serde_json::Value = serde_json::from_str(&body).unwrap();
    assert_eq!(v["model"], "m1");
    assert_eq!(v["stream"], false);
    assert_eq!(v["format"]["title"], "Changelog");
    assert_eq!(v["messages"][0]["role"], "user");
    assert!(v["messages"][0]["content"].as_str().unwrap().contains("Commit Message: msg"));
}

#[test]
fn commit_prompt_embeds_message_diff_and_schema() {
    let info = CommitInfo { id: "1".to_string(), message: "Add x".to_string(), diff: "+x\n".to_string() };
    let p = commit_prompt(&info, &schema());
    assert!(p.starts_with("\nCommit Message: Add x\n```diff\n+x\n\n```\nGiven the git commit"));
    assert!(p.ends_with("You must follow the JSON schema:\n```json\n{\n  \"title\": \"Changelog\",\n  \"type\": \"object\"\n}\n```\n"));
}

#[test]
fn changelog_prompt_over_no_summaries_is_well_formed() {
    let p = changelog_prompt("proj", &Vec::new(), &schema());
    assert!(p.starts_with("Project name: proj\nCommit Summaries:\n```json\n[]\n```\nGiven the list of commit summaries"));
    assert!(p.ends_with("```json\n{\n  \"title\": \"Changelog\",\n  \"type\": \"object\"\n}\n```\n"));
    let req = create_changelog_request("proj", &Vec::new(), schema());
    assert_eq!(req.messages.len(), 1);
    assert_eq!(req.messages[0].content, p);
    assert!(!req.stream);
}

#[test]
fn changelog_prompt_lists_summaries_in_order() {
    let mut second = sample_summary();
    second.commit_id = "def456".to_string();
    let p = changelog_prompt("proj", &vec![sample_summary(), second], &schema());
    let a = p.find("abc123").unwrap();
    let b = p.find("def456").unwrap();
    assert!(a < b);
}

#[test]
fn summary_round_trip_through_text() {
    let sent = sample_summary();
    let text = summary_to_json(&sent).pretty();
    let back = match decode_commit_summary(200, envelope(&text)) {
        Ok(v) => v,
        Err(e) => panic!("{:?}", e),
    };
    assert_eq!(back.commit_id, sent.commit_id);
    assert_eq!(back.change_type, sent.change_type);
    assert_eq!(back.summary, sent.summary);
    assert_eq!(back.changes, sent.changes);
}

#[test]
fn json_text_parses_and_prints() {
    assert!(Json::parse("{not json").is_none());
    let j = Json::parse(r#"{"b":[1,true,null],"a":"x"}"#).unwrap();
    let again = Json::parse(&j.pretty()).unwrap();
    assert_eq!(again.pretty(), j.pretty());
    assert!(j.pretty().contains("\"a\": \"x\""));
}

#[test]
fn summary_json_reads_back() {
    let sent = sample_summary();
    let back = summary_from_json(&summary_to_json(&sent)).unwrap();
    assert_eq!(back.commit_id, "abc123");
    assert_eq!(back.change_type, ChangeType::Fix);
    assert_eq!(back.changes.len(), 2);
}

#[test]
fn decodes_summary_answer() {
    let content = r#"{"commit_id":"c1","type":"feature","summary":"New","changes":["a","b","c"],"extra":1}"#;
    let r = decode_commit_summary(200, envelope(content)).unwrap_or_else(|e| panic!("{:?}", e));
    assert_eq!(r.commit_id, "c1");
    assert_eq!(r.change_type, ChangeType::Feature);
    assert_eq!(r.summary, "New");
    assert_eq!(r.changes, vec!["a", "b", "c"]);
}

#[test]
fn malformed_content_is_payload_error() {
    let body = r#"{"message":{"content":"{not json"}}"#.to_string();
    match decode_commit_summary(200, body.clone()) {
        Err(e) => assert_eq!(e, ModelError::PayloadParse { raw: body }),
        Ok(_) => panic!("accepted"),
    }
}

#[test]
fn wrong_shape_is_payload_error() {
    let body = envelope(r#"{"commit_id":"c1","type":"chore","summary":"x","changes":[]}"#);
    match decode_commit_summary(200, body.clone()) {
        Err(e) => assert_eq!(e, ModelError::PayloadParse { raw: body }),
        Ok(_) => panic!("accepted"),
    }
    let body = envelope(r#"{"commit_id":"c1","type":"fix","summary":"x","changes":[1]}"#);
    match decode_commit_summary(200, body.clone()) {
        Err(e) => assert_eq!(e, ModelError::PayloadParse { raw: body }),
        Ok(_) => panic!("accepted"),
    }
}

#[test]
fn malformed_envelope_is_envelope_error() {
    for body in ["not json", r#"{"message":{"content":5}}"#, r#"{"msg":{}}"#, "[1,2]"] {
        match decode_commit_summary(200, body.to_string()) {
            Err(e) => assert_eq!(e, ModelError::EnvelopeParse { raw: body.to_string() }),
            Ok(_) => panic!("accepted"),
        }
    }
}

#[test]
fn failing_status_is_transport_error() {
    match decode_changelog(500, "boom".to_string()) {
        Err(e) => assert_eq!(e, ModelError::Transport { status: Some(500), detail: "boom".to_string() }),
        Ok(_) => panic!("accepted"),
    }
    assert_eq!(check_status(204, "b".to_string()), Ok("b".to_string()));
    assert!(check_status(199, "b".to_string()).is_err());
    assert!(check_status(300, "b".to_string()).is_err());
}

#[test]
fn decodes_changelog_answer() {
    let c = decode_changelog(200, envelope(r##"{"title":"T","content":"# Hi"}"##)).unwrap_or_else(|e| panic!("{:?}", e));
    assert_eq!(c.title, "T");
    assert_eq!(c.content, "# Hi");
    match decode_changelog(200, envelope(r#"{"title":"T"}"#)) {
        Err(ModelError::PayloadParse { .. }) => {}
        _ => panic!("a changelog without content was accepted"),
    }
}

#[test]
fn envelope_content_extracted() {
    assert_eq!(decode_envelope(r#"{"message":{"content":"x"}}"#), Some("x".to_string()));
    assert_eq!(decode_envelope(r#"{"message":"x"}"#), None);
}

#[test]
fn summary_json_keeps_field_order() {
    let text = summary_to_json(&sample_summary()).pretty();
    let a = text.find("\"commit_id\"").unwrap();
    let b = text.find("\"type\"").unwrap();
    let c = text.find("\"summary\"").unwrap();
    let d = text.find("\"changes\"").unwrap();
    assert!(a < b && b < c && c < d);
    assert!(text.contains("\"type\": \"fix\""));
}

#[test]
fn changelog_json_round_trip() {
    let c = llmlog::prompt::Changelog { title: "T \"q\"".to_string(), content: "# Body\n- a".to_string() };
    let text = llmlog::prompt::changelog_to_json(&c).pretty();
    let back = decode_changelog(200, envelope(&text)).unwrap_or_else(|e| panic!("{:?}", e));
    assert_eq!(back.title, c.title);
    assert_eq!(back.content, c.content);
    assert!(text.find("\"title\"").unwrap() < text.find("\"content\"").unwrap());
}

#[test]
fn request_body_keeps_message_order() {
    let c = OllamaClient::new("http://h".to_string(), "m".to_string());
    let req = llmlog::ollama::OllamaRequest {
        messages: vec![OllamaMessage::user("one".to_string()), OllamaMessage::assistant("two".to_string())],
        stream: false,
        format: schema(),
    };
    let v: serde_json::Value = serde_json::from_str(&c.request_body(req)).unwrap();
    assert_eq!(v["messages"][0]["content"], "one");
    assert_eq!(v["messages"][1]["role"], "assistant");
    assert_eq!(v["messages"][1]["content"], "two");
}
