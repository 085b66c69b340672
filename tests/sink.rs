use llmlog::prompt::Changelog;
use llmlog::sink::{create_changelog_body, created_changelog_id, preview_url};

#[test]
fn create_body_fields() {
    let c = Changelog { title: "T".to_string(), content: "C".to_string() };
    let text = create_changelog_body("org", "repo", &c).pretty();
    let v: serde_json::Value = serde_json::from_str(&text).unwrap();
    assert_eq!(v["organization"], "org");
    assert_eq!(v["name"], "repo");
    assert_eq!(v["title"], "T");
    assert_eq!(v["content"], "C");
}

#[test]
fn created_id_read() {
    assert_eq!(created_changelog_id(r#"{"changelog":{"id":42}}"#), Some("42".to_string()));
    assert_eq!(created_changelog_id(r#"{"changelog":{"id":"42"}}"#), None);
    assert_eq!(created_changelog_id(r#"{"error":"x"}"#), None);
    assert_eq!(created_changelog_id("oops"), None);
}

#[test]
fn preview_address() {
    assert_eq!(preview_url("http://localhost:5173", "org", "repo", "42"), "http://localhost:5173/org/repo/preview/42");
}
