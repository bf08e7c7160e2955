use chatcore::conversation::keep_last;
use chatcore::conversation::make_preview;
use chatcore::conversation::make_title;
use chatcore::conversation::sanitize_session_id;
use chatcore::conversation::sort_summaries;
use chatcore::conversation::session_file;
use chatcore::conversation::summarize_records;
use chatcore::conversation::ChatRecord;

fn rec(role: &str, content: &str, timestamp: Option<&str>) -> ChatRecord {
    ChatRecord {
        role: role.to_string(),
        content: content.to_string(),
        timestamp: timestamp.map(|t| t.to_string()),
    }
}

#[test]
fn session_ids_are_sanitized() {
    assert_eq!(sanitize_session_id("ab c/d"), "ab_c_d");
    assert_eq!(sanitize_session_id("A-1_b"), "A-1_b");
    assert_eq!(sanitize_session_id(""), "session");
    assert_eq!(sanitize_session_id("../etc"), "___etc");
}

#[test]
fn session_file_names() {
    assert_eq!(session_file("my chat"), "my_chat.jsonl");
    assert_eq!(session_file(""), "session.jsonl");
}

#[test]
fn titles_come_from_the_first_line() {
    assert_eq!(make_title(""), "New chat");
    assert_eq!(make_title("   \n  "), "New chat");
    assert_eq!(make_title("  hi  "), "hi");
    assert_eq!(make_title("first line\nsecond line"), "first line\u{2026}");
}

#[test]
fn long_titles_get_an_ellipsis() {
    let source = "a".repeat(100);
    let title = make_title(&source);
    let mut expected = "a".repeat(80);
    expected.push('\u{2026}');
    assert_eq!(title, expected);

    let short = "a".repeat(80);
    assert_eq!(make_title(&short), short);
}

#[test]
fn previews_are_optional_and_capped() {
    assert_eq!(make_preview("   "), None);
    assert_eq!(make_preview("  hello\nmore  "), Some("hello".to_string()));
    let long = "b".repeat(200);
    assert_eq!(make_preview(&long), Some("b".repeat(120)));
}

#[test]
fn load_limit_keeps_the_most_recent_records() {
    let records = vec![
        rec("user", "1", None),
        rec("assistant", "2", None),
        rec("user", "3", None),
    ];
    let kept = keep_last(records.clone(), Some(2));
    assert_eq!(kept.len(), 2);
    assert_eq!(kept[0].content, "2");
    assert_eq!(kept[1].content, "3");

    assert_eq!(keep_last(records.clone(), Some(10)).len(), 3);
    assert_eq!(keep_last(records, None).len(), 3);
}

#[test]
fn summaries_derive_title_preview_and_stamps() {
    let records = vec![
        rec("assistant", "welcome", Some("2024-01-01T10:00:00Z")),
        rec("user", "   ", None),
        rec("user", "What is a verifier?", Some("2024-01-02T09:00:00Z")),
        rec("assistant", "", None),
    ];
    let s = summarize_records("abc".to_string(), &records);
    assert_eq!(s.session_id, "abc");
    assert_eq!(s.message_count, 4);
    assert_eq!(s.title, "What is a verifier?");
    assert_eq!(s.preview, Some("What is a verifier?".to_string()));
    assert_eq!(s.created_at, Some("2024-01-01T10:00:00Z".to_string()));
    assert_eq!(s.updated_at, Some("2024-01-02T09:00:00Z".to_string()));
}

#[test]
fn summary_of_an_empty_session_is_a_fresh_chat() {
    let s = summarize_records("empty".to_string(), &Vec::new());
    assert_eq!(s.title, "New chat");
    assert_eq!(s.message_count, 0);
    assert_eq!(s.preview, None);
    assert_eq!(s.created_at, None);
    assert_eq!(s.updated_at, None);
}

#[test]
fn summary_without_user_messages_is_untitled() {
    let records = vec![rec("assistant", "hello there", Some("2024-03-01T00:00:00Z"))];
    let s = summarize_records("x".to_string(), &records);
    assert_eq!(s.title, "New chat");
    assert_eq!(s.preview, Some("hello there".to_string()));
}

#[test]
fn conversation_lists_sort_newest_first() {
    let summaries = vec![
        summarize_records(
            "b".to_string(),
            &vec![rec("user", "older", Some("2024-01-01T00:00:00Z"))],
        ),
        summarize_records("d".to_string(), &Vec::new()),
        summarize_records(
            "a".to_string(),
            &vec![rec("user", "newer", Some("2024-02-01T00:00:00Z"))],
        ),
        summarize_records("c".to_string(), &Vec::new()),
    ];
    let sorted = sort_summaries(summaries);
    let ids: Vec<&str> = sorted.iter().map(|s| s.session_id.as_str()).collect();
    assert_eq!(ids, vec!["a", "b", "c", "d"]);
}
