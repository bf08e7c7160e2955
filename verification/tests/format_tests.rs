use chatcore::format::format_fallback;
use chatcore::format::format_prompt;
use chatcore::transcript::ensure_trailing_user;
use chatcore::transcript::ConversationMessage;

fn msg(role: &str, content: &str) -> ConversationMessage {
    ConversationMessage {
        role: role.to_string(),
        content: content.to_string(),
    }
}

#[test]
fn fallback_prompt_for_single_user_message() {
    let transcript = vec![msg("user", "hello")];
    let (prompt, needs_bos) = format_prompt(&transcript, None);
    assert_eq!(prompt, "User: hello\nAssistant:");
    assert!(needs_bos);
}

#[test]
fn template_rendering_is_used_verbatim_without_bos() {
    let transcript = vec![msg("user", "hello")];
    let rendered = "<|user|>hello<|assistant|>".to_string();
    let (prompt, needs_bos) = format_prompt(&transcript, Some(rendered.clone()));
    assert_eq!(prompt, rendered);
    assert!(!needs_bos);
}

#[test]
fn fallback_labels_all_roles() {
    let transcript = vec![
        msg("user", "hi"),
        msg("assistant", "hey"),
        msg("system", "be nice"),
    ];
    let prompt = format_fallback(&transcript);
    assert_eq!(prompt, "User: hi\nAssistant: hey\nsystem: be nice\nAssistant:");
}

#[test]
fn fallback_of_empty_transcript_is_just_the_opener() {
    let transcript: Vec<ConversationMessage> = Vec::new();
    let prompt = format_fallback(&transcript);
    assert_eq!(prompt, "Assistant:");
}

#[test]
fn trailing_user_message_is_appended_when_missing() {
    let mut transcript = vec![msg("user", "old question"), msg("assistant", "old answer")];
    ensure_trailing_user(&mut transcript, "new question");
    assert_eq!(transcript.len(), 3);
    assert_eq!(transcript[2].role, "user");
    assert_eq!(transcript[2].content, "new question");
    assert_eq!(transcript[0].content, "old question");
    assert_eq!(transcript[1].content, "old answer");
}

#[test]
fn trailing_user_message_is_replaced_when_present() {
    let mut transcript = vec![msg("assistant", "answer"), msg("user", "draft")];
    ensure_trailing_user(&mut transcript, "final wording");
    assert_eq!(transcript.len(), 2);
    assert_eq!(transcript[1].role, "user");
    assert_eq!(transcript[1].content, "final wording");
    assert_eq!(transcript[0].content, "answer");
}

#[test]
fn empty_transcript_gets_exactly_one_user_message() {
    let mut transcript: Vec<ConversationMessage> = Vec::new();
    ensure_trailing_user(&mut transcript, "hello");
    assert_eq!(transcript.len(), 1);
    assert_eq!(transcript[0].role, "user");
    assert_eq!(transcript[0].content, "hello");
}
