//! The prompt formatter: turn a role-tagged transcript into one
//! backend-native prompt string.
//!
//! The model's own chat template is preferred; rendering through it is the
//! backend's job, so the formatter here receives that rendering ready-made
//! when it exists. When it does not (no template, or applying it failed), the
//! manual fallback format below is used instead, and only then is an implicit
//! beginning-of-sequence token requested from the tokenizer.

use crate::strutil::str_eq;
use crate::transcript::ConversationMessage;
use crate::transcript::MessageView;
use vstd::prelude::*;
use vstd::string::StringExecFns;

verus! {

/// The label the fallback format prints for a role: the literal `User` and
/// `Assistant` for those two roles, the raw role name for any other.
pub open spec fn role_label(role: Seq<char>) -> Seq<char> {
    if role == "user"@ {
        "User"@
    } else if role == "assistant"@ {
        "Assistant"@
    } else {
        role
    }
}

/// One line of the fallback format: `<Label>: <content>` plus a newline.
pub open spec fn fallback_line(m: MessageView) -> Seq<char> {
    role_label(m.role) + ": "@ + m.content + "\n"@
}

/// The fallback lines of a whole transcript, in conversation order.
pub open spec fn fallback_body(t: Seq<MessageView>) -> Seq<char>
    decreases t.len(),
{
    if t.len() == 0 {
        Seq::<char>::empty()
    } else {
        fallback_body(t.drop_last()) + fallback_line(t.last())
    }
}

/// The complete fallback prompt: every message's line, then a literal
/// assistant-turn opener.
pub open spec fn fallback_prompt(t: Seq<MessageView>) -> Seq<char> {
    fallback_body(t) + "Assistant:"@
}

/// Render a transcript in the manual fallback format.
pub fn format_fallback(transcript: &Vec<ConversationMessage>) -> (r: String)
    ensures
        r@ == fallback_prompt(transcript@.map_values(|m: ConversationMessage| m@)),
{
    let ghost views = transcript@.map_values(|m: ConversationMessage| m@);
    let mut out = String::new();
    assert(out@ =~= fallback_body(views.take(0)));
    let n = transcript.len();
    let mut i: usize = 0;
    while i < n
        invariant
            0 <= i <= n == transcript@.len(),
            views == transcript@.map_values(|m: ConversationMessage| m@),
            out@ == fallback_body(views.take(i as int)),
        decreases n - i,
    {
        let m = &transcript[i];
        if str_eq(m.role.as_str(), "user") {
            out.append("User");
        } else if str_eq(m.role.as_str(), "assistant") {
            out.append("Assistant");
        } else {
            out.append(m.role.as_str());
        }
        out.append(": ");
        out.append(m.content.as_str());
        out.append("\n");
        proof {
            assert(views.take(i + 1).drop_last() =~= views.take(i as int));
            assert(views.take(i + 1).last() == views[i as int]);
            assert(out@ =~= fallback_body(views.take(i + 1)));
        }
        i = i + 1;
    }
    proof {
        assert(views.take(n as int) =~= views);
    }
    out.append("Assistant:");
    out
}

/// Build the final prompt for one request. A template rendering, when the
/// model offers one, is used verbatim and needs no implicit
/// beginning-of-sequence token (the template embeds its own framing); the
/// fallback format is used otherwise and requests one. The returned flag is
/// `true` exactly when the tokenizer must add the implicit token.
pub fn format_prompt(transcript: &Vec<ConversationMessage>, rendered: Option<String>) -> (r: (
    String,
    bool,
))
    ensures
        rendered matches Some(p) ==> r.0@ == p@ && r.1 == false,
        rendered is None ==> r.0@ == fallback_prompt(
            transcript@.map_values(|m: ConversationMessage| m@),
        ) && r.1 == true,
{
    match rendered {
        Some(p) => (p, false),
        None => (format_fallback(transcript), true),
    }
}

} // verus!
