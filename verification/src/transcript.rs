//! Role-tagged conversation messages. An ordered sequence of messages forms a
//! transcript; insertion order is the conversation order and is preserved
//! everywhere in this crate.

use crate::strutil::str_eq;
use vstd::prelude::*;
use vstd::string::StringExecFns;

verus! {

/// One turn of a conversation: a free-form role tag (`"user"`,
/// `"assistant"`, or any other label) and its text.
#[derive(Debug, Clone)]
pub struct ConversationMessage {
    pub role: String,
    pub content: String,
}

/// The mathematical value of a message: its role and content as character
/// sequences.
pub struct MessageView {
    pub role: Seq<char>,
    pub content: Seq<char>,
}

impl View for ConversationMessage {
    type V = MessageView;

    open spec fn view(&self) -> MessageView {
        MessageView { role: self.role@, content: self.content@ }
    }
}

/// Whether a transcript ends in a user message.
pub open spec fn ends_in_user(t: Seq<ConversationMessage>) -> bool {
    t.len() > 0 && t.last()@.role == "user"@
}

/// Make the most recent user message reflect the current request exactly
/// once: a transcript ending in a user message has that message's content
/// replaced by `latest` and nothing appended; any other transcript (including
/// the empty one) gets exactly one user message with `latest` appended.
pub fn ensure_trailing_user(transcript: &mut Vec<ConversationMessage>, latest: &str)
    ensures
        ends_in_user(old(transcript)@) ==> {
            &&& final(transcript)@.len() == old(transcript)@.len()
            &&& forall|i: int|
                0 <= i < old(transcript)@.len() - 1 ==> final(transcript)@[i] == old(
                    transcript,
                )@[i]
            &&& final(transcript)@.last()@.role == old(transcript)@.last()@.role
            &&& final(transcript)@.last()@.content == latest@
        },
        !ends_in_user(old(transcript)@) ==> {
            &&& final(transcript)@.len() == old(transcript)@.len() + 1
            &&& final(transcript)@.drop_last() == old(transcript)@
            &&& final(transcript)@.last()@.role == "user"@
            &&& final(transcript)@.last()@.content == latest@
        },
{
    let n = transcript.len();
    if n > 0 && str_eq(transcript[n - 1].role.as_str(), "user") {
        let last = transcript.pop().unwrap();
        transcript.push(
            ConversationMessage { role: last.role, content: String::from_str(latest) },
        );
        assert(transcript@.drop_last() =~= old(transcript)@.drop_last());
    } else {
        transcript.push(
            ConversationMessage { role: String::from_str("user"), content: String::from_str(
                latest,
            ) },
        );
        assert(transcript@.drop_last() =~= old(transcript)@);
    }
}

} // verus!
