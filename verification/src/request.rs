//! The completion request and the prompt that is written to the child.

use vstd::prelude::*;
use vstd::string::*;

verus! {

/// Who a message is from.
#[derive(Clone, Copy, Debug, PartialEq, Eq)]
pub enum Role {
    System,
    User,
    Assistant,
    Tool,
}

/// One message of a request: a role and the text of the message.
#[derive(Clone, Debug, PartialEq, Eq)]
pub struct LanguageModelRequestMessage {
    pub role: Role,
    pub content: String,
}

/// What a message holds.
pub struct MessageView {
    pub role: Role,
    pub content: Seq<char>,
}

impl View for LanguageModelRequestMessage {
    type V = MessageView;

    open spec fn view(&self) -> MessageView {
        MessageView { role: self.role, content: self.content@ }
    }
}

/// A completion request: messages in the order in which they were said.
#[derive(Clone, Debug, PartialEq, Eq)]
pub struct LanguageModelRequest {
    pub messages: Vec<LanguageModelRequestMessage>,
}

impl View for LanguageModelRequest {
    type V = Seq<MessageView>;

    open spec fn view(&self) -> Seq<MessageView> {
        self.messages@.map_values(|message: LanguageModelRequestMessage| message@)
    }
}

/// The prefix that marks a message of the role.
pub open spec fn role_prefix(role: Role) -> Seq<char> {
    match role {
        Role::System => "system:"@,
        Role::User => "user:"@,
        Role::Assistant => "assistant:"@,
        Role::Tool => "tool:"@,
    }
}

/// The line of the prompt for one message: the prefix of its role, a space,
/// its text, and a newline.
pub open spec fn prompt_line(message: MessageView) -> Seq<char> {
    role_prefix(message.role) + " "@ + message.content + "\n"@
}

/// The prompt for a list of messages: the line of each, in order.
pub open spec fn prompt_text(messages: Seq<MessageView>) -> Seq<char>
    decreases messages.len(),
{
    if messages.len() == 0 {
        Seq::empty()
    } else {
        prompt_text(messages.drop_last()) + prompt_line(messages.last())
    }
}

/// The prompt of two lists of messages, one after the other, is the prompt of
/// the first followed by the prompt of the second: the order of the messages
/// is the order of their lines.
pub proof fn lemma_prompt_text_concat(first: Seq<MessageView>, second: Seq<MessageView>)
    ensures
        prompt_text(first + second) == prompt_text(first) + prompt_text(second),
    decreases second.len(),
{
    if second.len() == 0 {
        assert(first + second =~= first);
        assert(prompt_text(first) + prompt_text(second) =~= prompt_text(first));
    } else {
        lemma_prompt_text_concat(first, second.drop_last());
        assert((first + second).drop_last() =~= first + second.drop_last());
        assert((first + second).last() == second.last());
        assert(prompt_text(first + second) =~= prompt_text(first) + prompt_text(second));
    }
}

/// The prefix that marks a message of the role.
pub fn role_marker(role: Role) -> (marker: &'static str)
    ensures
        marker@ == role_prefix(role),
{
    match role {
        Role::System => "system:",
        Role::User => "user:",
        Role::Assistant => "assistant:",
        Role::Tool => "tool:",
    }
}

/// Writes the request as the prompt that the child reads from its input.
pub fn serialize_prompt(request: &LanguageModelRequest) -> (prompt: String)
    ensures
        prompt@ == prompt_text(request@),
{
    let mut prompt = String::new();
    let mut i: usize = 0;
    while i < request.messages.len()
        invariant
            0 <= i <= request.messages.len(),
            prompt@ == prompt_text(request@.take(i as int)),
        decreases request.messages.len() - i,
    {
        let message = &request.messages[i];
        prompt.append(role_marker(message.role));
        prompt.append(" ");
        prompt.append(message.content.as_str());
        prompt.append("\n");
        proof {
            let upto = request@.take(i + 1);
            assert(upto.drop_last() =~= request@.take(i as int));
            assert(upto.last() == message@);
            assert(prompt@ =~= prompt_text(upto.drop_last()) + prompt_line(upto.last()));
        }
        i += 1;
    }
    assert(request@.take(i as int) =~= request@);
    prompt
}

} // verus!
