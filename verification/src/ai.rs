//! The text service that agents and the task pipeline ask for words.

use vstd::prelude::*;

verus! {

/// One turn of the conversation handed to the text service.
#[derive(Debug, PartialEq)]
pub struct ChatMessage {
    pub role: String,
    pub content: String,
}

/// What a `ChatMessage` holds, as mathematical values.
pub struct ChatMessageView {
    pub role: Seq<char>,
    pub content: Seq<char>,
}

impl DeepView for ChatMessage {
    type V = ChatMessageView;

    open spec fn deep_view(&self) -> ChatMessageView {
        ChatMessageView { role: self.role@, content: self.content@ }
    }
}

impl View for ChatMessage {
    type V = ChatMessageView;

    open spec fn view(&self) -> ChatMessageView {
        self.deep_view()
    }
}

impl Clone for ChatMessage {
    fn clone(&self) -> (r: Self)
        ensures
            r@ == self@,
    {
        ChatMessage { role: self.role.clone(), content: self.content.clone() }
    }
}

/// A question for the text service: the instructions that frame it, and the
/// conversation so far.
#[derive(Debug, PartialEq)]
pub struct ChatRequest {
    pub system_prompt: String,
    pub messages: Vec<ChatMessage>,
}

/// What a `ChatRequest` holds, as mathematical values.
pub struct ChatRequestView {
    pub system_prompt: Seq<char>,
    pub messages: Seq<ChatMessageView>,
}

impl DeepView for ChatRequest {
    type V = ChatRequestView;

    open spec fn deep_view(&self) -> ChatRequestView {
        ChatRequestView {
            system_prompt: self.system_prompt@,
            messages: self.messages.deep_view(),
        }
    }
}

impl View for ChatRequest {
    type V = ChatRequestView;

    open spec fn view(&self) -> ChatRequestView {
        self.deep_view()
    }
}

/// The request that frames one thing said by the user.
pub open spec fn single_turn(system_prompt: Seq<char>, content: Seq<char>) -> ChatRequestView {
    ChatRequestView {
        system_prompt,
        messages: seq![ChatMessageView { role: "user"@, content }],
    }
}

impl ChatRequest {
    /// A request that frames one thing said by the user.
    pub fn from_user(system_prompt: String, content: String) -> (r: Self)
        ensures
            r@ == single_turn(system_prompt@, content@),
    {
        let mut messages: Vec<ChatMessage> = Vec::new();
        messages.push(ChatMessage { role: "user".to_owned(), content });
        assert(messages.deep_view() =~= seq![ChatMessageView { role: "user"@, content: content@ }]);
        ChatRequest { system_prompt, messages }
    }
}

/// A text service: given instructions and a conversation, it answers with
/// text, or fails. It may be unreachable, slow, or wrong; nothing is assumed
/// of what it says.
pub trait AiProvider {
    /// Whether the service is known to be out of reach, so that every
    /// question fails. Unless a service says otherwise, it is not.
    open spec fn is_unreachable(&self) -> bool {
        false
    }

    /// Asks the service.
    fn chat(&self, system_prompt: &str, messages: Vec<ChatMessage>) -> (r: Result<String, String>)
        ensures
            self.is_unreachable() ==> r is Err,
    ;
}

/// Whether `reply` is what the service `client` may say to `request`: an
/// outcome of its `chat`, given the request's instructions and turns.
pub open spec fn may_say<C: AiProvider>(
    client: C,
    request: ChatRequestView,
    reply: Result<String, String>,
) -> bool {
    exists|prompt: &str, messages: Vec<ChatMessage>|
        {
            &&& prompt@ == request.system_prompt
            &&& messages.deep_view() == request.messages
            &&& #[trigger] call_ensures(C::chat, (&client, prompt, messages), reply)
        }
}

/// Puts a request to a text service: the service is asked once, with the
/// request's instructions and turns, and what it says is the result.
pub fn ask<C: AiProvider>(client: &C, request: ChatRequest) -> (r: Result<String, String>)
    ensures
        may_say(*client, request@, r),
        client.is_unreachable() ==> r is Err,
{
    let prompt = request.system_prompt.as_str();
    let ghost messages = request.messages;
    let r = client.chat(prompt, request.messages);
    assert(call_ensures(C::chat, (client, prompt, messages), r));
    r
}

/// The text service that is not there: every question fails.
#[derive(Debug, Clone, Copy, PartialEq, Eq)]
pub struct NoAiClient;

impl AiProvider for NoAiClient {
    open spec fn is_unreachable(&self) -> bool {
        true
    }

    fn chat(&self, system_prompt: &str, messages: Vec<ChatMessage>) -> (r: Result<String, String>)
        ensures
            r matches Err(e) && e@ == "AI service unreachable"@,
    {
        Err("AI service unreachable".to_owned())
    }
}

} // verus!
