//! The data exchanged with the completion service: messages, the request
//! that carries them, and the result that comes back.

use vstd::prelude::*;

verus! {

/// The model every request names.
pub const MODEL: &'static str = "gpt-4";

/// The sampling temperature of every request, in hundredths (10 stands for
/// 0.10). It is fixed: a low temperature keeps completions close to
/// deterministic, and no caller may tune it per request.
pub const TEMPERATURE_HUNDREDTHS: u32 = 10;

/// Who a message is attributed to in a conversation.
#[derive(Clone, Copy, Debug, PartialEq, Eq, Structural)]
pub enum Role {
    System,
    User,
    Assistant,
}

impl Role {
    /// The name of the role on the wire.
    pub open spec fn name(self) -> Seq<char> {
        match self {
            Role::System => "system"@,
            Role::User => "user"@,
            Role::Assistant => "assistant"@,
        }
    }

    /// The name of the role on the wire.
    pub fn as_str(&self) -> (name: &'static str)
        ensures
            name@ == self.name(),
    {
        match self {
            Role::System => "system",
            Role::User => "user",
            Role::Assistant => "assistant",
        }
    }
}

/// One message of a conversation. Once made, a message does not change:
/// its role and content can be read, not set.
#[derive(Debug, PartialEq, Eq)]
pub struct Message {
    role: Role,
    content: String,
}

/// What a [`Message`] holds, as plain values.
pub struct MessageView {
    pub role: Role,
    pub content: Seq<char>,
}

impl View for Message {
    type V = MessageView;

    closed spec fn view(&self) -> MessageView {
        MessageView { role: self.role, content: self.content@ }
    }
}

impl Message {
    /// The message of `role` that says `content`.
    pub fn new(role: Role, content: String) -> (message: Message)
        ensures
            message@ == (MessageView { role, content: content@ }),
    {
        Message { role, content }
    }

    /// Who the message is attributed to.
    pub fn role(&self) -> (role: Role)
        ensures
            role == self@.role,
    {
        self.role
    }

    /// What the message says.
    pub fn content(&self) -> (content: &str)
        ensures
            content@ == self@.content,
    {
        self.content.as_str()
    }
}

impl Clone for Message {
    fn clone(&self) -> (copy: Message)
        ensures
            copy@ == self@,
    {
        Message { role: self.role, content: self.content.clone() }
    }
}

/// The messages of a sequence, each as plain values, in order.
pub open spec fn message_views(messages: Seq<Message>) -> Seq<MessageView> {
    messages.map_values(|m: Message| m@)
}

/// One alternative completion offered by the service.
#[derive(Debug, PartialEq, Eq)]
pub struct Choice {
    pub message: Message,
}

/// The body of a successful response. Only the first choice is ever
/// consulted; a result without choices is malformed, and whoever reads it
/// has to treat it as a failure.
#[derive(Debug, PartialEq, Eq)]
pub struct CompletionResult {
    pub choices: Vec<Choice>,
}

impl CompletionResult {
    /// The text of the first choice, if there is one.
    pub open spec fn first_content(&self) -> Option<Seq<char>> {
        if self.choices@.len() > 0 {
            Some(self.choices@[0].message@.content)
        } else {
            None
        }
    }

    /// Copies out the text of the first choice. Returns `None` exactly when
    /// the result holds no choice at all.
    pub fn first_choice_content(&self) -> (content: Option<String>)
        ensures
            match self.first_content() {
                Some(text) => content is Some && content->0@ == text,
                None => content is None,
            },
    {
        if self.choices.len() > 0 {
            Some(String::from_str(self.choices[0].message.content()))
        } else {
            None
        }
    }
}

/// The body of one request to the completion service. Built fresh for every
/// call: the messages vary, the model and the temperature never do.
#[derive(Debug, PartialEq, Eq)]
pub struct CompletionRequest {
    model: String,
    messages: Vec<Message>,
    temperature_hundredths: u32,
}

/// What a [`CompletionRequest`] holds, as plain values.
pub struct CompletionRequestView {
    pub model: Seq<char>,
    pub messages: Seq<MessageView>,
    pub temperature_hundredths: nat,
}

impl View for CompletionRequest {
    type V = CompletionRequestView;

    closed spec fn view(&self) -> CompletionRequestView {
        CompletionRequestView {
            model: self.model@,
            messages: message_views(self.messages@),
            temperature_hundredths: self.temperature_hundredths as nat,
        }
    }
}

impl CompletionRequest {
    #[verifier::type_invariant]
    spec fn fixed_settings(&self) -> bool {
        &&& self.model@ == MODEL@
        &&& self.temperature_hundredths == TEMPERATURE_HUNDREDTHS
    }

    /// The request that carries `messages`, in their order, under the fixed
    /// model and temperature.
    pub fn new(messages: Vec<Message>) -> (request: CompletionRequest)
        ensures
            request@ == (CompletionRequestView {
                model: MODEL@,
                messages: message_views(messages@),
                temperature_hundredths: TEMPERATURE_HUNDREDTHS as nat,
            }),
    {
        CompletionRequest {
            model: String::from_str(MODEL),
            messages,
            temperature_hundredths: TEMPERATURE_HUNDREDTHS,
        }
    }

    /// The model the request names: always [`MODEL`].
    pub fn model(&self) -> (model: &str)
        ensures
            model@ == self@.model,
            model@ == MODEL@,
    {
        proof {
            use_type_invariant(self);
        }
        self.model.as_str()
    }

    /// The messages the request carries.
    pub fn messages(&self) -> (messages: &Vec<Message>)
        ensures
            message_views(messages@) == self@.messages,
    {
        &self.messages
    }

    /// The temperature of the request, in hundredths: always
    /// [`TEMPERATURE_HUNDREDTHS`].
    pub fn temperature_hundredths(&self) -> (hundredths: u32)
        ensures
            hundredths == self@.temperature_hundredths,
            hundredths == TEMPERATURE_HUNDREDTHS,
    {
        proof {
            use_type_invariant(self);
        }
        self.temperature_hundredths
    }
}

} // verus!
