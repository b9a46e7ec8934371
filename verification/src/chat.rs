use vstd::prelude::*;
use async_openai::error::OpenAIError;
use async_openai::types::{
    ChatCompletionRequestMessage, ChatCompletionRequestSystemMessageArgs,
    ChatCompletionRequestUserMessageArgs, ChatCompletionResponseFormat, CreateChatCompletionRequest,
    CreateChatCompletionRequestArgs,
};
use crate::error::GameError;

verus! {

#[verifier::external_type_specification]
#[verifier::external_body]
pub struct ExChatCompletionRequestMessage(ChatCompletionRequestMessage);

#[verifier::external_type_specification]
#[verifier::external_body]
pub struct ExCreateChatCompletionRequest(CreateChatCompletionRequest);

#[verifier::external_type_specification]
#[verifier::external_body]
pub struct ExOpenAIError(OpenAIError);

#[verifier::external_type_specification]
#[verifier::external_body]
pub struct ExChatCompletionResponseFormat(ChatCompletionResponseFormat);

#[verifier::external_type_specification]
#[verifier::external_body]
pub struct ExSerdeJsonError(serde_json::Error);

/// The JSON form of the reply format that asks for JSON objects. The format's one
/// field is named `type`, a keyword of Rust, so the value is read from this form.
pub const JSON_OBJECT_FORMAT: &'static str = "{\"type\":\"json_object\"}";

/// Who speaks a message sent to the chat model.
#[derive(Clone, Copy, Debug, PartialEq, Eq, Structural)]
pub enum Role {
    System,
    User,
}

/// A message sent to the chat model.
#[derive(Debug)]
pub struct ChatMessage {
    pub role: Role,
    pub content: String,
}

/// What form the chat model's replies are asked to take.
#[derive(Clone, Copy, Debug, PartialEq, Eq, Structural)]
pub enum ReplyFormat {
    /// No form is asked for.
    Unspecified,
    /// Each reply is a JSON object, and the given number of replies is asked for.
    JsonObject { choices: u8 },
}

/// The author and text of a message of async-openai, as the builders below set them.
pub uninterp spec fn openai_message_fields(m: ChatCompletionRequestMessage) -> (Role, Seq<char>);

/// The model that a request of async-openai names.
pub uninterp spec fn openai_request_model(r: CreateChatCompletionRequest) -> Seq<char>;

/// The messages that a request of async-openai holds, each by its author and text.
pub uninterp spec fn openai_request_messages(r: CreateChatCompletionRequest) -> Seq<(Role, Seq<char>)>;

/// How many replies a request of async-openai asks for, where it asks for a number.
pub uninterp spec fn openai_request_choices(r: CreateChatCompletionRequest) -> Option<u8>;

/// Whether a request of async-openai asks for a reply format.
pub uninterp spec fn openai_request_sets_format(r: CreateChatCompletionRequest) -> bool;

/// Whether a reply format of async-openai is the JSON-object format.
pub uninterp spec fn openai_format_is_json_object(f: ChatCompletionResponseFormat) -> bool;

/// Whether a request of async-openai asks for replies in the JSON-object format.
pub uninterp spec fn openai_request_json_object(r: CreateChatCompletionRequest) -> bool;

/// The author and text of each message.
pub open spec fn plain_messages(ms: Seq<ChatMessage>) -> Seq<(Role, Seq<char>)> {
    ms.map_values(|m: ChatMessage| (m.role, m.content@))
}

/// The author and text of each message of async-openai.
pub open spec fn openai_fields(ms: Seq<ChatCompletionRequestMessage>) -> Seq<(Role, Seq<char>)> {
    ms.map_values(|m: ChatCompletionRequestMessage| openai_message_fields(m))
}

/// A request of async-openai that names the model, holds the messages in order,
/// and asks for the reply format and number of replies that `format` asks for.
pub open spec fn openai_request_is(
    r: CreateChatCompletionRequest,
    model: Seq<char>,
    messages: Seq<(Role, Seq<char>)>,
    format: ReplyFormat,
) -> bool {
    &&& openai_request_model(r) == model
    &&& openai_request_messages(r) == messages
    &&& match format {
        ReplyFormat::Unspecified => openai_request_choices(r) == None::<u8>
            && !openai_request_sets_format(r) && !openai_request_json_object(r),
        ReplyFormat::JsonObject { choices } => openai_request_choices(r) == Some(choices)
            && openai_request_sets_format(r) && openai_request_json_object(r),
    }
}

/// A request for the chat model's replies.
#[derive(Debug)]
pub struct ChatRequest {
    pub model: String,
    pub messages: Vec<ChatMessage>,
    pub format: ReplyFormat,
}

/// Builds a system message with `ChatCompletionRequestSystemMessageArgs` of async-openai.
/// Every field of that builder has a default, so its `build` cannot fail: the
/// contract claims that the result is `Ok`, a system message whose content is the
/// given text.
#[verifier::external_body]
fn build_system_message(content: String) -> (r: Result<ChatCompletionRequestMessage, OpenAIError>)
    ensures
        r is Ok,
        r is Ok ==> openai_message_fields(r->Ok_0) == (Role::System, content@),
{
    ChatCompletionRequestSystemMessageArgs::default().content(content).build().map(
        ChatCompletionRequestMessage::System,
    )
}

/// Builds a user message with `ChatCompletionRequestUserMessageArgs` of async-openai.
/// Every field of that builder has a default, so its `build` cannot fail: the
/// contract claims that the result is `Ok`, a user message whose content is the
/// given text.
#[verifier::external_body]
fn build_user_message(content: String) -> (r: Result<ChatCompletionRequestMessage, OpenAIError>)
    ensures
        r is Ok,
        r is Ok ==> openai_message_fields(r->Ok_0) == (Role::User, content@),
{
    ChatCompletionRequestUserMessageArgs::default().content(content).build().map(
        ChatCompletionRequestMessage::User,
    )
}

/// Builds a request with `CreateChatCompletionRequestArgs` of async-openai from a model
/// and messages. Every field of that builder has a default, so its `build` cannot fail:
/// the contract claims that the result is `Ok`, a request that names the model, holds
/// the messages in order, and sets neither a number of replies nor a reply format.
#[verifier::external_body]
pub(crate) fn build_chat_request(model: String, messages: Vec<ChatCompletionRequestMessage>) -> (r: Result<
    CreateChatCompletionRequest,
    OpenAIError,
>)
    ensures
        r is Ok,
        r is Ok ==> openai_request_model(r->Ok_0) == model@,
        r is Ok ==> openai_request_messages(r->Ok_0) == messages@.map_values(
            |m: ChatCompletionRequestMessage| openai_message_fields(m),
        ),
        r is Ok ==> openai_request_choices(r->Ok_0) == None::<u8>,
        r is Ok ==> !openai_request_sets_format(r->Ok_0),
        r is Ok ==> !openai_request_json_object(r->Ok_0),
{
    CreateChatCompletionRequestArgs::default().model(model).messages(messages).build()
}

/// Reads a reply format of async-openai from its JSON form with `serde_json::from_str`.
/// The format derives `Deserialize` with its variants renamed to snake case, so the
/// contract claims that the text `{"type":"json_object"}` is read, as the JSON-object
/// format. Of other texts nothing is claimed.
#[verifier::external_body]
fn response_format_from_json(text: &str) -> (r: Result<ChatCompletionResponseFormat, serde_json::Error>)
    ensures
        text@ == JSON_OBJECT_FORMAT@ ==> r is Ok,
        r is Ok && text@ == JSON_OBJECT_FORMAT@ ==> openai_format_is_json_object(r->Ok_0),
{
    serde_json::from_str(text)
}

/// Builds a request with `CreateChatCompletionRequestArgs` of async-openai from a model
/// and messages, asking for `n` replies in the given format. Every field of that builder
/// has a default, so its `build` cannot fail: the contract claims that the result is
/// `Ok`, a request that names the model, holds the messages in order, asks for `n`
/// replies and sets the given reply format, which asks for JSON objects exactly when
/// `format` is the JSON-object format.
#[verifier::external_body]
fn build_json_chat_request(
    model: String,
    messages: Vec<ChatCompletionRequestMessage>,
    format: ChatCompletionResponseFormat,
    n: u8,
) -> (r: Result<CreateChatCompletionRequest, OpenAIError>)
    ensures
        r is Ok,
        r is Ok ==> openai_request_model(r->Ok_0) == model@,
        r is Ok ==> openai_request_messages(r->Ok_0) == messages@.map_values(
            |m: ChatCompletionRequestMessage| openai_message_fields(m),
        ),
        r is Ok ==> openai_request_choices(r->Ok_0) == Some(n),
        r is Ok ==> openai_request_sets_format(r->Ok_0),
        r is Ok ==> openai_request_json_object(r->Ok_0) == openai_format_is_json_object(format),
{
    CreateChatCompletionRequestArgs::default().model(model).messages(messages).response_format(
        format,
    ).n(n).build()
}

impl ChatMessage {
    pub fn new(role: Role, content: String) -> (m: ChatMessage)
        ensures
            m.role == role,
            m.content == content,
    {
        ChatMessage { role, content }
    }

    /// The message in the form that async-openai sends; fails with `error` where
    /// the message cannot be built.
    pub fn to_openai(&self, error: GameError) -> (r: Result<ChatCompletionRequestMessage, GameError>)
        ensures
            r matches Ok(m) && openai_message_fields(m) == (self.role, self.content@),
    {
        let built = match self.role {
            Role::System => build_system_message(self.content.clone()),
            Role::User => build_user_message(self.content.clone()),
        };
        match built {
            Ok(m) => Ok(m),
            Err(_) => Err(error),
        }
    }
}

/// The messages in the form that async-openai sends; fails with `error` where one
/// of them cannot be built.
pub fn messages_to_openai(messages: &Vec<ChatMessage>, error: GameError) -> (r: Result<
    Vec<ChatCompletionRequestMessage>,
    GameError,
>)
    ensures
        r matches Ok(v) && openai_fields(v@) == plain_messages(messages@),
{
    let mut out: Vec<ChatCompletionRequestMessage> = Vec::new();
    let n = messages.len();
    let mut i: usize = 0;
    while i < n
        invariant
            n == messages.len(),
            i <= n,
            openai_fields(out@) == plain_messages(messages@.take(i as int)),
        decreases n - i,
    {
        match messages[i].to_openai(error) {
            Ok(m) => {
                let ghost before = out@;
                out.push(m);
                assert(out@ == before.push(m));
                assert(messages@.take(i + 1) =~= messages@.take(i as int).push(messages@[i as int]));
                assert(openai_fields(out@) =~= openai_fields(before).push(openai_message_fields(m)));
                assert(plain_messages(messages@.take(i + 1)) =~= plain_messages(messages@.take(i as int)).push(
                    (messages@[i as int].role, messages@[i as int].content@),
                ));
            },
            Err(e) => {
                return Err(e);
            },
        }
        i = i + 1;
    }
    assert(messages@.take(n as int) =~= messages@);
    Ok(out)
}

impl ChatRequest {
    /// The request in the form that async-openai sends; it is always built.
    pub fn to_openai(&self) -> (r: Result<CreateChatCompletionRequest, GameError>)
        ensures
            r is Ok,
            r matches Ok(q) ==> openai_request_is(q, self.model@, plain_messages(self.messages@), self.format),
    {
        let messages = match messages_to_openai(&self.messages, GameError::RequestBuild) {
            Ok(v) => v,
            Err(e) => {
                return Err(e);
            },
        };
        let built = match self.format {
            ReplyFormat::Unspecified => build_chat_request(self.model.clone(), messages),
            ReplyFormat::JsonObject { choices } => {
                match response_format_from_json(JSON_OBJECT_FORMAT) {
                    Ok(format) => build_json_chat_request(
                        self.model.clone(),
                        messages,
                        format,
                        choices,
                    ),
                    Err(_) => {
                        return Err(GameError::RequestBuild);
                    },
                }
            },
        };
        match built {
            Ok(r) => Ok(r),
            Err(_) => Err(GameError::RequestBuild),
        }
    }
}

} // verus!
