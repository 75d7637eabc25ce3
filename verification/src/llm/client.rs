//! The conversation kept with the model: its message history, how a reply of
//! the endpoint enters it, and the errors of an exchange.
use vstd::prelude::*;

use crate::llm::types;
use crate::llm::types::{
    ChatCompletionResponse, ContentView, ErrorResponse, Message, MessageContent, MessageView, Role,
};
use crate::text::decimal_string;

verus! {

/// Why an exchange with the endpoint failed.
#[derive(Clone, Debug)]
pub enum LLMError {
    RequestError(String),
    ResponseError(String),
    DeserializationError(String),
    ApiError(ErrorResponse),
    ThreadError(String),
}

/// The abstract value of an `LLMError`.
pub enum ErrorView {
    Request(Seq<char>),
    Response(Seq<char>),
    Deserialization(Seq<char>),
    Api(i32, Seq<char>),
    Thread(Seq<char>),
}

impl View for LLMError {
    type V = ErrorView;

    open spec fn view(&self) -> ErrorView {
        match self {
            LLMError::RequestError(m) => ErrorView::Request(m@),
            LLMError::ResponseError(m) => ErrorView::Response(m@),
            LLMError::DeserializationError(m) => ErrorView::Deserialization(m@),
            LLMError::ApiError(err) => ErrorView::Api(err.code, err.message@),
            LLMError::ThreadError(m) => ErrorView::Thread(m@),
        }
    }
}

/// The text that describes an error to a person.
pub open spec fn error_text(e: ErrorView) -> Seq<char> {
    match e {
        ErrorView::Request(m) => "Request error: "@ + m,
        ErrorView::Response(m) => "Response error: "@ + m,
        ErrorView::Deserialization(m) => "Deserialization error: "@ + m,
        ErrorView::Api(code, m) => "API error: "@ + crate::text::decimal(code as int) + " - "@ + m,
        ErrorView::Thread(m) => "Thread error: "@ + m,
    }
}

/// The detail of the error that a reply without any choice gives.
pub open spec fn no_choices_text() -> Seq<char> {
    "No choices in response"@
}

fn prefixed(prefix: &str, rest: &str) -> (r: String)
    ensures
        r@ == prefix@ + rest@,
{
    String::from_str(prefix).concat(rest)
}

impl LLMError {
    /// Describes the error to a person.
    pub fn to_string(&self) -> (r: String)
        ensures
            r@ == error_text(self@),
    {
        match self {
            LLMError::RequestError(m) => prefixed("Request error: ", m.as_str()),
            LLMError::ResponseError(m) => prefixed("Response error: ", m.as_str()),
            LLMError::DeserializationError(m) => prefixed("Deserialization error: ", m.as_str()),
            LLMError::ApiError(err) => {
                let code = decimal_string(err.code);
                let head = prefixed("API error: ", code.as_str());
                let head = head.concat(" - ");
                head.concat(err.message.as_str())
            },
            LLMError::ThreadError(m) => prefixed("Thread error: ", m.as_str()),
        }
    }

    /// The error of a request that could not be encoded; `detail` says why.
    pub fn encode_failed(detail: &str) -> (r: LLMError)
        ensures
            r@ == ErrorView::Deserialization("Failed to serialize request: "@ + detail@),
    {
        LLMError::DeserializationError(prefixed("Failed to serialize request: ", detail))
    }

    /// The error of a request that could not be sent; `detail` says why.
    pub fn send_failed(detail: &str) -> (r: LLMError)
        ensures
            r@ == ErrorView::Request("Failed to send request: "@ + detail@),
    {
        LLMError::RequestError(prefixed("Failed to send request: ", detail))
    }

    /// The error of a successful reply whose body could not be read.
    pub fn read_failed(detail: &str) -> (r: LLMError)
        ensures
            r@ == ErrorView::Response("Failed to read response: "@ + detail@),
    {
        LLMError::ResponseError(prefixed("Failed to read response: ", detail))
    }

    /// The error of a background request whose result never came back.
    pub fn thread_failed(detail: &str) -> (r: LLMError)
        ensures
            r@ == ErrorView::Thread("Thread communication failed: "@ + detail@),
    {
        LLMError::ThreadError(prefixed("Thread communication failed: ", detail))
    }

    /// The error of a reply with a failing `status` whose body is `body`:
    /// the endpoint's own error when the body is one (`parsed`), else the
    /// status and the body.
    pub fn status_failed(status: &str, body: &str, parsed: Option<ErrorResponse>) -> (r: LLMError)
        ensures
            parsed matches Some(e) ==> r == LLMError::ApiError(e),
            parsed is None ==> r@ == ErrorView::Response(
                "Request failed with status "@ + status@ + ": "@ + body@,
            ),
    {
        match parsed {
            Some(e) => LLMError::ApiError(e),
            None => {
                let m = prefixed("Request failed with status ", status).concat(": ").concat(body);
                LLMError::ResponseError(m)
            },
        }
    }

    /// The error of a reply that offers no choice.
    pub fn no_choices() -> (r: LLMError)
        ensures
            r@ == ErrorView::Response(no_choices_text()),
    {
        LLMError::ResponseError(String::from_str("No choices in response"))
    }
}

/// What happened to a request that was sent in the background.
#[derive(Clone, Debug)]
pub enum AsyncResult {
    Success {
        user_message: Message,
        assistant_message: Message,
        full_response: ChatCompletionResponse,
    },
    Error(LLMError),
}

/// The abstract value of an `AsyncResult`: the two messages that a success
/// adds to the history, or the error.
pub enum AsyncView {
    Success(MessageView, MessageView),
    Error(ErrorView),
}

impl View for AsyncResult {
    type V = AsyncView;

    open spec fn view(&self) -> AsyncView {
        match self {
            AsyncResult::Success { user_message, assistant_message, .. } => AsyncView::Success(
                user_message@,
                assistant_message@,
            ),
            AsyncResult::Error(e) => AsyncView::Error(e@),
        }
    }
}

/// What a request for `message` that got `reply` reports back.
pub open spec fn async_result_of(
    message: Seq<char>,
    reply: Result<ChatCompletionResponse, LLMError>,
) -> AsyncView {
    match reply {
        Ok(response) => match types::first_choice_text(response) {
            Some(t) => AsyncView::Success(
                types::text_message(Role::User, message),
                types::text_message(Role::Assistant, t),
            ),
            None => AsyncView::Error(ErrorView::Response(no_choices_text())),
        },
        Err(e) => AsyncView::Error(e@),
    }
}

impl AsyncResult {
    /// The report of a request for `message` that got `reply`.
    pub fn from_reply(message: String, reply: Result<ChatCompletionResponse, LLMError>) -> (r:
        AsyncResult)
        ensures
            r@ == async_result_of(message@, reply),
            reply matches Ok(resp) ==> (types::first_choice_text(resp) is Some ==> (
            r matches AsyncResult::Success { full_response, .. } && full_response == resp)),
            reply matches Err(e) ==> r == AsyncResult::Error(e),
    {
        match reply {
            Ok(response) => {
                if response.choices.len() > 0 {
                    let content = match &response.choices[0].message.content {
                        Some(s) => s.clone(),
                        None => String::new(),
                    };
                    AsyncResult::Success {
                        user_message: Message::new(Role::User, message),
                        assistant_message: Message::new(Role::Assistant, content),
                        full_response: response,
                    }
                } else {
                    AsyncResult::Error(LLMError::no_choices())
                }
            },
            Err(e) => AsyncResult::Error(e),
        }
    }
}

/// The text of the body of a reply with a failing status: what could be
/// read, or a note that nothing could.
pub fn failure_body(read: Option<String>) -> (r: String)
    ensures
        r@ == (match read {
            Some(t) => t@,
            None => "Failed to read error response"@,
        }),
{
    match read {
        Some(t) => t,
        None => String::from_str("Failed to read error response"),
    }
}

/// The outcome of a reply with a successful status whose body `body` was
/// decoded into `decoded` (the decoder's error message when it failed).
pub fn decode_reply(body: &str, decoded: Result<ChatCompletionResponse, String>) -> (r: Result<
    ChatCompletionResponse,
    LLMError,
>)
    ensures
        decoded matches Ok(resp) ==> r == Ok::<ChatCompletionResponse, LLMError>(resp),
        decoded matches Err(d) ==> (r matches Err(e) && e@ == ErrorView::Deserialization(
            "Failed to deserialize response: "@ + d@ + " - Response: "@ + body@,
        )),
{
    match decoded {
        Ok(resp) => Ok(resp),
        Err(d) => {
            let m = prefixed("Failed to deserialize response: ", d.as_str()).concat(
                " - Response: ",
            ).concat(body);
            Err(LLMError::DeserializationError(m))
        },
    }
}

/// The value of the `Authorization` header that carries `api_token`.
pub fn bearer_value(api_token: &str) -> (r: String)
    ensures
        r@ == "Bearer "@ + api_token@,
{
    prefixed("Bearer ", api_token)
}

/// Text messages from `(role, text)` pairs, in order.
pub fn messages_from_strings(messages: Vec<(Role, String)>) -> (r: Vec<Message>)
    ensures
        r@.map_values(|m: Message| m@) == messages@.map_values(
            |p: (Role, String)| types::text_message(p.0, p.1@),
        ),
{
    let mut out: Vec<Message> = Vec::new();
    for i in 0..messages.len()
        invariant
            out@.len() == i,
            forall|j: int|
                0 <= j < i ==> #[trigger] out@[j]@ == types::text_message(
                    messages@[j].0,
                    messages@[j].1@,
                ),
    {
        let (role, text) = &messages[i];
        out.push(Message::new(*role, text.clone()));
    }
    assert(out@.map_values(|m: Message| m@) =~= messages@.map_values(
        |p: (Role, String)| types::text_message(p.0, p.1@),
    ));
    out
}

/// Text messages from the user, one for each of `texts`, in order.
pub fn user_messages(texts: Vec<String>) -> (r: Vec<Message>)
    ensures
        r@.map_values(|m: Message| m@) == texts@.map_values(
            |t: String| types::text_message(Role::User, t@),
        ),
{
    let mut out: Vec<Message> = Vec::new();
    for i in 0..texts.len()
        invariant
            out@.len() == i,
            forall|j: int|
                0 <= j < i ==> #[trigger] out@[j]@ == types::text_message(Role::User, texts@[j]@),
    {
        out.push(Message::new(Role::User, texts[i].clone()));
    }
    assert(out@.map_values(|m: Message| m@) =~= texts@.map_values(
        |t: String| types::text_message(Role::User, t@),
    ));
    out
}

/// A conversation with the model: the client it talks through and the
/// messages exchanged so far, the system prompt first.
#[derive(Clone, Debug)]
pub struct Conversation<L> {
    llm: L,
    messages: Vec<Message>,
}

/// The view of a result that carries a text.
pub open spec fn text_result(r: Result<String, LLMError>) -> Result<Seq<char>, ErrorView> {
    match r {
        Ok(s) => Ok(s@),
        Err(e) => Err(e@),
    }
}

/// The text of a message's content as a reply reports it: the text of a plain
/// message, nothing for a mixed one.
pub open spec fn plain_text(c: ContentView) -> Seq<char> {
    match c {
        ContentView::Text(s) => s,
        ContentView::Multimodal(_) => Seq::empty(),
    }
}

/// The history `h` after `message` from `role` was added.
pub open spec fn with_message(h: Seq<MessageView>, role: Role, message: Seq<char>) -> Seq<
    MessageView,
> {
    h.push(types::text_message(role, message))
}

/// The history `h` after it was cleared: its first message alone, if it has one.
pub open spec fn cleared(h: Seq<MessageView>) -> Seq<MessageView> {
    if h.len() > 0 {
        seq![h[0]]
    } else {
        Seq::empty()
    }
}

/// The history that follows `h` once `reply` arrived, and what is reported.
pub open spec fn after_reply(h: Seq<MessageView>, reply: Result<ChatCompletionResponse, LLMError>) -> (
    Seq<MessageView>,
    Result<Seq<char>, ErrorView>,
) {
    match reply {
        Ok(response) => match types::first_choice_text(response) {
            Some(t) => (h.push(types::text_message(Role::Assistant, t)), Ok(t)),
            None => (h, Err(ErrorView::Response(no_choices_text()))),
        },
        Err(e) => (h, Err(e@)),
    }
}

/// The history that follows `h` once a background result `a` was applied,
/// and what is reported.
pub open spec fn after_async(h: Seq<MessageView>, a: AsyncView) -> (
    Seq<MessageView>,
    Result<Seq<char>, ErrorView>,
) {
    match a {
        AsyncView::Success(user, assistant) => (
            h.push(user).push(assistant),
            Ok(plain_text(assistant.content)),
        ),
        AsyncView::Error(e) => (h, Err(e)),
    }
}

/// The history `h` once the full `response` was recorded.
pub open spec fn after_full_reply(h: Seq<MessageView>, response: ChatCompletionResponse) -> Seq<
    MessageView,
> {
    if response.choices@.len() > 0 && response.choices@[0].message.content is Some {
        h.push(types::text_message(Role::Assistant, response.choices@[0].message.content->0@))
    } else {
        h
    }
}

impl<L> View for Conversation<L> {
    type V = Seq<MessageView>;

    closed spec fn view(&self) -> Seq<MessageView> {
        self.messages@.map_values(|m: Message| m@)
    }
}

impl<L> Conversation<L> {
    /// The client that the conversation talks through.
    pub closed spec fn client(&self) -> L {
        self.llm
    }

    /// A conversation that holds only the system prompt.
    pub fn new(llm: L, system_prompt: String) -> (r: Self)
        ensures
            r@ == seq![types::text_message(Role::System, system_prompt@)],
            r.client() == llm,
    {
        let mut messages: Vec<Message> = Vec::new();
        messages.push(Message::new(Role::System, system_prompt));
        let r = Conversation { llm, messages };
        assert(r@ =~= seq![types::text_message(Role::System, system_prompt@)]);
        r
    }

    /// The client that the conversation talks through.
    pub fn llm(&self) -> (r: &L)
        ensures
            *r == self.client(),
    {
        &self.llm
    }

    /// Appends a text message.
    pub fn add_message(&mut self, role: Role, content: String)
        ensures
            final(self)@ == with_message(old(self)@, role, content@),
            final(self).client() == old(self).client(),
    {
        self.messages.push(Message::new(role, content));
        assert(self@ =~= with_message(old(self)@, role, content@));
    }

    /// The messages so far, the system prompt first.
    pub fn messages(&self) -> (r: &[Message])
        ensures
            r@.map_values(|m: Message| m@) == self@,
    {
        self.messages.as_slice()
    }

    /// A copy of the messages so far.
    pub fn history(&self) -> (r: Vec<Message>)
        ensures
            r@.map_values(|m: Message| m@) == self@,
    {
        let mut out: Vec<Message> = Vec::new();
        for i in 0..self.messages.len()
            invariant
                out@.len() == i,
                forall|j: int| 0 <= j < i ==> #[trigger] out@[j]@ == self.messages@[j]@,
        {
            out.push(self.messages[i].duplicate());
        }
        assert(out@.map_values(|m: Message| m@) =~= self@);
        out
    }

    /// Forgets every message but the first (the system prompt).
    pub fn clear(&mut self)
        ensures
            final(self)@ == cleared(old(self)@),
            final(self).client() == old(self).client(),
    {
        if self.messages.len() > 0 {
            self.messages.truncate(1);
        } else {
            self.messages.clear();
        }
        assert(self@ =~= cleared(old(self)@));
    }

    /// Records the endpoint's `reply` to the last message: the text of its
    /// first choice becomes the assistant's message and is returned.
    pub fn receive_reply(&mut self, reply: Result<ChatCompletionResponse, LLMError>) -> (r: Result<
        String,
        LLMError,
    >)
        ensures
            (final(self)@, text_result(r)) == after_reply(old(self)@, reply),
            final(self).client() == old(self).client(),
    {
        match reply {
            Ok(response) => {
                if response.choices.len() > 0 {
                    let content = match &response.choices[0].message.content {
                        Some(s) => s.clone(),
                        None => String::new(),
                    };
                    self.add_message(Role::Assistant, content.clone());
                    Ok(content)
                } else {
                    Err(LLMError::no_choices())
                }
            },
            Err(e) => Err(e),
        }
    }

    /// Records the full `response` to the last message: the content of its
    /// first choice, when there is one, becomes the assistant's message.
    pub fn receive_full_reply(&mut self, response: ChatCompletionResponse) -> (r:
        ChatCompletionResponse)
        ensures
            final(self)@ == after_full_reply(old(self)@, response),
            r == response,
            final(self).client() == old(self).client(),
    {
        if response.choices.len() > 0 {
            match &response.choices[0].message.content {
                Some(s) => {
                    self.add_message(Role::Assistant, s.clone());
                },
                None => {},
            }
        }
        response
    }

    /// Applies what a background request reported: a success appends the
    /// user's and the assistant's messages and gives the assistant's text.
    pub fn apply_async_result(&mut self, result: AsyncResult) -> (r: Result<String, LLMError>)
        ensures
            (final(self)@, text_result(r)) == after_async(old(self)@, result@),
            final(self).client() == old(self).client(),
    {
        match result {
            AsyncResult::Success { user_message, assistant_message, full_response: _ } => {
                let content = match &assistant_message.content {
                    MessageContent::Text(s) => s.clone(),
                    _ => String::new(),
                };
                self.messages.push(user_message);
                self.messages.push(assistant_message);
                assert(self@ =~= old(self)@.push(user_message@).push(assistant_message@));
                Ok(content)
            },
            AsyncResult::Error(e) => Err(e),
        }
    }
}

/// A successful exchange leaves the same history and reports the same text
/// whether it ran in the foreground (the user's message added, then the
/// reply received) or in the background (the report of the request applied).
pub proof fn lemma_background_exchange_agrees(
    h: Seq<MessageView>,
    message: Seq<char>,
    response: ChatCompletionResponse,
)
    requires
        types::first_choice_text(response) is Some,
    ensures
        after_reply(with_message(h, Role::User, message), Ok(response)) == after_async(
            h,
            async_result_of(message, Ok(response)),
        ),
{
}

/// The system prompt stays the first message whatever is done to a
/// conversation: adding, clearing, receiving a reply or applying a result.
pub proof fn lemma_first_message_stays(
    h: Seq<MessageView>,
    role: Role,
    message: Seq<char>,
    reply: Result<ChatCompletionResponse, LLMError>,
    response: ChatCompletionResponse,
    a: AsyncView,
)
    requires
        h.len() > 0,
    ensures
        with_message(h, role, message)[0] == h[0],
        cleared(h)[0] == h[0],
        after_reply(h, reply).0[0] == h[0],
        after_full_reply(h, response)[0] == h[0],
        after_async(h, a).0[0] == h[0],
{
}

/// Clearing keeps at most one message, and clearing again changes nothing.
pub proof fn lemma_clear_idempotent(h: Seq<MessageView>)
    ensures
        cleared(h).len() <= 1,
        cleared(cleared(h)) == cleared(h),
{
    if h.len() > 0 {
        assert(cleared(cleared(h)) =~= cleared(h));
    }
}

/// A failed exchange leaves the history as it was and reports the error.
pub proof fn lemma_failure_keeps_history(h: Seq<MessageView>, e: LLMError, message: Seq<char>)
    ensures
        after_reply(h, Err(e)) == (h, Err::<Seq<char>, ErrorView>(e@)),
        after_async(h, async_result_of(message, Err(e))) == (h, Err::<Seq<char>, ErrorView>(e@)),
{
}

/// Adding a message from a role appends exactly one message, from that very
/// role, saying the given text, and keeps every earlier message.
pub proof fn lemma_added_message_is_from_role(h: Seq<MessageView>, role: Role, m: Seq<char>)
    ensures
        with_message(h, role, m).len() == h.len() + 1,
        with_message(h, role, m).last().role == role,
        with_message(h, role, m).last().content == ContentView::Text(m),
        with_message(h, role, m).subrange(0, h.len() as int) == h,
{
    assert(with_message(h, role, m).subrange(0, h.len() as int) =~= h);
}

/// A recorded reply is the assistant's: recording the full response whose
/// first choice has content leaves the same history as receiving that reply,
/// one message longer, ending with the assistant saying that content.
pub proof fn lemma_full_reply_is_assistants(h: Seq<MessageView>, response: ChatCompletionResponse)
    requires
        response.choices@.len() > 0,
        response.choices@[0].message.content is Some,
    ensures
        after_full_reply(h, response) == after_reply(h, Ok(response)).0,
        after_full_reply(h, response).len() == h.len() + 1,
        after_full_reply(h, response).last().role == Role::Assistant,
        after_full_reply(h, response).last().content == ContentView::Text(
            response.choices@[0].message.content->0@,
        ),
        after_full_reply(h, response).subrange(0, h.len() as int) == h,
{
    assert(after_full_reply(h, response).subrange(0, h.len() as int) =~= h);
}

} // verus!
