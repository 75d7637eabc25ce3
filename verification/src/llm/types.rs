//! The data of the chat-completion API: messages, responses and errors.
use vstd::prelude::*;

verus! {

/// Who wrote a message.
#[derive(Clone, Copy, Debug, PartialEq, Eq, Structural)]
pub enum Role {
    System,
    User,
    Assistant,
    Tool,
}

/// A URL that points at a picture or other media.
#[derive(Clone, Debug)]
pub struct MediaUrl {
    pub url: String,
}

/// One part of a message that mixes text and media.
#[derive(Clone, Debug)]
pub enum MultimodalContentItem {
    Text { text: String },
    ImageUrl { image_url: MediaUrl },
}

/// What a message says: plain text, or text mixed with media.
#[derive(Clone, Debug)]
pub enum MessageContent {
    Text(String),
    Multimodal(Vec<MultimodalContentItem>),
}

/// A message of a conversation.
#[derive(Clone, Debug)]
pub struct Message {
    pub role: Role,
    pub content: MessageContent,
}

/// The abstract value of a `MultimodalContentItem`.
pub enum ItemView {
    Text(Seq<char>),
    ImageUrl(Seq<char>),
}

/// The abstract value of a `MessageContent`.
pub enum ContentView {
    Text(Seq<char>),
    Multimodal(Seq<ItemView>),
}

/// The abstract value of a `Message`.
pub struct MessageView {
    pub role: Role,
    pub content: ContentView,
}

impl View for MultimodalContentItem {
    type V = ItemView;

    open spec fn view(&self) -> ItemView {
        match self {
            MultimodalContentItem::Text { text } => ItemView::Text(text@),
            MultimodalContentItem::ImageUrl { image_url } => ItemView::ImageUrl(image_url.url@),
        }
    }
}

impl View for MessageContent {
    type V = ContentView;

    open spec fn view(&self) -> ContentView {
        match self {
            MessageContent::Text(s) => ContentView::Text(s@),
            MessageContent::Multimodal(items) => ContentView::Multimodal(
                items@.map_values(|i: MultimodalContentItem| i@),
            ),
        }
    }
}

impl View for Message {
    type V = MessageView;

    open spec fn view(&self) -> MessageView {
        MessageView { role: self.role, content: self.content@ }
    }
}

/// The abstract value of a text message from `role` saying `text`.
pub open spec fn text_message(role: Role, text: Seq<char>) -> MessageView {
    MessageView { role, content: ContentView::Text(text) }
}

impl MultimodalContentItem {
    /// A copy of this item.
    pub fn duplicate(&self) -> (r: MultimodalContentItem)
        ensures
            r@ == self@,
    {
        match self {
            MultimodalContentItem::Text { text } => MultimodalContentItem::Text { text: text.clone() },
            MultimodalContentItem::ImageUrl { image_url } => MultimodalContentItem::ImageUrl {
                image_url: MediaUrl { url: image_url.url.clone() },
            },
        }
    }
}

impl MessageContent {
    /// A copy of this content.
    pub fn duplicate(&self) -> (r: MessageContent)
        ensures
            r@ == self@,
    {
        match self {
            MessageContent::Text(s) => MessageContent::Text(s.clone()),
            MessageContent::Multimodal(items) => {
                let mut out: Vec<MultimodalContentItem> = Vec::new();
                for i in 0..items.len()
                    invariant
                        out@.len() == i,
                        forall|j: int| 0 <= j < i ==> #[trigger] out@[j]@ == items@[j]@,
                {
                    out.push(items[i].duplicate());
                }
                assert(out@.map_values(|x: MultimodalContentItem| x@) =~= items@.map_values(
                    |x: MultimodalContentItem| x@,
                ));
                MessageContent::Multimodal(out)
            },
        }
    }
}

impl Message {
    /// A text message from `role`.
    pub fn new(role: Role, content: String) -> (r: Message)
        ensures
            r@ == text_message(role, content@),
    {
        Message { role, content: MessageContent::Text(content) }
    }

    /// A message from `role` with the given content.
    pub fn with_content(role: Role, content: MessageContent) -> (r: Message)
        ensures
            r@ == (MessageView { role, content: content@ }),
    {
        Message { role, content }
    }

    /// A copy of this message.
    pub fn duplicate(&self) -> (r: Message)
        ensures
            r@ == self@,
    {
        Message { role: self.role, content: self.content.duplicate() }
    }
}

/// The message of one choice of a response.
#[derive(Clone, Debug)]
pub struct ChatCompletionMessage {
    pub role: Role,
    pub content: Option<String>,
    pub reasoning_content: Option<String>,
}

/// One of the answers that a response offers.
#[derive(Clone, Debug)]
pub struct Choice {
    pub index: u32,
    pub message: ChatCompletionMessage,
    pub finish_reason: Option<String>,
}

/// Token counts of the prompt that were served from the cache.
#[derive(Clone, Debug)]
pub struct PromptTokensDetails {
    pub cached_tokens: u32,
}

/// How many tokens a request used.
#[derive(Clone, Debug)]
pub struct Usage {
    pub prompt_tokens: u32,
    pub completion_tokens: u32,
    pub total_tokens: u32,
    pub prompt_tokens_details: Option<PromptTokensDetails>,
}

/// A result of a web search that the model ran while answering.
#[derive(Clone, Debug)]
pub struct WebSearchResult {
    pub title: String,
    pub link: String,
    pub content: String,
}

/// A reply of the chat-completion endpoint.
#[derive(Clone, Debug)]
pub struct ChatCompletionResponse {
    pub id: String,
    pub request_id: Option<String>,
    pub created: u64,
    pub model: String,
    pub choices: Vec<Choice>,
    pub usage: Usage,
    pub web_search: Option<Vec<WebSearchResult>>,
}

/// The error body that the endpoint sends with a failing status.
#[derive(Clone, Debug)]
pub struct ErrorResponse {
    pub code: i32,
    pub message: String,
}

/// The text of the first choice of `response`, empty when that choice has no
/// content; `None` when the response has no choice.
pub open spec fn first_choice_text(response: ChatCompletionResponse) -> Option<Seq<char>> {
    if response.choices@.len() == 0 {
        None
    } else {
        match response.choices@[0].message.content {
            Some(s) => Some(s@),
            None => Some(Seq::empty()),
        }
    }
}

} // verus!
