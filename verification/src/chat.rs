//! The chat data model: messages, tool descriptors, completion requests
//! and completion responses, together with the small gateway-side
//! transformations on them.

use vstd::prelude::*;
use vstd::string::*;

use crate::utils::{gen_chat_id, seq_starts_with};

verus! {

#[derive(Clone, Copy, PartialEq, Eq, Structural, Debug)]
pub enum ChatCompletionRole {
    System,
    User,
    Assistant,
    Tool,
}

/// A message body: plain text, or a list of text parts.
pub enum MessageContent {
    Text(String),
    Parts(Vec<String>),
}

/// The texts a body carries, in order.
pub open spec fn texts_of(c: MessageContent) -> Seq<Seq<char>> {
    match c {
        MessageContent::Text(s) => seq![s@],
        MessageContent::Parts(v) => v@.map_values(|x: String| x@),
    }
}

/// A tool invocation as a provider states it: the tool's name and the raw
/// argument payload.
pub struct ToolFunction {
    pub name: String,
    pub arguments: String,
}

/// One entry of a structured tool-call list; only entries whose `ty` is
/// `"function"` name a callable tool.
pub struct ToolCall {
    pub ty: String,
    pub function: ToolFunction,
}

pub struct ChatCompletionMessage {
    pub role: ChatCompletionRole,
    pub content: MessageContent,
    pub tool_calls: Option<Vec<ToolCall>>,
}

impl MessageContent {
    /// The texts this body carries, in order.
    pub fn to_texts(&self) -> (r: Vec<String>)
        ensures
            r@.map_values(|x: String| x@) == texts_of(*self),
    {
        match self {
            MessageContent::Text(s) => {
                let mut v: Vec<String> = Vec::new();
                v.push(s.clone());
                proof {
                    assert(v@.map_values(|x: String| x@) =~= texts_of(*self));
                }
                v
            },
            MessageContent::Parts(parts) => {
                let mut v: Vec<String> = Vec::new();
                let n = parts.len();
                let mut i: usize = 0;
                while i < n
                    invariant
                        i <= n,
                        n == parts@.len(),
                        v@.len() == i,
                        forall|k: int| 0 <= k < i ==> v@[k]@ == parts@[k]@,
                    decreases n - i,
                {
                    v.push(parts[i].clone());
                    i += 1;
                }
                proof {
                    assert(v@.map_values(|x: String| x@) =~= texts_of(*self));
                }
                v
            },
        }
    }
}

impl ChatCompletionMessage {
    /// A plain system-role text message.
    pub fn system(text: String) -> (m: Self)
        ensures
            m.role == ChatCompletionRole::System,
            m.content == MessageContent::Text(text),
            m.tool_calls is None,
    {
        ChatCompletionMessage {
            role: ChatCompletionRole::System,
            content: MessageContent::Text(text),
            tool_calls: None,
        }
    }

    /// A plain user-role text message.
    pub fn user(text: String) -> (m: Self)
        ensures
            m.role == ChatCompletionRole::User,
            m.content == MessageContent::Text(text),
            m.tool_calls is None,
    {
        ChatCompletionMessage {
            role: ChatCompletionRole::User,
            content: MessageContent::Text(text),
            tool_calls: None,
        }
    }

    /// An assistant-role text message, as a backend reply carries it.
    pub fn assistant(text: String) -> (m: Self)
        ensures
            m.role == ChatCompletionRole::Assistant,
            m.content == MessageContent::Text(text),
            m.tool_calls is None,
    {
        ChatCompletionMessage {
            role: ChatCompletionRole::Assistant,
            content: MessageContent::Text(text),
            tool_calls: None,
        }
    }
}

/// The mathematical shadow of a message body.
pub enum ContentView {
    Text(Seq<char>),
    Parts(Seq<Seq<char>>),
}

impl View for MessageContent {
    type V = ContentView;

    open spec fn view(&self) -> ContentView {
        match self {
            MessageContent::Text(s) => ContentView::Text(s@),
            MessageContent::Parts(v) => ContentView::Parts(v@.map_values(|x: String| x@)),
        }
    }
}

impl View for ToolFunction {
    type V = (Seq<char>, Seq<char>);

    open spec fn view(&self) -> (Seq<char>, Seq<char>) {
        (self.name@, self.arguments@)
    }
}

impl View for ToolCall {
    type V = (Seq<char>, (Seq<char>, Seq<char>));

    open spec fn view(&self) -> (Seq<char>, (Seq<char>, Seq<char>)) {
        (self.ty@, self.function@)
    }
}

/// The mathematical shadow of a message.
pub struct MessageView {
    pub role: ChatCompletionRole,
    pub content: ContentView,
    pub tool_calls: Option<Seq<(Seq<char>, (Seq<char>, Seq<char>))>>,
}

impl View for ChatCompletionMessage {
    type V = MessageView;

    open spec fn view(&self) -> MessageView {
        MessageView {
            role: self.role,
            content: self.content@,
            tool_calls: match self.tool_calls {
                Some(tcs) => Some(tcs@.map_values(|tc: ToolCall| tc@)),
                None => None,
            },
        }
    }
}

/// A run of messages, each under its view.
pub open spec fn msgs_view(s: Seq<ChatCompletionMessage>) -> Seq<MessageView> {
    s.map_values(|m: ChatCompletionMessage| m@)
}

/// A plain single-text message of the given role.
pub open spec fn is_plain_message(m: MessageView, role: ChatCompletionRole, text: Seq<char>) -> bool {
    m.role == role && m.content == ContentView::Text(text) && m.tool_calls is None
}

impl Clone for ToolFunction {
    fn clone(&self) -> (res: Self)
        ensures
            res@ == self@,
    {
        ToolFunction { name: self.name.clone(), arguments: self.arguments.clone() }
    }
}

impl Clone for ToolCall {
    fn clone(&self) -> (res: Self)
        ensures
            res@ == self@,
    {
        ToolCall { ty: self.ty.clone(), function: self.function.clone() }
    }
}

impl Clone for MessageContent {
    fn clone(&self) -> (res: Self)
        ensures
            res@ == self@,
    {
        match self {
            MessageContent::Text(s) => MessageContent::Text(s.clone()),
            MessageContent::Parts(parts) => {
                let mut v: Vec<String> = Vec::new();
                let n = parts.len();
                let mut i: usize = 0;
                while i < n
                    invariant
                        i <= n,
                        n == parts@.len(),
                        v@.len() == i,
                        forall|k: int| 0 <= k < i ==> v@[k]@ == parts@[k]@,
                    decreases n - i,
                {
                    v.push(parts[i].clone());
                    i += 1;
                }
                let r = MessageContent::Parts(v);
                proof {
                    assert(v@.map_values(|x: String| x@) =~= parts@.map_values(|x: String| x@));
                }
                r
            },
        }
    }
}

impl Clone for ChatCompletionMessage {
    fn clone(&self) -> (res: Self)
        ensures
            res@ == self@,
    {
        let tool_calls = match &self.tool_calls {
            None => None,
            Some(tcs) => {
                let mut v: Vec<ToolCall> = Vec::new();
                let n = tcs.len();
                let mut i: usize = 0;
                while i < n
                    invariant
                        i <= n,
                        n == tcs@.len(),
                        v@.len() == i,
                        forall|k: int| 0 <= k < i ==> v@[k]@ == tcs@[k]@,
                    decreases n - i,
                {
                    v.push(tcs[i].clone());
                    i += 1;
                }
                proof {
                    assert(v@.map_values(|tc: ToolCall| tc@) =~= tcs@.map_values(
                        |tc: ToolCall| tc@,
                    ));
                }
                Some(v)
            },
        };
        ChatCompletionMessage { role: self.role, content: self.content.clone(), tool_calls }
    }
}

/// A tool catalogue entry handed to the provider: name, description and
/// the parameter schema as JSON text.
pub struct ToolInfo {
    pub name: String,
    pub description: String,
    pub parameters: String,
}

impl View for ToolInfo {
    type V = (Seq<char>, Seq<char>, Seq<char>);

    open spec fn view(&self) -> (Seq<char>, Seq<char>, Seq<char>) {
        (self.name@, self.description@, self.parameters@)
    }
}

/// An optional string under its view.
pub open spec fn opt_view(o: Option<String>) -> Option<Seq<char>> {
    match o {
        Some(s) => Some(s@),
        None => None,
    }
}

pub struct ChatCompletionRequest {
    pub model: Option<String>,
    pub messages: Vec<ChatCompletionMessage>,
    pub tools: Option<Vec<ToolInfo>>,
    pub stream: Option<bool>,
    pub user: Option<String>,
}

pub struct ChatCompletionChoice {
    pub index: u64,
    pub message: ChatCompletionMessage,
    pub finish_reason: String,
}

pub struct Usage {
    pub prompt_tokens: u64,
    pub completion_tokens: u64,
    pub total_tokens: u64,
}

pub struct ChatCompletionResponse {
    pub id: String,
    pub object: String,
    pub created: u64,
    pub model: String,
    pub choices: Vec<ChatCompletionChoice>,
    pub usage: Usage,
}

/// The texts of a run of messages, flattened in order.
pub open spec fn texts_of_messages(ms: Seq<ChatCompletionMessage>) -> Seq<Seq<char>>
    decreases ms.len(),
{
    if ms.len() == 0 {
        Seq::empty()
    } else {
        texts_of_messages(ms.drop_last()) + texts_of(ms.last().content)
    }
}

impl ChatCompletionRequest {
    /// All texts of the request's messages, flattened in order: the form
    /// in which a request crosses the dataflow boundary to the peer.
    pub fn to_texts(&self) -> (r: Vec<String>)
        ensures
            r@.map_values(|x: String| x@) == texts_of_messages(self.messages@),
    {
        let mut r: Vec<String> = Vec::new();
        let n = self.messages.len();
        let mut i: usize = 0;
        while i < n
            invariant
                i <= n,
                n == self.messages@.len(),
                r@.map_values(|x: String| x@) == texts_of_messages(self.messages@.subrange(
                    0,
                    i as int,
                )),
            decreases n - i,
        {
            let mut texts = self.messages[i].content.to_texts();
            let ghost r_before = r@;
            let m = texts.len();
            let mut k: usize = 0;
            while k < m
                invariant
                    k <= m,
                    m == texts@.len(),
                    r@ =~= r_before + texts@.subrange(0, k as int),
                decreases m - k,
            {
                let t = texts[k].clone();
                r.push(t);
                proof {
                    assert(r@ =~= r_before + texts@.subrange(0, k + 1));
                }
                k += 1;
            }
            proof {
                assert(texts@.subrange(0, m as int) =~= texts@);
                assert(self.messages@.subrange(0, i + 1).drop_last() =~= self.messages@.subrange(
                    0,
                    i as int,
                ));
                assert(self.messages@.subrange(0, i + 1).last() == self.messages@[i as int]);
                assert(r@.map_values(|x: String| x@) =~= texts_of_messages(
                    self.messages@.subrange(0, i + 1),
                ));
            }
            i += 1;
        }
        proof {
            assert(self.messages@.subrange(0, n as int) =~= self.messages@);
        }
        r
    }

    /// Makes sure the request carries a user identifier: an inbound
    /// request without one is assigned a generated identifier, which is
    /// echoed back to the caller either way.
    pub fn ensure_user(&mut self) -> (id: String)
        ensures
            match old(self).user {
                Some(u) => id == u && *final(self) == *old(self),
                None => final(self).user == Some(id) && id@.len() == 45 && seq_starts_with(
                    id@,
                    "chatcmpl-"@,
                ),
            },
            final(self).model == old(self).model,
            final(self).messages == old(self).messages,
            final(self).tools == old(self).tools,
            final(self).stream == old(self).stream,
    {
        match &self.user {
            Some(u) => u.clone(),
            None => {
                let id = gen_chat_id();
                self.user = Some(id.clone());
                id
            },
        }
    }
}

} // verus!
