//! The chat session: the ordered conversation history, the bound
//! backend, the tool registry and the selected model, driving the
//! model/tool interaction loop. History is shared mutable state; callers
//! serialize access externally, one read-modify-write step per call
//! here. Tool execution itself is a collaborator concern: this module
//! decides which tool a call names and how every outcome is folded into
//! history, and a tool failure degrades the conversation, never the
//! request.

use vstd::prelude::*;
use vstd::string::*;

use crate::chat::{
    msgs_view, opt_view, ChatCompletionMessage, ChatCompletionRequest, ChatCompletionRole,
    ContentView, MessageView, ToolFunction, ToolInfo,
};
use crate::chat::is_plain_message;
use crate::client::ChatClient;
use crate::json::{json_accepts, parse_arguments, pretty_of};
use crate::parser::{call_pairs, tool_calls_in_text};
use crate::tool::{has_tool, Tool, ToolSet};
use crate::utils::seq_starts_with;

verus! {

/// The function-typed entries of a structured tool-call list, in order.
pub open spec fn function_calls_of(tcs: Seq<(Seq<char>, (Seq<char>, Seq<char>))>) -> Seq<
    (Seq<char>, Seq<char>),
>
    decreases tcs.len(),
{
    if tcs.len() == 0 {
        Seq::empty()
    } else {
        function_calls_of(tcs.drop_last()) + if tcs.last().0 == "function"@ {
            seq![tcs.last().1]
        } else {
            Seq::empty()
        }
    }
}

/// The fallback grammar applied to each text of a message, in order.
pub open spec fn fallback_calls_of(texts: Seq<Seq<char>>) -> Seq<(Seq<char>, Seq<char>)>
    decreases texts.len(),
{
    if texts.len() == 0 {
        Seq::empty()
    } else {
        fallback_calls_of(texts.drop_last()) + tool_calls_in_text(texts.last())
    }
}

pub open spec fn content_texts(c: ContentView) -> Seq<Seq<char>> {
    match c {
        ContentView::Text(s) => seq![s],
        ContentView::Parts(v) => v,
    }
}

/// Every tool call a response message requests: the structured list when
/// the message carries one, the fallback grammar on its texts otherwise.
pub open spec fn extracted_calls(m: MessageView) -> Seq<(Seq<char>, Seq<char>)> {
    match m.tool_calls {
        Some(tcs) => function_calls_of(tcs),
        None => fallback_calls_of(content_texts(m.content)),
    }
}

/// What the session decides for one extracted tool call: an unknown tool
/// name is skipped silently — no history entry, no error — while a known
/// one is to be invoked on its owning peer with the parsed arguments.
pub enum ToolCallStep {
    Skip,
    Invoke {
        server: String,
        name: String,
        arguments: serde_json::Value,
        arguments_parsed: bool,
    },
}

/// How one tool invocation ended; the session folds this into history.
pub enum ToolOutcome {
    /// The tool answered but flagged its own result as an error.
    ErrorFlagged,
    /// The invocation itself failed, with this description.
    Failed(String),
    /// The tool succeeded with these result texts.
    Succeeded(Vec<String>),
}

pub struct ChatSession {
    client: ChatClient,
    tool_set: ToolSet,
    model: Option<String>,
    messages: Vec<ChatCompletionMessage>,
}

impl ChatSession {
    pub closed spec fn wf(&self) -> bool {
        self.tool_set.wf()
    }

    /// The conversation history, ordered and append-only.
    pub closed spec fn history(&self) -> Seq<MessageView> {
        msgs_view(self.messages@)
    }

    /// The registry snapshot the session dispatches on.
    pub closed spec fn toolset(&self) -> Seq<Tool> {
        self.tool_set@
    }

    pub closed spec fn model_view(&self) -> Option<Seq<char>> {
        opt_view(self.model)
    }

    pub closed spec fn client_of(&self) -> ChatClient {
        self.client
    }

    pub fn new(client: ChatClient, tool_set: ToolSet, model: Option<String>) -> (r: Self)
        requires
            tool_set.wf(),
        ensures
            r.wf(),
            r.history() == Seq::<MessageView>::empty(),
            r.toolset() == tool_set@,
            r.model_view() == opt_view(model),
            r.client_of() == client,
    {
        let r = ChatSession { client, tool_set, model, messages: Vec::new() };
        proof {
            assert(r.history() =~= Seq::<MessageView>::empty());
        }
        r
    }

    /// Appends a system-role prompt to the history.
    pub fn add_system_prompt(&mut self, prompt: &str)
        requires
            old(self).wf(),
        ensures
            final(self).wf(),
            final(self).history().len() == old(self).history().len() + 1,
            final(self).history().drop_last() == old(self).history(),
            is_plain_message(
                final(self).history().last(),
                ChatCompletionRole::System,
                prompt@,
            ),
            final(self).toolset() == old(self).toolset(),
            final(self).model_view() == old(self).model_view(),
            final(self).client_of() == old(self).client_of(),
    {
        let ghost before = self.messages@;
        self.messages.push(ChatCompletionMessage::system(prompt.to_owned()));
        proof {
            assert(self.history().drop_last() =~= msgs_view(before));
        }
    }

    /// The registered tools, in registration order.
    pub fn get_tools(&self) -> (r: &Vec<Tool>)
        ensures
            r@ == self.toolset(),
    {
        self.tool_set.tools()
    }

    /// The first step of a chat turn: every inbound message is appended
    /// to the shared history, and the provider request is built from the
    /// full history, the selected model, and — when the registry is not
    /// empty — the tool catalogue in registration order.
    pub fn prepare_turn(&mut self, request: ChatCompletionRequest) -> (r: ChatCompletionRequest)
        requires
            old(self).wf(),
        ensures
            final(self).wf(),
            final(self).history() == old(self).history() + msgs_view(request.messages@),
            final(self).toolset() == old(self).toolset(),
            final(self).model_view() == old(self).model_view(),
            final(self).client_of() == old(self).client_of(),
            msgs_view(r.messages@) == final(self).history(),
            opt_view(r.model) == old(self).model_view(),
            r.stream == request.stream,
            opt_view(r.user) == opt_view(request.user),
            old(self).toolset().len() == 0 ==> r.tools is None,
            old(self).toolset().len() > 0 ==> match r.tools {
                Some(infos) => infos@.map_values(|t: ToolInfo| t@) == old(self).toolset()
                    .map_values(|t: Tool| (t.name@, t.description@, t.parameters@)),
                None => false,
            },
    {
        let ChatCompletionRequest { model: _, messages, tools: _, stream, user } = request;
        let ghost inbound = messages@;
        let n = messages.len();
        let mut i: usize = 0;
        while i < n
            invariant
                i <= n,
                n == messages@.len(),
                messages@ == inbound,
                self.wf(),
                self.history() == old(self).history() + msgs_view(inbound.subrange(0, i as int)),
                self.toolset() == old(self).toolset(),
                self.model_view() == old(self).model_view(),
                self.client_of() == old(self).client_of(),
            decreases n - i,
        {
            let ghost before = self.messages@;
            self.messages.push(messages[i].clone());
            proof {
                assert(msgs_view(self.messages@) =~= msgs_view(before).push(inbound[i as int]@));
                assert(msgs_view(inbound.subrange(0, i + 1)) =~= msgs_view(
                    inbound.subrange(0, i as int),
                ).push(inbound[i as int]@));
                assert(self.history() =~= old(self).history() + msgs_view(
                    inbound.subrange(0, i + 1),
                ));
            }
            i += 1;
        }
        proof {
            assert(inbound.subrange(0, n as int) =~= inbound);
        }
        let mut out_msgs: Vec<ChatCompletionMessage> = Vec::new();
        let m = self.messages.len();
        let mut k: usize = 0;
        while k < m
            invariant
                k <= m,
                m == self.messages@.len(),
                msgs_view(out_msgs@) == msgs_view(self.messages@.subrange(0, k as int)),
            decreases m - k,
        {
            let ghost before = out_msgs@;
            out_msgs.push(self.messages[k].clone());
            proof {
                assert(msgs_view(out_msgs@) =~= msgs_view(before).push(
                    self.messages@[k as int]@,
                ));
                assert(msgs_view(self.messages@.subrange(0, k + 1)) =~= msgs_view(
                    self.messages@.subrange(0, k as int),
                ).push(self.messages@[k as int]@));
            }
            k += 1;
        }
        proof {
            assert(self.messages@.subrange(0, m as int) =~= self.messages@);
        }
        let tools = if self.tool_set.is_empty() {
            None
        } else {
            let ts = self.tool_set.tools();
            let mut infos: Vec<ToolInfo> = Vec::new();
            let tn = ts.len();
            let mut j: usize = 0;
            while j < tn
                invariant
                    j <= tn,
                    tn == ts@.len(),
                    infos@.len() == j,
                    forall|x: int|
                        0 <= x < j ==> (#[trigger] infos@[x])@ == (ts@[x].name@, ts@[x].description@,
                        ts@[x].parameters@),
                decreases tn - j,
            {
                infos.push(
                    ToolInfo {
                        name: ts[j].name.clone(),
                        description: ts[j].description.clone(),
                        parameters: ts[j].parameters.clone(),
                    },
                );
                j += 1;
            }
            proof {
                assert(infos@.map_values(|t: ToolInfo| t@) =~= ts@.map_values(
                    |t: Tool| (t.name@, t.description@, t.parameters@),
                ));
            }
            Some(infos)
        };
        let model = match &self.model {
            Some(m2) => Some(m2.clone()),
            None => None,
        };
        ChatCompletionRequest { model, messages: out_msgs, tools, stream, user }
    }

    /// Reads every tool call out of a response message: entries of a
    /// structured tool-call list whose type is `"function"`, or — when
    /// the message carries no such list — the fallback grammar applied
    /// to its texts.
    pub fn extract_tool_calls(response: &ChatCompletionMessage) -> (r: Vec<ToolFunction>)
        ensures
            call_pairs(r@) == extracted_calls(response@),
    {
        match &response.tool_calls {
            Some(tcs) => {
                let ghost tv = tcs@.map_values(|tc: crate::chat::ToolCall| tc@);
                let mut out: Vec<ToolFunction> = Vec::new();
                let n = tcs.len();
                let mut i: usize = 0;
                while i < n
                    invariant
                        i <= n,
                        n == tcs@.len(),
                        tv == tcs@.map_values(|tc: crate::chat::ToolCall| tc@),
                        call_pairs(out@) == function_calls_of(tv.subrange(0, i as int)),
                    decreases n - i,
                {
                    let ghost before = out@;
                    if crate::utils::str_eq(tcs[i].ty.as_str(), "function") {
                        out.push(tcs[i].function.clone());
                    }
                    proof {
                        let p2 = tv.subrange(0, i + 1);
                        assert(p2.drop_last() =~= tv.subrange(0, i as int));
                        assert(p2.last() == tv[i as int]);
                        assert(tv[i as int] == tcs@[i as int]@);
                        if tcs@[i as int].ty@ == "function"@ {
                            assert(call_pairs(out@) =~= call_pairs(before).push(
                                tcs@[i as int].function@,
                            ));
                            assert(call_pairs(out@) =~= function_calls_of(p2));
                        } else {
                            assert(call_pairs(out@) =~= function_calls_of(p2));
                        }
                    }
                    i += 1;
                }
                proof {
                    assert(tv.subrange(0, n as int) =~= tv);
                }
                out
            },
            None => {
                let texts = response.content.to_texts();
                let ghost tv = texts@.map_values(|x: String| x@);
                proof {
                    assert(tv == content_texts(response.content@));
                }
                let mut out: Vec<ToolFunction> = Vec::new();
                let n = texts.len();
                let mut i: usize = 0;
                while i < n
                    invariant
                        i <= n,
                        n == texts@.len(),
                        tv == texts@.map_values(|x: String| x@),
                        call_pairs(out@) == fallback_calls_of(tv.subrange(0, i as int)),
                    decreases n - i,
                {
                    let ghost before = out@;
                    let mut part = crate::parser::parse_tool_calls(texts[i].as_str());
                    let ghost part_view = part@;
                    out.append(&mut part);
                    proof {
                        let p2 = tv.subrange(0, i + 1);
                        assert(p2.drop_last() =~= tv.subrange(0, i as int));
                        assert(p2.last() == tv[i as int]);
                        assert(call_pairs(out@) =~= call_pairs(before) + call_pairs(part_view));
                        assert(call_pairs(out@) =~= fallback_calls_of(p2));
                    }
                    i += 1;
                }
                proof {
                    assert(tv.subrange(0, n as int) =~= tv);
                }
                out
            },
        }
    }

    /// Decides one extracted tool call. An unknown tool name is skipped
    /// — logged by the caller at most, never surfaced as an error and
    /// never written into history. A known name yields the invocation:
    /// the owning peer and the arguments, parsed leniently (a payload
    /// that is not valid JSON becomes the empty value).
    pub fn plan_tool_call(&self, call: &ToolFunction) -> (r: ToolCallStep)
        ensures
            match r {
                ToolCallStep::Skip => !has_tool(self.toolset(), call.name@),
                ToolCallStep::Invoke { server, name, arguments: _, arguments_parsed } => name@
                    == call.name@ && arguments_parsed == json_accepts(call.arguments@) && exists|
                    i: int,
                |
                    0 <= i < self.toolset().len() && self.toolset()[i].name@ == call.name@
                        && self.toolset()[i].server@ == server@,
            },
    {
        match self.tool_set.get_tool(call.name.as_str()) {
            None => ToolCallStep::Skip,
            Some(t) => {
                let ghost tool = *t;
                let server = t.server.clone();
                let (arguments, arguments_parsed) = parse_arguments(call.arguments.as_str());
                proof {
                    let s = self.toolset();
                    assert(s.contains(tool));
                    let i = choose|i: int| 0 <= i < s.len() && s[i] == tool;
                    assert(s[i].name@ == call.name@ && s[i].server@ == server@);
                }
                ToolCallStep::Invoke {
                    server,
                    name: call.name.clone(),
                    arguments,
                    arguments_parsed,
                }
            },
        }
    }

    /// Folds one tool outcome into the shared history, so the next
    /// turn's prompt carries the context: a flagged or failed call
    /// appends one user-role failure message; a success appends one
    /// user-role result message per result text, each holding the
    /// pretty-printed result.
    pub fn record_tool_outcome(&mut self, outcome: &ToolOutcome)
        requires
            old(self).wf(),
        ensures
            final(self).wf(),
            final(self).toolset() == old(self).toolset(),
            final(self).model_view() == old(self).model_view(),
            final(self).client_of() == old(self).client_of(),
            match outcome {
                ToolOutcome::ErrorFlagged => final(self).history().len() == old(
                    self,
                ).history().len() + 1 && final(self).history().drop_last() == old(self).history()
                    && is_plain_message(
                    final(self).history().last(),
                    ChatCompletionRole::User,
                    "tool call failed, mcp call error"@,
                ),
                ToolOutcome::Failed(e) => final(self).history().len() == old(
                    self,
                ).history().len() + 1 && final(self).history().drop_last() == old(self).history()
                    && is_plain_message(
                    final(self).history().last(),
                    ChatCompletionRole::User,
                    "tool call failed: "@ + e@,
                ),
                ToolOutcome::Succeeded(texts) => final(self).history().len() == old(
                    self,
                ).history().len() + texts@.len() && final(self).history().subrange(
                    0,
                    old(self).history().len() as int,
                ) == old(self).history() && forall|k: int|
                    old(self).history().len() <= k < final(self).history().len()
                        ==> is_plain_message(
                        #[trigger] final(self).history()[k],
                        ChatCompletionRole::User,
                        "call tool result: "@ + pretty_of(
                            texts@[k - old(self).history().len()]@,
                        ),
                    ),
            },
    {
        match outcome {
            ToolOutcome::ErrorFlagged => {
                let ghost before = self.messages@;
                self.messages.push(
                    ChatCompletionMessage::user(
                        String::from_str("tool call failed, mcp call error"),
                    ),
                );
                proof {
                    assert(self.history().drop_last() =~= msgs_view(before));
                    assert(self.history() =~= msgs_view(before).push(self.history().last()));
                }
            },
            ToolOutcome::Failed(e) => {
                let ghost before = self.messages@;
                let msg = String::from_str("tool call failed: ").concat(e.as_str());
                self.messages.push(ChatCompletionMessage::user(msg));
                proof {
                    assert(self.history().drop_last() =~= msgs_view(before));
                    assert(self.history() =~= msgs_view(before).push(self.history().last()));
                }
            },
            ToolOutcome::Succeeded(texts) => {
                let n = texts.len();
                let mut i: usize = 0;
                while i < n
                    invariant
                        i <= n,
                        n == texts@.len(),
                        self.wf(),
                        self.toolset() == old(self).toolset(),
                        self.model_view() == old(self).model_view(),
                        self.client_of() == old(self).client_of(),
                        self.history().len() == old(self).history().len() + i,
                        self.history().subrange(0, old(self).history().len() as int) == old(
                            self,
                        ).history(),
                        forall|k: int|
                            old(self).history().len() <= k < self.history().len()
                                ==> is_plain_message(
                                #[trigger] self.history()[k],
                                ChatCompletionRole::User,
                                "call tool result: "@ + pretty_of(
                                    texts@[k - old(self).history().len()]@,
                                ),
                            ),
                    decreases n - i,
                {
                    let ghost before = self.messages@;
                    let pretty = crate::json::pretty_normalize(texts[i].as_str());
                    let msg = String::from_str("call tool result: ").concat(pretty.as_str());
                    proof {
                        assert(msg@ == "call tool result: "@ + pretty_of(texts@[i as int]@));
                    }
                    let new_msg = ChatCompletionMessage::user(msg);
                    let ghost mv = new_msg@;
                    self.messages.push(new_msg);
                    proof {
                        assert(msgs_view(self.messages@) =~= msgs_view(before).push(mv));
                        assert(is_plain_message(
                            mv,
                            ChatCompletionRole::User,
                            "call tool result: "@ + pretty_of(texts@[i as int]@),
                        ));
                        assert(self.history().subrange(0, old(self).history().len() as int)
                            =~= msgs_view(before).subrange(0, old(self).history().len() as int));
                        assert forall|k: int|
                            old(self).history().len() <= k < self.history().len()
                                implies is_plain_message(
                            #[trigger] self.history()[k],
                            ChatCompletionRole::User,
                            "call tool result: "@ + pretty_of(
                                texts@[k - old(self).history().len()]@,
                            ),
                        ) by {
                            if k < self.history().len() - 1 {
                                assert(self.history()[k] == msgs_view(before)[k]);
                            } else {
                                assert(self.history()[k] == mv);
                                assert(k - old(self).history().len() == i as int);
                            }
                        }
                    }
                    i += 1;
                }
            },
        }
    }

    /// The conversation history as stored.
    pub fn messages(&self) -> (r: &Vec<ChatCompletionMessage>)
        ensures
            msgs_view(r@) == self.history(),
    {
        &self.messages
    }

    /// The backend the session is bound to; its call plan is read here.
    pub fn client(&self) -> (r: &ChatClient)
        ensures
            r == &self.client_of(),
    {
        &self.client
    }
}

/// A message that carries exactly one structured function-typed tool
/// call requests exactly that call, and nothing else.
pub proof fn lemma_single_structured_call(m: MessageView, name: Seq<char>, args: Seq<char>)
    requires
        m.tool_calls == Some(seq![("function"@, (name, args))]),
    ensures
        extracted_calls(m) == seq![(name, args)],
{
    let tcs = seq![("function"@, (name, args))];
    assert(tcs.len() == 1);
    assert(tcs.last() == ("function"@, (name, args)));
    assert(tcs.drop_last() =~= Seq::<(Seq<char>, (Seq<char>, Seq<char>))>::empty());
    assert(function_calls_of(tcs.drop_last()) == Seq::<(Seq<char>, Seq<char>)>::empty());
    assert(extracted_calls(m) == function_calls_of(tcs));
    assert(extracted_calls(m) =~= seq![(name, args)]);
}

} // verus!
