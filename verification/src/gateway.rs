//! The dataflow boundary: how a peer's reply, which arrives as a run of
//! optional text fragments, is folded back into one OpenAI-style chat
//! completion object.

use vstd::prelude::*;
use vstd::string::*;
use vstd::utf8::encode_utf8;

use crate::chat::{
    ChatCompletionChoice, ChatCompletionMessage, ChatCompletionResponse, ChatCompletionRole,
    ContentView, MessageContent, Usage,
};
use crate::utils::{gen_completion_id, seq_starts_with};

verus! {

/// The fold over a reply's fragments: every present fragment is appended
/// behind a newline, absent fragments contribute nothing.
pub open spec fn concat_lines_spec(parts: Seq<Option<Seq<char>>>) -> Seq<char>
    decreases parts.len(),
{
    if parts.len() == 0 {
        Seq::empty()
    } else {
        concat_lines_spec(parts.drop_last()) + match parts.last() {
            Some(s) => seq!['\n'] + s,
            None => Seq::empty(),
        }
    }
}

/// An optional text fragment under its view.
pub open spec fn frag_view(o: Option<String>) -> Option<Seq<char>> {
    match o {
        Some(s) => Some(s@),
        None => None,
    }
}

/// Folds a peer reply's text fragments into one text, each present
/// fragment behind a newline.
pub fn concat_lines(parts: &Vec<Option<String>>) -> (r: String)
    ensures
        r@ == concat_lines_spec(parts@.map_values(|o: Option<String>| frag_view(o))),
{
    let ghost pv = parts@.map_values(|o: Option<String>| frag_view(o));
    let mut r = String::new();
    let n = parts.len();
    let mut i: usize = 0;
    while i < n
        invariant
            i <= n,
            n == parts@.len(),
            pv == parts@.map_values(|o: Option<String>| frag_view(o)),
            r@ == concat_lines_spec(pv.subrange(0, i as int)),
        decreases n - i,
    {
        match &parts[i] {
            Some(s) => {
                r.append("\n");
                r.append(s.as_str());
                proof {
                    reveal_strlit("\n");
                    assert("\n"@ =~= seq!['\n']);
                }
            },
            None => {},
        }
        proof {
            let p2 = pv.subrange(0, i + 1);
            assert(p2.drop_last() =~= pv.subrange(0, i as int));
            assert(p2.last() == pv[i as int]);
            assert(r@ =~= concat_lines_spec(p2));
        }
        i += 1;
    }
    proof {
        assert(pv.subrange(0, n as int) =~= pv);
    }
    r
}

/// Builds the completion object for a peer reply: one assistant choice
/// holding the reply text, the reply's byte length counted as its
/// completion tokens.
pub fn build_completion(
    text: String,
    prompt_tokens: u64,
    model: Option<String>,
    id: String,
    created: u64,
) -> (r: ChatCompletionResponse)
    requires
        encode_utf8(text@).len() <= usize::MAX,
        prompt_tokens + encode_utf8(text@).len() <= u64::MAX,
    ensures
        r.id@ == id@,
        r.object@ == "chat.completion"@,
        r.created == created,
        match model {
            Some(m) => r.model@ == m@,
            None => r.model@ == Seq::<char>::empty(),
        },
        r.choices@.len() == 1,
        r.choices@[0].index == 0,
        r.choices@[0].finish_reason@ == "stop"@,
        r.choices@[0].message.role == ChatCompletionRole::Assistant,
        r.choices@[0].message@.content == ContentView::Text(text@),
        r.choices@[0].message.tool_calls is None,
        r.usage.prompt_tokens == prompt_tokens,
        r.usage.completion_tokens == encode_utf8(text@).len(),
        r.usage.total_tokens == prompt_tokens + encode_utf8(text@).len(),
    {
        let text_str = text.as_str();
        let completion_tokens = text_str.len() as u64;
        proof {
            assert(text_str.spec_bytes() == encode_utf8(text@));
            assert(completion_tokens == encode_utf8(text@).len());
        }
        let model_name = match model {
            Some(m) => m,
            None => String::new(),
        };
        let message = ChatCompletionMessage {
            role: ChatCompletionRole::Assistant,
            content: MessageContent::Text(text),
            tool_calls: None,
        };
        let mut choices: Vec<ChatCompletionChoice> = Vec::new();
        choices.push(
            ChatCompletionChoice { index: 0, message, finish_reason: String::from_str("stop") },
        );
        ChatCompletionResponse {
            id,
            object: String::from_str("chat.completion"),
            created,
            model: model_name,
            choices,
            usage: Usage {
                prompt_tokens,
                completion_tokens,
                total_tokens: prompt_tokens + completion_tokens,
            },
        }
    }

/// Relies on `chrono::Utc::now`: the clock's current Unix timestamp in
/// seconds. The value depends on the clock; nothing is promised of it.
#[verifier::external_body]
fn now_timestamp() -> i64 {
    chrono::Utc::now().timestamp()
}

/// Builds the completion object for a peer reply under a fresh
/// identifier and the current time.
pub fn build_completion_now(text: String, prompt_tokens: u64, model: Option<String>) -> (r:
    ChatCompletionResponse)
    requires
        encode_utf8(text@).len() <= usize::MAX,
        prompt_tokens + encode_utf8(text@).len() <= u64::MAX,
    ensures
        r.id@.len() == 47 && seq_starts_with(r.id@, "completion-"@),
        r.object@ == "chat.completion"@,
        match model {
            Some(m) => r.model@ == m@,
            None => r.model@ == Seq::<char>::empty(),
        },
        r.choices@.len() == 1,
        r.choices@[0].index == 0,
        r.choices@[0].finish_reason@ == "stop"@,
        r.choices@[0].message.role == ChatCompletionRole::Assistant,
        r.choices@[0].message@.content == ContentView::Text(text@),
        r.choices@[0].message.tool_calls is None,
        r.usage.prompt_tokens == prompt_tokens,
        r.usage.completion_tokens == encode_utf8(text@).len(),
        r.usage.total_tokens == prompt_tokens + encode_utf8(text@).len(),
{
    let id = gen_completion_id();
    let t = now_timestamp();
    let created: u64 = if t >= 0 {
        t as u64
    } else {
        0
    };
    build_completion(text, prompt_tokens, model, id, created)
}

} // verus!
