//! What the LLM providers send and how their replies become responses: the
//! request bodies built from a chat request, the replies mapped to
//! `GrassLlmResponse`, the streamed chunks mapped to events, and each
//! provider's endpoints. The HTTP exchange itself is left to the caller.
use vstd::prelude::*;
use crate::ids::{is_v4, new_v4_id, uuid_string, uuid_text};
use crate::llm::{
    GrassChatMessage, GrassChoice, GrassLlmRequest, GrassLlmResponse, GrassMessageRole,
    GrassStreamEvent, GrassUsage,
};
use crate::text::{join2, str_eq, trim_text, trimmed};
use crate::text_map::GrassStringMap;

verus! {

/// The text view of an optional string.
pub open spec fn opt_text(o: Option<String>) -> Option<Seq<char>> {
    match o {
        Some(s) => Some(s@),
        None => None,
    }
}

/// `c` is the single answer of a provider: index 0, written by the
/// assistant, with no name.
pub open spec fn assistant_choice(c: GrassChoice, content: Seq<char>, finish: Option<Seq<char>>) -> bool {
    &&& c.index == 0
    &&& c.message.role == GrassMessageRole::Assistant
    &&& c.message.content@ == content
    &&& c.message.name is None
    &&& opt_text(c.finish_reason) == finish
}

/// `u` holds these three counts.
pub open spec fn usage_is(u: GrassUsage, prompt: int, completion: int, total: int) -> bool {
    u.prompt_tokens == prompt && u.completion_tokens == completion && u.total_tokens == total
}

/// The text of a reply's first item, or the empty text when it has none.
pub open spec fn first_text(items: Seq<String>) -> Seq<char> {
    if items.len() > 0 {
        items[0]@
    } else {
        Seq::empty()
    }
}

/// The first of `items` as text, or the empty text (`first().cloned()
/// .unwrap_or_default()`).
fn first_or_empty(items: Vec<String>) -> (r: String)
    ensures
        r@ == first_text(items@),
{
    let mut items = items;
    if items.len() > 0 {
        items.swap_remove(0)
    } else {
        String::new()
    }
}

// ---------------------------------------------------------------- messages

/// The content of the first system message of `ms`, if there is one.
pub open spec fn first_system(ms: Seq<GrassChatMessage>) -> Option<Seq<char>>
    decreases ms.len(),
{
    if ms.len() == 0 {
        None
    } else {
        let f = first_system(ms.drop_last());
        if f is Some {
            f
        } else if ms.last().role == GrassMessageRole::System {
            Some(ms.last().content@)
        } else {
            None
        }
    }
}

/// The messages of `ms` that are not system messages, in order.
pub open spec fn without_system(ms: Seq<GrassChatMessage>) -> Seq<GrassChatMessage>
    decreases ms.len(),
{
    if ms.len() == 0 {
        Seq::empty()
    } else {
        let rest = without_system(ms.drop_last());
        if ms.last().role == GrassMessageRole::System {
            rest
        } else {
            rest.push(ms.last())
        }
    }
}

/// The content of the last user message of `ms`, if there is one.
pub open spec fn last_user(ms: Seq<GrassChatMessage>) -> Option<Seq<char>>
    decreases ms.len(),
{
    if ms.len() == 0 {
        None
    } else if ms.last().role == GrassMessageRole::User {
        Some(ms.last().content@)
    } else {
        last_user(ms.drop_last())
    }
}

/// The role name that Cohere's chat history uses for a message role.
pub open spec fn cohere_role(r: GrassMessageRole) -> Seq<char> {
    if r == GrassMessageRole::Assistant {
        "CHATBOT"@
    } else {
        "USER"@
    }
}

/// The chat history sent to Cohere: every message that is neither a system
/// nor a user message, as (role, text), in order.
pub open spec fn cohere_history(ms: Seq<GrassChatMessage>) -> Seq<(Seq<char>, Seq<char>)>
    decreases ms.len(),
{
    if ms.len() == 0 {
        Seq::empty()
    } else {
        let rest = cohere_history(ms.drop_last());
        let m = ms.last();
        if m.role == GrassMessageRole::System || m.role == GrassMessageRole::User {
            rest
        } else {
            rest.push((cohere_role(m.role), m.content@))
        }
    }
}

/// The role name that Gemini uses for a message role.
pub open spec fn gemini_role(r: GrassMessageRole) -> Seq<char> {
    if r == GrassMessageRole::Assistant {
        "model"@
    } else {
        "user"@
    }
}

/// The name of a role as `{:?}` writes it.
pub open spec fn role_name(r: GrassMessageRole) -> Seq<char> {
    match r {
        GrassMessageRole::System => "System"@,
        GrassMessageRole::User => "User"@,
        GrassMessageRole::Assistant => "Assistant"@,
        GrassMessageRole::Tool => "Tool"@,
    }
}

/// Gemini hears only assistant messages as the model's turns: a message
/// goes with role `model` exactly when it is an assistant message, and with
/// role `user` otherwise (system and tool messages included).
pub proof fn lemma_gemini_roles(r: GrassMessageRole)
    ensures
        gemini_role(r) == "model"@ <==> r == GrassMessageRole::Assistant,
        gemini_role(r) == "user"@ <==> r != GrassMessageRole::Assistant,
{
    reveal_strlit("model");
    reveal_strlit("user");
    assert("model"@.len() == 5 && "user"@.len() == 4);
}

/// Each role has a name of its own, the variant's name as `Debug` writes
/// it: no two roles share a name, so every prompt line names its message's
/// own role.
pub proof fn lemma_role_names(r1: GrassMessageRole, r2: GrassMessageRole)
    ensures
        role_name(GrassMessageRole::System) == "System"@,
        role_name(GrassMessageRole::User) == "User"@,
        role_name(GrassMessageRole::Assistant) == "Assistant"@,
        role_name(GrassMessageRole::Tool) == "Tool"@,
        role_name(r1) == role_name(r2) ==> r1 == r2,
{
    reveal_strlit("System");
    reveal_strlit("User");
    reveal_strlit("Assistant");
    reveal_strlit("Tool");
    if role_name(r1) == role_name(r2) {
        assert(role_name(r1).len() == role_name(r2).len());
        assert(role_name(r1)[0] == role_name(r2)[0]);
    }
}

/// One line of the Hugging Face prompt: the role's name, `": "` and the text.
pub open spec fn prompt_line(m: GrassChatMessage) -> Seq<char> {
    role_name(m.role) + ": "@ + m.content@
}

/// The Hugging Face prompt: the lines of all messages joined by newlines.
pub open spec fn prompt_text(ms: Seq<GrassChatMessage>) -> Seq<char>
    decreases ms.len(),
{
    if ms.len() == 0 {
        Seq::empty()
    } else if ms.len() == 1 {
        prompt_line(ms[0])
    } else {
        prompt_text(ms.drop_last()) + "\n"@ + prompt_line(ms.last())
    }
}

/// The name of `r` as `{:?}` writes it.
pub fn role_debug_name(r: GrassMessageRole) -> (s: &'static str)
    ensures
        s@ == role_name(r),
{
    match r {
        GrassMessageRole::System => "System",
        GrassMessageRole::User => "User",
        GrassMessageRole::Assistant => "Assistant",
        GrassMessageRole::Tool => "Tool",
    }
}

// ---------------------------------------------------------------- requests

/// The body of an OpenAI-style chat request (OpenAI, Azure OpenAI, Ollama).
pub struct GrassChatRequestBody {
    pub model: String,
    pub messages: Vec<GrassChatMessage>,
    pub temperature_bits: Option<u32>,
    pub max_tokens: Option<u32>,
    pub stream: bool,
}

/// The chat request as OpenAI-style endpoints take it, streaming or not.
pub fn chat_request_body(request: GrassLlmRequest, stream: bool) -> (r: GrassChatRequestBody)
    ensures
        r.model == request.model,
        r.messages == request.messages,
        r.temperature_bits == request.temperature_bits,
        r.max_tokens == request.max_tokens,
        r.stream == stream,
{
    GrassChatRequestBody {
        model: request.model,
        messages: request.messages,
        temperature_bits: request.temperature_bits,
        max_tokens: request.max_tokens,
        stream,
    }
}

/// The body of an Anthropic messages request.
pub struct GrassAnthropicRequest {
    pub model: String,
    pub max_tokens: u32,
    pub messages: Vec<GrassChatMessage>,
    pub system: Option<String>,
    pub temperature_bits: Option<u32>,
    pub stream: bool,
}

/// The token limit Anthropic requests use when the request sets none.
pub open spec fn anthropic_default_max_tokens() -> u32 {
    4096
}

/// The Anthropic body for `request`: the first system message goes to
/// `system`, every other message stays in order, and the token limit is
/// 4096 unless the request sets one.
pub fn anthropic_request(request: &GrassLlmRequest, stream: bool) -> (r: GrassAnthropicRequest)
    ensures
        r.model == request.model,
        r.max_tokens == (match request.max_tokens {
            Some(n) => n,
            None => anthropic_default_max_tokens(),
        }),
        r.messages@ == without_system(request.messages@),
        opt_text(r.system) == first_system(request.messages@),
        r.temperature_bits == request.temperature_bits,
        r.stream == stream,
{
    let ghost ms = request.messages@;
    let mut messages: Vec<GrassChatMessage> = Vec::new();
    let mut system: Option<String> = None;
    let mut i: usize = 0;
    while i < request.messages.len()
        invariant
            ms == request.messages@,
            i <= ms.len(),
            messages@ == without_system(ms.take(i as int)),
            opt_text(system) == first_system(ms.take(i as int)),
        decreases ms.len() - i,
    {
        assert(ms.take(i + 1).drop_last() =~= ms.take(i as int));
        let m = &request.messages[i];
        if m.role == GrassMessageRole::System {
            if system.is_none() {
                system = Some(m.content.clone());
            }
        } else {
            messages.push(m.clone());
        }
        i = i + 1;
    }
    assert(ms.take(ms.len() as int) =~= ms);
    let max_tokens = match request.max_tokens {
        Some(n) => n,
        None => 4096,
    };
    GrassAnthropicRequest {
        model: request.model.clone(),
        max_tokens,
        messages,
        system,
        temperature_bits: request.temperature_bits,
        stream,
    }
}

/// One entry of Cohere's chat history.
pub struct GrassCohereChat {
    pub role: String,
    pub message: String,
}

/// The body of a Cohere chat request.
pub struct GrassCohereRequest {
    pub model: String,
    pub message: String,
    pub chat_history: Option<Vec<GrassCohereChat>>,
    pub temperature_bits: Option<u32>,
    pub max_tokens: Option<u32>,
}

/// The (role, text) pairs of a Cohere chat history.
pub open spec fn chat_pairs(h: Seq<GrassCohereChat>) -> Seq<(Seq<char>, Seq<char>)> {
    h.map_values(|c: GrassCohereChat| (c.role@, c.message@))
}

/// The Cohere body for `request`: the message is the last user message
/// (empty when there is none); the history holds the assistant and tool
/// messages in order and is left out when there are none.
pub fn cohere_request(request: &GrassLlmRequest) -> (r: GrassCohereRequest)
    ensures
        r.model == request.model,
        r.message@ == (match last_user(request.messages@) {
            Some(t) => t,
            None => Seq::empty(),
        }),
        match r.chat_history {
            Some(h) => cohere_history(request.messages@).len() > 0 && chat_pairs(h@)
                == cohere_history(request.messages@),
            None => cohere_history(request.messages@).len() == 0,
        },
        r.temperature_bits == request.temperature_bits,
        r.max_tokens == request.max_tokens,
{
    let ghost ms = request.messages@;
    let mut history: Vec<GrassCohereChat> = Vec::new();
    let mut user: Option<usize> = None;
    let mut i: usize = 0;
    while i < request.messages.len()
        invariant
            ms == request.messages@,
            i <= ms.len(),
            chat_pairs(history@) == cohere_history(ms.take(i as int)),
            match user {
                Some(k) => k < i && last_user(ms.take(i as int)) == Some(ms[k as int].content@),
                None => last_user(ms.take(i as int)) is None,
            },
        decreases ms.len() - i,
    {
        assert(ms.take(i + 1).drop_last() =~= ms.take(i as int));
        let m = &request.messages[i];
        if m.role == GrassMessageRole::User {
            user = Some(i);
        } else if m.role != GrassMessageRole::System {
            let role = if m.role == GrassMessageRole::Assistant {
                "CHATBOT".to_owned()
            } else {
                "USER".to_owned()
            };
            let ghost before = history@;
            history.push(GrassCohereChat { role, message: m.content.clone() });
            assert(chat_pairs(history@) =~= chat_pairs(before).push(
                (cohere_role(m.role), m.content@),
            ));
        }
        i = i + 1;
    }
    assert(ms.take(ms.len() as int) =~= ms);
    let message = match user {
        Some(k) => request.messages[k].content.clone(),
        None => String::new(),
    };
    let chat_history = if history.len() == 0 {
        None
    } else {
        Some(history)
    };
    GrassCohereRequest {
        model: request.model.clone(),
        message,
        chat_history,
        temperature_bits: request.temperature_bits,
        max_tokens: request.max_tokens,
    }
}

/// One message as Gemini takes it.
pub struct GrassGeminiContent {
    pub parts: Vec<String>,
    pub role: String,
}

/// The body of a Gemini generate request; its generation settings are the
/// request's temperature and token limit.
pub struct GrassGeminiRequest {
    pub contents: Vec<GrassGeminiContent>,
    pub temperature_bits: Option<u32>,
    pub max_output_tokens: Option<u32>,
}

/// The Gemini body for `request`: every message, in order, as one part
/// with Gemini's name for its role.
pub fn gemini_request(request: &GrassLlmRequest) -> (r: GrassGeminiRequest)
    ensures
        r.contents@.len() == request.messages@.len(),
        forall|i: int|
            0 <= i < r.contents@.len() ==> {
                &&& (#[trigger] r.contents@[i]).role@ == gemini_role(request.messages@[i].role)
                &&& r.contents@[i].parts@.map_values(|p: String| p@) == seq![
                    request.messages@[i].content@,
                ]
            },
        r.temperature_bits == request.temperature_bits,
        r.max_output_tokens == request.max_tokens,
{
    let ghost ms = request.messages@;
    let mut contents: Vec<GrassGeminiContent> = Vec::new();
    let mut i: usize = 0;
    while i < request.messages.len()
        invariant
            ms == request.messages@,
            i <= ms.len(),
            contents@.len() == i,
            forall|j: int|
                0 <= j < i ==> {
                    &&& (#[trigger] contents@[j]).role@ == gemini_role(ms[j].role)
                    &&& contents@[j].parts@.map_values(|p: String| p@) == seq![ms[j].content@]
                },
        decreases ms.len() - i,
    {
        let m = &request.messages[i];
        let role = if m.role == GrassMessageRole::Assistant {
            "model".to_owned()
        } else {
            "user".to_owned()
        };
        let mut parts: Vec<String> = Vec::new();
        parts.push(m.content.clone());
        assert(parts@.map_values(|p: String| p@) =~= seq![m.content@]);
        contents.push(GrassGeminiContent { parts, role });
        i = i + 1;
    }
    GrassGeminiRequest {
        contents,
        temperature_bits: request.temperature_bits,
        max_output_tokens: request.max_tokens,
    }
}

/// The body of a Hugging Face inference request.
pub struct GrassHfRequest {
    pub inputs: String,
    pub max_new_tokens: Option<u32>,
    pub temperature_bits: Option<u32>,
    pub return_full_text: bool,
}

/// The Hugging Face prompt of `ms`: one `Role: text` line per message.
pub fn hf_prompt(ms: &Vec<GrassChatMessage>) -> (r: String)
    ensures
        r@ == prompt_text(ms@),
{
    let mut out = String::new();
    let mut i: usize = 0;
    while i < ms.len()
        invariant
            i <= ms.len(),
            out@ == prompt_text(ms@.take(i as int)),
        decreases ms.len() - i,
    {
        assert(ms@.take(i + 1).drop_last() =~= ms@.take(i as int));
        let m = &ms[i];
        let line = join2(join2(role_debug_name(m.role), ": ").as_str(), m.content.as_str());
        if i > 0 {
            out.append("\n");
        }
        out.append(line.as_str());
        i = i + 1;
        proof {
            if i == 1 {
                assert(ms@.take(1) =~= seq![ms@[0]]);
            }
        }
    }
    assert(ms@.take(ms@.len() as int) =~= ms@);
    out
}

/// The Hugging Face body for `request`: the prompt of its messages, its
/// token limit and temperature, and only the generated text asked back.
pub fn hf_request(request: &GrassLlmRequest) -> (r: GrassHfRequest)
    ensures
        r.inputs@ == prompt_text(request.messages@),
        r.max_new_tokens == request.max_tokens,
        r.temperature_bits == request.temperature_bits,
        !r.return_full_text,
{
    GrassHfRequest {
        inputs: hf_prompt(&request.messages),
        max_new_tokens: request.max_tokens,
        temperature_bits: request.temperature_bits,
        return_full_text: false,
    }
}

// ---------------------------------------------------------------- replies

/// A fresh response id: a random UUID's text.
pub fn fresh_response_id() -> (r: String)
    ensures
        exists|u: u128| is_v4(u) && r@ == uuid_text(u),
{
    uuid_string(new_v4_id())
}

/// What an OpenAI chat completion answers.
pub struct GrassOpenAiReply {
    pub id: String,
    pub model: String,
    pub choices: Vec<GrassChoice>,
    pub usage: GrassUsage,
}

/// An OpenAI reply as a response: every field carried over.
pub fn openai_response(reply: GrassOpenAiReply) -> (r: GrassLlmResponse)
    ensures
        r.id == reply.id,
        r.model == reply.model,
        r.choices == reply.choices,
        r.usage == reply.usage,
{
    GrassLlmResponse {
        id: reply.id,
        model: reply.model,
        choices: reply.choices,
        usage: reply.usage,
    }
}

/// What an Azure OpenAI chat completion answers.
pub struct GrassAzureReply {
    pub id: String,
    pub choices: Vec<GrassChoice>,
    pub usage: GrassUsage,
}

/// What Anthropic's messages endpoint answers: the texts of its content
/// blocks, the stop reason and the token counts.
pub struct GrassAnthropicReply {
    pub id: String,
    pub content: Vec<String>,
    pub stop_reason: Option<String>,
    pub input_tokens: u32,
    pub output_tokens: u32,
}

/// An Anthropic reply as a response for `model`: one assistant answer with
/// the first content block's text (empty when there is none), and a total
/// that is the sum of input and output tokens.
pub fn anthropic_response(model: String, reply: GrassAnthropicReply) -> (r: GrassLlmResponse)
    requires
        reply.input_tokens + reply.output_tokens <= u32::MAX,
    ensures
        r.id == reply.id,
        r.model == model,
        r.choices@.len() == 1,
        assistant_choice(r.choices@[0], first_text(reply.content@), opt_text(reply.stop_reason)),
        usage_is(
            r.usage,
            reply.input_tokens as int,
            reply.output_tokens as int,
            reply.input_tokens + reply.output_tokens,
        ),
{
    let total = reply.input_tokens + reply.output_tokens;
    let content = first_or_empty(reply.content);
    let mut choices: Vec<GrassChoice> = Vec::new();
    choices.push(
        GrassChoice {
            index: 0,
            message: GrassChatMessage { role: GrassMessageRole::Assistant, content, name: None },
            finish_reason: reply.stop_reason,
        },
    );
    GrassLlmResponse {
        id: reply.id,
        model,
        choices,
        usage: GrassUsage {
            prompt_tokens: reply.input_tokens,
            completion_tokens: reply.output_tokens,
            total_tokens: total,
        },
    }
}

/// What Cohere's chat endpoint answers; `tokens` holds the input and output
/// token counts when its metadata reports them.
pub struct GrassCohereReply {
    pub text: String,
    pub generation_id: String,
    pub tokens: Option<(u32, u32)>,
}

/// The finish reason of answers whose provider reports none.
pub open spec fn stop_reason() -> Seq<char> {
    "stop"@
}

/// A Cohere reply as a response for `model`: its text as the one answer,
/// finished with `"stop"`, and its token counts (zero when not reported)
/// with their sum as the total.
pub fn cohere_response(model: String, reply: GrassCohereReply) -> (r: GrassLlmResponse)
    requires
        reply.tokens matches Some((a, b)) ==> a + b <= u32::MAX,
    ensures
        r.id == reply.generation_id,
        r.model == model,
        r.choices@.len() == 1,
        assistant_choice(r.choices@[0], reply.text@, Some(stop_reason())),
        match reply.tokens {
            Some((a, b)) => usage_is(r.usage, a as int, b as int, a + b),
            None => usage_is(r.usage, 0, 0, 0),
        },
{
    let (prompt_tokens, completion_tokens) = match reply.tokens {
        Some((a, b)) => (a, b),
        None => (0u32, 0u32),
    };
    let mut choices: Vec<GrassChoice> = Vec::new();
    choices.push(
        GrassChoice {
            index: 0,
            message: GrassChatMessage {
                role: GrassMessageRole::Assistant,
                content: reply.text,
                name: None,
            },
            finish_reason: Some("stop".to_owned()),
        },
    );
    GrassLlmResponse {
        id: reply.generation_id,
        model,
        choices,
        usage: GrassUsage {
            prompt_tokens,
            completion_tokens,
            total_tokens: prompt_tokens + completion_tokens,
        },
    }
}

/// One candidate answer of Gemini: the texts of its parts and why it ended.
pub struct GrassGeminiCandidate {
    pub parts: Vec<String>,
    pub finish_reason: Option<String>,
}

/// Gemini's token counts.
pub struct GrassGeminiUsage {
    pub prompt_token_count: u32,
    pub candidates_token_count: u32,
    pub total_token_count: u32,
}

/// What Gemini's generate endpoint answers.
pub struct GrassGeminiReply {
    pub candidates: Vec<GrassGeminiCandidate>,
    pub usage: Option<GrassGeminiUsage>,
}

/// A Gemini reply as a response with id `id` for `model`: the first part of
/// the first candidate as the answer (empty when there is none), that
/// candidate's finish reason, and the reported token counts (zero when
/// Gemini reports none).
pub fn gemini_response(id: String, model: String, reply: GrassGeminiReply) -> (r: GrassLlmResponse)
    ensures
        r.id == id,
        r.model == model,
        r.choices@.len() == 1,
        assistant_choice(
            r.choices@[0],
            if reply.candidates@.len() > 0 {
                first_text(reply.candidates@[0].parts@)
            } else {
                Seq::empty()
            },
            if reply.candidates@.len() > 0 {
                opt_text(reply.candidates@[0].finish_reason)
            } else {
                None
            },
        ),
        match reply.usage {
            Some(u) => usage_is(
                r.usage,
                u.prompt_token_count as int,
                u.candidates_token_count as int,
                u.total_token_count as int,
            ),
            None => usage_is(r.usage, 0, 0, 0),
        },
{
    let GrassGeminiReply { candidates, usage } = reply;
    let mut candidates = candidates;
    let (content, finish_reason) = if candidates.len() > 0 {
        let first = candidates.swap_remove(0);
        (first_or_empty(first.parts), first.finish_reason)
    } else {
        (String::new(), None)
    };
    let usage = match usage {
        Some(u) => GrassUsage {
            prompt_tokens: u.prompt_token_count,
            completion_tokens: u.candidates_token_count,
            total_tokens: u.total_token_count,
        },
        None => GrassUsage { prompt_tokens: 0, completion_tokens: 0, total_tokens: 0 },
    };
    let mut choices: Vec<GrassChoice> = Vec::new();
    choices.push(
        GrassChoice {
            index: 0,
            message: GrassChatMessage { role: GrassMessageRole::Assistant, content, name: None },
            finish_reason,
        },
    );
    GrassLlmResponse { id, model, choices, usage }
}

/// The answer text of a Hugging Face reply: the first generated text when
/// the body parsed as a list of generations (empty when the list is
/// empty), else the raw body.
pub fn hf_content(body: String, parsed: Option<Vec<String>>) -> (r: String)
    ensures
        r@ == (match parsed {
            Some(v) => first_text(v@),
            None => body@,
        }),
{
    match parsed {
        Some(v) => first_or_empty(v),
        None => body,
    }
}

/// A single answer `content` as a response with id `id` for `model`,
/// finished with `"stop"` and with zero token counts (what Hugging Face
/// answers become).
pub fn stop_response(id: String, model: String, content: String) -> (r: GrassLlmResponse)
    ensures
        r.id == id,
        r.model == model,
        r.choices@.len() == 1,
        assistant_choice(r.choices@[0], content@, Some(stop_reason())),
        usage_is(r.usage, 0, 0, 0),
{
    let mut choices: Vec<GrassChoice> = Vec::new();
    choices.push(
        GrassChoice {
            index: 0,
            message: GrassChatMessage { role: GrassMessageRole::Assistant, content, name: None },
            finish_reason: Some("stop".to_owned()),
        },
    );
    GrassLlmResponse {
        id,
        model,
        choices,
        usage: GrassUsage { prompt_tokens: 0, completion_tokens: 0, total_tokens: 0 },
    }
}

/// What Ollama's chat endpoint answers.
pub struct GrassOllamaReply {
    pub model: String,
    pub message: GrassChatMessage,
}

/// An Ollama reply as a response with id `id`: its model, its message as
/// the one answer (index 0), finished with `"stop"`, with zero counts.
pub fn ollama_response(id: String, reply: GrassOllamaReply) -> (r: GrassLlmResponse)
    ensures
        r.id == id,
        r.model == reply.model,
        r.choices@.len() == 1,
        r.choices@[0].index == 0,
        r.choices@[0].message == reply.message,
        opt_text(r.choices@[0].finish_reason) == Some(stop_reason()),
        usage_is(r.usage, 0, 0, 0),
{
    let mut choices: Vec<GrassChoice> = Vec::new();
    choices.push(
        GrassChoice {
            index: 0,
            message: reply.message,
            finish_reason: Some("stop".to_owned()),
        },
    );
    GrassLlmResponse {
        id,
        model: reply.model,
        choices,
        usage: GrassUsage { prompt_tokens: 0, completion_tokens: 0, total_tokens: 0 },
    }
}

// ---------------------------------------------------------------- streams

/// The text of `bytes` as UTF-8, each invalid sequence replaced by U+FFFD;
/// a function of the bytes alone.
pub uninterp spec fn lossy_text(bytes: Seq<u8>) -> Seq<char>;

/// `String::from_utf8_lossy(bytes).to_string()`.
#[verifier::external_body]
fn text_of_bytes(bytes: &[u8]) -> (r: String)
    ensures
        r@ == lossy_text(bytes@),
{
    String::from_utf8_lossy(bytes).to_string()
}

/// The chunk text that ends an OpenAI-style stream, once trimmed.
pub open spec fn done_marker() -> Seq<char> {
    "[DONE]"@
}

/// The event of one streamed text chunk: `Done` with zero counts when the
/// trimmed text is `[DONE]`, else a delta with the text.
pub fn chunk_event(text: String) -> (r: GrassStreamEvent)
    ensures
        if trimmed(text@) == done_marker() {
            r matches GrassStreamEvent::Done { usage } && usage_is(usage, 0, 0, 0)
        } else {
            r matches GrassStreamEvent::Delta { content } && content@ == text@
        },
{
    let t = trim_text(text.as_str());
    if str_eq(t.as_str(), "[DONE]") {
        GrassStreamEvent::Done {
            usage: GrassUsage { prompt_tokens: 0, completion_tokens: 0, total_tokens: 0 },
        }
    } else {
        GrassStreamEvent::Delta { content: text }
    }
}

/// The event of one chunk of an OpenAI or Azure stream: its bytes read as
/// UTF-8 (invalid sequences replaced), then as `chunk_event` says.
pub fn openai_stream_event(bytes: &[u8]) -> (r: GrassStreamEvent)
    ensures
        if trimmed(lossy_text(bytes@)) == done_marker() {
            r matches GrassStreamEvent::Done { usage } && usage_is(usage, 0, 0, 0)
        } else {
            r matches GrassStreamEvent::Delta { content } && content@ == lossy_text(bytes@)
        },
{
    chunk_event(text_of_bytes(bytes))
}

/// The event of one chunk of an Anthropic or Ollama stream: always a delta
/// with the chunk's bytes read as UTF-8 (invalid sequences replaced).
pub fn delta_stream_event(bytes: &[u8]) -> (r: GrassStreamEvent)
    ensures
        r matches GrassStreamEvent::Delta { content } && content@ == lossy_text(bytes@),
{
    GrassStreamEvent::Delta { content: text_of_bytes(bytes) }
}


// ---------------------------------------------------------------- providers

/// `a` + `b` + `c` as one `String`.
fn join3(a: &str, b: &str, c: &str) -> (r: String)
    ensures
        r@ == a@ + b@ + c@,
{
    let ab = join2(a, b);
    join2(ab.as_str(), c)
}

/// The `Bearer` authorization value for `key`.
pub fn bearer(key: &str) -> (r: String)
    ensures
        r@ == "Bearer "@ + key@,
{
    join2("Bearer ", key)
}

/// The OpenAI provider's settings: its API key and base URL.
pub struct GrassOpenAiProvider {
    api_key: String,
    base_url: String,
}

impl GrassOpenAiProvider {
    pub closed spec fn key(&self) -> Seq<char> {
        self.api_key@
    }

    pub closed spec fn base(&self) -> Seq<char> {
        self.base_url@
    }

    /// A provider for OpenAI's public endpoint.
    pub fn new(api_key: &str) -> (r: Self)
        ensures
            r.key() == api_key@,
            r.base() == "https://api.openai.com/v1"@,
    {
        GrassOpenAiProvider {
            api_key: api_key.to_owned(),
            base_url: "https://api.openai.com/v1".to_owned(),
        }
    }

    /// The same provider at another base URL.
    pub fn with_base_url(self, url: &str) -> (r: Self)
        ensures
            r.key() == self.key(),
            r.base() == url@,
    {
        GrassOpenAiProvider { api_key: self.api_key, base_url: url.to_owned() }
    }

    pub fn name(&self) -> (r: &'static str)
        ensures
            r@ == "openai"@,
    {
        "openai"
    }

    pub fn base_url(&self) -> (r: &str)
        ensures
            r@ == self.base(),
    {
        self.base_url.as_str()
    }

    /// The chat completions endpoint.
    pub fn completions_url(&self) -> (r: String)
        ensures
            r@ == self.base() + "/chat/completions"@,
    {
        join2(self.base_url.as_str(), "/chat/completions")
    }

    /// The value of the `Authorization` header.
    pub fn authorization(&self) -> (r: String)
        ensures
            r@ == "Bearer "@ + self.key(),
    {
        bearer(self.api_key.as_str())
    }
}

/// The Anthropic provider's settings.
pub struct GrassAnthropicProvider {
    api_key: String,
    base_url: String,
}

impl GrassAnthropicProvider {
    pub closed spec fn key(&self) -> Seq<char> {
        self.api_key@
    }

    pub closed spec fn base(&self) -> Seq<char> {
        self.base_url@
    }

    /// A provider for Anthropic's public endpoint.
    pub fn new(api_key: &str) -> (r: Self)
        ensures
            r.key() == api_key@,
            r.base() == "https://api.anthropic.com/v1"@,
    {
        GrassAnthropicProvider {
            api_key: api_key.to_owned(),
            base_url: "https://api.anthropic.com/v1".to_owned(),
        }
    }

    pub fn name(&self) -> (r: &'static str)
        ensures
            r@ == "anthropic"@,
    {
        "anthropic"
    }

    /// The API key, sent as the `x-api-key` header.
    pub fn api_key(&self) -> (r: &str)
        ensures
            r@ == self.key(),
    {
        self.api_key.as_str()
    }

    /// The API version sent as the `anthropic-version` header.
    pub fn api_version(&self) -> (r: &'static str)
        ensures
            r@ == "2023-06-01"@,
    {
        "2023-06-01"
    }

    /// The messages endpoint.
    pub fn messages_url(&self) -> (r: String)
        ensures
            r@ == self.base() + "/messages"@,
    {
        join2(self.base_url.as_str(), "/messages")
    }
}

/// The Azure OpenAI provider's settings.
pub struct GrassAzureOpenAiProvider {
    api_key: String,
    base_url: String,
    deployment: String,
    api_version: String,
}

impl GrassAzureOpenAiProvider {
    pub closed spec fn key(&self) -> Seq<char> {
        self.api_key@
    }

    pub closed spec fn base(&self) -> Seq<char> {
        self.base_url@
    }

    pub closed spec fn deployment_name(&self) -> Seq<char> {
        self.deployment@
    }

    pub closed spec fn version(&self) -> Seq<char> {
        self.api_version@
    }

    /// A provider for `deployment` at `base_url`, on API version
    /// 2024-02-15-preview.
    pub fn new(api_key: &str, base_url: &str, deployment: &str) -> (r: Self)
        ensures
            r.key() == api_key@,
            r.base() == base_url@,
            r.deployment_name() == deployment@,
            r.version() == "2024-02-15-preview"@,
    {
        GrassAzureOpenAiProvider {
            api_key: api_key.to_owned(),
            base_url: base_url.to_owned(),
            deployment: deployment.to_owned(),
            api_version: "2024-02-15-preview".to_owned(),
        }
    }

    /// The same provider on another API version.
    pub fn with_api_version(self, version: &str) -> (r: Self)
        ensures
            r.key() == self.key(),
            r.base() == self.base(),
            r.deployment_name() == self.deployment_name(),
            r.version() == version@,
    {
        GrassAzureOpenAiProvider {
            api_key: self.api_key,
            base_url: self.base_url,
            deployment: self.deployment,
            api_version: version.to_owned(),
        }
    }

    pub fn name(&self) -> (r: &'static str)
        ensures
            r@ == "azure-openai"@,
    {
        "azure-openai"
    }

    /// The API key, sent as the `api-key` header.
    pub fn api_key(&self) -> (r: &str)
        ensures
            r@ == self.key(),
    {
        self.api_key.as_str()
    }

    /// The deployment's chat completions endpoint, with the API version.
    pub fn completions_url(&self) -> (r: String)
        ensures
            r@ == self.base() + "/openai/deployments/"@ + self.deployment_name()
                + "/chat/completions?api-version="@ + self.version(),
    {
        let a = join3(self.base_url.as_str(), "/openai/deployments/", self.deployment.as_str());
        join3(a.as_str(), "/chat/completions?api-version=", self.api_version.as_str())
    }

    /// An Azure reply as a response: the model is the deployment's name.
    pub fn azure_response(&self, reply: GrassAzureReply) -> (r: GrassLlmResponse)
        ensures
            r.id == reply.id,
            r.model@ == self.deployment_name(),
            r.choices == reply.choices,
            r.usage == reply.usage,
    {
        GrassLlmResponse {
            id: reply.id,
            model: self.deployment.clone(),
            choices: reply.choices,
            usage: reply.usage,
        }
    }
}

/// The Cohere provider's settings.
pub struct GrassCohereProvider {
    api_key: String,
    base_url: String,
}

impl GrassCohereProvider {
    pub closed spec fn key(&self) -> Seq<char> {
        self.api_key@
    }

    pub closed spec fn base(&self) -> Seq<char> {
        self.base_url@
    }

    /// A provider for Cohere's public endpoint.
    pub fn new(api_key: &str) -> (r: Self)
        ensures
            r.key() == api_key@,
            r.base() == "https://api.cohere.ai/v1"@,
    {
        GrassCohereProvider {
            api_key: api_key.to_owned(),
            base_url: "https://api.cohere.ai/v1".to_owned(),
        }
    }

    pub fn name(&self) -> (r: &'static str)
        ensures
            r@ == "cohere"@,
    {
        "cohere"
    }

    /// The chat endpoint.
    pub fn chat_url(&self) -> (r: String)
        ensures
            r@ == self.base() + "/chat"@,
    {
        join2(self.base_url.as_str(), "/chat")
    }

    /// The value of the `Authorization` header.
    pub fn authorization(&self) -> (r: String)
        ensures
            r@ == "Bearer "@ + self.key(),
    {
        bearer(self.api_key.as_str())
    }
}

/// The Gemini provider's settings.
pub struct GrassGeminiProvider {
    api_key: String,
    base_url: String,
}

impl GrassGeminiProvider {
    pub closed spec fn key(&self) -> Seq<char> {
        self.api_key@
    }

    pub closed spec fn base(&self) -> Seq<char> {
        self.base_url@
    }

    /// A provider for Google's generative language endpoint.
    pub fn new(api_key: &str) -> (r: Self)
        ensures
            r.key() == api_key@,
            r.base() == "https://generativelanguage.googleapis.com/v1beta"@,
    {
        GrassGeminiProvider {
            api_key: api_key.to_owned(),
            base_url: "https://generativelanguage.googleapis.com/v1beta".to_owned(),
        }
    }

    pub fn name(&self) -> (r: &'static str)
        ensures
            r@ == "gemini"@,
    {
        "gemini"
    }

    /// The generate endpoint of `model`, with the key as a query parameter.
    pub fn generate_url(&self, model: &str) -> (r: String)
        ensures
            r@ == self.base() + "/models/"@ + model@ + ":generateContent?key="@ + self.key(),
    {
        let a = join3(self.base_url.as_str(), "/models/", model);
        join3(a.as_str(), ":generateContent?key=", self.api_key.as_str())
    }
}

/// The Hugging Face inference provider's settings.
pub struct GrassHuggingFaceProvider {
    api_key: String,
    base_url: String,
}

impl GrassHuggingFaceProvider {
    pub closed spec fn key(&self) -> Seq<char> {
        self.api_key@
    }

    pub closed spec fn base(&self) -> Seq<char> {
        self.base_url@
    }

    /// A provider for the public inference API.
    pub fn new(api_key: &str) -> (r: Self)
        ensures
            r.key() == api_key@,
            r.base() == "https://api-inference.huggingface.co"@,
    {
        GrassHuggingFaceProvider {
            api_key: api_key.to_owned(),
            base_url: "https://api-inference.huggingface.co".to_owned(),
        }
    }

    /// The same provider at another base URL.
    pub fn with_base_url(self, url: &str) -> (r: Self)
        ensures
            r.key() == self.key(),
            r.base() == url@,
    {
        GrassHuggingFaceProvider { api_key: self.api_key, base_url: url.to_owned() }
    }

    pub fn name(&self) -> (r: &'static str)
        ensures
            r@ == "huggingface"@,
    {
        "huggingface"
    }

    /// The endpoint of `model`.
    pub fn model_url(&self, model: &str) -> (r: String)
        ensures
            r@ == self.base() + "/models/"@ + model@,
    {
        join3(self.base_url.as_str(), "/models/", model)
    }

    /// The value of the `Authorization` header.
    pub fn authorization(&self) -> (r: String)
        ensures
            r@ == "Bearer "@ + self.key(),
    {
        bearer(self.api_key.as_str())
    }
}

/// The Ollama provider's settings.
pub struct GrassOllamaProvider {
    base_url: String,
}

impl GrassOllamaProvider {
    pub closed spec fn base(&self) -> Seq<char> {
        self.base_url@
    }

    /// A provider for the Ollama server at `base_url`.
    pub fn new(base_url: &str) -> (r: Self)
        ensures
            r.base() == base_url@,
    {
        GrassOllamaProvider { base_url: base_url.to_owned() }
    }

    pub fn name(&self) -> (r: &'static str)
        ensures
            r@ == "ollama"@,
    {
        "ollama"
    }

    /// The chat endpoint.
    pub fn chat_url(&self) -> (r: String)
        ensures
            r@ == self.base() + "/api/chat"@,
    {
        join2(self.base_url.as_str(), "/api/chat")
    }
}

/// A provider of the caller's own: its name, its endpoint and the extra
/// headers it sends.
pub struct GrassCustomProvider {
    name: String,
    base_url: String,
    headers: GrassStringMap<String>,
}

impl GrassCustomProvider {
    pub closed spec fn provider_name(&self) -> Seq<char> {
        self.name@
    }

    pub closed spec fn base(&self) -> Seq<char> {
        self.base_url@
    }

    /// The extra headers by name.
    pub closed spec fn header_map(&self) -> Map<Seq<char>, String> {
        self.headers@
    }

    pub closed spec fn wf(&self) -> bool {
        self.headers.wf()
    }

    /// A provider named `name` at `base_url`, with no extra headers.
    pub fn new(name: &str, base_url: &str) -> (r: Self)
        ensures
            r.wf(),
            r.provider_name() == name@,
            r.base() == base_url@,
            r.header_map() == Map::<Seq<char>, String>::empty(),
    {
        GrassCustomProvider {
            name: name.to_owned(),
            base_url: base_url.to_owned(),
            headers: GrassStringMap::new(),
        }
    }

    /// The same provider that also sends header `key: value` (replacing a
    /// header of that name).
    pub fn with_header(self, key: &str, value: &str) -> (r: Self)
        requires
            self.wf(),
        ensures
            r.wf(),
            r.provider_name() == self.provider_name(),
            r.base() == self.base(),
            r.header_map().dom() == self.header_map().dom().insert(key@),
            r.header_map()[key@]@ == value@,
            forall|k: Seq<char>|
                k != key@ && #[trigger] self.header_map().contains_key(k) ==> r.header_map()[k]
                    == self.header_map()[k],
    {
        let mut headers = self.headers;
        let v = value.to_owned();
        headers.insert(key.to_owned(), v);
        GrassCustomProvider { name: self.name, base_url: self.base_url, headers }
    }

    pub fn name(&self) -> (r: &str)
        ensures
            r@ == self.provider_name(),
    {
        self.name.as_str()
    }

    pub fn base_url(&self) -> (r: &str)
        ensures
            r@ == self.base(),
    {
        self.base_url.as_str()
    }

    /// The extra headers.
    pub fn headers(&self) -> (r: &GrassStringMap<String>)
        ensures
            r@ == self.header_map(),
            r.wf() == self.wf(),
    {
        &self.headers
    }
}

} // verus!
