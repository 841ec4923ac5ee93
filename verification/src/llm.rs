//! Chat-completion data, the provider registry of the LLM service, and the
//! request and response filters.
use vstd::prelude::*;
use crate::error::GrassError;
use crate::text::{join2, str_chars, string_from_chars, remove_all, remove_all_str, lemma_remove_all_split,
    lemma_remove_all_absent, lemma_remove_all_none, lemma_no_crossing_absent, no_crossing};
use crate::text_map::GrassStringMap;

verus! {

/// Who wrote a chat message.
#[derive(Debug, Clone, Copy, PartialEq, Eq, Structural)]
pub enum GrassMessageRole {
    System,
    User,
    Assistant,
    Tool,
}

/// One message of a chat.
pub struct GrassChatMessage {
    pub role: GrassMessageRole,
    pub content: String,
    pub name: Option<String>,
}

impl Clone for GrassChatMessage {
    fn clone(&self) -> (r: Self)
        ensures
            r == *self,
    {
        GrassChatMessage {
            role: self.role,
            content: self.content.clone(),
            name: match &self.name {
                Some(n) => Some(n.clone()),
                None => None,
            },
        }
    }
}

/// A tool the model may call. `parameters` is a JSON schema text.
pub struct GrassToolDefinition {
    pub name: String,
    pub description: String,
    pub parameters: String,
}

/// A tool call made by the model. `arguments` is a JSON text.
pub struct GrassToolCall {
    pub id: String,
    pub name: String,
    pub arguments: String,
}

/// A chat-completion request. The sampling temperature is carried as the
/// IEEE-754 bits of its `f32` value.
pub struct GrassLlmRequest {
    pub model: String,
    pub messages: Vec<GrassChatMessage>,
    pub temperature_bits: Option<u32>,
    pub max_tokens: Option<u32>,
    pub stream: bool,
    pub tools: Option<Vec<GrassToolDefinition>>,
}

/// Token counts of a completion.
#[derive(Clone, Copy)]
pub struct GrassUsage {
    pub prompt_tokens: u32,
    pub completion_tokens: u32,
    pub total_tokens: u32,
}

/// One candidate answer.
pub struct GrassChoice {
    pub index: u32,
    pub message: GrassChatMessage,
    pub finish_reason: Option<String>,
}

/// A chat-completion response.
pub struct GrassLlmResponse {
    pub id: String,
    pub model: String,
    pub choices: Vec<GrassChoice>,
    pub usage: GrassUsage,
}

/// One event of a streamed completion.
pub enum GrassStreamEvent {
    Delta { content: String },
    ToolCall { tool_call: GrassToolCall },
    Done { usage: GrassUsage },
    Error { error: String },
}

/// The message of the error for a completion with no default provider.
pub open spec fn no_default_message() -> Seq<char> {
    "no default provider set"@
}

/// The message of the error for a default provider that is not registered.
pub open spec fn missing_provider_message(name: Seq<char>) -> Seq<char> {
    "provider '"@ + name + "' not found"@
}

/// The registered LLM providers by name, and the one used by default.
pub struct GrassLlmService<P> {
    providers: GrassStringMap<P>,
    default_provider: Option<String>,
}

impl<P> GrassLlmService<P> {
    /// The providers by name.
    pub closed spec fn providers(&self) -> Map<Seq<char>, P> {
        self.providers@
    }

    /// Provider names in the order they were first registered.
    pub closed spec fn provider_order(&self) -> Seq<Seq<char>> {
        self.providers.key_order()
    }

    /// The name of the default provider, if one is chosen.
    pub closed spec fn default_name(&self) -> Option<Seq<char>> {
        match self.default_provider {
            Some(s) => Some(s@),
            None => None,
        }
    }

    pub closed spec fn wf(&self) -> bool {
        self.providers.wf()
    }

    /// A service with no providers and no default.
    pub fn new() -> (r: Self)
        ensures
            r.wf(),
            r.providers() == Map::<Seq<char>, P>::empty(),
            r.provider_order() == Seq::<Seq<char>>::empty(),
            r.default_name() is None,
    {
        GrassLlmService { providers: GrassStringMap::new(), default_provider: None }
    }

    /// Registers `provider` as `name`, replacing one with that name; the
    /// first provider registered becomes the default.
    pub fn register_provider(&mut self, name: &str, provider: P)
        requires
            old(self).wf(),
        ensures
            final(self).wf(),
            final(self).providers() == old(self).providers().insert(name@, provider),
            final(self).default_name() == (if old(self).default_name() is None {
                Some(name@)
            } else {
                old(self).default_name()
            }),
    {
        if self.default_provider.is_none() {
            self.default_provider = Some(name.to_owned());
        }
        self.providers.insert(name.to_owned(), provider);
    }

    /// Makes `name` the default provider, registered or not.
    pub fn set_default(&mut self, name: &str)
        ensures
            final(self).providers() == old(self).providers(),
            final(self).provider_order() == old(self).provider_order(),
            final(self).wf() == old(self).wf(),
            final(self).default_name() == Some(name@),
    {
        self.default_provider = Some(name.to_owned());
    }

    /// The provider registered as `name`, if any.
    pub fn provider(&self, name: &str) -> (r: Option<&P>)
        ensures
            match r {
                Some(p) => self.providers().contains_key(name@) && *p == self.providers()[name@],
                None => !self.providers().contains_key(name@),
            },
    {
        self.providers.get(name)
    }

    /// The registered names, in the order they were first registered.
    pub fn list_providers(&self) -> (r: Vec<&str>)
        ensures
            r@.map_values(|s: &str| s@) == self.provider_order(),
    {
        self.providers.keys()
    }

    /// The name of the default provider, if one is chosen.
    pub fn default_provider_name(&self) -> (r: Option<&str>)
        ensures
            match r {
                Some(s) => self.default_name() == Some(s@),
                None => self.default_name() is None,
            },
    {
        match &self.default_provider {
            Some(s) => Some(s.as_str()),
            None => None,
        }
    }

    /// The provider that completions go to: the default one; an LLM error
    /// when no default is chosen or it is not registered.
    pub fn completion_provider(&self) -> (r: Result<&P, GrassError>)
        ensures
            self.default_name() is None ==> (r matches Err(GrassError::Llm(m)) && m@
                == no_default_message()),
            self.default_name() matches Some(n) ==> if self.providers().contains_key(n) {
                r == Ok::<&P, GrassError>(&self.providers()[n])
            } else {
                r matches Err(GrassError::Llm(m)) && m@ == missing_provider_message(n)
            },
    {
        match &self.default_provider {
            None => Err(GrassError::Llm("no default provider set".to_owned())),
            Some(name) => match self.providers.get(name.as_str()) {
                Some(p) => Ok(p),
                None => {
                    let m = join2(join2("provider '", name.as_str()).as_str(), "' not found");
                    Err(GrassError::Llm(m))
                },
            },
        }
    }
}

/// Whether some message of `ms` is a system message.
pub open spec fn has_system(ms: Seq<GrassChatMessage>) -> bool {
    exists|i: int| 0 <= i < ms.len() && ms[i].role == GrassMessageRole::System
}

/// `after` is `before` with a system message holding `prompt` put in
/// front, unless `before` already has a system message, in which case the
/// two are equal.
pub open spec fn prompt_applied(
    before: Seq<GrassChatMessage>,
    after: Seq<GrassChatMessage>,
    prompt: Seq<char>,
) -> bool {
    if has_system(before) {
        after == before
    } else {
        &&& after.len() == before.len() + 1
        &&& after[0].role == GrassMessageRole::System
        &&& after[0].content@ == prompt
        &&& after[0].name is None
        &&& after.drop_first() == before
    }
}

/// Changes a request before it is sent.
pub trait GrassRequestFilter {
    fn filter(&self, request: &mut GrassLlmRequest);
}

/// Changes a response before it is handed back.
pub trait GrassResponseFilter {
    /// The responses this filter can change.
    spec fn accepts(&self, response: GrassLlmResponse) -> bool;

    fn filter(&self, response: &mut GrassLlmResponse)
        requires
            self.accepts(*old(response)),
    ;
}

/// Puts a system prompt in front of requests that have none.
pub struct GrassSystemPromptFilter {
    pub system_prompt: String,
}

impl GrassRequestFilter for GrassSystemPromptFilter {
    /// Inserts the system prompt as the first message unless the request
    /// already has a system message.
    fn filter(&self, request: &mut GrassLlmRequest)
        ensures
            final(request).model == old(request).model,
            final(request).temperature_bits == old(request).temperature_bits,
            final(request).max_tokens == old(request).max_tokens,
            final(request).stream == old(request).stream,
            final(request).tools == old(request).tools,
            prompt_applied(old(request).messages@, final(request).messages@, self.system_prompt@),
    {
        let mut i: usize = 0;
        let mut found = false;
        while i < request.messages.len()
            invariant
                i <= request.messages.len(),
                found == exists|k: int|
                    0 <= k < i && request.messages@[k].role == GrassMessageRole::System,
            decreases request.messages.len() - i,
        {
            if request.messages[i].role == GrassMessageRole::System {
                found = true;
            }
            i = i + 1;
        }
        if !found {
            let ghost before = request.messages@;
            request.messages.insert(
                0,
                GrassChatMessage {
                    role: GrassMessageRole::System,
                    content: self.system_prompt.clone(),
                    name: None,
                },
            );
            assert(request.messages@.drop_first() =~= before);
        }
    }
}

/// The number of bytes that UTF-8 uses for `c`.
pub open spec fn utf8_width(c: char) -> nat {
    let v = c as u32;
    if v <= 0x7f {
        1
    } else if v <= 0x7ff {
        2
    } else if v <= 0xffff {
        3
    } else {
        4
    }
}

/// The UTF-8 length of a text in bytes.
pub open spec fn utf8_len(s: Seq<char>) -> nat
    decreases s.len(),
{
    if s.len() == 0 {
        0
    } else {
        utf8_len(s.drop_last()) + utf8_width(s.last())
    }
}

/// Whether byte offset `n` falls between characters of `s`.
pub open spec fn is_byte_boundary(s: Seq<char>, n: nat) -> bool {
    n >= utf8_len(s) || exists|k: int| 0 <= k <= s.len() && utf8_len(s.take(k)) == n
}

/// `s` cut to at most `n` bytes, as `String::truncate(n)` does when `n`
/// falls between characters: unchanged when it is no longer, else the
/// characters that fill exactly the first `n` bytes.
pub open spec fn truncate_bytes(s: Seq<char>, n: nat) -> Seq<char> {
    if utf8_len(s) <= n {
        s
    } else {
        s.take(choose|k: int| 0 <= k <= s.len() && utf8_len(s.take(k)) == n)
    }
}

fn char_width(c: char) -> (r: usize)
    ensures
        r == utf8_width(c),
{
    let v = c as u32;
    if v <= 0x7f {
        1
    } else if v <= 0x7ff {
        2
    } else if v <= 0xffff {
        3
    } else {
        4
    }
}

pub proof fn lemma_utf8_len_monotone(s: Seq<char>, a: int, b: int)
    requires
        0 <= a <= b <= s.len(),
    ensures
        utf8_len(s.take(a)) <= utf8_len(s.take(b)),
        a < b ==> utf8_len(s.take(a)) < utf8_len(s.take(b)),
    decreases b - a,
{
    if a < b {
        lemma_utf8_len_monotone(s, a, b - 1);
        assert(s.take(b).drop_last() =~= s.take(b - 1));
    }
}

/// `s` cut to at most `n` bytes; `n` must fall between characters.
pub fn truncate_string(s: &String, n: usize) -> (r: String)
    requires
        is_byte_boundary(s@, n as nat),
    ensures
        r@ == truncate_bytes(s@, n as nat),
{
    let v = str_chars(s.as_str());
    let ghost long = utf8_len(s@) > n;
    let ghost k0: int = if long {
        choose|k: int| 0 <= k <= s@.len() && utf8_len(s@.take(k)) == n
    } else {
        s@.len() as int
    };
    proof {
        assert(s@.take(s@.len() as int) =~= s@);
        if long {
            assert(0 <= k0 <= s@.len() && utf8_len(s@.take(k0)) == n);
        }
    }
    let mut k: usize = 0;
    let mut bytes: usize = 0;
    assert(v@.take(0) =~= Seq::<char>::empty());
    while k < v.len() && bytes < n
        invariant
            k <= v.len(),
            v@ == s@,
            bytes == utf8_len(v@.take(k as int)),
            bytes <= n,
            0 <= k0 <= v@.len(),
            long ==> utf8_len(v@.take(k0)) == n,
            !long ==> k0 == v@.len() && utf8_len(v@) <= n,
            v@.take(v@.len() as int) == v@,
            k <= k0,
        ensures
            k == v.len() || bytes >= n || (k < v.len() && bytes + utf8_width(v@[k as int]) > n),
        decreases v.len() - k,
    {
        let w = char_width(v[k]);
        assert(v@.take(k + 1).drop_last() =~= v@.take(k as int));
        proof {
            if (k as int) < k0 {
                lemma_utf8_len_monotone(v@, k + 1, k0);
            } else {
                lemma_utf8_len_monotone(v@, k as int, v@.len() as int);
            }
        }
        if w > n - bytes {
            break;
        }
        bytes = bytes + w;
        k = k + 1;
    }
    proof {
        if k < k0 {
            lemma_utf8_len_monotone(v@, k as int, k0);
            lemma_utf8_len_monotone(v@, k + 1, k0);
            assert(v@.take(k + 1).drop_last() =~= v@.take(k as int));
        }
        assert(k as int == k0);
        if long {
            assert forall|k1: int| 0 <= k1 <= s@.len() && utf8_len(s@.take(k1)) == n implies k1
                == k0 by {
                if k1 < k0 {
                    lemma_utf8_len_monotone(v@, k1, k0);
                } else if k1 > k0 {
                    lemma_utf8_len_monotone(v@, k0, k1);
                }
            }
        }
    }
    let mut out: Vec<char> = Vec::new();
    let mut i: usize = 0;
    while i < k
        invariant
            k <= v.len(),
            i <= k,
            out@ == v@.take(i as int),
        decreases k - i,
    {
        out.push(v[i]);
        i = i + 1;
        assert(out@ =~= v@.take(i as int));
    }
    string_from_chars(out.as_slice())
}

/// `after` is `before` with its message text replaced by `content`.
pub open spec fn choice_with_content(before: GrassChoice, after: GrassChoice, content: Seq<char>) -> bool {
    &&& after.index == before.index
    &&& after.finish_reason == before.finish_reason
    &&& after.message.role == before.message.role
    &&& after.message.name == before.message.name
    &&& after.message.content@ == content
}

/// The response parts that response filters leave alone are unchanged.
pub open spec fn same_envelope(before: GrassLlmResponse, after: GrassLlmResponse) -> bool {
    &&& after.id == before.id
    &&& after.model == before.model
    &&& after.usage == before.usage
    &&& after.choices@.len() == before.choices@.len()
}

/// The byte length that over-long answers are cut to.
pub open spec fn truncated_length() -> nat {
    1000
}

/// Cuts every answer to 1000 bytes when a response used more tokens than
/// allowed.
pub struct GrassTokenLimitFilter {
    pub max_tokens: u32,
}

impl GrassTokenLimitFilter {
    /// Whether this filter can cut `response`: cutting happens only over
    /// the limit, and then byte 1000 of every answer must fall between
    /// characters (`String::truncate` panics otherwise).
    pub open spec fn can_filter(&self, response: GrassLlmResponse) -> bool {
        response.usage.total_tokens > self.max_tokens ==> forall|i: int|
            0 <= i < response.choices@.len() ==> is_byte_boundary(
                #[trigger] response.choices@[i].message.content@,
                truncated_length(),
            )
    }

}

impl GrassResponseFilter for GrassTokenLimitFilter {
    open spec fn accepts(&self, response: GrassLlmResponse) -> bool {
        self.can_filter(response)
    }

    /// Over the token limit, cuts each answer to its first 1000 bytes;
    /// within the limit, changes nothing.
    fn filter(&self, response: &mut GrassLlmResponse)
        ensures
            same_envelope(*old(response), *final(response)),
            forall|i: int|
                0 <= i < final(response).choices@.len() ==> choice_with_content(
                    old(response).choices@[i],
                    #[trigger] final(response).choices@[i],
                    if old(response).usage.total_tokens > self.max_tokens {
                        truncate_bytes(old(response).choices@[i].message.content@, truncated_length())
                    } else {
                        old(response).choices@[i].message.content@
                    },
                ),
    {
        if response.usage.total_tokens > self.max_tokens {
            let ghost before = response.choices@;
            let ghost orig = *response;
            let mut i: usize = 0;
            while i < response.choices.len()
                invariant
                    response.id == orig.id,
                    response.model == orig.model,
                    response.usage == orig.usage,
                    i <= response.choices.len(),
                    response.choices@.len() == before.len(),
                    response.usage.total_tokens > self.max_tokens,
                    forall|j: int|
                        0 <= j < before.len() ==> is_byte_boundary(
                            #[trigger] before[j].message.content@,
                            truncated_length(),
                        ),
                    forall|j: int|
                        0 <= j < i ==> choice_with_content(
                            before[j],
                            #[trigger] response.choices@[j],
                            truncate_bytes(before[j].message.content@, truncated_length()),
                        ),
                    forall|j: int| i <= j < before.len() ==> #[trigger] response.choices@[j] == before[j],
                decreases response.choices.len() - i,
            {
                let c = &mut response.choices[i];
                let cut = truncate_string(&c.message.content, 1000);
                c.message.content = cut;
                i = i + 1;
            }
        }
    }
}

/// The text left once script tags are stripped.
pub open spec fn sanitized(s: Seq<char>) -> Seq<char> {
    remove_all(remove_all(s, "<script>"@), "</script>"@)
}

proof fn lemma_lt_free_concat(a: Seq<char>, b: Seq<char>)
    requires
        !a.contains('<'),
        !b.contains('<'),
    ensures
        !(a + b).contains('<'),
{
    if (a + b).contains('<') {
        let k = choose|k: int| 0 <= k < (a + b).len() && (a + b)[k] == '<';
        if k < a.len() {
            assert(a[k] == '<');
        } else {
            assert(b[k - a.len()] == '<');
        }
    }
}

/// In `t2 + "</script>" + t3`, followed by anything, no `<script>` starts.
proof fn lemma_closing_tag_not_opening(t2: Seq<char>, t3: Seq<char>, y: Seq<char>)
    requires
        !t2.contains('<'),
        !t3.contains('<'),
    ensures
        forall|i: int|
            0 <= i < (t2 + "</script>"@ + t3).len() && i + 8 <= (t2 + "</script>"@ + t3 + y).len()
                ==> #[trigger] (t2 + "</script>"@ + t3 + y).subrange(i, i + 8) != "<script>"@,
{
    reveal_strlit("<script>");
    reveal_strlit("</script>");
    let q = "</script>"@;
    let m = t2 + q + t3;
    let x = m + y;
    assert forall|i: int| 0 <= i < m.len() && i + 8 <= x.len() implies #[trigger] x.subrange(
        i,
        i + 8,
    ) != "<script>"@ by {
        if x.subrange(i, i + 8) == "<script>"@ {
            assert("<script>"@[0] == '<' && "<script>"@[1] == 's');
            assert(x.subrange(i, i + 8)[0] == x[i]);
            assert(x.subrange(i, i + 8)[1] == x[i + 1]);
            assert(x[i] == '<');
            assert(x[i + 1] == 's');
            if i < t2.len() {
                assert(t2[i] == '<');
                assert(t2.contains(t2[i]));
            } else if i < t2.len() + 9 {
                assert(x[i] == q[i - t2.len()]);
                if i > t2.len() {
                } else {
                    assert(x[i + 1] == q[1]);
                }
            } else {
                assert(t3[i - t2.len() - 9] == '<');
                assert(t3.contains(t3[i - t2.len() - 9]));
            }
        }
    }
}

/// Sanitizing removes every script tag, not only the first of each kind:
/// for texts `t1`..`t5` without `<`, the answer
/// `t1<script>t2</script>t3<script>t4</script>t5` becomes `t1t2t3t4t5`.
pub proof fn lemma_sanitize_script_pairs(
    t1: Seq<char>,
    t2: Seq<char>,
    t3: Seq<char>,
    t4: Seq<char>,
    t5: Seq<char>,
)
    requires
        !t1.contains('<'),
        !t2.contains('<'),
        !t3.contains('<'),
        !t4.contains('<'),
        !t5.contains('<'),
    ensures
        sanitized(t1 + "<script>"@ + t2 + "</script>"@ + t3 + "<script>"@ + t4 + "</script>"@ + t5)
            == t1 + t2 + t3 + t4 + t5,
{
    reveal_strlit("<script>");
    reveal_strlit("</script>");
    let p = "<script>"@;
    let q = "</script>"@;
    assert(p[0] == '<' && q[0] == '<');
    let m2 = t2 + q + t3;
    let m4 = t4 + q + t5;
    let s = t1 + p + t2 + q + t3 + p + t4 + q + t5;
    assert(s =~= t1 + p + (m2 + p + m4));
    // the opening tags
    lemma_no_crossing_absent(t1, p + (m2 + p + m4), p);
    lemma_remove_all_split(t1, p, m2 + p + m4);
    lemma_remove_all_absent(t1, p);
    lemma_closing_tag_not_opening(t2, t3, p + m4);
    assert(m2 + (p + m4) =~= t2 + q + t3 + (p + m4));
    assert(no_crossing(m2, p + m4, p));
    lemma_remove_all_split(m2, p, m4);
    lemma_closing_tag_not_opening(t2, t3, Seq::empty());
    assert(t2 + q + t3 + Seq::<char>::empty() =~= m2);
    lemma_remove_all_none(m2, p);
    lemma_closing_tag_not_opening(t4, t5, Seq::empty());
    assert(t4 + q + t5 + Seq::<char>::empty() =~= m4);
    lemma_remove_all_none(m4, p);
    let r1 = remove_all(s, p);
    assert(r1 == t1 + (m2 + m4));
    // the closing tags
    let a = t1 + t2;
    let c = t3 + t4;
    lemma_lt_free_concat(t1, t2);
    lemma_lt_free_concat(t3, t4);
    assert(r1 =~= a + q + (c + q + t5));
    lemma_no_crossing_absent(a, q + (c + q + t5), q);
    lemma_remove_all_split(a, q, c + q + t5);
    lemma_no_crossing_absent(c, q + t5, q);
    lemma_remove_all_split(c, q, t5);
    lemma_remove_all_absent(a, q);
    lemma_remove_all_absent(c, q);
    lemma_remove_all_absent(t5, q);
    assert(a + (c + t5) =~= t1 + t2 + t3 + t4 + t5);
}

/// Strips `<script>` and `</script>` tags from every answer.
pub struct GrassContentSanitizerFilter;

impl GrassResponseFilter for GrassContentSanitizerFilter {
    open spec fn accepts(&self, response: GrassLlmResponse) -> bool {
        true
    }

    /// Removes every `<script>`, then every `</script>`, from each answer.
    fn filter(&self, response: &mut GrassLlmResponse)
        ensures
            same_envelope(*old(response), *final(response)),
            forall|i: int|
                0 <= i < final(response).choices@.len() ==> choice_with_content(
                    old(response).choices@[i],
                    #[trigger] final(response).choices@[i],
                    sanitized(old(response).choices@[i].message.content@),
                ),
    {
        proof {
            reveal_strlit("<script>");
            reveal_strlit("</script>");
        }
        let ghost before = response.choices@;
        let ghost orig = *response;
        let mut i: usize = 0;
        while i < response.choices.len()
            invariant
                response.id == orig.id,
                response.model == orig.model,
                response.usage == orig.usage,
                i <= response.choices.len(),
                response.choices@.len() == before.len(),
                "<script>"@.len() > 0,
                "</script>"@.len() > 0,
                forall|j: int|
                    0 <= j < i ==> choice_with_content(
                        before[j],
                        #[trigger] response.choices@[j],
                        sanitized(before[j].message.content@),
                    ),
                forall|j: int| i <= j < before.len() ==> #[trigger] response.choices@[j] == before[j],
            decreases response.choices.len() - i,
        {
            let c = &mut response.choices[i];
            let a = remove_all_str(c.message.content.as_str(), "<script>");
            let b = remove_all_str(a.as_str(), "</script>");
            c.message.content = b;
            i = i + 1;
        }
    }
}


impl<P> Default for GrassLlmService<P> {
    /// A service with no providers.
    fn default() -> (r: Self)
        ensures
            r.wf(),
            r.providers() == Map::<Seq<char>, P>::empty(),
            r.default_name() is None,
    {
        Self::new()
    }
}

} // verus!
