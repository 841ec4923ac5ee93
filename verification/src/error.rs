//! The framework-wide error type, its stable codes and its domains.
use vstd::prelude::*;
use crate::text::{str_chars, chars_equal, join2, u64_to_decimal, decimal};

verus! {

/// Every failure the framework reports. Errors that came from outside
/// (JSON, the file system) carry the outside error's rendered text.
#[derive(Debug, Clone, PartialEq, Eq)]
pub enum GrassError {
    Agent(String),
    Task(String),
    Plugin(String),
    Hook(String),
    Protocol(String),
    Ipc(String),
    Sandbox(String),
    Llm(String),
    Inference(String),
    Blockchain(String),
    Iot(String),
    Streaming(String),
    VectorDb(String),
    Integration(String),
    Flow(String),
    Messaging(String),
    Serialization(String),
    Io(String),
    Timeout(u64),
    NotFound(String),
    PermissionDenied(String),
    Internal(String),
}

/// The stable table code of each kind of error.
pub open spec fn error_code(e: GrassError) -> Seq<char> {
    match e {
        GrassError::Agent(_) => "GR-CORE-0001"@,
        GrassError::Task(_) => "GR-CORE-0002"@,
        GrassError::Plugin(_) => "GR-CORE-0003"@,
        GrassError::Hook(_) => "GR-CORE-0004"@,
        GrassError::Protocol(_) => "GR-PROTO-0001"@,
        GrassError::Ipc(_) => "GR-IPC-0001"@,
        GrassError::Sandbox(_) => "GR-SANDBOX-0001"@,
        GrassError::Llm(_) => "GR-LLM-0001"@,
        GrassError::Inference(_) => "GR-INF-0001"@,
        GrassError::Blockchain(_) => "GR-BC-0001"@,
        GrassError::Iot(_) => "GR-IOT-0001"@,
        GrassError::Streaming(_) => "GR-STREAM-0001"@,
        GrassError::VectorDb(_) => "GR-VEC-0001"@,
        GrassError::Integration(_) => "GR-INT-0001"@,
        GrassError::Flow(_) => "GR-FLOW-0001"@,
        GrassError::Messaging(_) => "GR-MSG-0001"@,
        GrassError::Serialization(_) => "GR-CORE-0005"@,
        GrassError::Io(_) => "GR-CORE-0006"@,
        GrassError::Timeout(_) => "GR-CORE-0007"@,
        GrassError::NotFound(_) => "GR-CORE-0008"@,
        GrassError::PermissionDenied(_) => "GR-CORE-0009"@,
        GrassError::Internal(_) => "GR-CORE-0010"@,
    }
}

/// Index of the first occurrence of `c` in `s`, or -1.
pub open spec fn index_of_char(s: Seq<char>, c: char) -> int
    decreases s.len(),
{
    if s.len() == 0 {
        -1
    } else if s[0] == c {
        0
    } else {
        let r = index_of_char(s.drop_first(), c);
        if r < 0 {
            -1
        } else {
            r + 1
        }
    }
}

/// The second `-`-separated field of a code (`"GR-CORE-0001"` gives
/// `"CORE"`); `None` when the code holds no `-`.
pub open spec fn code_tag(code: Seq<char>) -> Option<Seq<char>> {
    let i = index_of_char(code, '-');
    if i < 0 {
        None
    } else {
        let rest = code.skip(i + 1);
        let j = index_of_char(rest, '-');
        Some(
            if j < 0 {
                rest
            } else {
                rest.take(j)
            },
        )
    }
}

/// The domain that a code's tag names; unknown tags belong to `core`.
pub open spec fn tag_domain(t: Seq<char>) -> Seq<char> {
    if t == "CORE"@ {
        "core"@
    } else if t == "RUNTIME"@ {
        "runtime"@
    } else if t == "LLM"@ {
        "llm"@
    } else if t == "HOOKS"@ {
        "hooks"@
    } else if t == "PROTO"@ {
        "protocol"@
    } else if t == "IPC"@ {
        "ipc"@
    } else if t == "SANDBOX"@ {
        "sandbox"@
    } else if t == "PLUGIN"@ {
        "plugin"@
    } else if t == "INF"@ {
        "inference"@
    } else if t == "IOT"@ {
        "iot"@
    } else if t == "STREAM"@ {
        "streaming"@
    } else if t == "VEC"@ {
        "vector"@
    } else if t == "BC"@ {
        "blockchain"@
    } else if t == "INT"@ {
        "integrations"@
    } else if t == "FLOW"@ {
        "flow"@
    } else if t == "MSG"@ {
        "messaging"@
    } else if t == "ORCH"@ {
        "orchestrator"@
    } else if t == "BIN"@ {
        "binary"@
    } else {
        "core"@
    }
}

/// The domain that a code belongs to.
pub open spec fn code_domain(code: Seq<char>) -> Seq<char> {
    match code_tag(code) {
        Some(t) => tag_domain(t),
        None => "core"@,
    }
}

/// The text that an error renders to.
pub open spec fn error_text(e: GrassError) -> Seq<char> {
    match e {
        GrassError::Agent(m) => "agent error: "@ + m@,
        GrassError::Task(m) => "task error: "@ + m@,
        GrassError::Plugin(m) => "plugin error: "@ + m@,
        GrassError::Hook(m) => "hook error: "@ + m@,
        GrassError::Protocol(m) => "protocol error: "@ + m@,
        GrassError::Ipc(m) => "ipc error: "@ + m@,
        GrassError::Sandbox(m) => "sandbox error: "@ + m@,
        GrassError::Llm(m) => "llm error: "@ + m@,
        GrassError::Inference(m) => "inference error: "@ + m@,
        GrassError::Blockchain(m) => "blockchain error: "@ + m@,
        GrassError::Iot(m) => "iot error: "@ + m@,
        GrassError::Streaming(m) => "streaming error: "@ + m@,
        GrassError::VectorDb(m) => "vector db error: "@ + m@,
        GrassError::Integration(m) => "integration error: "@ + m@,
        GrassError::Flow(m) => "flow error: "@ + m@,
        GrassError::Messaging(m) => "messaging error: "@ + m@,
        GrassError::Serialization(m) => "serialization error: "@ + m@,
        GrassError::Io(m) => "io error: "@ + m@,
        GrassError::Timeout(ms) => "timeout after "@ + decimal(ms as nat) + "ms"@,
        GrassError::NotFound(m) => "not found: "@ + m@,
        GrassError::PermissionDenied(m) => "permission denied: "@ + m@,
        GrassError::Internal(m) => m@,
    }
}

/// Finds the first `c` in `v` at or after `from`; `v.len()` when there is none.
fn find_char_from(v: &Vec<char>, c: char, from: usize) -> (r: usize)
    requires
        from <= v.len(),
    ensures
        from <= r <= v.len(),
        r < v.len() ==> v@[r as int] == c,
        forall|k: int| from <= k < r ==> v@[k] != c,
{
    let mut i = from;
    while i < v.len() && v[i] != c
        invariant
            from <= i <= v.len(),
            forall|k: int| from <= k < i ==> v@[k] != c,
        decreases v.len() - i,
    {
        i = i + 1;
    }
    i
}

proof fn lemma_index_of_char(s: Seq<char>, c: char, i: int)
    requires
        0 <= i <= s.len(),
        i < s.len() ==> s[i] == c,
        forall|k: int| 0 <= k < i ==> s[k] != c,
    ensures
        index_of_char(s, c) == (if i < s.len() {
            i
        } else {
            -1
        }),
    decreases s.len(),
{
    if s.len() > 0 && i > 0 {
        lemma_index_of_char(s.drop_first(), c, i - 1);
    }
}

/// Returns the domain that `code` belongs to, read from its second
/// `-`-separated field.
pub fn domain_of_code(code: &str) -> (r: &'static str)
    ensures
        r@ == code_domain(code@),
{
    let v = str_chars(code);
    let i = find_char_from(&v, '-', 0);
    proof {
        lemma_index_of_char(v@, '-', i as int);
    }
    if i == v.len() {
        return "core";
    }
    let j = find_char_from(&v, '-', i + 1);
    let mut tag: Vec<char> = Vec::new();
    let mut k = i + 1;
    while k < j
        invariant
            i + 1 <= k <= j <= v.len(),
            tag@ == v@.subrange(i + 1, k as int),
        decreases j - k,
    {
        tag.push(v[k]);
        k = k + 1;
        assert(tag@ =~= v@.subrange(i + 1, k as int));
    }
    proof {
        let rest = v@.skip(i + 1);
        lemma_index_of_char(rest, '-', j - i - 1);
        if j < v.len() {
            assert(tag@ =~= rest.take(j - i - 1));
        } else {
            assert(tag@ =~= rest);
        }
    }
    domain_of_tag(&tag)
}

/// The domain named by a code tag.
fn domain_of_tag(tag: &Vec<char>) -> (r: &'static str)
    ensures
        r@ == tag_domain(tag@),
{
    let t = tag.as_slice();
    if chars_equal(t, str_chars("CORE").as_slice()) {
        "core"
    } else if chars_equal(t, str_chars("RUNTIME").as_slice()) {
        "runtime"
    } else if chars_equal(t, str_chars("LLM").as_slice()) {
        "llm"
    } else if chars_equal(t, str_chars("HOOKS").as_slice()) {
        "hooks"
    } else if chars_equal(t, str_chars("PROTO").as_slice()) {
        "protocol"
    } else if chars_equal(t, str_chars("IPC").as_slice()) {
        "ipc"
    } else if chars_equal(t, str_chars("SANDBOX").as_slice()) {
        "sandbox"
    } else if chars_equal(t, str_chars("PLUGIN").as_slice()) {
        "plugin"
    } else if chars_equal(t, str_chars("INF").as_slice()) {
        "inference"
    } else if chars_equal(t, str_chars("IOT").as_slice()) {
        "iot"
    } else if chars_equal(t, str_chars("STREAM").as_slice()) {
        "streaming"
    } else if chars_equal(t, str_chars("VEC").as_slice()) {
        "vector"
    } else if chars_equal(t, str_chars("BC").as_slice()) {
        "blockchain"
    } else if chars_equal(t, str_chars("INT").as_slice()) {
        "integrations"
    } else if chars_equal(t, str_chars("FLOW").as_slice()) {
        "flow"
    } else if chars_equal(t, str_chars("MSG").as_slice()) {
        "messaging"
    } else if chars_equal(t, str_chars("ORCH").as_slice()) {
        "orchestrator"
    } else if chars_equal(t, str_chars("BIN").as_slice()) {
        "binary"
    } else {
        "core"
    }
}

impl GrassError {
    /// The stable code under which this kind of error is described in the
    /// error table.
    pub fn code(&self) -> (r: &'static str)
        ensures
            r@ == error_code(*self),
    {
        match self {
            GrassError::Agent(_) => "GR-CORE-0001",
            GrassError::Task(_) => "GR-CORE-0002",
            GrassError::Plugin(_) => "GR-CORE-0003",
            GrassError::Hook(_) => "GR-CORE-0004",
            GrassError::Protocol(_) => "GR-PROTO-0001",
            GrassError::Ipc(_) => "GR-IPC-0001",
            GrassError::Sandbox(_) => "GR-SANDBOX-0001",
            GrassError::Llm(_) => "GR-LLM-0001",
            GrassError::Inference(_) => "GR-INF-0001",
            GrassError::Blockchain(_) => "GR-BC-0001",
            GrassError::Iot(_) => "GR-IOT-0001",
            GrassError::Streaming(_) => "GR-STREAM-0001",
            GrassError::VectorDb(_) => "GR-VEC-0001",
            GrassError::Integration(_) => "GR-INT-0001",
            GrassError::Flow(_) => "GR-FLOW-0001",
            GrassError::Messaging(_) => "GR-MSG-0001",
            GrassError::Serialization(_) => "GR-CORE-0005",
            GrassError::Io(_) => "GR-CORE-0006",
            GrassError::Timeout(_) => "GR-CORE-0007",
            GrassError::NotFound(_) => "GR-CORE-0008",
            GrassError::PermissionDenied(_) => "GR-CORE-0009",
            GrassError::Internal(_) => "GR-CORE-0010",
        }
    }

    /// The domain of this error, as named by its code.
    pub fn domain(&self) -> (r: &'static str)
        ensures
            r@ == code_domain(error_code(*self)),
    {
        domain_of_code(self.code())
    }

    /// The human-readable text of this error.
    pub fn to_display_string(&self) -> (r: String)
        ensures
            r@ == error_text(*self),
    {
        match self {
            GrassError::Agent(m) => join2("agent error: ", m.as_str()),
            GrassError::Task(m) => join2("task error: ", m.as_str()),
            GrassError::Plugin(m) => join2("plugin error: ", m.as_str()),
            GrassError::Hook(m) => join2("hook error: ", m.as_str()),
            GrassError::Protocol(m) => join2("protocol error: ", m.as_str()),
            GrassError::Ipc(m) => join2("ipc error: ", m.as_str()),
            GrassError::Sandbox(m) => join2("sandbox error: ", m.as_str()),
            GrassError::Llm(m) => join2("llm error: ", m.as_str()),
            GrassError::Inference(m) => join2("inference error: ", m.as_str()),
            GrassError::Blockchain(m) => join2("blockchain error: ", m.as_str()),
            GrassError::Iot(m) => join2("iot error: ", m.as_str()),
            GrassError::Streaming(m) => join2("streaming error: ", m.as_str()),
            GrassError::VectorDb(m) => join2("vector db error: ", m.as_str()),
            GrassError::Integration(m) => join2("integration error: ", m.as_str()),
            GrassError::Flow(m) => join2("flow error: ", m.as_str()),
            GrassError::Messaging(m) => join2("messaging error: ", m.as_str()),
            GrassError::Serialization(m) => join2("serialization error: ", m.as_str()),
            GrassError::Io(m) => join2("io error: ", m.as_str()),
            GrassError::Timeout(ms) => {
                let digits = u64_to_decimal(*ms);
                join2(join2("timeout after ", digits.as_str()).as_str(), "ms")
            },
            GrassError::NotFound(m) => join2("not found: ", m.as_str()),
            GrassError::PermissionDenied(m) => join2("permission denied: ", m.as_str()),
            GrassError::Internal(m) => m.clone(),
        }
    }
}

} // verus!
