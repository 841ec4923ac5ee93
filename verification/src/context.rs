//! Agent execution context, inter-agent messages, plugin manifests and
//! framework events.
use vstd::prelude::*;
use crate::ids::{AgentId, TaskId, HookId, PluginId, MessageId, is_v4, new_v4_id, utc_now};
use crate::text_map::GrassStringMap;
use crate::types::{GrassAgentMetadata, GrassSandboxConfig};

verus! {

/// What an agent sees while it runs: its identity, its sandbox and a shared
/// key/value state whose values are JSON texts.
pub struct GrassAgentContext {
    pub agent_id: AgentId,
    pub metadata: GrassAgentMetadata,
    pub sandbox: Option<GrassSandboxConfig>,
    pub shared_state: GrassStringMap<String>,
}

impl GrassAgentContext {
    /// A context with no sandbox and empty shared state.
    pub fn new(agent_id: AgentId, metadata: GrassAgentMetadata) -> (r: Self)
        ensures
            r.agent_id == agent_id,
            r.metadata == metadata,
            r.sandbox is None,
            r.shared_state.wf(),
            r.shared_state@ == Map::<Seq<char>, String>::empty(),
    {
        GrassAgentContext { agent_id, metadata, sandbox: None, shared_state: GrassStringMap::new() }
    }

    /// The context with the given sandbox configuration.
    pub fn with_sandbox(self, config: GrassSandboxConfig) -> (r: Self)
        ensures
            r == (GrassAgentContext { sandbox: Some(config), ..self }),
    {
        let mut c = self;
        c.sandbox = Some(config);
        c
    }

    /// Stores the JSON text `val` under `key` in the shared state.
    pub fn set_state(&mut self, key: &str, val: String)
        requires
            old(self).shared_state.wf(),
        ensures
            final(self).shared_state.wf(),
            final(self).shared_state@ == old(self).shared_state@.insert(key@, val),
            final(self).agent_id == old(self).agent_id,
            final(self).metadata == old(self).metadata,
            final(self).sandbox == old(self).sandbox,
    {
        self.shared_state.insert(key.to_owned(), val);
    }

    /// The JSON text stored under `key`, if any.
    pub fn get_state(&self, key: &str) -> (r: Option<&String>)
        ensures
            match r {
                Some(v) => self.shared_state@.contains_key(key@) && self.shared_state@[key@] == *v,
                None => !self.shared_state@.contains_key(key@),
            },
    {
        self.shared_state.get(key)
    }
}

/// A message between agents. The payload is a JSON text; the timestamp is
/// the creation time as seconds since the Unix epoch and nanoseconds past it.
pub struct GrassMessage {
    pub id: MessageId,
    pub from: AgentId,
    pub to: Option<AgentId>,
    pub topic: String,
    pub payload: String,
    pub headers: GrassStringMap<String>,
    pub timestamp_secs: i64,
    pub timestamp_nanos: u32,
}

impl GrassMessage {
    /// A broadcast message from `from` on `topic`, with a fresh id, no
    /// headers, stamped with the current time.
    pub fn new(from: AgentId, topic: &str, payload: String) -> (r: Self)
        ensures
            r.from == from,
            r.to is None,
            r.topic@ == topic@,
            r.payload == payload,
            r.headers.wf(),
            r.headers@ == Map::<Seq<char>, String>::empty(),
            r.timestamp_secs >= 0,
            r.timestamp_nanos < 1_000_000_000,
            is_v4(r.id),
    {
        let (secs, nanos) = utc_now();
        GrassMessage {
            id: new_v4_id(),
            from,
            to: None,
            topic: topic.to_owned(),
            payload,
            headers: GrassStringMap::new(),
            timestamp_secs: secs,
            timestamp_nanos: nanos,
        }
    }

    /// The message with header `key` set to `val`.
    pub fn with_header(self, key: &str, val: &str) -> (r: Self)
        requires
            self.headers.wf(),
        ensures
            r.headers.wf(),
            r.headers@.dom() == self.headers@.dom().insert(key@),
            r.headers@[key@]@ == val@,
            forall|k: Seq<char>| k != key@ ==> r.headers@.contains_key(k) ==> r.headers@[k]
                == self.headers@[k],
            r == (GrassMessage { headers: r.headers, ..self }),
    {
        let mut m = self;
        m.headers.insert(key.to_owned(), val.to_owned());
        m
    }

    /// The message addressed to `agent_id`.
    pub fn directed_to(self, agent_id: AgentId) -> (r: Self)
        ensures
            r == (GrassMessage { to: Some(agent_id), ..self }),
    {
        let mut m = self;
        m.to = Some(agent_id);
        m
    }
}

/// Describes a plugin. The configuration schema is a JSON text.
pub struct GrassPluginManifest {
    pub name: String,
    pub version: String,
    pub description: String,
    pub author: String,
    pub capabilities: Vec<String>,
    pub config_schema: Option<String>,
}

impl GrassPluginManifest {
    /// A manifest with the given name and version and nothing else.
    pub fn new(name: &str, version: &str) -> (r: Self)
        ensures
            r.name@ == name@,
            r.version@ == version@,
            r.description@ == Seq::<char>::empty(),
            r.author@ == Seq::<char>::empty(),
            r.capabilities@.len() == 0,
            r.config_schema is None,
    {
        GrassPluginManifest {
            name: name.to_owned(),
            version: version.to_owned(),
            description: String::new(),
            author: String::new(),
            capabilities: Vec::new(),
            config_schema: None,
        }
    }
}

/// Something that happened in the framework. JSON-valued fields hold JSON
/// texts.
pub enum GrassEvent {
    AgentStarted { agent_id: AgentId },
    AgentStopped { agent_id: AgentId },
    AgentFailed { agent_id: AgentId, error: String },
    TaskCreated { task_id: TaskId },
    TaskStarted { task_id: TaskId },
    TaskCompleted { task_id: TaskId },
    TaskFailed { task_id: TaskId, error: String },
    HookFired { hook_id: HookId, payload: String },
    PluginLoaded { plugin_id: PluginId, name: String },
    PluginUnloaded { plugin_id: PluginId },
    MessageSent { message_id: MessageId, from: AgentId, topic: String },
    SandboxCreated { backend: String, container_id: String },
    SandboxDestroyed { container_id: String },
    Custom { event_type: String, data: GrassStringMap<String> },
}

} // verus!
