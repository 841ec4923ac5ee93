//! Shared data types: agent metadata, task payloads, sandbox settings.
use vstd::prelude::*;
use crate::ids::{AgentId, TaskId, is_v4, new_v4_id};
use crate::text_map::GrassStringMap;
use crate::error_table::texts;

verus! {

/// Where an agent is in its lifecycle.
#[derive(Debug, Clone, Copy, PartialEq, Eq, Structural, Hash)]
pub enum GrassAgentState {
    Idle,
    Running,
    Waiting,
    Paused,
    Failed,
    Completed,
    Sandbox,
}

/// Where a task is in its lifecycle.
#[derive(Debug, Clone, Copy, PartialEq, Eq, Structural, Hash)]
pub enum GrassTaskStatus {
    Pending,
    Running,
    Completed,
    Failed,
    Cancelled,
}

/// The isolation technology a sandbox runs on.
#[derive(Debug, Clone, Copy, PartialEq, Eq, Structural, Hash)]
pub enum GrassSandboxBackend {
    Docker,
    Kata,
    OCI,
    WASM,
    Native,
}

/// Describes an agent. Configuration values are JSON texts.
pub struct GrassAgentMetadata {
    pub id: AgentId,
    pub name: String,
    pub version: String,
    pub description: String,
    pub tags: Vec<String>,
    pub config: GrassStringMap<String>,
}

/// A unit of work for an agent. `input` and metadata values are JSON texts.
pub struct GrassTaskPayload {
    pub task_id: TaskId,
    pub agent_id: AgentId,
    pub action: String,
    pub input: String,
    pub metadata: GrassStringMap<String>,
}

/// The outcome of a task. `output` is a JSON text.
pub struct GrassTaskResult {
    pub task_id: TaskId,
    pub agent_id: AgentId,
    pub status: GrassTaskStatus,
    pub output: String,
    pub error: Option<String>,
    pub duration_ms: u64,
}

/// Limits and settings for a sandbox.
pub struct GrassSandboxConfig {
    pub backend: GrassSandboxBackend,
    pub rootfs: Option<String>,
    pub max_memory_bytes: usize,
    pub max_cpu_shares: u64,
    pub network_isolation: bool,
    pub allowed_syscalls: Vec<String>,
    pub env_vars: GrassStringMap<String>,
}

impl Default for GrassSandboxConfig {
    /// Docker, 512 MiB of memory, 1024 CPU shares, no network, nothing else.
    fn default() -> (r: Self)
        ensures
            r.backend == GrassSandboxBackend::Docker,
            r.rootfs is None,
            r.max_memory_bytes == 512 * 1024 * 1024,
            r.max_cpu_shares == 1024,
            r.network_isolation,
            r.allowed_syscalls@.len() == 0,
            r.env_vars.wf(),
            r.env_vars@ == Map::<Seq<char>, String>::empty(),
    {
        GrassSandboxConfig {
            backend: GrassSandboxBackend::Docker,
            rootfs: None,
            max_memory_bytes: 512 * 1024 * 1024,
            max_cpu_shares: 1024,
            network_isolation: true,
            allowed_syscalls: Vec::new(),
            env_vars: GrassStringMap::new(),
        }
    }
}

/// Builds agent metadata step by step.
pub struct GrassAgentBuilder {
    metadata: GrassAgentMetadata,
}

impl GrassAgentBuilder {
    /// The metadata built so far.
    pub closed spec fn metadata(&self) -> GrassAgentMetadata {
        self.metadata
    }

    /// Starts metadata for an agent called `name`: a fresh random id,
    /// version `0.1.0`, an empty description, no tags, no configuration.
    pub fn new(name: &str) -> (r: Self)
        ensures
            is_v4(r.metadata().id),
            r.metadata().name@ == name@,
            r.metadata().version@ == "0.1.0"@,
            r.metadata().description@ == Seq::<char>::empty(),
            r.metadata().tags@.len() == 0,
            r.metadata().config.wf(),
            r.metadata().config@ == Map::<Seq<char>, String>::empty(),
    {
        GrassAgentBuilder {
            metadata: GrassAgentMetadata {
                id: new_v4_id(),
                name: name.to_owned(),
                version: "0.1.0".to_owned(),
                description: String::new(),
                tags: Vec::new(),
                config: GrassStringMap::new(),
            },
        }
    }

    /// Sets the version.
    pub fn version(self, v: &str) -> (r: Self)
        ensures
            r.metadata() == (GrassAgentMetadata { version: r.metadata().version, ..self.metadata() }),
            r.metadata().version@ == v@,
    {
        let mut b = self;
        b.metadata.version = v.to_owned();
        b
    }

    /// Sets the description.
    pub fn description(self, d: &str) -> (r: Self)
        ensures
            r.metadata() == (GrassAgentMetadata {
                description: r.metadata().description,
                ..self.metadata()
            }),
            r.metadata().description@ == d@,
    {
        let mut b = self;
        b.metadata.description = d.to_owned();
        b
    }

    /// Appends a tag.
    pub fn tag(self, t: &str) -> (r: Self)
        ensures
            r.metadata() == (GrassAgentMetadata { tags: r.metadata().tags, ..self.metadata() }),
            texts(r.metadata().tags@) == texts(self.metadata().tags@).push(t@),
    {
        let mut b = self;
        let ghost before = b.metadata.tags@;
        b.metadata.tags.push(t.to_owned());
        assert(texts(b.metadata.tags@) =~= texts(before).push(t@));
        b
    }

    /// Sets configuration `key` to the JSON text `val`, replacing any value
    /// it had.
    pub fn config(self, key: &str, val: String) -> (r: Self)
        requires
            self.metadata().config.wf(),
        ensures
            r.metadata() == (GrassAgentMetadata { config: r.metadata().config, ..self.metadata() }),
            r.metadata().config.wf(),
            r.metadata().config@ == self.metadata().config@.insert(key@, val),
    {
        let mut b = self;
        b.metadata.config.insert(key.to_owned(), val);
        b
    }

    /// The finished metadata.
    pub fn build(self) -> (r: GrassAgentMetadata)
        ensures
            r == self.metadata(),
    {
        self.metadata
    }
}

} // verus!
