//! Sandboxes that agents run in: the backend interface, a WebAssembly
//! backend, and what the Docker backend sends to the Docker engine.
use vstd::prelude::*;
use crate::error::GrassError;
use crate::ids::{is_v4, new_v4_id, uuid_string, uuid_text};
use crate::text::{join2, split_words, words};
use crate::types::GrassSandboxConfig;

verus! {

/// The life-cycle states of a container.
#[derive(Debug, Clone, Copy, PartialEq, Eq, Structural)]
pub enum GrassContainerStatus {
    Created,
    Running,
    Stopped,
    Unknown,
}

/// A place where agent code runs in isolation.
pub trait GrassSandboxBackend {
    /// The backend's name.
    fn name(&self) -> (r: &str);

    /// Creates a sandbox for `config` and answers its id.
    fn create(&self, config: &GrassSandboxConfig) -> (r: Result<String, GrassError>);

    /// Starts sandbox `sandbox_id`.
    fn start(&self, sandbox_id: &str) -> (r: Result<(), GrassError>);

    /// Stops sandbox `sandbox_id`.
    fn stop(&self, sandbox_id: &str) -> (r: Result<(), GrassError>);

    /// Removes sandbox `sandbox_id`.
    fn destroy(&self, sandbox_id: &str) -> (r: Result<(), GrassError>);

    /// Runs `command` in sandbox `sandbox_id` and answers its output.
    fn exec(&self, sandbox_id: &str, command: &str) -> (r: Result<String, GrassError>);

    /// The state of sandbox `sandbox_id`.
    fn status(&self, sandbox_id: &str) -> (r: Result<GrassContainerStatus, GrassError>);
}

/// The settings of the WebAssembly runtime.
pub struct GrassWasmConfig {
    pub max_memory_pages: u32,
    pub fuel_limit: u64,
    pub enable_simd: bool,
}

impl Default for GrassWasmConfig {
    /// 256 memory pages, a million units of fuel, SIMD on.
    fn default() -> (r: Self)
        ensures
            r.max_memory_pages == 256,
            r.fuel_limit == 1_000_000,
            r.enable_simd,
    {
        GrassWasmConfig { max_memory_pages: 256, fuel_limit: 1_000_000, enable_simd: true }
    }
}

/// A WebAssembly sandbox backend.
pub struct GrassWasmSandbox {
    wasmtime_config: GrassWasmConfig,
}

impl GrassWasmSandbox {
    pub closed spec fn settings(&self) -> GrassWasmConfig {
        self.wasmtime_config
    }

    /// A backend with `config`.
    pub fn new(config: GrassWasmConfig) -> (r: Self)
        ensures
            r.settings() == config,
    {
        GrassWasmSandbox { wasmtime_config: config }
    }

    /// The runtime settings.
    pub fn config(&self) -> (r: &GrassWasmConfig)
        ensures
            *r == self.settings(),
    {
        &self.wasmtime_config
    }
}

impl GrassSandboxBackend for GrassWasmSandbox {
    fn name(&self) -> (r: &str)
        ensures
            r@ == "wasm"@,
    {
        "wasm"
    }

    /// A new instance, named by a fresh UUID; this succeeds.
    fn create(&self, config: &GrassSandboxConfig) -> (r: Result<String, GrassError>)
        ensures
            r matches Ok(id) && exists|u: u128| is_v4(u) && id@ == uuid_text(u),
    {
        Ok(uuid_string(new_v4_id()))
    }

    fn start(&self, sandbox_id: &str) -> (r: Result<(), GrassError>)
        ensures
            r is Ok,
    {
        Ok(())
    }

    fn stop(&self, sandbox_id: &str) -> (r: Result<(), GrassError>)
        ensures
            r is Ok,
    {
        Ok(())
    }

    fn destroy(&self, sandbox_id: &str) -> (r: Result<(), GrassError>)
        ensures
            r is Ok,
    {
        Ok(())
    }

    /// Runs nothing and answers empty output.
    fn exec(&self, sandbox_id: &str, command: &str) -> (r: Result<String, GrassError>)
        ensures
            r matches Ok(out) && out@.len() == 0,
    {
        Ok(String::new())
    }

    /// Every instance counts as running.
    fn status(&self, sandbox_id: &str) -> (r: Result<GrassContainerStatus, GrassError>)
        ensures
            r == Ok::<GrassContainerStatus, GrassError>(GrassContainerStatus::Running),
    {
        Ok(GrassContainerStatus::Running)
    }
}

/// The status a Docker state name stands for.
pub open spec fn docker_status(state: Seq<char>) -> GrassContainerStatus {
    if state == "created"@ {
        GrassContainerStatus::Created
    } else if state == "running"@ {
        GrassContainerStatus::Running
    } else if state == "exited"@ || state == "stopped"@ {
        GrassContainerStatus::Stopped
    } else {
        GrassContainerStatus::Unknown
    }
}

/// One `KEY=value` entry of a container's environment.
pub open spec fn env_entry(key: Seq<char>, value: Seq<char>) -> Seq<char> {
    key + "="@ + value
}

/// The Docker sandbox backend: the containers endpoint of the engine.
pub struct GrassDockerSandbox {
    http_base: String,
}

impl GrassDockerSandbox {
    pub closed spec fn base(&self) -> Seq<char> {
        self.http_base@
    }

    /// A backend for the local engine (API 1.43); the socket path is not
    /// used.
    pub fn new(socket_path: &str) -> (r: Self)
        ensures
            r.base() == "http://localhost/v1.43/containers"@,
    {
        GrassDockerSandbox { http_base: "http://localhost/v1.43/containers".to_owned() }
    }

    pub fn name(&self) -> (r: &'static str)
        ensures
            r@ == "docker"@,
    {
        "docker"
    }

    /// The containers endpoint, where containers are created.
    pub fn base_url(&self) -> (r: &str)
        ensures
            r@ == self.base(),
    {
        self.http_base.as_str()
    }

    /// The endpoint of container `id`.
    pub fn container_url(&self, id: &str) -> (r: String)
        ensures
            r@ == self.base() + "/"@ + id@,
    {
        join2(join2(self.http_base.as_str(), "/").as_str(), id)
    }

    /// The endpoint `action` of container `id`.
    fn action_url(&self, id: &str, action: &str) -> (r: String)
        ensures
            r@ == self.base() + "/"@ + id@ + "/"@ + action@,
    {
        let c = self.container_url(id);
        join2(join2(c.as_str(), "/").as_str(), action)
    }

    /// The endpoint that starts container `id`.
    pub fn start_url(&self, id: &str) -> (r: String)
        ensures
            r@ == self.base() + "/"@ + id@ + "/"@ + "start"@,
    {
        self.action_url(id, "start")
    }

    /// The endpoint that stops container `id`.
    pub fn stop_url(&self, id: &str) -> (r: String)
        ensures
            r@ == self.base() + "/"@ + id@ + "/"@ + "stop"@,
    {
        self.action_url(id, "stop")
    }

    /// The endpoint that runs a command in container `id`.
    pub fn exec_url(&self, id: &str) -> (r: String)
        ensures
            r@ == self.base() + "/"@ + id@ + "/"@ + "exec"@,
    {
        self.action_url(id, "exec")
    }

    /// The image every container is made from.
    pub fn image(&self) -> (r: &'static str)
        ensures
            r@ == "grass-agent:latest"@,
    {
        "grass-agent:latest"
    }

    /// The memory limit sent for `config`: its byte count as a signed
    /// 64-bit number (`as i64`).
    pub fn memory_limit(&self, config: &GrassSandboxConfig) -> (r: i64)
        ensures
            r == config.max_memory_bytes as i64,
    {
        config.max_memory_bytes as i64
    }

    /// The network mode for `config`: `none` when the network is isolated,
    /// `bridge` otherwise.
    pub fn network_mode(&self, config: &GrassSandboxConfig) -> (r: &'static str)
        ensures
            r@ == (if config.network_isolation {
                "none"@
            } else {
                "bridge"@
            }),
    {
        if config.network_isolation {
            "none"
        } else {
            "bridge"
        }
    }

    /// The environment sent for `config`: one `KEY=value` per variable, in
    /// the order the variables were first set.
    pub fn environment(&self, config: &GrassSandboxConfig) -> (r: Vec<String>)
        requires
            config.env_vars.wf(),
        ensures
            r@.len() == config.env_vars.key_order().len(),
            forall|i: int|
                0 <= i < r@.len() ==> (#[trigger] r@[i])@ == env_entry(
                    config.env_vars.key_order()[i],
                    config.env_vars@[config.env_vars.key_order()[i]]@,
                ),
    {
        let keys = config.env_vars.keys();
        let values = config.env_vars.values();
        let ghost order = config.env_vars.key_order();
        assert(keys@.len() == order.len()) by {
            assert(keys@.map_values(|s: &str| s@).len() == keys@.len());
        }
        let mut out: Vec<String> = Vec::new();
        let mut i: usize = 0;
        while i < keys.len()
            invariant
                i <= keys@.len(),
                keys@.len() == order.len(),
                values@.len() == order.len(),
                keys@.map_values(|s: &str| s@) == order,
                forall|j: int|
                    0 <= j < values@.len() ==> *values@[j] == config.env_vars@[order[j]],
                out@.len() == i,
                forall|j: int|
                    0 <= j < i ==> (#[trigger] out@[j])@ == env_entry(
                        order[j],
                        config.env_vars@[order[j]]@,
                    ),
            decreases keys@.len() - i,
        {
            assert(keys@.map_values(|s: &str| s@)[i as int] == keys@[i as int]@);
            let e = join2(join2(keys[i], "=").as_str(), values[i].as_str());
            out.push(e);
            i = i + 1;
        }
        out
    }

    /// The words of `command`, as the engine gets them to run.
    pub fn command_words(&self, command: &str) -> (r: Vec<String>)
        ensures
            r@.map_values(|w: String| w@) == words(command@),
    {
        split_words(command)
    }

    /// The status for the state the engine reports (`State.Status`), which
    /// counts as `unknown` when missing.
    pub fn status_from_state(&self, state: Option<&str>) -> (r: GrassContainerStatus)
        ensures
            r == docker_status(
                match state {
                    Some(s) => s@,
                    None => "unknown"@,
                },
            ),
    {
        let s = match state {
            Some(s) => s,
            None => "unknown",
        };
        if crate::text::str_eq(s, "created") {
            GrassContainerStatus::Created
        } else if crate::text::str_eq(s, "running") {
            GrassContainerStatus::Running
        } else if crate::text::str_eq(s, "exited") || crate::text::str_eq(s, "stopped") {
            GrassContainerStatus::Stopped
        } else {
            GrassContainerStatus::Unknown
        }
    }
}

} // verus!
