//! Agent protocol messages (ACP, MCP) and the routers that pick the handler
//! for a message, plus the registry of gRPC services.
use vstd::prelude::*;
use crate::error::GrassError;
use crate::text::join2;
use crate::text_map::GrassStringMap;

verus! {

/// An ACP message. The payload is a JSON text.
pub struct GrassAcpMessage {
    pub source: String,
    pub destination: String,
    pub content_type: String,
    pub payload: String,
    pub metadata: GrassStringMap<String>,
}

/// An ACP message with its signature and timestamp.
pub struct GrassAcpEnvelope {
    pub message: GrassAcpMessage,
    pub signature: Option<String>,
    pub timestamp: String,
}

/// The ACP codec that encodes messages as JSON.
pub struct GrassAcpJsonCodec;

/// The message of the error for an ACP content type without a handler.
pub open spec fn no_acp_handler_message(content_type: Seq<char>) -> Seq<char> {
    "no handler for: "@ + content_type
}

/// Routes ACP messages to a handler by content type.
pub struct GrassAcpRouter<H> {
    handlers: GrassStringMap<H>,
}

impl<H> GrassAcpRouter<H> {
    /// The handlers by content type.
    pub closed spec fn handlers(&self) -> Map<Seq<char>, H> {
        self.handlers@
    }

    pub closed spec fn wf(&self) -> bool {
        self.handlers.wf()
    }

    /// A router with no handlers.
    pub fn new() -> (r: Self)
        ensures
            r.wf(),
            r.handlers() == Map::<Seq<char>, H>::empty(),
    {
        GrassAcpRouter { handlers: GrassStringMap::new() }
    }

    /// Routes `content_type` to `handler`, replacing an earlier handler.
    pub fn register(&mut self, content_type: &str, handler: H)
        requires
            old(self).wf(),
        ensures
            final(self).wf(),
            final(self).handlers() == old(self).handlers().insert(content_type@, handler),
    {
        self.handlers.insert(content_type.to_owned(), handler);
    }

    /// The handler for `content_type`; a protocol error when there is none.
    pub fn handler_for(&self, content_type: &str) -> (r: Result<&H, GrassError>)
        ensures
            self.handlers().contains_key(content_type@) ==> r == Ok::<&H, GrassError>(
                &self.handlers()[content_type@],
            ),
            !self.handlers().contains_key(content_type@) ==> (r matches Err(
                GrassError::Protocol(m),
            ) && m@ == no_acp_handler_message(content_type@)),
    {
        match self.handlers.get(content_type) {
            Some(h) => Ok(h),
            None => Err(GrassError::Protocol(join2("no handler for: ", content_type))),
        }
    }
}

/// An MCP (JSON-RPC 2.0) request. Parameters are a JSON text.
pub struct GrassMcpRequest {
    pub jsonrpc: String,
    pub method: String,
    pub params: String,
    pub id: u64,
}

/// An MCP error object. Data is a JSON text.
pub struct GrassMcpError {
    pub code: i32,
    pub message: String,
    pub data: Option<String>,
}

/// An MCP response. The result is a JSON text.
pub struct GrassMcpResponse {
    pub jsonrpc: String,
    pub result: Option<String>,
    pub error: Option<GrassMcpError>,
    pub id: u64,
}

/// An MCP notification. Parameters are a JSON text.
pub struct GrassMcpNotification {
    pub jsonrpc: String,
    pub method: String,
    pub params: Option<String>,
}

/// The message of the error for an MCP method without a handler.
pub open spec fn no_mcp_handler_message(method: Seq<char>) -> Seq<char> {
    "no handler for method: "@ + method
}

/// Routes MCP requests to a handler by method.
pub struct GrassMcpRouter<H> {
    handlers: GrassStringMap<H>,
}

impl<H> GrassMcpRouter<H> {
    /// The handlers by method.
    pub closed spec fn handlers(&self) -> Map<Seq<char>, H> {
        self.handlers@
    }

    pub closed spec fn wf(&self) -> bool {
        self.handlers.wf()
    }

    /// A router with no handlers.
    pub fn new() -> (r: Self)
        ensures
            r.wf(),
            r.handlers() == Map::<Seq<char>, H>::empty(),
    {
        GrassMcpRouter { handlers: GrassStringMap::new() }
    }

    /// Routes `method` to `handler`, replacing an earlier handler.
    pub fn register(&mut self, method: &str, handler: H)
        requires
            old(self).wf(),
        ensures
            final(self).wf(),
            final(self).handlers() == old(self).handlers().insert(method@, handler),
    {
        self.handlers.insert(method.to_owned(), handler);
    }

    /// The handler for `method`; a protocol error when there is none.
    pub fn handler_for(&self, method: &str) -> (r: Result<&H, GrassError>)
        ensures
            self.handlers().contains_key(method@) ==> r == Ok::<&H, GrassError>(
                &self.handlers()[method@],
            ),
            !self.handlers().contains_key(method@) ==> (r matches Err(GrassError::Protocol(m))
                && m@ == no_mcp_handler_message(method@)),
    {
        match self.handlers.get(method) {
            Some(h) => Ok(h),
            None => Err(GrassError::Protocol(join2("no handler for method: ", method))),
        }
    }
}

/// The codec for MCP messages (JSON).
pub struct GrassMcpCodec;

/// The message of the error for an unknown gRPC service.
pub open spec fn no_service_message(name: Seq<char>) -> Seq<char> {
    "service '"@ + name + "' not found"@
}

/// The gRPC services by name.
pub struct GrassGrpcRegistry<S> {
    services: GrassStringMap<S>,
}

impl<S> GrassGrpcRegistry<S> {
    /// The services by name.
    pub closed spec fn services(&self) -> Map<Seq<char>, S> {
        self.services@
    }

    pub closed spec fn wf(&self) -> bool {
        self.services.wf()
    }

    /// A registry with no services.
    pub fn new() -> (r: Self)
        ensures
            r.wf(),
            r.services() == Map::<Seq<char>, S>::empty(),
    {
        GrassGrpcRegistry { services: GrassStringMap::new() }
    }

    /// Registers `service` as `name`, replacing an earlier one.
    pub fn register(&mut self, name: &str, service: S)
        requires
            old(self).wf(),
        ensures
            final(self).wf(),
            final(self).services() == old(self).services().insert(name@, service),
    {
        self.services.insert(name.to_owned(), service);
    }

    /// The service called `name`; a protocol error when there is none.
    pub fn service_for(&self, name: &str) -> (r: Result<&S, GrassError>)
        ensures
            self.services().contains_key(name@) ==> r == Ok::<&S, GrassError>(
                &self.services()[name@],
            ),
            !self.services().contains_key(name@) ==> (r matches Err(GrassError::Protocol(m)) && m@
                == no_service_message(name@)),
    {
        match self.services.get(name) {
            Some(s) => Ok(s),
            None => {
                let m = join2(join2("service '", name).as_str(), "' not found");
                Err(GrassError::Protocol(m))
            },
        }
    }
}

/// The codec used for gRPC payloads (JSON).
pub struct GrassProtobufCodec;


impl<H> Default for GrassAcpRouter<H> {
    /// A router with no handlers.
    fn default() -> (r: Self)
        ensures
            r.wf(),
            r.handlers() == Map::<Seq<char>, H>::empty(),
    {
        Self::new()
    }
}

impl<H> Default for GrassMcpRouter<H> {
    /// A router with no handlers.
    fn default() -> (r: Self)
        ensures
            r.wf(),
            r.handlers() == Map::<Seq<char>, H>::empty(),
    {
        Self::new()
    }
}

impl<S> Default for GrassGrpcRegistry<S> {
    /// A registry with no services.
    fn default() -> (r: Self)
        ensures
            r.wf(),
            r.services() == Map::<Seq<char>, S>::empty(),
    {
        Self::new()
    }
}

} // verus!
