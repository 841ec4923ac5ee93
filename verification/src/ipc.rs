//! Inter-process transports: a ZeroMQ-style socket, named shared-memory
//! segments and a Valkey key-value store. Each keeps its connection flag
//! and, where it stores bytes, the stored bytes by name.
use vstd::prelude::*;
use crate::error::GrassError;
use crate::ids::{is_v4, new_v4_id, uuid_string, uuid_text};
use crate::text::join2;
use crate::text_map::GrassStringMap;

verus! {

/// The message of the error a transport gives while disconnected.
pub open spec fn not_connected_message() -> Seq<char> {
    "not connected"@
}

/// `r` is the error for a transport that is not connected.
pub open spec fn is_not_connected<T>(r: Result<T, GrassError>) -> bool {
    r matches Err(GrassError::Ipc(m)) && m@ == not_connected_message()
}

/// A copy of `data` as a vector.
pub fn copy_bytes(data: &[u8]) -> (r: Vec<u8>)
    ensures
        r@ == data@,
{
    let mut r: Vec<u8> = Vec::new();
    let mut i: usize = 0;
    while i < data.len()
        invariant
            i <= data.len(),
            r@ == data@.take(i as int),
        decreases data.len() - i,
    {
        r.push(data[i]);
        i = i + 1;
        assert(r@ =~= data@.take(i as int));
    }
    assert(data@.take(data.len() as int) =~= data@);
    r
}

/// A transport that moves bytes between processes.
pub trait GrassIpcTransport {
    /// The transport's own invariant.
    spec fn ready(&self) -> bool;

    /// Whether the transport is connected.
    spec fn is_connected(&self) -> bool;

    /// Connects; this succeeds.
    fn connect(&mut self, endpoint: &str) -> (r: Result<(), GrassError>)
        requires
            old(self).ready(),
        ensures
            final(self).ready(),
            final(self).is_connected(),
            r is Ok,
    ;

    /// Sends `data`.
    fn send(&mut self, data: &[u8]) -> (r: Result<(), GrassError>)
        requires
            old(self).ready(),
        ensures
            final(self).ready(),
            final(self).is_connected() == old(self).is_connected(),
    ;

    /// Receives the next bytes.
    fn receive(&self) -> (r: Result<Vec<u8>, GrassError>)
        requires
            self.ready(),
    ;

    /// Disconnects; this succeeds.
    fn disconnect(&mut self) -> (r: Result<(), GrassError>)
        requires
            old(self).ready(),
        ensures
            final(self).ready(),
            !final(self).is_connected(),
            r is Ok,
    ;
}

/// A ZeroMQ-style socket: the endpoint it was last connected to and whether
/// it is connected.
pub struct GrassZeroMqTransport {
    connected: bool,
    endpoint: Option<String>,
}

impl GrassZeroMqTransport {
    /// The endpoint of the last connection, if any.
    pub closed spec fn endpoint_text(&self) -> Option<Seq<char>> {
        match self.endpoint {
            Some(e) => Some(e@),
            None => None,
        }
    }

    /// A socket that was never connected.
    pub fn new() -> (r: Self)
        ensures
            r.ready(),
            !r.is_connected(),
            r.endpoint_text() is None,
    {
        GrassZeroMqTransport { connected: false, endpoint: None }
    }

    /// Whether the socket is connected.
    pub fn connected(&self) -> (r: bool)
        ensures
            r == self.is_connected(),
    {
        self.connected
    }

    /// The endpoint of the last connection, if any.
    pub fn endpoint(&self) -> (r: Option<&str>)
        ensures
            match r {
                Some(e) => self.endpoint_text() == Some(e@),
                None => self.endpoint_text() is None,
            },
    {
        match &self.endpoint {
            Some(e) => Some(e.as_str()),
            None => None,
        }
    }
}

impl GrassIpcTransport for GrassZeroMqTransport {
    open spec fn ready(&self) -> bool {
        true
    }

    closed spec fn is_connected(&self) -> bool {
        self.connected
    }

    /// Records `endpoint` and marks the socket connected.
    fn connect(&mut self, endpoint: &str) -> (r: Result<(), GrassError>)
        ensures
            final(self).endpoint_text() == Some(endpoint@),
    {
        self.endpoint = Some(endpoint.to_owned());
        self.connected = true;
        Ok(())
    }

    /// Accepts `data` while connected; refuses it when not connected.
    fn send(&mut self, data: &[u8]) -> (r: Result<(), GrassError>)
        ensures
            *final(self) == *old(self),
            old(self).is_connected() ==> r is Ok,
            !old(self).is_connected() ==> is_not_connected(r),
    {
        if !self.connected {
            return Err(GrassError::Ipc("not connected".to_owned()));
        }
        Ok(())
    }

    /// Nothing is ever waiting: empty bytes while connected, an error when not.
    fn receive(&self) -> (r: Result<Vec<u8>, GrassError>)
        ensures
            self.is_connected() ==> (r matches Ok(v) && v@.len() == 0),
            !self.is_connected() ==> is_not_connected(r),
    {
        if !self.connected {
            return Err(GrassError::Ipc("not connected".to_owned()));
        }
        Ok(Vec::new())
    }

    /// Marks the socket disconnected; the endpoint stays recorded.
    fn disconnect(&mut self) -> (r: Result<(), GrassError>)
        ensures
            final(self).endpoint_text() == old(self).endpoint_text(),
    {
        self.connected = false;
        Ok(())
    }
}

/// The bytes stored under each name.
pub open spec fn byte_map(m: Map<Seq<char>, Vec<u8>>) -> Map<Seq<char>, Seq<u8>> {
    m.map_values(|v: Vec<u8>| v@)
}

/// A copy of the bytes stored under `name` in `store`, if any.
fn read_bytes(store: &GrassStringMap<Vec<u8>>, name: &str) -> (r: Option<Vec<u8>>)
    ensures
        match r {
            Some(v) => store@.contains_key(name@) && v@ == store@[name@]@,
            None => !store@.contains_key(name@),
        },
{
    match store.get(name) {
        Some(v) => Some(copy_bytes(v.as_slice())),
        None => None,
    }
}

/// Stores a copy of `data` under `name` in `store`.
fn write_bytes(store: &mut GrassStringMap<Vec<u8>>, name: String, data: &[u8])
    requires
        old(store).wf(),
    ensures
        final(store).wf(),
        byte_map(final(store)@) == byte_map(old(store)@).insert(name@, data@),
        old(store)@.contains_key(name@) ==> final(store).key_order() == old(store).key_order(),
        !old(store)@.contains_key(name@) ==> final(store).key_order() == old(store).key_order().push(
            name@,
        ),
{
    let ghost k = name@;
    let v = copy_bytes(data);
    store.insert(name, v);
    assert(byte_map(store@) =~= byte_map(old(store)@).insert(k, data@));
}

/// The bytes of the first name stored in `store` (in the order names were
/// first stored), or no bytes when nothing is stored.
pub open spec fn first_bytes(store: &GrassStringMap<Vec<u8>>) -> Seq<u8> {
    if store.key_order().len() > 0 {
        store@[store.key_order()[0]]@
    } else {
        Seq::empty()
    }
}

fn first_stored(store: &GrassStringMap<Vec<u8>>) -> (r: Vec<u8>)
    requires
        store.wf(),
    ensures
        r@ == first_bytes(store),
{
    match store.first_value() {
        Some(v) => copy_bytes(v.as_slice()),
        None => Vec::new(),
    }
}

/// Named shared-memory segments.
pub struct GrassShmTransport {
    segments: GrassStringMap<Vec<u8>>,
    connected: bool,
}

impl GrassShmTransport {
    /// The bytes of each segment by name.
    pub closed spec fn segment_map(&self) -> Map<Seq<char>, Seq<u8>> {
        byte_map(self.segments@)
    }

    /// The segment names in the order they were first written.
    pub closed spec fn segment_order(&self) -> Seq<Seq<char>> {
        self.segments.key_order()
    }

    /// What `receive` hands out: the first segment's bytes, or none.
    pub closed spec fn first_segment(&self) -> Seq<u8> {
        first_bytes(&self.segments)
    }

    /// No segments, not connected.
    pub fn new() -> (r: Self)
        ensures
            r.ready(),
            !r.is_connected(),
            r.segment_map() == Map::<Seq<char>, Seq<u8>>::empty(),
            r.segment_order().len() == 0,
    {
        let r = GrassShmTransport { segments: GrassStringMap::new(), connected: false };
        assert(r.segment_map() =~= Map::<Seq<char>, Seq<u8>>::empty());
        r
    }

    /// Whether the transport is connected.
    pub fn connected(&self) -> (r: bool)
        ensures
            r == self.is_connected(),
    {
        self.connected
    }

    /// Writes `data` as segment `name`, replacing what it held; this succeeds.
    pub fn write_segment(&mut self, name: &str, data: &[u8]) -> (r: Result<(), GrassError>)
        requires
            old(self).ready(),
        ensures
            final(self).ready(),
            r is Ok,
            final(self).is_connected() == old(self).is_connected(),
            final(self).segment_map() == old(self).segment_map().insert(name@, data@),
    {
        write_bytes(&mut self.segments, name.to_owned(), data);
        Ok(())
    }

    /// The bytes of segment `name`, if it was written; this succeeds.
    pub fn read_segment(&self, name: &str) -> (r: Result<Option<Vec<u8>>, GrassError>)
        ensures
            match r {
                Ok(Some(v)) => self.segment_map().contains_key(name@) && v@
                    == self.segment_map()[name@],
                Ok(None) => !self.segment_map().contains_key(name@),
                Err(_) => false,
            },
    {
        Ok(read_bytes(&self.segments, name))
    }
}

impl GrassIpcTransport for GrassShmTransport {
    closed spec fn ready(&self) -> bool {
        self.segments.wf()
    }

    closed spec fn is_connected(&self) -> bool {
        self.connected
    }

    /// Marks the transport connected; segments stay.
    fn connect(&mut self, endpoint: &str) -> (r: Result<(), GrassError>)
        ensures
            final(self).segment_map() == old(self).segment_map(),
            final(self).segment_order() == old(self).segment_order(),
    {
        self.connected = true;
        Ok(())
    }

    /// Writes `data` as a new segment named by a fresh UUID; this succeeds,
    /// connected or not.
    fn send(&mut self, data: &[u8]) -> (r: Result<(), GrassError>)
        ensures
            r is Ok,
            exists|u: u128|
                is_v4(u) && final(self).segment_map() == old(self).segment_map().insert(
                    #[trigger] uuid_text(u),
                    data@,
                ),
    {
        let id = new_v4_id();
        let key = uuid_string(id);
        let r = self.write_segment(key.as_str(), data);
        assert(self.segment_map() == old(self).segment_map().insert(uuid_text(id), data@));
        r
    }

    /// The first segment's bytes (segments in the order they were first
    /// written), or no bytes when there are none; this succeeds.
    fn receive(&self) -> (r: Result<Vec<u8>, GrassError>)
        ensures
            r matches Ok(v) && v@ == self.first_segment(),
    {
        Ok(first_stored(&self.segments))
    }

    /// Marks the transport disconnected; segments stay.
    fn disconnect(&mut self) -> (r: Result<(), GrassError>)
        ensures
            final(self).segment_map() == old(self).segment_map(),
            final(self).segment_order() == old(self).segment_order(),
    {
        self.connected = false;
        Ok(())
    }
}

/// A Valkey store: its endpoint, whether it is connected, and the bytes
/// stored under each key.
pub struct GrassValkeyTransport {
    endpoint: String,
    connected: bool,
    store: GrassStringMap<Vec<u8>>,
}

/// The key under which a Valkey transport at `endpoint` sends a message
/// with id `id`.
pub open spec fn send_key(endpoint: Seq<char>, id: u128) -> Seq<char> {
    "ipc:"@ + endpoint + ":"@ + uuid_text(id)
}

impl GrassValkeyTransport {
    pub closed spec fn endpoint_text(&self) -> Seq<char> {
        self.endpoint@
    }

    /// The bytes under each key.
    pub closed spec fn store_map(&self) -> Map<Seq<char>, Seq<u8>> {
        byte_map(self.store@)
    }

    /// What `receive` hands out: the first key's bytes, or none.
    pub closed spec fn first_value(&self) -> Seq<u8> {
        first_bytes(&self.store)
    }

    /// A store for `endpoint`, empty and not connected.
    pub fn new(endpoint: &str) -> (r: Self)
        ensures
            r.ready(),
            !r.is_connected(),
            r.endpoint_text() == endpoint@,
            r.store_map() == Map::<Seq<char>, Seq<u8>>::empty(),
    {
        let r = GrassValkeyTransport {
            endpoint: endpoint.to_owned(),
            connected: false,
            store: GrassStringMap::new(),
        };
        assert(r.store_map() =~= Map::<Seq<char>, Seq<u8>>::empty());
        r
    }

    /// The endpoint.
    pub fn endpoint(&self) -> (r: &str)
        ensures
            r@ == self.endpoint_text(),
    {
        self.endpoint.as_str()
    }

    /// Whether the store is connected.
    pub fn connected(&self) -> (r: bool)
        ensures
            r == self.is_connected(),
    {
        self.connected
    }

    /// Stores `value` under `key`; this succeeds.
    pub fn set(&mut self, key: &str, value: &[u8]) -> (r: Result<(), GrassError>)
        requires
            old(self).ready(),
        ensures
            final(self).ready(),
            r is Ok,
            final(self).is_connected() == old(self).is_connected(),
            final(self).endpoint_text() == old(self).endpoint_text(),
            final(self).store_map() == old(self).store_map().insert(key@, value@),
    {
        write_bytes(&mut self.store, key.to_owned(), value);
        Ok(())
    }

    /// The bytes under `key`, if any; this succeeds.
    pub fn get(&self, key: &str) -> (r: Result<Option<Vec<u8>>, GrassError>)
        ensures
            match r {
                Ok(Some(v)) => self.store_map().contains_key(key@) && v@ == self.store_map()[key@],
                Ok(None) => !self.store_map().contains_key(key@),
                Err(_) => false,
            },
    {
        Ok(read_bytes(&self.store, key))
    }

    /// Removes `key` and its bytes; this succeeds.
    pub fn del(&mut self, key: &str) -> (r: Result<(), GrassError>)
        requires
            old(self).ready(),
        ensures
            final(self).ready(),
            r is Ok,
            final(self).is_connected() == old(self).is_connected(),
            final(self).endpoint_text() == old(self).endpoint_text(),
            final(self).store_map() == old(self).store_map().remove(key@),
    {
        let _ = self.store.remove(key);
        assert(self.store_map() =~= old(self).store_map().remove(key@));
        Ok(())
    }
}

impl GrassIpcTransport for GrassValkeyTransport {
    closed spec fn ready(&self) -> bool {
        self.store.wf()
    }

    closed spec fn is_connected(&self) -> bool {
        self.connected
    }

    /// Marks the store connected; its endpoint and contents stay.
    fn connect(&mut self, endpoint: &str) -> (r: Result<(), GrassError>)
        ensures
            final(self).endpoint_text() == old(self).endpoint_text(),
            final(self).store_map() == old(self).store_map(),
    {
        self.connected = true;
        Ok(())
    }

    /// While connected, stores `data` under `ipc:<endpoint>:<fresh UUID>`;
    /// refuses it when not connected.
    fn send(&mut self, data: &[u8]) -> (r: Result<(), GrassError>)
        ensures
            final(self).endpoint_text() == old(self).endpoint_text(),
            old(self).is_connected() ==> r is Ok && exists|u: u128|
                is_v4(u) && final(self).store_map() == old(self).store_map().insert(
                    #[trigger] send_key(old(self).endpoint_text(), u),
                    data@,
                ),
            !old(self).is_connected() ==> is_not_connected(r) && *final(self) == *old(self),
    {
        if !self.connected {
            return Err(GrassError::Ipc("not connected".to_owned()));
        }
        let id = new_v4_id();
        let text = uuid_string(id);
        let prefix = join2(join2("ipc:", self.endpoint.as_str()).as_str(), ":");
        let key = join2(prefix.as_str(), text.as_str());
        let r = self.set(key.as_str(), data);
        assert(self.store_map() == old(self).store_map().insert(
            send_key(old(self).endpoint_text(), id),
            data@,
        ));
        r
    }

    /// The first key's bytes (keys in the order they were first stored), or
    /// no bytes when the store is empty; this succeeds.
    fn receive(&self) -> (r: Result<Vec<u8>, GrassError>)
        ensures
            r matches Ok(v) && v@ == self.first_value(),
    {
        Ok(first_stored(&self.store))
    }

    /// Marks the store disconnected; its endpoint and contents stay.
    fn disconnect(&mut self) -> (r: Result<(), GrassError>)
        ensures
            final(self).endpoint_text() == old(self).endpoint_text(),
            final(self).store_map() == old(self).store_map(),
    {
        self.connected = false;
        Ok(())
    }
}


/// What a segment read gives back is what was last written to it, and a
/// write leaves every other segment as it was.
pub proof fn lemma_segment_read_after_write(
    before: GrassShmTransport,
    after: GrassShmTransport,
    name: Seq<char>,
    data: Seq<u8>,
)
    requires
        after.segment_map() == before.segment_map().insert(name, data),
    ensures
        after.segment_map().contains_key(name),
        after.segment_map()[name] == data,
        forall|n: Seq<char>|
            n != name ==> (#[trigger] after.segment_map().contains_key(n)
                == before.segment_map().contains_key(n) && (before.segment_map().contains_key(n)
                ==> after.segment_map()[n] == before.segment_map()[n])),
{
}

/// A Valkey read gives back what was last set under the key, and nothing
/// once the key is deleted; other keys are untouched by either.
pub proof fn lemma_store_set_get_del(
    before: GrassValkeyTransport,
    after_set: GrassValkeyTransport,
    after_del: GrassValkeyTransport,
    key: Seq<char>,
    value: Seq<u8>,
)
    requires
        after_set.store_map() == before.store_map().insert(key, value),
        after_del.store_map() == after_set.store_map().remove(key),
    ensures
        after_set.store_map().contains_key(key),
        after_set.store_map()[key] == value,
        !after_del.store_map().contains_key(key),
        forall|k: Seq<char>|
            k != key ==> (#[trigger] after_del.store_map().contains_key(k)
                == before.store_map().contains_key(k) && (before.store_map().contains_key(k)
                ==> after_del.store_map()[k] == before.store_map()[k])),
{
}


impl Default for GrassZeroMqTransport {
    /// A socket that was never connected.
    fn default() -> (r: Self)
        ensures
            !r.is_connected(),
            r.endpoint_text() is None,
    {
        Self::new()
    }
}

impl Default for GrassShmTransport {
    /// No segments, not connected.
    fn default() -> (r: Self)
        ensures
            r.ready(),
            !r.is_connected(),
            r.segment_map() == Map::<Seq<char>, Seq<u8>>::empty(),
    {
        Self::new()
    }
}

} // verus!
