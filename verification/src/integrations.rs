//! Outside services: FISS datasets, IPFS storage and the ONDC network.
use vstd::prelude::*;
use crate::error::GrassError;

verus! {

/// A FISS service adapter: its endpoint.
pub struct GrassFissAdapter {
    endpoint: String,
}

impl GrassFissAdapter {
    pub closed spec fn endpoint_text(&self) -> Seq<char> {
        self.endpoint@
    }

    /// An adapter for the service at `endpoint`.
    pub fn new(endpoint: &str) -> (r: Self)
        ensures
            r.endpoint_text() == endpoint@,
    {
        GrassFissAdapter { endpoint: endpoint.to_owned() }
    }

    pub fn endpoint(&self) -> (r: &str)
        ensures
            r@ == self.endpoint_text(),
    {
        self.endpoint.as_str()
    }

    /// The endpoint that queries `dataset`.
    pub fn query_url(&self, dataset: &str) -> (r: String)
        ensures
            r@ == self.endpoint_text() + "/query/"@ + dataset@,
    {
        let mut r = self.endpoint.clone();
        r.append("/query/");
        r.append(dataset);
        r
    }

    /// The endpoint that changes `dataset`.
    pub fn mutate_url(&self, dataset: &str) -> (r: String)
        ensures
            r@ == self.endpoint_text() + "/mutate/"@ + dataset@,
    {
        let mut r = self.endpoint.clone();
        r.append("/mutate/");
        r.append(dataset);
        r
    }

    /// Connecting needs no exchange; this succeeds.
    pub fn connect(&self, endpoint: &str) -> (r: Result<(), GrassError>)
        ensures
            r is Ok,
    {
        Ok(())
    }

    /// Disconnecting needs no exchange; this succeeds.
    pub fn disconnect(&self) -> (r: Result<(), GrassError>)
        ensures
            r is Ok,
    {
        Ok(())
    }
}

/// One link listed under an IPFS object.
pub struct GrassIpfsEntry {
    pub name: String,
    pub cid: String,
    pub size: u64,
}

/// A link as IPFS lists it, each field present or not.
pub struct GrassIpfsLink {
    pub name: Option<String>,
    pub hash: Option<String>,
    pub size: Option<u64>,
}

/// The text of an optional string, empty when it is missing.
pub open spec fn text_or_empty(o: Option<String>) -> Seq<char> {
    match o {
        Some(s) => s@,
        None => Seq::empty(),
    }
}

/// `e` is link `l` with missing names and hashes empty and a missing size
/// zero.
pub open spec fn entry_of_link(e: GrassIpfsEntry, l: GrassIpfsLink) -> bool {
    &&& e.name@ == text_or_empty(l.name)
    &&& e.cid@ == text_or_empty(l.hash)
    &&& e.size == (match l.size {
        Some(n) => n,
        None => 0,
    })
}

fn string_or_empty(o: &Option<String>) -> (r: String)
    ensures
        r@ == text_or_empty(*o),
{
    match o {
        Some(s) => s.clone(),
        None => String::new(),
    }
}

/// The entries of an IPFS listing: one per link, in order; none when the
/// listing has no link list.
pub fn ipfs_entries(links: Option<Vec<GrassIpfsLink>>) -> (r: Vec<GrassIpfsEntry>)
    ensures
        match links {
            Some(ls) => r@.len() == ls@.len() && forall|i: int|
                0 <= i < r@.len() ==> entry_of_link(#[trigger] r@[i], ls@[i]),
            None => r@.len() == 0,
        },
{
    let mut out: Vec<GrassIpfsEntry> = Vec::new();
    match links {
        None => {},
        Some(ls) => {
            let mut i: usize = 0;
            while i < ls.len()
                invariant
                    i <= ls@.len(),
                    out@.len() == i,
                    forall|j: int| 0 <= j < i ==> entry_of_link(#[trigger] out@[j], ls@[j]),
                decreases ls@.len() - i,
            {
                let l = &ls[i];
                let size = match l.size {
                    Some(n) => n,
                    None => 0,
                };
                out.push(
                    GrassIpfsEntry {
                        name: string_or_empty(&l.name),
                        cid: string_or_empty(&l.hash),
                        size,
                    },
                );
                i = i + 1;
            }
        },
    }
    out
}

/// An IPFS node's HTTP API.
pub struct GrassIpfsStore {
    api_url: String,
}

impl GrassIpfsStore {
    pub closed spec fn api_text(&self) -> Seq<char> {
        self.api_url@
    }

    /// A store using the API at `api_url`.
    pub fn new(api_url: &str) -> (r: Self)
        ensures
            r.api_text() == api_url@,
    {
        GrassIpfsStore { api_url: api_url.to_owned() }
    }

    pub fn api_url(&self) -> (r: &str)
        ensures
            r@ == self.api_text(),
    {
        self.api_url.as_str()
    }

    /// The endpoint that adds a file.
    pub fn add_url(&self) -> (r: String)
        ensures
            r@ == self.api_text() + "/api/v0/add"@,
    {
        let mut r = self.api_url.clone();
        r.append("/api/v0/add");
        r
    }

    /// The endpoint that reads object `cid`.
    pub fn cat_url(&self, cid: &str) -> (r: String)
        ensures
            r@ == self.api_text() + "/api/v0/cat?arg="@ + cid@,
    {
        let mut r = self.api_url.clone();
        r.append("/api/v0/cat?arg=");
        r.append(cid);
        r
    }

    /// The endpoint that pins object `cid`.
    pub fn pin_url(&self, cid: &str) -> (r: String)
        ensures
            r@ == self.api_text() + "/api/v0/pin/add?arg="@ + cid@,
    {
        let mut r = self.api_url.clone();
        r.append("/api/v0/pin/add?arg=");
        r.append(cid);
        r
    }

    /// The endpoint that unpins object `cid`.
    pub fn unpin_url(&self, cid: &str) -> (r: String)
        ensures
            r@ == self.api_text() + "/api/v0/pin/rm?arg="@ + cid@,
    {
        let mut r = self.api_url.clone();
        r.append("/api/v0/pin/rm?arg=");
        r.append(cid);
        r
    }

    /// The endpoint that lists the links of object `cid`.
    pub fn ls_url(&self, cid: &str) -> (r: String)
        ensures
            r@ == self.api_text() + "/api/v0/ls?arg="@ + cid@,
    {
        let mut r = self.api_url.clone();
        r.append("/api/v0/ls?arg=");
        r.append(cid);
        r
    }
}

/// What the ONDC adapter answers: a status and, for an order, its id.
pub struct GrassOndcReply {
    pub status: String,
    pub order_id: Option<String>,
}

/// An ONDC gateway adapter.
pub struct GrassOndcAdapter {
    gateway_url: String,
    api_key: String,
}

impl GrassOndcAdapter {
    pub closed spec fn gateway_text(&self) -> Seq<char> {
        self.gateway_url@
    }

    pub closed spec fn key_text(&self) -> Seq<char> {
        self.api_key@
    }

    /// An adapter for the gateway at `gateway_url`.
    pub fn new(gateway_url: &str, api_key: &str) -> (r: Self)
        ensures
            r.gateway_text() == gateway_url@,
            r.key_text() == api_key@,
    {
        GrassOndcAdapter { gateway_url: gateway_url.to_owned(), api_key: api_key.to_owned() }
    }

    pub fn gateway_url(&self) -> (r: &str)
        ensures
            r@ == self.gateway_text(),
    {
        self.gateway_url.as_str()
    }

    pub fn api_key(&self) -> (r: &str)
        ensures
            r@ == self.key_text(),
    {
        self.api_key.as_str()
    }

    /// Starts a search: status `search_initiated`.
    pub fn search(&self, query: &str, location: &str) -> (r: GrassOndcReply)
        ensures
            r.status@ == "search_initiated"@,
            r.order_id is None,
    {
        GrassOndcReply { status: "search_initiated".to_owned(), order_id: None }
    }

    /// Selects an order: status `selected`.
    pub fn select(&self) -> (r: GrassOndcReply)
        ensures
            r.status@ == "selected"@,
            r.order_id is None,
    {
        GrassOndcReply { status: "selected".to_owned(), order_id: None }
    }

    /// Confirms order `order_id`: status `confirmed`, with the order's id.
    pub fn confirm(&self, order_id: &str) -> (r: GrassOndcReply)
        ensures
            r.status@ == "confirmed"@,
            r.order_id matches Some(id) && id@ == order_id@,
    {
        GrassOndcReply { status: "confirmed".to_owned(), order_id: Some(order_id.to_owned()) }
    }

    /// The state of order `order_id`: status `active`, with the order's id.
    pub fn status(&self, order_id: &str) -> (r: GrassOndcReply)
        ensures
            r.status@ == "active"@,
            r.order_id matches Some(id) && id@ == order_id@,
    {
        GrassOndcReply { status: "active".to_owned(), order_id: Some(order_id.to_owned()) }
    }
}

} // verus!
