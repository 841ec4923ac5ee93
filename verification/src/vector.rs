//! Vector stores: the ChromaDB endpoints and what its query answers hold.
use vstd::prelude::*;

verus! {

/// The strings among `items`, in order.
pub open spec fn present(items: Seq<Option<String>>) -> Seq<Seq<char>>
    decreases items.len(),
{
    if items.len() == 0 {
        Seq::empty()
    } else {
        let rest = present(items.drop_last());
        match items.last() {
            Some(s) => rest.push(s@),
            None => rest,
        }
    }
}

/// The strings of a query answer's list: those of its items that are
/// strings, in order; none when the answer has no such list.
pub fn present_strings(items: Option<Vec<Option<String>>>) -> (r: Vec<String>)
    ensures
        r@.map_values(|s: String| s@) == (match items {
            Some(v) => present(v@),
            None => Seq::empty(),
        }),
{
    let mut out: Vec<String> = Vec::new();
    match items {
        None => {},
        Some(v) => {
            let mut i: usize = 0;
            while i < v.len()
                invariant
                    i <= v@.len(),
                    out@.map_values(|s: String| s@) == present(v@.take(i as int)),
                decreases v@.len() - i,
            {
                assert(v@.take(i + 1).drop_last() =~= v@.take(i as int));
                let ghost before = out@;
                match &v[i] {
                    Some(s) => {
                        out.push(s.clone());
                        assert(out@.map_values(|s: String| s@) =~= before.map_values(
                            |s: String| s@,
                        ).push(s@));
                    },
                    None => {},
                }
                i = i + 1;
            }
            assert(v@.take(v@.len() as int) =~= v@);
        },
    }
    out
}

/// A ChromaDB server.
pub struct GrassChromaDb {
    base_url: String,
}

impl GrassChromaDb {
    pub closed spec fn base(&self) -> Seq<char> {
        self.base_url@
    }

    /// A store on the server at `base_url`.
    pub fn new(base_url: &str) -> (r: Self)
        ensures
            r.base() == base_url@,
    {
        GrassChromaDb { base_url: base_url.to_owned() }
    }

    pub fn name(&self) -> (r: &'static str)
        ensures
            r@ == "chromadb"@,
    {
        "chromadb"
    }

    pub fn base_url(&self) -> (r: &str)
        ensures
            r@ == self.base(),
    {
        self.base_url.as_str()
    }

    /// The endpoint that creates collections.
    pub fn collections_url(&self) -> (r: String)
        ensures
            r@ == self.base() + "/api/v1/collections"@,
    {
        let mut r = self.base_url.clone();
        r.append("/api/v1/collections");
        r
    }

    /// The endpoint `action` (add, query, delete, count) of `collection`.
    pub fn collection_url(&self, collection: &str, action: &str) -> (r: String)
        ensures
            r@ == self.base() + "/api/v1/collections/"@ + collection@ + "/"@ + action@,
    {
        let mut r = self.base_url.clone();
        r.append("/api/v1/collections/");
        r.append(collection);
        r.append("/");
        r.append(action);
        r
    }
}

} // verus!
