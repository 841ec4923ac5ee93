//! Plugin registry and the naming rules of plugin manifest files.
use vstd::prelude::*;
use crate::error::GrassError;
use crate::id_map::GrassIdMap;
use crate::ids::PluginId;
use crate::text::{join2, str_chars, string_from_chars};
use crate::text_map::GrassStringMap;

verus! {

/// Loaded plugins by id and the names they were registered under.
pub struct GrassPluginRegistry<P> {
    plugins: GrassIdMap<P>,
    name_map: GrassStringMap<PluginId>,
}

impl<P> GrassPluginRegistry<P> {
    /// The plugins by id.
    pub closed spec fn plugins(&self) -> Map<PluginId, P> {
        self.plugins@
    }

    /// The plugin id each name refers to.
    pub closed spec fn names(&self) -> Map<Seq<char>, PluginId> {
        self.name_map@
    }

    /// Names in the order they were first registered.
    pub closed spec fn name_order(&self) -> Seq<Seq<char>> {
        self.name_map.key_order()
    }

    pub closed spec fn wf(&self) -> bool {
        self.plugins.wf() && self.name_map.wf()
    }

    /// An empty registry.
    pub fn new() -> (r: Self)
        ensures
            r.wf(),
            r.plugins() == Map::<PluginId, P>::empty(),
            r.names() == Map::<Seq<char>, PluginId>::empty(),
            r.name_order() == Seq::<Seq<char>>::empty(),
    {
        GrassPluginRegistry { plugins: GrassIdMap::new(), name_map: GrassStringMap::new() }
    }

    /// Registers `plugin` as `id` under `name`, replacing what either
    /// referred to before. Never fails.
    pub fn register(&mut self, id: PluginId, plugin: P, name: &str) -> (r: Result<(), GrassError>)
        requires
            old(self).wf(),
        ensures
            final(self).wf(),
            r is Ok,
            final(self).plugins() == old(self).plugins().insert(id, plugin),
            final(self).names() == old(self).names().insert(name@, id),
    {
        self.plugins.insert(id, plugin);
        self.name_map.insert(name.to_owned(), id);
        Ok(())
    }

    /// Removes plugin `id` and every name that refers to it. Never fails.
    pub fn unregister(&mut self, id: PluginId) -> (r: Result<(), GrassError>)
        requires
            old(self).wf(),
        ensures
            final(self).wf(),
            r is Ok,
            final(self).plugins() == old(self).plugins().remove(id),
            forall|k: Seq<char>| #[trigger]
                final(self).names().contains_key(k) <==> old(self).names().contains_key(k) && old(
                    self,
                ).names()[k] != id,
            forall|k: Seq<char>| #[trigger]
                final(self).names().contains_key(k) ==> final(self).names()[k] == old(
                    self,
                ).names()[k],
    {
        let _ = self.plugins.remove(id);
        let ghost plugins_after = self.plugins@;
        let ghost old_names = self.name_map@;
        proof {
            self.name_map.lemma_keys();
        }
        let keys: Vec<String> = self.owned_names();
        assert(self.names() == old_names);
        assert(forall|k: Seq<char>| old_names.contains_key(k) ==> exists|j: int|
            0 <= j < keys@.len() && #[trigger] keys@[j]@ == k);
        let mut i: usize = 0;
        while i < keys.len()
            invariant
                self.plugins.wf(),
                self.plugins@ == plugins_after,
                self.name_map.wf(),
                i <= keys.len(),
                forall|k: Seq<char>| old_names.contains_key(k) ==> exists|j: int|
                    0 <= j < keys@.len() && #[trigger] keys@[j]@ == k,
                forall|k: Seq<char>| #[trigger]
                    self.name_map@.contains_key(k) ==> old_names.contains_key(k)
                        && self.name_map@[k] == old_names[k],
                forall|k: Seq<char>| #[trigger]
                    old_names.contains_key(k) && old_names[k] != id ==> self.name_map@.contains_key(k),
                forall|j: int|
                    0 <= j < i ==> !(self.name_map@.contains_key(#[trigger] keys@[j]@)
                        && old_names[keys@[j]@] == id),
            decreases keys.len() - i,
        {
            let hit = match self.name_map.get(keys[i].as_str()) {
                Some(v) => *v == id,
                None => false,
            };
            if hit {
                let _ = self.name_map.remove(keys[i].as_str());
            }
            i = i + 1;
        }
        proof {
            assert forall|k: Seq<char>| #[trigger] self.name_map@.contains_key(k) implies old_names[k]
                != id by {
                let j = choose|j: int| 0 <= j < keys@.len() && #[trigger] keys@[j]@ == k;
            }
        }
        Ok(())
    }

    /// The registered names, as owned strings, in registration order.
    fn owned_names(&self) -> (r: Vec<String>)
        requires
            self.wf(),
        ensures
            forall|k: Seq<char>| self.names().contains_key(k) ==> exists|j: int|
                0 <= j < r@.len() && #[trigger] r@[j]@ == k,
    {
        let keys = self.name_map.keys();
        proof {
            self.name_map.lemma_keys();
        }
        let mut r: Vec<String> = Vec::new();
        let mut i: usize = 0;
        while i < keys.len()
            invariant
                i <= keys.len(),
                r@.len() == i,
                forall|j: int| 0 <= j < i ==> #[trigger] r@[j]@ == keys@[j]@,
            decreases keys.len() - i,
        {
            r.push(keys[i].to_owned());
            i = i + 1;
        }
        proof {
            assert forall|k: Seq<char>| self.names().contains_key(k) implies exists|j: int|
                0 <= j < r@.len() && #[trigger] r@[j]@ == k by {
                assert(self.name_map.key_order().contains(k));
                let j = choose|j: int| 0 <= j < self.name_map.key_order().len() && self.name_map.key_order()[j] == k;
                assert(keys@.map_values(|s: &str| s@)[j] == keys@[j]@);
                assert(r@[j]@ == k);
            }
        }
        r
    }

    /// The plugin registered under `name`, if any.
    pub fn get(&self, name: &str) -> (r: Option<&P>)
        ensures
            match r {
                Some(p) => self.names().contains_key(name@) && self.plugins().contains_key(
                    self.names()[name@],
                ) && *p == self.plugins()[self.names()[name@]],
                None => !self.names().contains_key(name@) || !self.plugins().contains_key(
                    self.names()[name@],
                ),
            },
    {
        match self.name_map.get(name) {
            Some(id) => self.plugins.get(*id),
            None => None,
        }
    }

    /// The registered names, in the order they were first registered.
    pub fn list(&self) -> (r: Vec<&str>)
        ensures
            r@.map_values(|s: &str| s@) == self.name_order(),
    {
        self.name_map.keys()
    }
}

/// Whether `s` ends with `suffix`.
pub open spec fn ends_with(s: Seq<char>, suffix: Seq<char>) -> bool {
    suffix.len() <= s.len() && s.skip(s.len() - suffix.len()) == suffix
}

/// `s` with every trailing repetition of the non-empty `suffix` removed, as
/// `str::trim_end_matches` does.
pub open spec fn trim_end_all(s: Seq<char>, suffix: Seq<char>) -> Seq<char>
    decreases s.len(),
{
    if suffix.len() > 0 && ends_with(s, suffix) {
        trim_end_all(s.take(s.len() - suffix.len()), suffix)
    } else {
        s
    }
}

/// The plugin named by a manifest file name: the name without its `.json`
/// endings, or `None` for a file that is not a JSON manifest.
pub open spec fn plugin_name_of(file_name: Seq<char>) -> Option<Seq<char>> {
    if ends_with(file_name, ".json"@) {
        Some(trim_end_all(file_name, ".json"@))
    } else {
        None
    }
}

fn chars_end_with(s: &Vec<char>, n: usize, suffix: &Vec<char>) -> (r: bool)
    requires
        n <= s@.len(),
    ensures
        r == ends_with(s@.take(n as int), suffix@),
{
    if suffix.len() > n {
        return false;
    }
    let start = n - suffix.len();
    let mut i: usize = 0;
    while i < suffix.len()
        invariant
            n <= s@.len(),
            start + suffix@.len() == n,
            i <= suffix.len(),
            forall|k: int| 0 <= k < i ==> s@[start + k] == suffix@[k],
        decreases suffix.len() - i,
    {
        if s[start + i] != suffix[i] {
            assert(s@.take(n as int).skip(start as int)[i as int] == s@[start + i]);
            return false;
        }
        i = i + 1;
    }
    assert(s@.take(n as int).skip(start as int) =~= suffix@);
    true
}

/// The plugin named by a manifest file name (see [`plugin_name_of`]).
pub fn plugin_name_from_file(file_name: &str) -> (r: Option<String>)
    ensures
        match r {
            Some(n) => plugin_name_of(file_name@) == Some(n@),
            None => plugin_name_of(file_name@) is None,
        },
{
    let v = str_chars(file_name);
    let suffix = str_chars(".json");
    let mut n = v.len();
    assert(v@.take(n as int) =~= v@);
    if !chars_end_with(&v, n, &suffix) {
        return None;
    }
    proof {
        reveal_strlit(".json");
    }
    while chars_end_with(&v, n, &suffix)
        invariant
            n <= v@.len(),
            suffix@ == ".json"@,
            suffix@.len() == 5,
            trim_end_all(v@, ".json"@) == trim_end_all(v@.take(n as int), ".json"@),
        decreases n,
    {
        assert(v@.take(n as int).take(n - 5) =~= v@.take(n - 5));
        n = n - 5;
    }
    let mut out: Vec<char> = Vec::new();
    let mut i: usize = 0;
    while i < n
        invariant
            i <= n <= v@.len(),
            out@ == v@.take(i as int),
        decreases n - i,
    {
        out.push(v[i]);
        i = i + 1;
        assert(out@ =~= v@.take(i as int));
    }
    Some(string_from_chars(out.as_slice()))
}

/// Reads plugin manifests from a directory.
pub struct GrassPluginLoader {
    manifest_dir: String,
}

impl GrassPluginLoader {
    /// A loader for the manifests in `manifest_dir`.
    pub fn new(manifest_dir: &str) -> (r: Self)
        ensures
            r.dir()@ == manifest_dir@,
    {
        GrassPluginLoader { manifest_dir: manifest_dir.to_owned() }
    }

    /// The manifest directory.
    pub closed spec fn dir(&self) -> String {
        self.manifest_dir
    }

    /// The manifest directory.
    pub fn manifest_dir(&self) -> (r: &str)
        ensures
            r@ == self.dir()@,
    {
        self.manifest_dir.as_str()
    }

    /// The path of the manifest of `plugin_name`: `<dir>/<name>.json`.
    pub fn manifest_path(&self, plugin_name: &str) -> (r: String)
        ensures
            r@ == self.dir()@ + "/"@ + plugin_name@ + ".json"@,
    {
        let a = join2(self.manifest_dir.as_str(), "/");
        let b = join2(a.as_str(), plugin_name);
        join2(b.as_str(), ".json")
    }
}


impl<P> Default for GrassPluginRegistry<P> {
    /// An empty registry.
    fn default() -> (r: Self)
        ensures
            r.wf(),
            r.plugins() == Map::<PluginId, P>::empty(),
            r.names() == Map::<Seq<char>, PluginId>::empty(),
    {
        Self::new()
    }
}

} // verus!
