//! Hooks: what triggers them, the registry that decides which hooks fire,
//! and the message texts of the bundled chat and webhook hooks.
use vstd::prelude::*;
use crate::id_map::GrassIdMap;
use crate::ids::{HookId, is_v4, new_v4_id};
use crate::text::{join2, str_eq};
use crate::text_map::GrassStringMap;

verus! {

/// The event a hook reacts to.
pub enum GrassHookTrigger {
    OnAgentStart,
    OnAgentStop,
    OnTaskComplete,
    OnTaskFailed,
    OnMessage,
    OnCustom(String),
}

/// How std's `Debug` renders a `str`: quoted, with special characters
/// escaped; a function of the text alone.
pub uninterp spec fn str_debug(s: Seq<char>) -> Seq<char>;

/// `format!("{:?}", s)` for a `str`.
#[verifier::external_body]
fn debug_str(s: &str) -> (r: String)
    ensures
        r@ == str_debug(s@),
{
    format!("{:?}", s)
}

/// The `Debug` text of a trigger (`OnAgentStart`, `OnCustom("name")`, ...),
/// which is also the key that groups hooks by trigger.
pub open spec fn trigger_text(t: GrassHookTrigger) -> Seq<char> {
    match t {
        GrassHookTrigger::OnAgentStart => "OnAgentStart"@,
        GrassHookTrigger::OnAgentStop => "OnAgentStop"@,
        GrassHookTrigger::OnTaskComplete => "OnTaskComplete"@,
        GrassHookTrigger::OnTaskFailed => "OnTaskFailed"@,
        GrassHookTrigger::OnMessage => "OnMessage"@,
        GrassHookTrigger::OnCustom(s) => "OnCustom("@ + str_debug(s@) + ")"@,
    }
}

impl GrassHookTrigger {
    /// The `Debug` text of the trigger.
    pub fn debug_text(&self) -> (r: String)
        ensures
            r@ == trigger_text(*self),
    {
        match self {
            GrassHookTrigger::OnAgentStart => "OnAgentStart".to_owned(),
            GrassHookTrigger::OnAgentStop => "OnAgentStop".to_owned(),
            GrassHookTrigger::OnTaskComplete => "OnTaskComplete".to_owned(),
            GrassHookTrigger::OnTaskFailed => "OnTaskFailed".to_owned(),
            GrassHookTrigger::OnMessage => "OnMessage".to_owned(),
            GrassHookTrigger::OnCustom(s) => {
                let d = debug_str(s.as_str());
                join2(join2("OnCustom(", d.as_str()).as_str(), ")")
            },
        }
    }
}

/// What a hook receives when it fires. `data` is a JSON text.
pub struct GrassHookPayload {
    pub trigger: GrassHookTrigger,
    pub data: String,
    pub metadata: GrassStringMap<String>,
}

/// The hooks that fire for a trigger key: those listed under it that are
/// still registered, in registration order (a hook listed twice fires
/// twice).
pub open spec fn fire_plan<H>(listed: Seq<HookId>, hooks: Map<HookId, H>) -> Seq<HookId> {
    listed.filter(|id: HookId| hooks.contains_key(id))
}

/// One step of a registry's history: a hook registered under an id and a
/// trigger text, or an id unregistered.
pub enum GrassHookEvent<H> {
    Registered(HookId, Seq<char>, H),
    Unregistered(HookId),
}

/// The ids registered under trigger text `key` over history `h`, one per
/// registration, in registration order (unregistering lists nothing and
/// removes nothing).
pub open spec fn listed_in<H>(h: Seq<GrassHookEvent<H>>, key: Seq<char>) -> Seq<HookId>
    decreases h.len(),
{
    if h.len() == 0 {
        Seq::empty()
    } else {
        let before = listed_in(h.drop_last(), key);
        match h.last() {
            GrassHookEvent::Registered(id, k, _) => if k == key {
                before.push(id)
            } else {
                before
            },
            GrassHookEvent::Unregistered(_) => before,
        }
    }
}

/// The hooks registered after history `h`: each id whose last event is a
/// registration, with the hook of that registration.
pub open spec fn live_hooks<H>(h: Seq<GrassHookEvent<H>>) -> Map<HookId, H>
    decreases h.len(),
{
    if h.len() == 0 {
        Map::empty()
    } else {
        let before = live_hooks(h.drop_last());
        match h.last() {
            GrassHookEvent::Registered(id, _, hook) => before.insert(id, hook),
            GrassHookEvent::Unregistered(id) => before.remove(id),
        }
    }
}

/// Registered hooks and, for each trigger, the hooks listed for it.
pub struct GrassHookRegistry<H> {
    hooks: GrassIdMap<H>,
    trigger_map: GrassStringMap<Vec<HookId>>,
    history: Ghost<Seq<GrassHookEvent<H>>>,
}

impl<H> GrassHookRegistry<H> {
    /// The registered hooks by id.
    pub closed spec fn hooks(&self) -> Map<HookId, H> {
        self.hooks@
    }

    /// Hook ids in the order they were first registered.
    pub closed spec fn hook_order(&self) -> Seq<HookId> {
        self.hooks.key_order()
    }

    /// For each trigger text, the hook ids listed under it, in order.
    pub closed spec fn listed(&self) -> Map<Seq<char>, Vec<HookId>> {
        self.trigger_map@
    }

    /// The ids listed under the trigger text `key`.
    pub open spec fn listed_for(&self, key: Seq<char>) -> Seq<HookId> {
        if self.listed().contains_key(key) {
            self.listed()[key]@
        } else {
            Seq::empty()
        }
    }

    /// The registrations and unregistrations made so far, in order.
    pub closed spec fn history(&self) -> Seq<GrassHookEvent<H>> {
        self.history@
    }

    pub closed spec fn wf(&self) -> bool {
        &&& self.hooks.wf()
        &&& self.trigger_map.wf()
        &&& self.hooks@ == live_hooks(self.history@)
        &&& forall|k: Seq<char>| #[trigger] self.listed_for(k) == listed_in(self.history@, k)
    }

    /// An empty registry.
    pub fn new() -> (r: Self)
        ensures
            r.wf(),
            r.hooks() == Map::<HookId, H>::empty(),
            r.listed() == Map::<Seq<char>, Vec<HookId>>::empty(),
            r.history() == Seq::<GrassHookEvent<H>>::empty(),
    {
        GrassHookRegistry {
            hooks: GrassIdMap::new(),
            trigger_map: GrassStringMap::new(),
            history: Ghost(Seq::empty()),
        }
    }

    /// Registers `hook` as `id` and lists it under `trigger`.
    pub fn register(&mut self, id: HookId, trigger: &GrassHookTrigger, hook: H)
        requires
            old(self).wf(),
        ensures
            final(self).wf(),
            final(self).hooks() == old(self).hooks().insert(id, hook),
            final(self).listed_for(trigger_text(*trigger)) == old(self).listed_for(
                trigger_text(*trigger),
            ).push(id),
            forall|k: Seq<char>|
                k != trigger_text(*trigger) ==> #[trigger] final(self).listed_for(k) == old(
                    self,
                ).listed_for(k),
            final(self).history() == old(self).history().push(
                GrassHookEvent::Registered(id, trigger_text(*trigger), hook),
            ),
    {
        let key = trigger.debug_text();
        let ghost old_h = self.history@;
        let ghost h = old_h.push(GrassHookEvent::Registered(id, key@, hook));
        self.hooks.insert(id, hook);
        match self.trigger_map.get_mut(key.as_str()) {
            Some(v) => {
                v.push(id);
            },
            None => {
                let mut v: Vec<HookId> = Vec::new();
                v.push(id);
                self.trigger_map.insert(key, v);
            },
        }
        self.history = Ghost(h);
        proof {
            assert(h.drop_last() =~= old_h);
            assert(live_hooks(h) == live_hooks(old_h).insert(id, hook));
            assert forall|k: Seq<char>| #[trigger] self.listed_for(k) == listed_in(h, k) by {
                assert(old(self).listed_for(k) == listed_in(old_h, k));
                if k == key@ {
                    assert(listed_in(h, k) == listed_in(old_h, k).push(id));
                } else {
                    assert(listed_in(h, k) == listed_in(old_h, k));
                }
            }
        }
    }

    /// Removes hook `id`; it stays listed but no longer fires.
    pub fn unregister(&mut self, id: HookId)
        requires
            old(self).wf(),
        ensures
            final(self).wf(),
            final(self).hooks() == old(self).hooks().remove(id),
            final(self).listed() == old(self).listed(),
            final(self).history() == old(self).history().push(GrassHookEvent::Unregistered(id)),
    {
        let ghost old_h = self.history@;
        let _ = self.hooks.remove(id);
        let ghost h = old_h.push(GrassHookEvent::Unregistered(id));
        self.history = Ghost(h);
        proof {
            assert(h.drop_last() =~= old_h);
            assert(live_hooks(h) == live_hooks(old_h).remove(id));
            assert forall|k: Seq<char>| #[trigger] self.listed_for(k) == listed_in(h, k) by {
                assert(old(self).listed_for(k) == listed_in(old_h, k));
                assert(listed_in(h, k) == listed_in(old_h, k));
            }
        }
    }

    /// The registered hook `id`, if any.
    pub fn hook(&self, id: HookId) -> (r: Option<&H>)
        ensures
            match r {
                Some(h) => self.hooks().contains_key(id) && *h == self.hooks()[id],
                None => !self.hooks().contains_key(id),
            },
    {
        self.hooks.get(id)
    }

    /// The hooks to run, in order, when `trigger` fires. Over the registry's
    /// history: one entry per registration under the trigger's text, in
    /// registration order, of each id that is registered now (a hook
    /// unregistered and registered again fires once per registration).
    pub fn hooks_to_fire(&self, trigger: &GrassHookTrigger) -> (r: Vec<HookId>)
        requires
            self.wf(),
        ensures
            r@ == fire_plan(self.listed_for(trigger_text(*trigger)), self.hooks()),
            r@ == fire_plan(
                listed_in(self.history(), trigger_text(*trigger)),
                live_hooks(self.history()),
            ),
    {
        let key = trigger.debug_text();
        assert(self.listed_for(key@) == listed_in(self.history@, key@));
        let mut r: Vec<HookId> = Vec::new();
        match self.trigger_map.get(key.as_str()) {
            None => {
                proof {
                    reveal(Seq::filter);
                }
                assert(r@ =~= fire_plan(Seq::<HookId>::empty(), self.hooks()));
            },
            Some(ids) => {
                let ghost pred = |id: HookId| self.hooks().contains_key(id);
                let mut i: usize = 0;
                while i < ids.len()
                    invariant
                        i <= ids.len(),
                        pred == (|id: HookId| self.hooks().contains_key(id)),
                        r@ == ids@.take(i as int).filter(pred),
                    decreases ids.len() - i,
                {
                    let id = ids[i];
                    if self.hooks.contains_key(id) {
                        r.push(id);
                    }
                    proof {
                        reveal(Seq::filter);
                        assert(ids@.take(i + 1).drop_last() =~= ids@.take(i as int));
                    }
                    i = i + 1;
                }
                assert(ids@.take(ids.len() as int) =~= ids@);
            },
        }
        r
    }

    /// The registered hook ids, in the order they were first registered.
    pub fn list_hooks(&self) -> (r: Vec<HookId>)
        ensures
            r@ == self.hook_order(),
    {
        self.hooks.keys()
    }
}

/// Whether event `e` registers `id` under trigger text `key`.
pub open spec fn registers<H>(e: GrassHookEvent<H>, id: HookId, key: Seq<char>) -> bool {
    e matches GrassHookEvent::Registered(x, k, _) && x == id && k == key
}

/// Whether event `e` registers `id`, under any trigger text.
pub open spec fn registered_as<H>(e: GrassHookEvent<H>, id: HookId) -> bool {
    e matches GrassHookEvent::Registered(x, _, _) && x == id
}

/// Whether event `e` registers or unregisters `id`.
pub open spec fn concerns<H>(e: GrassHookEvent<H>, id: HookId) -> bool {
    match e {
        GrassHookEvent::Registered(x, _, _) => x == id,
        GrassHookEvent::Unregistered(x) => x == id,
    }
}

proof fn lemma_listed_count<H>(h: Seq<GrassHookEvent<H>>, key: Seq<char>, id: HookId)
    ensures
        listed_in(h, key).filter(|x: HookId| x == id).len() == h.filter(
            |e: GrassHookEvent<H>| registers(e, id, key),
        ).len(),
    decreases h.len(),
{
    reveal(Seq::filter);
    if h.len() > 0 {
        lemma_listed_count(h.drop_last(), key, id);
        let before = listed_in(h.drop_last(), key);
        match h.last() {
            GrassHookEvent::Registered(x, k, _) => {
                if k == key {
                    assert(before.push(x).drop_last() =~= before);
                }
            },
            GrassHookEvent::Unregistered(_) => {},
        }
    }
}

proof fn lemma_filter_count(s: Seq<HookId>, p: spec_fn(HookId) -> bool, id: HookId)
    ensures
        s.filter(p).filter(|x: HookId| x == id).len() == (if p(id) {
            s.filter(|x: HookId| x == id).len()
        } else {
            0
        }),
    decreases s.len(),
{
    reveal(Seq::filter);
    if s.len() > 0 {
        lemma_filter_count(s.drop_last(), p, id);
        let f = s.drop_last().filter(p);
        if p(s.last()) {
            assert(f.push(s.last()).drop_last() =~= f);
        }
    }
}

proof fn lemma_live_hooks<H>(h: Seq<GrassHookEvent<H>>, id: HookId)
    ensures
        live_hooks(h).contains_key(id) <==> exists|i: int|
            0 <= i < h.len() && registered_as(h[i], id) && forall|j: int|
                i < j < h.len() ==> !concerns(#[trigger] h[j], id),
    decreases h.len(),
{
    if h.len() > 0 {
        let t = h.drop_last();
        lemma_live_hooks(t, id);
        let n = h.len() - 1;
        if concerns(h.last(), id) {
            if live_hooks(h).contains_key(id) {
                assert(registered_as(h[n], id));
            } else {
                if exists|i: int|
                    0 <= i < h.len() && registered_as(h[i], id) && forall|j: int|
                        i < j < h.len() ==> !concerns(#[trigger] h[j], id) {
                    let i = choose|i: int|
                        0 <= i < h.len() && registered_as(h[i], id) && forall|j: int|
                            i < j < h.len() ==> !concerns(#[trigger] h[j], id);
                    if i < n {
                        assert(!concerns(h[n], id));
                    }
                }
            }
        } else {
            if live_hooks(h).contains_key(id) {
                let i = choose|i: int|
                    0 <= i < t.len() && registered_as(t[i], id) && forall|j: int|
                        i < j < t.len() ==> !concerns(#[trigger] t[j], id);
                assert(h[i] == t[i]);
                assert forall|j: int| i < j < h.len() implies !concerns(#[trigger] h[j], id) by {
                    if j < n {
                        assert(h[j] == t[j]);
                    }
                }
            } else {
                if exists|i: int|
                    0 <= i < h.len() && registered_as(h[i], id) && forall|j: int|
                        i < j < h.len() ==> !concerns(#[trigger] h[j], id) {
                    let i = choose|i: int|
                        0 <= i < h.len() && registered_as(h[i], id) && forall|j: int|
                            i < j < h.len() ==> !concerns(#[trigger] h[j], id);
                    assert(i < n);
                    assert(t[i] == h[i]);
                    assert forall|j: int| i < j < t.len() implies !concerns(#[trigger] t[j], id) by {
                        assert(t[j] == h[j]);
                    }
                }
            }
        }
    }
}

/// Over a registry's whole history: a hook is registered now exactly when
/// some event registered it and no later event concerns its id; when a
/// trigger with text `key` fires, a hook registered now runs once per
/// registration of its id under `key`, and any other hook does not run.
pub proof fn lemma_fire_over_history<H>(h: Seq<GrassHookEvent<H>>, key: Seq<char>, id: HookId)
    ensures
        live_hooks(h).contains_key(id) <==> exists|i: int|
            0 <= i < h.len() && registered_as(h[i], id) && forall|j: int|
                i < j < h.len() ==> !concerns(#[trigger] h[j], id),
        fire_plan(listed_in(h, key), live_hooks(h)).filter(|x: HookId| x == id).len() == (
        if live_hooks(h).contains_key(id) {
            h.filter(|e: GrassHookEvent<H>| registers(e, id, key)).len()
        } else {
            0
        }),
{
    lemma_live_hooks(h, id);
    lemma_listed_count(h, key, id);
    let m = live_hooks(h);
    lemma_filter_count(listed_in(h, key), |x: HookId| m.contains_key(x), id);
}

/// A hook that was unregistered never fires again, whatever it was listed
/// under.
pub proof fn lemma_unregistered_hook_never_fires<H>(
    listed: Seq<HookId>,
    hooks: Map<HookId, H>,
    id: HookId,
)
    ensures
        !fire_plan(listed, hooks.remove(id)).contains(id),
{
    let pred = |x: HookId| hooks.remove(id).contains_key(x);
    if fire_plan(listed, hooks.remove(id)).contains(id) {
        let k = choose|k: int|
            0 <= k < fire_plan(listed, hooks.remove(id)).len() && fire_plan(
                listed,
                hooks.remove(id),
            )[k] == id;
        listed.lemma_filter_pred(pred, k);
    }
}

/// A hook just registered and still registered fires, last, for its trigger.
pub proof fn lemma_registered_hook_fires<H>(listed: Seq<HookId>, hooks: Map<HookId, H>, id: HookId)
    requires
        hooks.contains_key(id),
    ensures
        fire_plan(listed.push(id), hooks) == fire_plan(listed, hooks).push(id),
{
    reveal(Seq::filter);
    assert(listed.push(id).drop_last() =~= listed);
}

/// The message a hook reports when the payload carries none.
pub open spec fn message_or_default(message: Option<Seq<char>>) -> Seq<char> {
    match message {
        Some(m) => m,
        None => "event occurred"@,
    }
}

fn message_text<'a>(message: Option<&'a str>) -> (r: &'a str)
    ensures
        r@ == message_or_default(
            match message {
                Some(m) => Some(m@),
                None => None,
            },
        ),
{
    match message {
        Some(m) => m,
        None => "event occurred",
    }
}

/// Posts hook events to a Discord webhook.
pub struct GrassDiscordHook {
    pub id: HookId,
    pub webhook_url: String,
}

impl GrassDiscordHook {
    /// A Discord hook posting to `webhook_url`, with a fresh id.
    pub fn new(webhook_url: &str) -> (r: Self)
        ensures
            r.webhook_url@ == webhook_url@,
            is_v4(r.id),
    {
        GrassDiscordHook { id: new_v4_id(), webhook_url: webhook_url.to_owned() }
    }

    /// The hook's name.
    pub fn name(&self) -> (r: &'static str)
        ensures
            r@ == "discord"@,
    {
        "discord"
    }

    /// The trigger the hook is listed under.
    pub fn trigger(&self) -> (r: GrassHookTrigger)
        ensures
            r matches GrassHookTrigger::OnCustom(s) && s@ == "discord"@,
    {
        GrassHookTrigger::OnCustom("discord".to_owned())
    }

    /// The chat message posted for an event with the given trigger and
    /// message text (`None` when the payload has no `message` string).
    pub fn content(&self, trigger: &GrassHookTrigger, message: Option<&str>) -> (r: String)
        ensures
            r@ == "**[grass.ai]** "@ + trigger_text(*trigger) + ": "@ + message_or_default(
                match message {
                    Some(m) => Some(m@),
                    None => None,
                },
            ),
    {
        let t = trigger.debug_text();
        let head = join2(join2("**[grass.ai]** ", t.as_str()).as_str(), ": ");
        join2(head.as_str(), message_text(message))
    }
}

/// The parts of a Slack webhook message.
pub struct GrassSlackMessage {
    pub channel: String,
    pub text: String,
    pub section_text: String,
}

/// Posts hook events to a Slack channel.
pub struct GrassSlackHook {
    pub id: HookId,
    pub webhook_url: String,
    pub channel: String,
}

impl GrassSlackHook {
    /// A Slack hook posting to `channel` through `webhook_url`, with a fresh
    /// id.
    pub fn new(webhook_url: &str, channel: &str) -> (r: Self)
        ensures
            r.webhook_url@ == webhook_url@,
            r.channel@ == channel@,
            is_v4(r.id),
    {
        GrassSlackHook {
            id: new_v4_id(),
            webhook_url: webhook_url.to_owned(),
            channel: channel.to_owned(),
        }
    }

    /// The hook's name.
    pub fn name(&self) -> (r: &'static str)
        ensures
            r@ == "slack"@,
    {
        "slack"
    }

    /// The trigger the hook is listed under.
    pub fn trigger(&self) -> (r: GrassHookTrigger)
        ensures
            r matches GrassHookTrigger::OnCustom(s) && s@ == "slack"@,
    {
        GrassHookTrigger::OnCustom("slack".to_owned())
    }

    /// The message posted for an event with the given trigger and message
    /// text: `[trigger] message`, also shown under a bold heading.
    pub fn format_message(&self, trigger: &GrassHookTrigger, message: Option<&str>) -> (r:
        GrassSlackMessage)
        ensures
            r.channel@ == self.channel@,
            r.text@ == "["@ + trigger_text(*trigger) + "] "@ + message_or_default(
                match message {
                    Some(m) => Some(m@),
                    None => None,
                },
            ),
            r.section_text@ == "*grass.ai hook*\n"@ + r.text@,
    {
        let t = trigger.debug_text();
        let head = join2(join2("[", t.as_str()).as_str(), "] ");
        let text = join2(head.as_str(), message_text(message));
        let section_text = join2("*grass.ai hook*\n", text.as_str());
        GrassSlackMessage { channel: self.channel.clone(), text, section_text }
    }
}

/// The HTTP method a webhook uses.
#[derive(Debug, Clone, Copy, PartialEq, Eq, Structural)]
pub enum GrassHttpMethod {
    Get,
    Post,
    Put,
    Patch,
}

/// Calls an HTTP endpoint with the hook payload.
pub struct GrassWebhookHook {
    pub id: HookId,
    pub url: String,
    pub method: String,
    pub headers: GrassStringMap<String>,
}

/// The method used for a configured method name: `POST`, `PUT` and `PATCH`
/// as named, anything else `GET`.
pub open spec fn method_for(name: Seq<char>) -> GrassHttpMethod {
    if name == "POST"@ {
        GrassHttpMethod::Post
    } else if name == "PUT"@ {
        GrassHttpMethod::Put
    } else if name == "PATCH"@ {
        GrassHttpMethod::Patch
    } else {
        GrassHttpMethod::Get
    }
}

impl GrassWebhookHook {
    /// A webhook calling `url` with `method`, with a fresh id and no extra
    /// headers.
    pub fn new(url: &str, method: &str) -> (r: Self)
        ensures
            is_v4(r.id),
            r.url@ == url@,
            r.method@ == method@,
            r.headers.wf(),
            r.headers@ == Map::<Seq<char>, String>::empty(),
    {
        GrassWebhookHook {
            id: new_v4_id(),
            url: url.to_owned(),
            method: method.to_owned(),
            headers: GrassStringMap::new(),
        }
    }

    /// The webhook with header `key` set to `value`.
    pub fn with_header(self, key: &str, value: &str) -> (r: Self)
        requires
            self.headers.wf(),
        ensures
            r.headers.wf(),
            r.headers@.dom() == self.headers@.dom().insert(key@),
            r.headers@[key@]@ == value@,
            forall|k: Seq<char>| k != key@ && self.headers@.contains_key(k) ==> r.headers@[k]
                == self.headers@[k],
            r.id == self.id && r.url == self.url && r.method == self.method,
    {
        let mut h = self;
        h.headers.insert(key.to_owned(), value.to_owned());
        h
    }

    /// The number of extra headers.
    pub fn header_count(&self) -> (r: usize)
        requires
            self.headers.wf(),
        ensures
            r == self.headers@.dom().len(),
    {
        self.headers.len()
    }

    /// The method to call the endpoint with.
    pub fn http_method(&self) -> (r: GrassHttpMethod)
        ensures
            r == method_for(self.method@),
    {
        let m = self.method.as_str();
        if str_eq(m, "POST") {
            GrassHttpMethod::Post
        } else if str_eq(m, "PUT") {
            GrassHttpMethod::Put
        } else if str_eq(m, "PATCH") {
            GrassHttpMethod::Patch
        } else {
            GrassHttpMethod::Get
        }
    }

    /// The hook's name.
    pub fn name(&self) -> (r: &'static str)
        ensures
            r@ == "webhook"@,
    {
        "webhook"
    }

    /// The trigger the hook is listed under.
    pub fn trigger(&self) -> (r: GrassHookTrigger)
        ensures
            r matches GrassHookTrigger::OnCustom(s) && s@ == "webhook"@,
    {
        GrassHookTrigger::OnCustom("webhook".to_owned())
    }
}


impl<H> Default for GrassHookRegistry<H> {
    /// An empty registry.
    fn default() -> (r: Self)
        ensures
            r.wf(),
            r.hooks() == Map::<HookId, H>::empty(),
    {
        Self::new()
    }
}

/// Hooks are grouped by trigger: each trigger other than a custom one has a
/// key of its own, the variant's name as `Debug` writes it, which no other
/// trigger (custom or not) shares; a custom trigger's key is `OnCustom(`,
/// its text as `Debug` writes a string, and `)`.
pub proof fn lemma_trigger_keys_distinct(t1: GrassHookTrigger, t2: GrassHookTrigger)
    ensures
        trigger_text(GrassHookTrigger::OnAgentStart) == "OnAgentStart"@,
        trigger_text(GrassHookTrigger::OnAgentStop) == "OnAgentStop"@,
        trigger_text(GrassHookTrigger::OnTaskComplete) == "OnTaskComplete"@,
        trigger_text(GrassHookTrigger::OnTaskFailed) == "OnTaskFailed"@,
        trigger_text(GrassHookTrigger::OnMessage) == "OnMessage"@,
        forall|s: String|
            #[trigger] trigger_text(GrassHookTrigger::OnCustom(s)) == "OnCustom("@ + str_debug(s@)
                + ")"@,
        !(t1 is OnCustom) && trigger_text(t1) == trigger_text(t2) ==> t1 == t2,
{
    reveal_strlit("OnAgentStart");
    reveal_strlit("OnAgentStop");
    reveal_strlit("OnTaskComplete");
    reveal_strlit("OnTaskFailed");
    reveal_strlit("OnMessage");
    reveal_strlit("OnCustom(");
    reveal_strlit(")");
    if !(t1 is OnCustom) && trigger_text(t1) == trigger_text(t2) {
        let k1 = trigger_text(t1);
        let k2 = trigger_text(t2);
        assert(k1.len() == k2.len());
        assert(k1[2] == k2[2]);
        if let GrassHookTrigger::OnCustom(s) = t2 {
            assert(k2[2] == ("OnCustom("@ + str_debug(s@) + ")"@)[2]);
            assert(k2[2] == 'C');
        }
    }
}

/// A webhook's configured method name picks its own method: `POST`, `PUT`
/// and `PATCH` each select a different one, exactly those names select
/// them, and any other name means `GET`.
pub proof fn lemma_webhook_methods(name: Seq<char>)
    ensures
        method_for("POST"@) == GrassHttpMethod::Post,
        method_for("PUT"@) == GrassHttpMethod::Put,
        method_for("PATCH"@) == GrassHttpMethod::Patch,
        method_for(name) == GrassHttpMethod::Post <==> name == "POST"@,
        method_for(name) == GrassHttpMethod::Put <==> name == "PUT"@,
        method_for(name) == GrassHttpMethod::Patch <==> name == "PATCH"@,
        method_for(name) == GrassHttpMethod::Get <==> (name != "POST"@ && name != "PUT"@ && name
            != "PATCH"@),
{
    reveal_strlit("POST");
    reveal_strlit("PUT");
    reveal_strlit("PATCH");
    assert("POST"@.len() == 4 && "PUT"@.len() == 3 && "PATCH"@.len() == 5);
    assert("POST"@ != "PUT"@);
    assert("POST"@ != "PATCH"@);
    assert("PUT"@ != "PATCH"@);
}

} // verus!
