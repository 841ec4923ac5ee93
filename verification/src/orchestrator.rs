//! Orchestration state: task dependency graphs, crews of agents and task
//! bookkeeping.
use vstd::prelude::*;
use crate::error::GrassError;
use crate::error_table::{texts, clone_strings};
use crate::id_map::GrassIdMap;
use crate::ids::{AgentId, TaskId, uuid_string, uuid_text};
use crate::text::join2;
use crate::text_map::{GrassStringMap, lemma_keys_distinct};
use crate::types::{GrassAgentMetadata, GrassTaskPayload, GrassTaskResult, GrassTaskStatus};

verus! {

/// How a node's work is carried out.
#[derive(Debug, Clone, Copy, PartialEq, Eq, Structural, Hash)]
pub enum GrassTaskType {
    Sequential,
    Parallel,
    Conditional,
    Loop,
}

/// A task in a dependency graph.
pub struct GrassTaskNode {
    pub id: String,
    pub task: GrassTaskPayload,
    pub task_type: GrassTaskType,
    pub status: GrassTaskStatus,
}

/// Whether a node can run: it is pending and has no recorded dependency.
pub open spec fn is_ready(n: GrassTaskNode, deps: Map<Seq<char>, Vec<String>>) -> bool {
    n.status == GrassTaskStatus::Pending && !deps.contains_key(n.id@)
}

/// Tasks and the dependencies between them. A node depends on every node
/// recorded by an edge into it.
pub struct GrassTaskGraph {
    nodes: GrassStringMap<GrassTaskNode>,
    edges: GrassStringMap<Vec<String>>,
}

impl GrassTaskGraph {
    /// The nodes by id.
    pub closed spec fn nodes(&self) -> Map<Seq<char>, GrassTaskNode> {
        self.nodes@
    }

    /// Node ids in the order they were first added.
    pub closed spec fn node_order(&self) -> Seq<Seq<char>> {
        self.nodes.key_order()
    }

    /// For each node with dependencies, the ids it depends on, in the order
    /// the edges were added.
    pub closed spec fn edges(&self) -> Map<Seq<char>, Vec<String>> {
        self.edges@
    }

    /// The nodes in the order their ids were first added.
    pub open spec fn node_seq(&self) -> Seq<GrassTaskNode> {
        self.node_order().map_values(|k: Seq<char>| self.nodes()[k])
    }

    /// The nodes that can run, in the order their ids were first added.
    pub open spec fn ready_seq(&self) -> Seq<GrassTaskNode> {
        self.node_seq().filter(|n: GrassTaskNode| is_ready(n, self.edges()))
    }

    pub closed spec fn wf(&self) -> bool {
        &&& self.nodes.wf()
        &&& self.edges.wf()
        &&& forall|k: Seq<char>| #[trigger] self.nodes@.contains_key(k) ==> self.nodes@[k].id@ == k
        &&& forall|k: Seq<char>| self.nodes@.contains_key(k) <==> self.nodes.key_order().contains(k)
    }

    /// An empty graph.
    pub fn new() -> (r: Self)
        ensures
            r.wf(),
            r.nodes() == Map::<Seq<char>, GrassTaskNode>::empty(),
            r.node_order() == Seq::<Seq<char>>::empty(),
            r.edges() == Map::<Seq<char>, Vec<String>>::empty(),
    {
        let r = GrassTaskGraph { nodes: GrassStringMap::new(), edges: GrassStringMap::new() };
        proof {
            r.nodes.lemma_keys();
        }
        r
    }

    /// Adds `node` under its id, replacing a node with the same id.
    pub fn add_node(&mut self, node: GrassTaskNode)
        requires
            old(self).wf(),
        ensures
            final(self).wf(),
            final(self).nodes() == old(self).nodes().insert(node.id@, node),
            final(self).edges() == old(self).edges(),
            old(self).nodes().contains_key(node.id@) ==> final(self).node_order() == old(
                self,
            ).node_order(),
            !old(self).nodes().contains_key(node.id@) ==> final(self).node_order() == old(
                self,
            ).node_order().push(node.id@),
    {
        let id = node.id.clone();
        self.nodes.insert(id, node);
        proof {
            self.nodes.lemma_keys();
        }
    }

    /// Records that `to` depends on `from`.
    pub fn add_edge(&mut self, from: &str, to: &str)
        requires
            old(self).wf(),
        ensures
            final(self).wf(),
            final(self).nodes() == old(self).nodes(),
            final(self).node_order() == old(self).node_order(),
            final(self).edges().dom() == old(self).edges().dom().insert(to@),
            texts(final(self).edges()[to@]@) == (if old(self).edges().contains_key(to@) {
                texts(old(self).edges()[to@]@)
            } else {
                Seq::empty()
            }).push(from@),
            forall|k: Seq<char>|
                k != to@ && old(self).edges().contains_key(k) ==> final(self).edges()[k] == old(
                    self,
                ).edges()[k],
    {
        let f = from.to_owned();
        match self.edges.get_mut(to) {
            Some(v) => {
                let ghost before = *v;
                v.push(f);
                assert(texts(v@) =~= texts(before@).push(from@));
            },
            None => {
                let mut v: Vec<String> = Vec::new();
                v.push(f);
                assert(texts(v@) =~= Seq::<Seq<char>>::empty().push(from@));
                self.edges.insert(to.to_owned(), v);
            },
        }
    }

    /// The node with the given id, if any.
    pub fn get_node(&self, id: &str) -> (r: Option<&GrassTaskNode>)
        ensures
            match r {
                Some(n) => self.nodes().contains_key(id@) && *n == self.nodes()[id@],
                None => !self.nodes().contains_key(id@),
            },
    {
        self.nodes.get(id)
    }

    /// The ids that node `id` depends on, in the order the edges were
    /// added; empty when none was recorded.
    pub fn dependencies(&self, id: &str) -> (r: Vec<String>)
        ensures
            texts(r@) == (if self.edges().contains_key(id@) {
                texts(self.edges()[id@]@)
            } else {
                Seq::empty()
            }),
    {
        match self.edges.get(id) {
            Some(v) => clone_strings(v),
            None => {
                let r: Vec<String> = Vec::new();
                assert(texts(r@) =~= Seq::<Seq<char>>::empty());
                r
            },
        }
    }

    /// The nodes that can run: pending ones with no recorded dependency, in
    /// the order their ids were first added.
    pub fn ready_nodes(&self) -> (r: Vec<&GrassTaskNode>)
        requires
            self.wf(),
        ensures
            r@.map_values(|n: &GrassTaskNode| *n) == self.ready_seq(),
    {
        let all = self.nodes.values();
        let ghost pred = |n: GrassTaskNode| is_ready(n, self.edges());
        let ghost ns = self.node_seq();
        let mut r: Vec<&GrassTaskNode> = Vec::new();
        let mut i: usize = 0;
        while i < all.len()
            invariant
                i <= all.len(),
                all@.len() == ns.len(),
                ns == self.node_seq(),
                forall|j: int| 0 <= j < all@.len() ==> *all@[j] == ns[j],
                pred == (|n: GrassTaskNode| is_ready(n, self.edges())),
                r@.map_values(|n: &GrassTaskNode| *n) == ns.take(i as int).filter(pred),
            decreases all.len() - i,
        {
            let n = all[i];
            let ghost before = r@;
            let ready = match n.status {
                GrassTaskStatus::Pending => !self.edges.contains_key(n.id.as_str()),
                _ => false,
            };
            if ready {
                r.push(n);
            }
            proof {
                reveal(Seq::filter);
                assert(ns.take(i + 1).drop_last() =~= ns.take(i as int));
                assert(ns.take(i + 1).last() == *n);
                if pred(*n) {
                    assert(r@.map_values(|n: &GrassTaskNode| *n) =~= before.map_values(
                        |n: &GrassTaskNode| *n,
                    ).push(*n));
                } else {
                    assert(r@ =~= before);
                }
            }
            i = i + 1;
        }
        assert(ns.take(all.len() as int) =~= ns);
        r
    }
}

/// A node with a recorded dependency is never ready; in particular, when
/// every node depends on another (as around a cycle), no node is ready.
pub proof fn lemma_dependent_nodes_never_ready(g: GrassTaskGraph)
    ensures
        forall|i: int|
            0 <= i < g.ready_seq().len() ==> !g.edges().contains_key(
                #[trigger] g.ready_seq()[i].id@,
            ) && g.ready_seq()[i].status == GrassTaskStatus::Pending,
        (forall|i: int|
            0 <= i < g.node_seq().len() ==> g.edges().contains_key(#[trigger] g.node_seq()[i].id@))
            ==> g.ready_seq().len() == 0,
{
    let pred = |n: GrassTaskNode| is_ready(n, g.edges());
    broadcast use Seq::lemma_filter_pred;

    assert forall|i: int| 0 <= i < g.ready_seq().len() implies pred(#[trigger] g.ready_seq()[i]) by {
        g.node_seq().lemma_filter_pred(pred, i);
    }
    if forall|i: int|
        0 <= i < g.node_seq().len() ==> g.edges().contains_key(#[trigger] g.node_seq()[i].id@) {
        if g.ready_seq().len() > 0 {
            assert(pred(g.ready_seq()[0]));
            g.node_seq().lemma_filter_contains_rev(pred, g.ready_seq()[0]);
            assert(g.ready_seq().contains(g.ready_seq()[0]));
            let j = choose|j: int| 0 <= j < g.node_seq().len() && g.node_seq()[j] == g.ready_seq()[0];
            assert(g.edges().contains_key(g.node_seq()[j].id@));
        }
    }
}

/// No two nodes of `s` share an id.
pub open spec fn distinct_ids(s: Seq<GrassTaskNode>) -> bool {
    forall|i: int, j: int|
        0 <= i < s.len() && 0 <= j < s.len() && i != j ==> #[trigger] s[i].id@ != #[trigger] s[j].id@
}

proof fn lemma_filter_distinct_ids(s: Seq<GrassTaskNode>, p: spec_fn(GrassTaskNode) -> bool)
    requires
        distinct_ids(s),
    ensures
        distinct_ids(s.filter(p)),
    decreases s.len(),
{
    reveal(Seq::filter);
    if s.len() > 0 {
        let t = s.drop_last();
        let y = s.last();
        assert forall|i: int, j: int|
            0 <= i < t.len() && 0 <= j < t.len() && i != j implies #[trigger] t[i].id@
            != #[trigger] t[j].id@ by {
            assert(t[i] == s[i] && t[j] == s[j]);
        }
        lemma_filter_distinct_ids(t, p);
        if p(y) {
            let f = t.filter(p);
            let g = f.push(y);
            assert forall|i: int| 0 <= i < f.len() implies #[trigger] f[i].id@ != y.id@ by {
                assert(f.contains(f[i]));
                t.lemma_filter_contains_rev(p, f[i]);
                let k = choose|k: int| 0 <= k < t.len() && t[k] == f[i];
                assert(s[k] == f[i]);
                assert(s[s.len() - 1] == y);
            }
            assert forall|i: int, j: int|
                0 <= i < g.len() && 0 <= j < g.len() && i != j implies #[trigger] g[i].id@
                != #[trigger] g[j].id@ by {
                if i == f.len() {
                    assert(f[j].id@ != y.id@);
                } else if j == f.len() {
                    assert(f[i].id@ != y.id@);
                } else {
                    assert(g[i] == f[i] && g[j] == f[j]);
                }
            }
            assert(s.filter(p) == g);
        } else {
            assert(s.filter(p) == t.filter(p));
        }
    }
}

/// A graph's node order lists every stored node's id exactly once and no
/// other id; the node listed at each position is the one stored under its
/// id.
pub proof fn lemma_node_order(g: GrassTaskGraph)
    requires
        g.wf(),
    ensures
        g.node_order().no_duplicates(),
        forall|k: Seq<char>| #[trigger] g.node_order().contains(k) <==> g.nodes().contains_key(k),
        g.node_order().len() == g.nodes().dom().len(),
        g.node_seq().len() == g.node_order().len(),
        forall|i: int|
            0 <= i < g.node_seq().len() ==> #[trigger] g.node_seq()[i] == g.nodes()[g.node_order()[i]]
                && g.node_seq()[i].id@ == g.node_order()[i],
{
    let ks = g.node_order();
    g.nodes.lemma_keys();
    assert forall|i: int, j: int| 0 <= i < ks.len() && 0 <= j < ks.len() && i != j implies ks[i]
        != ks[j] by {
        lemma_keys_distinct(&g.nodes, i, j);
    }
    assert forall|i: int| 0 <= i < g.node_seq().len() implies #[trigger] g.node_seq()[i]
        == g.nodes()[ks[i]] && g.node_seq()[i].id@ == ks[i] by {
        assert(ks.contains(ks[i]));
    }
}

/// The nodes of `nodes` that can run given the recorded dependencies.
pub open spec fn ready_nodes_of(
    nodes: Map<Seq<char>, GrassTaskNode>,
    deps: Map<Seq<char>, Vec<String>>,
) -> Set<GrassTaskNode> {
    Set::new(
        |n: GrassTaskNode| nodes.contains_key(n.id@) && nodes[n.id@] == n && is_ready(n, deps),
    )
}

/// What `ready_nodes` lists is a permutation of the stored nodes that are
/// pending and have no recorded dependency: each of them exactly once (no
/// two listed nodes share an id), and no other node.
pub proof fn lemma_ready_nodes_exact(g: GrassTaskGraph)
    requires
        g.wf(),
    ensures
        distinct_ids(g.ready_seq()),
        forall|n: GrassTaskNode| #[trigger]
            g.ready_seq().contains(n) <==> (g.nodes().contains_key(n.id@) && g.nodes()[n.id@] == n
                && is_ready(n, g.edges())),
        g.ready_seq().no_duplicates(),
        g.ready_seq().to_set() == ready_nodes_of(g.nodes(), g.edges()),
        g.ready_seq().len() == ready_nodes_of(g.nodes(), g.edges()).len(),
{
    let ns = g.node_seq();
    let ks = g.node_order();
    let pred = |n: GrassTaskNode| is_ready(n, g.edges());
    assert(g.ready_seq() == ns.filter(pred));
    assert forall|i: int| 0 <= i < ns.len() implies #[trigger] ns[i].id@ == ks[i]
        && g.nodes().contains_key(ks[i]) by {
        assert(ks.contains(ks[i]));
    }
    assert forall|i: int, j: int|
        0 <= i < ns.len() && 0 <= j < ns.len() && i != j implies #[trigger] ns[i].id@
        != #[trigger] ns[j].id@ by {
        lemma_keys_distinct(&g.nodes, i, j);
    }
    lemma_filter_distinct_ids(ns, pred);
    assert forall|n: GrassTaskNode| #[trigger]
        g.ready_seq().contains(n) <==> (g.nodes().contains_key(n.id@) && g.nodes()[n.id@] == n
            && is_ready(n, g.edges())) by {
        if g.ready_seq().contains(n) {
            ns.lemma_filter_contains_rev(pred, n);
            let i = choose|i: int| 0 <= i < ns.len() && ns[i] == n;
            assert(ns[i].id@ == ks[i]);
            let j = choose|j: int| 0 <= j < g.ready_seq().len() && g.ready_seq()[j] == n;
            ns.lemma_filter_pred(pred, j);
        }
        if g.nodes().contains_key(n.id@) && g.nodes()[n.id@] == n && is_ready(n, g.edges()) {
            assert(ks.contains(n.id@));
            let i = choose|i: int| 0 <= i < ks.len() && ks[i] == n.id@;
            assert(ns[i] == n);
            ns.lemma_filter_contains(pred, i);
        }
    }
    let rs = g.ready_seq();
    assert forall|a: int, b: int| 0 <= a < rs.len() && 0 <= b < rs.len() && a != b implies rs[a]
        != rs[b] by {
        assert(rs[a].id@ != rs[b].id@);
    }
    assert(rs.to_set() =~= ready_nodes_of(g.nodes(), g.edges()));
    rs.unique_seq_to_set();
}

/// A copy of a list of identifiers.
pub fn copy_ids(v: &Vec<u128>) -> (r: Vec<u128>)
    ensures
        r@ == v@,
{
    let mut r: Vec<u128> = Vec::new();
    let mut i: usize = 0;
    while i < v.len()
        invariant
            i <= v.len(),
            r@ == v@.take(i as int),
        decreases v.len() - i,
    {
        r.push(v[i]);
        i = i + 1;
        assert(r@ =~= v@.take(i as int));
    }
    assert(v@.take(v.len() as int) =~= v@);
    r
}

/// The message of the error for assigning work to an unknown agent.
pub open spec fn unknown_agent_message(id: AgentId) -> Seq<char> {
    "agent "@ + uuid_text(id) + " not found"@
}

/// A crew of agents and the agents assigned to each named task.
pub struct GrassCrewManager {
    agents: GrassIdMap<GrassAgentMetadata>,
    assignments: GrassStringMap<Vec<AgentId>>,
}

impl GrassCrewManager {
    /// The crew's agents by id.
    pub closed spec fn agents(&self) -> Map<AgentId, GrassAgentMetadata> {
        self.agents@
    }

    /// Agent ids in the order they joined.
    pub closed spec fn agent_order(&self) -> Seq<AgentId> {
        self.agents.key_order()
    }

    /// For each task name with assignments, the agents assigned, in order.
    pub closed spec fn assignments(&self) -> Map<Seq<char>, Vec<AgentId>> {
        self.assignments@
    }

    pub closed spec fn wf(&self) -> bool {
        self.agents.wf() && self.assignments.wf()
    }

    /// An empty crew.
    pub fn new() -> (r: Self)
        ensures
            r.wf(),
            r.agents() == Map::<AgentId, GrassAgentMetadata>::empty(),
            r.agent_order() == Seq::<AgentId>::empty(),
            r.assignments() == Map::<Seq<char>, Vec<AgentId>>::empty(),
    {
        GrassCrewManager { agents: GrassIdMap::new(), assignments: GrassStringMap::new() }
    }

    /// Adds `agent` under its id, replacing an agent with the same id.
    pub fn add_agent(&mut self, agent: GrassAgentMetadata)
        requires
            old(self).wf(),
        ensures
            final(self).wf(),
            final(self).agents() == old(self).agents().insert(agent.id, agent),
            final(self).assignments() == old(self).assignments(),
    {
        self.agents.insert(agent.id, agent);
    }

    /// Removes the agent with id `id`; its assignments stay recorded.
    pub fn remove_agent(&mut self, id: AgentId)
        requires
            old(self).wf(),
        ensures
            final(self).wf(),
            final(self).agents() == old(self).agents().remove(id),
            final(self).assignments() == old(self).assignments(),
    {
        let _ = self.agents.remove(id);
    }

    /// Assigns the agent `agent_id` to the task `task_name`; refused when no
    /// such agent is in the crew.
    pub fn assign_task(&mut self, task_name: &str, agent_id: AgentId) -> (r: Result<(), GrassError>)
        requires
            old(self).wf(),
        ensures
            final(self).wf(),
            final(self).agents() == old(self).agents(),
            !old(self).agents().contains_key(agent_id) ==> final(self).assignments() == old(
                self,
            ).assignments() && (r matches Err(GrassError::Agent(m)) && m@ == unknown_agent_message(
                agent_id,
            )),
            old(self).agents().contains_key(agent_id) ==> r is Ok && final(self).assignments()
                == old(self).assignments().insert(
                task_name@,
                final(self).assignments()[task_name@],
            ) && final(self).assignments()[task_name@]@ == (if old(
                self,
            ).assignments().contains_key(task_name@) {
                old(self).assignments()[task_name@]@
            } else {
                Seq::empty()
            }).push(agent_id),
    {
        if !self.agents.contains_key(agent_id) {
            let id_text = uuid_string(agent_id);
            let m = join2(join2("agent ", id_text.as_str()).as_str(), " not found");
            return Err(GrassError::Agent(m));
        }
        match self.assignments.get_mut(task_name) {
            Some(v) => {
                v.push(agent_id);
            },
            None => {
                let mut v: Vec<AgentId> = Vec::new();
                v.push(agent_id);
                self.assignments.insert(task_name.to_owned(), v);
            },
        }
        Ok(())
    }

    /// The agents assigned to `task_name`, in assignment order.
    pub fn agents_for_task(&self, task_name: &str) -> (r: Vec<AgentId>)
        ensures
            r@ == (if self.assignments().contains_key(task_name@) {
                self.assignments()[task_name@]@
            } else {
                Seq::empty()
            }),
    {
        match self.assignments.get(task_name) {
            Some(v) => copy_ids(v),
            None => Vec::new(),
        }
    }

    /// The crew's agents, in the order they joined.
    pub fn list_agents(&self) -> (r: Vec<&GrassAgentMetadata>)
        requires
            self.wf(),
        ensures
            r@.len() == self.agent_order().len(),
            forall|i: int| 0 <= i < r@.len() ==> *r@[i] == self.agents()[self.agent_order()[i]],
    {
        self.agents.values()
    }
}

/// The sum of a sequence of counts.
pub open spec fn seq_sum(s: Seq<nat>) -> nat
    decreases s.len(),
{
    if s.len() == 0 {
        0
    } else {
        seq_sum(s.drop_last()) + s.last()
    }
}

pub proof fn lemma_seq_sum_prefix(s: Seq<nat>, i: int)
    requires
        0 <= i <= s.len(),
    ensures
        seq_sum(s.take(i)) <= seq_sum(s),
    decreases s.len() - i,
{
    if i < s.len() {
        lemma_seq_sum_prefix(s, i + 1);
        assert(s.take(i + 1).drop_last() =~= s.take(i));
    } else {
        assert(s.take(i) =~= s);
    }
}

pub proof fn lemma_seq_sum_update(s: Seq<nat>, i: int, v: nat)
    requires
        0 <= i < s.len(),
    ensures
        seq_sum(s.update(i, v)) + s[i] == seq_sum(s) + v,
    decreases s.len(),
{
    if i == s.len() - 1 {
        assert(s.update(i, v).drop_last() =~= s.drop_last());
    } else {
        lemma_seq_sum_update(s.drop_last(), i, v);
        assert(s.update(i, v).drop_last() =~= s.drop_last().update(i, v));
    }
}

/// Finished task results and the tasks waiting, queued by action.
pub struct GrassTaskManager {
    tasks: GrassIdMap<GrassTaskResult>,
    queues: GrassStringMap<Vec<GrassTaskPayload>>,
}

impl GrassTaskManager {
    /// The finished results by task id.
    pub closed spec fn results(&self) -> Map<TaskId, GrassTaskResult> {
        self.tasks@
    }

    /// For each action, the tasks created for it, in creation order.
    pub closed spec fn queues(&self) -> Map<Seq<char>, Vec<GrassTaskPayload>> {
        self.queues@
    }

    /// Actions in the order their first task was created.
    pub closed spec fn action_order(&self) -> Seq<Seq<char>> {
        self.queues.key_order()
    }

    /// How many tasks are queued under each action, in action order.
    pub open spec fn queue_sizes(&self) -> Seq<nat> {
        self.action_order().map_values(|a: Seq<char>| self.queues()[a]@.len())
    }

    /// The number of created tasks, over all actions.
    pub open spec fn pending_total(&self) -> nat {
        seq_sum(self.queue_sizes())
    }

    pub closed spec fn wf(&self) -> bool {
        &&& self.tasks.wf()
        &&& self.queues.wf()
        &&& forall|k: Seq<char>| self.queues@.contains_key(k) <==> self.queues.key_order().contains(
            k,
        )
    }

    /// A manager with no tasks.
    pub fn new() -> (r: Self)
        ensures
            r.wf(),
            r.results() == Map::<TaskId, GrassTaskResult>::empty(),
            r.queues() == Map::<Seq<char>, Vec<GrassTaskPayload>>::empty(),
            r.pending_total() == 0,
    {
        let r = GrassTaskManager { tasks: GrassIdMap::new(), queues: GrassStringMap::new() };
        proof {
            r.queues.lemma_keys();
            assert(r.queue_sizes() =~= Seq::<nat>::empty());
        }
        r
    }

    /// Queues `task` under its action; the pending total grows by one.
    pub fn create_task(&mut self, task: GrassTaskPayload)
        requires
            old(self).wf(),
        ensures
            final(self).wf(),
            final(self).results() == old(self).results(),
            final(self).pending_total() == old(self).pending_total() + 1,
            final(self).queues()[task.action@]@ == (if old(self).queues().contains_key(
                task.action@,
            ) {
                old(self).queues()[task.action@]@
            } else {
                Seq::empty()
            }).push(task),
            forall|k: Seq<char>|
                k != task.action@ ==> (#[trigger] final(self).queues().contains_key(k)
                    == old(self).queues().contains_key(k)) && (old(self).queues().contains_key(k)
                    ==> final(self).queues()[k] == old(self).queues()[k]),
    {
        let action = task.action.clone();
        let ghost t = task;
        let ghost old_sizes = self.queue_sizes();
        let ghost old_keys = self.queues.key_order();
        proof {
            self.queues.lemma_keys();
        }
        match self.queues.get_mut(action.as_str()) {
            Some(v) => {
                v.push(task);
            },
            None => {
                let mut v: Vec<GrassTaskPayload> = Vec::new();
                v.push(task);
                self.queues.insert(action, v);
            },
        }
        proof {
            self.queues.lemma_keys();
            let keys = self.queues.key_order();
            if old_keys.contains(t.action@) {
                let i = choose|i: int| 0 <= i < old_keys.len() && old_keys[i] == t.action@;
                assert(keys == old_keys);
                assert(self.queue_sizes() =~= old_sizes.update(i, old_sizes[i] + 1)) by {
                    assert forall|j: int| 0 <= j < keys.len() && j != i implies keys[j]
                        != t.action@ by {
                        crate::text_map::lemma_keys_distinct(&self.queues, i, j);
                    }
                }
                lemma_seq_sum_update(old_sizes, i, old_sizes[i] + 1);
            } else {
                assert(keys == old_keys.push(t.action@));
                assert(self.queue_sizes() =~= old_sizes.push(1));
                assert(self.queue_sizes().drop_last() =~= old_sizes);
            }
        }
    }

    /// Records `result` under its task id, replacing an earlier result.
    pub fn complete_task(&mut self, result: GrassTaskResult)
        requires
            old(self).wf(),
        ensures
            final(self).wf(),
            final(self).results() == old(self).results().insert(result.task_id, result),
            final(self).queues() == old(self).queues(),
            final(self).pending_total() == old(self).pending_total(),
    {
        self.tasks.insert(result.task_id, result);
    }

    /// The result recorded for `task_id`, if any.
    pub fn get_result(&self, task_id: TaskId) -> (r: Option<&GrassTaskResult>)
        ensures
            match r {
                Some(v) => self.results().contains_key(task_id) && *v == self.results()[task_id],
                None => !self.results().contains_key(task_id),
            },
    {
        self.tasks.get(task_id)
    }

    /// The number of created tasks, over all actions.
    pub fn pending_count(&self) -> (r: usize)
        requires
            self.wf(),
            self.pending_total() <= usize::MAX,
        ensures
            r == self.pending_total(),
    {
        let qs = self.queues.values();
        let ghost sizes = self.queue_sizes();
        let mut total: usize = 0;
        let mut i: usize = 0;
        while i < qs.len()
            invariant
                i <= qs.len(),
                qs@.len() == sizes.len(),
                sizes == self.queue_sizes(),
                forall|j: int| 0 <= j < qs@.len() ==> qs@[j]@.len() == sizes[j],
                total == seq_sum(sizes.take(i as int)),
                seq_sum(sizes) <= usize::MAX,
            decreases qs.len() - i,
        {
            proof {
                lemma_seq_sum_prefix(sizes, i + 1);
                assert(sizes.take(i + 1).drop_last() =~= sizes.take(i as int));
            }
            total = total + qs[i].len();
            i = i + 1;
        }
        assert(sizes.take(qs.len() as int) =~= sizes);
        total
    }

    /// The number of task ids with a recorded result.
    pub fn completed_count(&self) -> (r: usize)
        requires
            self.wf(),
        ensures
            r == self.results().dom().len(),
    {
        self.tasks.len()
    }
}


impl Default for GrassTaskGraph {
    /// An empty graph.
    fn default() -> (r: Self)
        ensures
            r.wf(),
            r.nodes() == Map::<Seq<char>, GrassTaskNode>::empty(),
            r.edges() == Map::<Seq<char>, Vec<String>>::empty(),
    {
        Self::new()
    }
}

impl Default for GrassCrewManager {
    /// A crew with no agents.
    fn default() -> (r: Self)
        ensures
            r.wf(),
            r.agents() == Map::<AgentId, GrassAgentMetadata>::empty(),
            r.assignments() == Map::<Seq<char>, Vec<AgentId>>::empty(),
    {
        Self::new()
    }
}

impl Default for GrassTaskManager {
    /// A manager with no tasks.
    fn default() -> (r: Self)
        ensures
            r.wf(),
            r.results() == Map::<TaskId, GrassTaskResult>::empty(),
            r.pending_total() == 0,
    {
        Self::new()
    }
}

} // verus!
