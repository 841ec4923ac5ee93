//! A priority task queue that bounds how many tasks run at once.
use vstd::prelude::*;
use crate::types::GrassTaskPayload;
use crate::error::GrassError;

verus! {

/// How urgent a task is, from lowest to highest.
#[derive(Debug, Clone, Copy, PartialEq, Eq, Structural, PartialOrd, Ord, Hash)]
pub enum GrassPriority {
    Low,
    Normal,
    High,
    Critical,
}

/// The place of a priority in the order Low < Normal < High < Critical.
pub open spec fn rank(p: GrassPriority) -> int {
    match p {
        GrassPriority::Low => 0,
        GrassPriority::Normal => 1,
        GrassPriority::High => 2,
        GrassPriority::Critical => 3,
    }
}

/// The rank of a priority (0 for `Low` up to 3 for `Critical`).
pub fn priority_rank(p: GrassPriority) -> (r: u8)
    ensures
        r == rank(p),
{
    match p {
        GrassPriority::Low => 0,
        GrassPriority::Normal => 1,
        GrassPriority::High => 2,
        GrassPriority::Critical => 3,
    }
}

/// A task waiting to be scheduled, with its priority.
pub struct GrassScheduledTask {
    pub task: GrassTaskPayload,
    pub priority: GrassPriority,
}

impl GrassScheduledTask {
    /// Pairs `task` with `priority`.
    pub fn new(task: GrassTaskPayload, priority: GrassPriority) -> (r: Self)
        ensures
            r.task == task,
            r.priority == priority,
    {
        GrassScheduledTask { task, priority }
    }
}

/// Priorities never rise along the queue.
pub open spec fn by_priority(q: Seq<GrassScheduledTask>) -> bool {
    forall|i: int, j: int| 0 <= i < j < q.len() ==> rank(q[i].priority) >= rank(q[j].priority)
}

/// Where a task of rank `r` joins the queue: before the first queued task
/// of lower priority, after all the others.
pub open spec fn enqueue_position(q: Seq<GrassScheduledTask>, r: int) -> int
    decreases q.len(),
{
    if q.len() == 0 {
        0
    } else if rank(q[0].priority) < r {
        0
    } else {
        1 + enqueue_position(q.drop_first(), r)
    }
}

/// The tasks of `ts` that have rank `k`, in their order in `ts`.
pub open spec fn of_rank(ts: Seq<GrassScheduledTask>, k: int) -> Seq<GrassScheduledTask> {
    ts.filter(|t: GrassScheduledTask| rank(t.priority) == k)
}

/// `ts` grouped by priority, highest first, each group in its order in `ts`.
pub open spec fn grouped(ts: Seq<GrassScheduledTask>) -> Seq<GrassScheduledTask> {
    of_rank(ts, 3) + of_rank(ts, 2) + of_rank(ts, 1) + of_rank(ts, 0)
}

pub proof fn lemma_enqueue_position_at(q: Seq<GrassScheduledTask>, r: int, p: int)
    requires
        0 <= p <= q.len(),
        forall|k: int| 0 <= k < p ==> rank(q[k].priority) >= r,
        p < q.len() ==> rank(q[p].priority) < r,
    ensures
        enqueue_position(q, r) == p,
    decreases q.len(),
{
    if q.len() > 0 && p > 0 {
        lemma_enqueue_position_at(q.drop_first(), r, p - 1);
    }
}

/// Admits queued tasks in priority order while at most `max_concurrent` of
/// them are active.
pub struct GrassTaskScheduler {
    queue: Vec<GrassScheduledTask>,
    max_concurrent: usize,
    active: usize,
}

impl GrassTaskScheduler {
    /// The waiting tasks, in the order they will be dispatched.
    pub closed spec fn queued(&self) -> Seq<GrassScheduledTask> {
        self.queue@
    }

    /// How many dispatched tasks have not completed.
    pub closed spec fn active(&self) -> nat {
        self.active as nat
    }

    /// The most tasks that may be active at once.
    pub closed spec fn limit(&self) -> nat {
        self.max_concurrent as nat
    }

    /// The queue is in priority order and the active count within the limit.
    pub open spec fn wf(&self) -> bool {
        by_priority(self.queued()) && (self.active() <= self.limit() || self.limit() == 0
            && self.active() == 0)
    }

    /// An empty scheduler allowing `max_concurrent` active tasks.
    pub fn new(max_concurrent: usize) -> (r: Self)
        ensures
            r.wf(),
            r.queued() == Seq::<GrassScheduledTask>::empty(),
            r.active() == 0,
            r.limit() == max_concurrent,
    {
        GrassTaskScheduler { queue: Vec::new(), max_concurrent, active: 0 }
    }

    /// Queues `task` behind every waiting task of equal or higher priority;
    /// this always succeeds.
    pub fn enqueue(&mut self, task: GrassScheduledTask) -> (r: Result<(), GrassError>)
        requires
            old(self).wf(),
        ensures
            r is Ok,
            final(self).wf(),
            final(self).queued() == old(self).queued().insert(
                enqueue_position(old(self).queued(), rank(task.priority)),
                task,
            ),
            final(self).active() == old(self).active(),
            final(self).limit() == old(self).limit(),
    {
        let r = priority_rank(task.priority);
        let mut p: usize = 0;
        while p < self.queue.len() && priority_rank(self.queue[p].priority) >= r
            invariant
                p <= self.queue.len(),
                forall|k: int| 0 <= k < p ==> rank(self.queue@[k].priority) >= r,
            decreases self.queue.len() - p,
        {
            p = p + 1;
        }
        proof {
            lemma_enqueue_position_at(self.queue@, r as int, p as int);
        }
        let ghost q = self.queue@;
        let ghost t = task;
        self.queue.insert(p, task);
        proof {
            let n = self.queue@;
            assert(n =~= q.insert(p as int, t));
            assert forall|i: int, j: int| 0 <= i < j < n.len() implies rank(n[i].priority) >= rank(
                n[j].priority,
            ) by {
                if i < p && j == p {
                } else if i == p && j > p {
                    assert(n[j] == q[j - 1]);
                    assert(rank(q[p as int].priority) >= rank(q[j - 1].priority));
                } else if i < p && j > p {
                    assert(n[j] == q[j - 1]);
                } else if j < p {
                } else {
                    assert(n[i] == q[i - 1]);
                    assert(n[j] == q[j - 1]);
                }
            }
        }
        Ok(())
    }

    /// Hands out the next task, the first in the queue, unless the queue is
    /// empty or the active tasks have reached the limit; a handed-out task
    /// counts as active.
    pub fn dequeue(&mut self) -> (r: Option<GrassScheduledTask>)
        requires
            old(self).wf(),
        ensures
            final(self).wf(),
            final(self).limit() == old(self).limit(),
            old(self).active() >= old(self).limit() || old(self).queued().len() == 0 ==> r is None
                && final(self).queued() == old(self).queued() && final(self).active() == old(
                self,
            ).active(),
            old(self).active() < old(self).limit() && old(self).queued().len() > 0 ==> r == Some(
                old(self).queued()[0],
            ) && final(self).queued() == old(self).queued().drop_first() && final(self).active()
                == old(self).active() + 1,
    {
        if self.active >= self.max_concurrent {
            return None;
        }
        if self.queue.len() == 0 {
            return None;
        }
        let ghost q = self.queue@;
        let t = self.queue.remove(0);
        assert(self.queue@ =~= q.drop_first());
        self.active = self.active + 1;
        Some(t)
    }

    /// Records that an active task finished; nothing happens when none is
    /// active.
    pub fn complete_task(&mut self)
        requires
            old(self).wf(),
        ensures
            final(self).wf(),
            final(self).queued() == old(self).queued(),
            final(self).limit() == old(self).limit(),
            final(self).active() == if old(self).active() > 0 {
                (old(self).active() - 1) as nat
            } else {
                0
            },
    {
        if self.active > 0 {
            self.active = self.active - 1;
        }
    }

    /// The number of waiting tasks.
    pub fn queue_len(&self) -> (r: usize)
        ensures
            r == self.queued().len(),
    {
        self.queue.len()
    }

    /// The number of active tasks.
    pub fn active_count(&self) -> (r: usize)
        ensures
            r == self.active(),
    {
        self.active
    }
}

proof fn lemma_of_rank_push(ts: Seq<GrassScheduledTask>, t: GrassScheduledTask, k: int)
    ensures
        of_rank(ts.push(t), k) == if rank(t.priority) == k {
            of_rank(ts, k).push(t)
        } else {
            of_rank(ts, k)
        },
{
    reveal(Seq::filter);
    assert(ts.push(t).drop_last() =~= ts);
}

proof fn lemma_of_rank_all(ts: Seq<GrassScheduledTask>, k: int)
    ensures
        forall|i: int| 0 <= i < of_rank(ts, k).len() ==> rank(#[trigger] of_rank(ts, k)[i].priority)
            == k,
{
    broadcast use Seq::lemma_filter_pred;

}

/// Whatever order tasks arrive in, the queue holds them grouped by
/// priority, highest first, and within one priority in arrival order
/// (first in, first out): enqueuing one more task into the grouped queue of
/// `ts` gives the grouped queue of `ts` followed by that task.
pub proof fn lemma_enqueue_keeps_arrival_order(ts: Seq<GrassScheduledTask>, t: GrassScheduledTask)
    ensures
        grouped(ts).insert(enqueue_position(grouped(ts), rank(t.priority)), t) == grouped(
            ts.push(t),
        ),
{
    let r = rank(t.priority);
    let (g3, g2, g1, g0) = (of_rank(ts, 3), of_rank(ts, 2), of_rank(ts, 1), of_rank(ts, 0));
    lemma_of_rank_all(ts, 3);
    lemma_of_rank_all(ts, 2);
    lemma_of_rank_all(ts, 1);
    lemma_of_rank_all(ts, 0);
    lemma_of_rank_push(ts, t, 3);
    lemma_of_rank_push(ts, t, 2);
    lemma_of_rank_push(ts, t, 1);
    lemma_of_rank_push(ts, t, 0);
    let q = grouped(ts);
    assert(q =~= g3 + g2 + g1 + g0);
    let p: int = if r == 3 {
        g3.len() as int
    } else if r == 2 {
        (g3.len() + g2.len()) as int
    } else if r == 1 {
        (g3.len() + g2.len() + g1.len()) as int
    } else {
        q.len() as int
    };
    assert forall|k: int| 0 <= k < p implies rank(q[k].priority) >= r by {
        if k < g3.len() {
            assert(q[k] == g3[k]);
        } else if k < g3.len() + g2.len() {
            assert(q[k] == g2[k - g3.len()]);
        } else if k < g3.len() + g2.len() + g1.len() {
            assert(q[k] == g1[k - g3.len() - g2.len()]);
        } else {
            assert(q[k] == g0[k - g3.len() - g2.len() - g1.len()]);
        }
    }
    if p < q.len() {
        if p < g3.len() + g2.len() {
            assert(q[p] == g2[p - g3.len()]);
        } else if p < g3.len() + g2.len() + g1.len() {
            assert(q[p] == g1[p - g3.len() - g2.len()]);
        } else {
            assert(q[p] == g0[p - g3.len() - g2.len() - g1.len()]);
        }
    }
    lemma_enqueue_position_at(q, r, p as int);
    let n = grouped(ts.push(t));
    if r == 3 {
        assert(q.insert(p as int, t) =~= n);
    } else if r == 2 {
        assert(q.insert(p as int, t) =~= n);
    } else if r == 1 {
        assert(q.insert(p as int, t) =~= n);
    } else {
        assert(rank(t.priority) == 0);
        assert(q.insert(p as int, t) =~= n);
    }
}

/// The task at the front of a priority-ordered queue, the one handed out
/// next, has a priority at least as high as every other waiting task.
pub proof fn lemma_front_has_highest_priority(q: Seq<GrassScheduledTask>)
    requires
        by_priority(q),
        q.len() > 0,
    ensures
        forall|i: int| 0 <= i < q.len() ==> rank(q[0].priority) >= rank(#[trigger] q[i].priority),
{
    assert forall|i: int| 0 <= i < q.len() implies rank(q[0].priority) >= rank(
        #[trigger] q[i].priority,
    ) by {
        if i > 0 {
        }
    }
}

} // verus!
