//! The run queue, the wait map, and the routing of sub-results.
//!
//! A task with inputs waits in the [`C1map`] until its last slot is written;
//! it then leaves the map and is handed back for its run queue. A ready task
//! sits in a [`Queue`] until a worker pops it; queues are FIFO.
use crate::cond::{Anchor, TaskId};
use crate::curry::{all_filled, MAX_ARITY};
use crate::task::{Kind, TaskCurrier};
use crate::value::{TypeTag, Value};
use std::collections::HashMap;
use std::collections::VecDeque;
use vstd::prelude::*;

verus! {

broadcast use vstd::std_specs::hash::group_hash_axioms;

/// What happens to a task's result: the producer's id, the map function
/// that turns the result into sub-results, and the address of each.
pub struct PostDo<M> {
    pub from: TaskId,
    pub map: M,
    pub targets: Vec<Anchor>,
}

/// A task envelope with its post-step.
pub struct Entry<B, M> {
    pub task: TaskCurrier<B>,
    pub post: PostDo<M>,
}

/// Everything a specification needs to know of an [`Entry`].
pub struct EntryView<B, M> {
    pub id: TaskId,
    pub kind: Kind,
    pub decl: Seq<TypeTag>,
    pub slots: Seq<Option<Value>>,
    pub body: B,
    pub from: TaskId,
    pub map: M,
    pub targets: Seq<Anchor>,
}

impl<B, M> Entry<B, M> {
    pub open spec fn view(&self) -> EntryView<B, M> {
        EntryView {
            id: self.task.id,
            kind: self.task.kind,
            decl: self.task.currier.decl(),
            slots: self.task.currier.slots(),
            body: self.task.currier.body(),
            from: self.post.from,
            map: self.post.map,
            targets: self.post.targets@,
        }
    }
}

/// One slot per declared parameter, at most eight, and all filled: the
/// task can run.
pub open spec fn ready<B, M>(e: EntryView<B, M>) -> bool {
    &&& e.decl.len() == e.slots.len()
    &&& e.decl.len() <= MAX_ARITY
    &&& all_filled(e.slots)
}

/// A FIFO of ready tasks, served by one worker.
pub struct Queue<B, M> {
    items: VecDeque<Entry<B, M>>,
}

impl<B, M> Queue<B, M> {
    /// The entries, head first.
    pub closed spec fn view(&self) -> Seq<EntryView<B, M>> {
        self.items@.map_values(|e: Entry<B, M>| e@)
    }

    /// Every queued task is ready to run.
    pub open spec fn wf(&self) -> bool {
        forall|i: int| 0 <= i < self@.len() ==> ready(#[trigger] self@[i])
    }

    /// An empty queue.
    pub fn new() -> (r: Queue<B, M>)
        ensures
            r@ == Seq::<EntryView<B, M>>::empty(),
            r.wf(),
    {
        let r = Queue { items: VecDeque::new() };
        proof {
            assert(r@ =~= Seq::<EntryView<B, M>>::empty());
        }
        r
    }

    /// Appends a task at the tail.
    pub fn add_boxtask(&mut self, task: TaskCurrier<B>, postdo: PostDo<M>)
        ensures
            final(self)@ == old(self)@.push((Entry { task, post: postdo })@),
            old(self).wf() && ready((Entry { task, post: postdo })@) ==> final(self).wf(),
    {
        let e = Entry { task, post: postdo };
        let ghost ev = e@;
        self.items.push_back(e);
        proof {
            assert(self@ =~= old(self)@.push(ev));
        }
    }

    /// Removes and returns the head, if any.
    pub fn pop(&mut self) -> (r: Option<Entry<B, M>>)
        ensures
            match r {
                Some(e) => {
                    &&& old(self)@.len() > 0
                    &&& e@ == old(self)@[0]
                    &&& final(self)@ == old(self)@.drop_first()
                },
                None => {
                    &&& old(self)@.len() == 0
                    &&& final(self)@ == old(self)@
                },
            },
            old(self).wf() ==> final(self).wf(),
    {
        let r = self.items.pop_front();
        proof {
            if old(self).items@.len() > 0 {
                assert(self@ =~= old(self)@.drop_first());
            } else {
                assert(self@ =~= old(self)@);
            }
        }
        r
    }

    /// Drops every queued task.
    pub fn clear(&mut self)
        ensures
            final(self)@ == Seq::<EntryView<B, M>>::empty(),
            final(self).wf(),
    {
        self.items = VecDeque::new();
        proof {
            assert(self@ =~= Seq::<EntryView<B, M>>::empty());
        }
    }

    /// The number of queued tasks.
    pub fn len(&self) -> (r: usize)
        ensures
            r == self@.len(),
    {
        self.items.len()
    }
}

/// A task waiting for its inputs, and the queue it goes to once complete.
pub struct Waiting<B, M> {
    pub entry: Entry<B, M>,
    pub qid: usize,
}

impl<B, M> Waiting<B, M> {
    pub open spec fn view(&self) -> (EntryView<B, M>, usize) {
        (self.entry@, self.qid)
    }
}

/// Whether input `i` of `e` accepts `v`: it exists and its declared type
/// is the runtime type of `v`.
pub open spec fn accepts<B, M>(e: EntryView<B, M>, i: int, v: Value) -> bool {
    0 <= i < e.decl.len() && v.tag_spec() == e.decl[i]
}

/// `e` with `v` written into slot `i`.
pub open spec fn write_slot<B, M>(e: EntryView<B, M>, i: int, v: Value) -> EntryView<B, M> {
    EntryView {
        id: e.id,
        kind: e.kind,
        decl: e.decl,
        slots: e.slots.update(i, Some(v)),
        body: e.body,
        from: e.from,
        map: e.map,
        targets: e.targets,
    }
}

/// The wait map's entry for key `k` is a well-formed waiting task: its id is
/// `k` (nonzero), it has between one and eight inputs, and some input is
/// still missing.
pub open spec fn waiting_ok<B, M>(k: usize, w: (EntryView<B, M>, usize)) -> bool {
    &&& k != 0
    &&& w.0.id.id == k
    &&& w.0.decl.len() == w.0.slots.len()
    &&& 0 < w.0.decl.len() <= MAX_ARITY
    &&& !all_filled(w.0.slots)
}

/// Delivering `v` to address `a` in wait map `m`: the new map, and the task
/// released by the write, if it completed one.
pub open spec fn route_step<B, M>(
    m: Map<usize, (EntryView<B, M>, usize)>,
    a: Anchor,
    v: Value,
) -> (Map<usize, (EntryView<B, M>, usize)>, Option<(EntryView<B, M>, usize)>) {
    let id = a.taskid.id;
    if id != 0 && m.contains_key(id) && accepts(m[id].0, a.argidx as int, v) {
        let w = (write_slot(m[id].0, a.argidx as int, v), m[id].1);
        if all_filled(w.0.slots) {
            (m.remove(id), Some(w))
        } else {
            (m.insert(id, w), None)
        }
    } else {
        (m, None)
    }
}

/// Delivering the first `n` sub-results, in order: the final map and the
/// released tasks, in release order.
pub open spec fn route_n<B, M>(
    m: Map<usize, (EntryView<B, M>, usize)>,
    targets: Seq<Anchor>,
    subs: Seq<Value>,
    n: nat,
) -> (Map<usize, (EntryView<B, M>, usize)>, Seq<(EntryView<B, M>, usize)>)
    decreases n,
{
    if n == 0 {
        (m, Seq::empty())
    } else {
        let prev = route_n(m, targets, subs, (n - 1) as nat);
        let step = route_step(prev.0, targets[n - 1], subs[n - 1]);
        match step.1 {
            Some(w) => (step.0, prev.1.push(w)),
            None => (step.0, prev.1),
        }
    }
}

/// The map from task id to waiting task.
pub struct C1map<B, M> {
    map: HashMap<usize, Waiting<B, M>>,
}

impl<B, M> C1map<B, M> {
    pub closed spec fn view(&self) -> Map<usize, (EntryView<B, M>, usize)> {
        self.map@.map_values(|w: Waiting<B, M>| w@)
    }

    /// Every entry is a well-formed waiting task under its own id.
    pub open spec fn wf(&self) -> bool {
        forall|k: usize| #[trigger] self@.contains_key(k) ==> waiting_ok(k, self@[k])
    }

    /// An empty wait map.
    pub fn new() -> (r: C1map<B, M>)
        ensures
            r@ == Map::<usize, (EntryView<B, M>, usize)>::empty(),
            r.wf(),
    {
        let r = C1map { map: HashMap::new() };
        proof {
            assert(r@ =~= Map::<usize, (EntryView<B, M>, usize)>::empty());
        }
        r
    }

    /// `Some(tid)` when `tid` is a present id with a waiting task.
    pub fn check(&self, tid: TaskId) -> (r: Option<TaskId>)
        ensures
            r == (if tid.id != 0 && self@.contains_key(tid.id) {
                Some(tid)
            } else {
                None
            }),
    {
        if tid.id == 0 {
            return None;
        }
        if self.map.contains_key(&tid.id) {
            Some(tid)
        } else {
            None
        }
    }

    /// Inserts a waiting task under `taskid`, unless that key is taken.
    pub fn try_insert(&mut self, task: TaskCurrier<B>, postdo: PostDo<M>, qid: usize, taskid: usize) -> (r:
        Option<usize>)
        ensures
            old(self)@.contains_key(taskid) ==> r.is_none() && final(self)@ == old(self)@,
            !old(self)@.contains_key(taskid) ==> r == Some(taskid) && final(self)@ == old(self)@.insert(
                taskid,
                ((Entry { task, post: postdo })@, qid),
            ),
            old(self).wf() && waiting_ok(taskid, ((Entry { task, post: postdo })@, qid))
                ==> final(self).wf(),
    {
        if self.map.contains_key(&taskid) {
            return None;
        }
        let w = Waiting { entry: Entry { task, post: postdo }, qid };
        let ghost wv = w@;
        self.map.insert(taskid, w);
        proof {
            assert(self@ =~= old(self)@.insert(taskid, wv));
        }
        Some(taskid)
    }

    /// Takes the waiting task with key `id` out of the map.
    pub fn remove(&mut self, id: usize) -> (r: Option<Waiting<B, M>>)
        ensures
            final(self)@ == old(self)@.remove(id),
            match r {
                Some(w) => old(self)@.contains_key(id) && w@ == old(self)@[id],
                None => !old(self)@.contains_key(id),
            },
            old(self).wf() ==> final(self).wf(),
    {
        let r = self.map.remove(&id);
        proof {
            assert(self@ =~= old(self)@.remove(id));
        }
        r
    }

    /// Writes `v` into the slot that `target` names. `None` when the id is
    /// absent or unknown, the index is out of range, or the type differs
    /// (the map is then unchanged); else whether the task is now complete.
    pub(crate) fn update_ci(&mut self, target: Anchor, v: Value) -> (r: Option<bool>)
        requires
            old(self).wf(),
        ensures
            ({
                let id = target.taskid.id;
                let i = target.argidx as int;
                if id != 0 && old(self)@.contains_key(id) && accepts(old(self)@[id].0, i, v) {
                    let w = (write_slot(old(self)@[id].0, i, v), old(self)@[id].1);
                    &&& final(self)@ == old(self)@.insert(id, w)
                    &&& r == Some(all_filled(w.0.slots))
                } else {
                    &&& final(self)@ == old(self)@
                    &&& r.is_none()
                }
            }),
    {
        let id = target.taskid.id;
        if id == 0 {
            return None;
        }
        let removed = self.map.remove(&id);
        match removed {
            None => {
                proof {
                    assert(self@ =~= old(self)@);
                }
                None
            },
            Some(w) => {
                let ghost wv = w@;
                assert(old(self).map@.contains_key(id));
                assert(old(self)@.contains_key(id));
                assert(waiting_ok(id, old(self)@[id]));
                let Waiting { entry, qid } = w;
                let Entry { task, post } = entry;
                let TaskCurrier { mut currier, id: tid, kind } = task;
                let ok = currier.set(target.argidx as usize, v);
                let full = currier.is_full();
                let w2 = Waiting { entry: Entry { task: TaskCurrier { currier, id: tid, kind }, post }, qid };
                let ghost wv2 = w2@;
                self.map.insert(id, w2);
                proof {
                    assert(self@ =~= old(self)@.remove(id).insert(id, wv2));
                    if ok {
                        assert(wv2 == (write_slot(wv.0, target.argidx as int, v), wv.1));
                    } else {
                        assert(wv2 == wv);
                        assert(self@ =~= old(self)@);
                    }
                }
                if ok {
                    Some(full)
                } else {
                    None
                }
            },
        }
    }
}

/// The view of an optional waiting task.
pub open spec fn opt_view<B, M>(o: Option<Waiting<B, M>>) -> Option<(EntryView<B, M>, usize)> {
    match o {
        Some(w) => Some(w@),
        None => None,
    }
}

/// The views of a list of waiting tasks.
pub open spec fn views<B, M>(s: Seq<Waiting<B, M>>) -> Seq<(EntryView<B, M>, usize)> {
    s.map_values(|w: Waiting<B, M>| w@)
}

/// Every entry of `m` is a well-formed waiting task under its own id.
pub open spec fn all_waiting_ok<B, M>(m: Map<usize, (EntryView<B, M>, usize)>) -> bool {
    forall|k: usize| #[trigger] m.contains_key(k) ==> waiting_ok(k, m[k])
}

/// A task leaves the wait map only through the write that fills its last
/// slot: a key disappears exactly when that write releases the task under
/// it, the released task has every slot filled and can run, no key is
/// added, and the map stays well formed. Once gone, the key can release
/// nothing more.
pub proof fn lemma_leaves_only_when_complete<B, M>(
    m: Map<usize, (EntryView<B, M>, usize)>,
    a: Anchor,
    v: Value,
)
    requires
        all_waiting_ok(m),
    ensures
        ({
            let (m2, o) = route_step(m, a, v);
            &&& all_waiting_ok(m2)
            &&& forall|k: usize| #[trigger] m2.contains_key(k) ==> m.contains_key(k)
            &&& forall|k: usize|
                m.contains_key(k) && !(#[trigger] m2.contains_key(k)) ==> o.is_some()
                    && o.unwrap().0.id.id == k
            &&& o matches Some(w) ==> {
                &&& m.contains_key(w.0.id.id)
                &&& !m2.contains_key(w.0.id.id)
                &&& ready(w.0)
                &&& w.0.decl == m[w.0.id.id].0.decl
            }
            &&& !m.contains_key(a.taskid.id) ==> o.is_none() && m2 == m
        }),
{
    let id = a.taskid.id;
    let (m2, o) = route_step(m, a, v);
    if id != 0 && m.contains_key(id) && accepts(m[id].0, a.argidx as int, v) {
        assert(waiting_ok(id, m[id]));
        let w = (write_slot(m[id].0, a.argidx as int, v), m[id].1);
        if !all_filled(w.0.slots) {
            assert(waiting_ok(id, w));
        }
    }
}

/// Delivers `v` to the slot `target` names. When the write completes the
/// task, the task leaves the map and is returned, with the queue it goes to.
pub fn when_ci_comed<B, M>(target: Anchor, v: Value, c1map: &mut C1map<B, M>) -> (r: Option<
    Waiting<B, M>,
>)
    requires
        old(c1map).wf(),
    ensures
        final(c1map).wf(),
        (final(c1map)@, opt_view(r)) == route_step(old(c1map)@, target, v),
{
    proof {
        lemma_leaves_only_when_complete(c1map@, target, v);
    }
    let full = c1map.update_ci(target, v);
    match full {
        Some(true) => {
            let r = c1map.remove(target.taskid.id);
            proof {
                assert(c1map@ =~= route_step(old(c1map)@, target, v).0);
            }
            r
        },
        _ => None,
    }
}

/// The post-step after a task ran: sub-result `k` goes to `targets[k]`, in
/// order, as far as both lists reach. Returns the tasks whose last slot was
/// filled, in the order they completed, each with the queue it goes to.
pub fn post_do<B, M>(targets: &Vec<Anchor>, subs: Vec<Value>, c1map: &mut C1map<B, M>) -> (r: Vec<
    Waiting<B, M>,
>)
    requires
        old(c1map).wf(),
    ensures
        final(c1map).wf(),
        ({
            let n = if targets@.len() < subs@.len() {
                targets@.len()
            } else {
                subs@.len()
            };
            (final(c1map)@, views(r@)) == route_n(old(c1map)@, targets@, subs@, n)
        }),
        forall|i: int| 0 <= i < r@.len() ==> ready(#[trigger] r@[i]@.0),
{
    let n = if targets.len() < subs.len() {
        targets.len()
    } else {
        subs.len()
    };
    let ghost m0 = c1map@;
    let ghost s0 = subs@;
    let mut rest = subs;
    let mut out: Vec<Waiting<B, M>> = Vec::new();
    let mut k: usize = 0;
    while k < n
        invariant
            k <= n,
            n <= targets@.len(),
            n <= s0.len(),
            c1map.wf(),
            rest@ == s0.skip(k as int),
            (c1map@, views(out@)) == route_n(m0, targets@, s0, k as nat),
            forall|i: int| 0 <= i < out@.len() ==> ready(#[trigger] out@[i]@.0),
        decreases n - k,
    {
        let v = rest.remove(0);
        assert(v == s0[k as int]);
        let ghost mk = c1map@;
        let ghost outk = out@;
        proof {
            lemma_leaves_only_when_complete(mk, targets@[k as int], v);
        }
        let released = when_ci_comed(targets[k], v, c1map);
        match released {
            Some(w) => {
                out.push(w);
                proof {
                    assert(views(out@) =~= views(outk).push(w@));
                }
            },
            None => {
            },
        }
        proof {
            assert(rest@ =~= s0.skip(k + 1));
        }
        k = k + 1;
    }
    out
}

/// Run queues are first in, first out: pushing `x` and then popping gives
/// the old head, or `x` itself when the queue was empty, and what remains is
/// the old tail followed by `x`. So tasks leave a queue in the order in
/// which they were pushed.
pub proof fn lemma_fifo<B, M>(s: Seq<EntryView<B, M>>, x: EntryView<B, M>)
    ensures
        s.len() == 0 ==> s.push(x)[0] == x && s.push(x).drop_first() == s,
        s.len() > 0 ==> s.push(x)[0] == s[0] && s.push(x).drop_first() == s.drop_first().push(x),
{
    if s.len() == 0 {
        assert(s.push(x).drop_first() =~= s);
    } else {
        assert(s.push(x).drop_first() =~= s.drop_first().push(x));
    }
}

/// A sub-result reaches its target unchanged: when the target accepts it,
/// slot `i` of the target then holds exactly `v`, whether the target keeps
/// waiting or is released; the other slots keep their values.
pub proof fn lemma_value_delivered_unchanged<B, M>(
    m: Map<usize, (EntryView<B, M>, usize)>,
    a: Anchor,
    v: Value,
)
    requires
        all_waiting_ok(m),
        m.contains_key(a.taskid.id),
        accepts(m[a.taskid.id].0, a.argidx as int, v),
    ensures
        ({
            let (m2, o) = route_step(m, a, v);
            let e = match o {
                Some(w) => w.0,
                None => m2[a.taskid.id].0,
            };
            &&& e.slots[a.argidx as int] == Some(v)
            &&& e.slots == m[a.taskid.id].0.slots.update(a.argidx as int, Some(v))
            &&& o.is_none() ==> m2.contains_key(a.taskid.id)
        }),
{
    assert(waiting_ok(a.taskid.id, m[a.taskid.id]));
}

} // verus!
