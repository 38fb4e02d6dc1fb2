//! Submission of task plans, and the worker's decision step.
//!
//! A plan with no inputs goes straight to the submitter's run queue and its
//! id is dropped. A plan with inputs gets an id (its own, or a fresh one) and
//! waits in the wait map; an id that is already waiting is refused.
use core::marker::PhantomData;
use crate::cond::{ArgIdx, CondAddr, Section, TaskId};
use crate::curry::MAX_ARITY;
use crate::meta::TupleAt;
use crate::queue::{ready, waiting_ok, C1map, Entry, EntryView, PostDo, Queue};
use crate::task::{Kind, TaskCurrier, TaskIdGen, TaskNeed};
use vstd::prelude::*;

verus! {

/// Why a submission was refused.
#[derive(Clone, Copy, Debug, PartialEq, Eq, Structural)]
pub enum TaskSubmitError {
    /// A task with this id is already waiting for its inputs.
    TaskIdAlreadyExists(TaskId),
}

/// What a caller learns of a submitted task: its id, and through `Ps` the
/// types of its inputs.
pub struct TaskInf<Ps> {
    pub taskid: TaskId,
    pub phantom: PhantomData<Ps>,
}

impl<Ps> TaskInf<Ps> {
    pub fn new(taskid: TaskId) -> (r: TaskInf<Ps>)
        ensures
            r.taskid == taskid,
    {
        TaskInf { taskid, phantom: PhantomData }
    }

    pub fn taskid(&self) -> (r: TaskId)
        ensures
            r == self.taskid,
    {
        self.taskid
    }

    /// The address of input `I` of the submitted task.
    pub fn input_ca<const I: u8>(&self) -> (r: CondAddr<<Ps as TupleAt<I>>::EleT>) where
        Ps: TupleAt<I>,

        ensures
            r.taskid == self.taskid,
            r.section == Section::Input,
            r.argidx.i == I,
    {
        CondAddr::from_parts(self.taskid, Section::Input, ArgIdx::const_new(I))
    }
}

/// The plan as the engine will hold it, before its id is settled.
pub open spec fn plan_view<B, M, Ps, R, MapR>(need: TaskNeed<B, M, Ps, R, MapR>) -> EntryView<B, M> {
    EntryView {
        id: need.task.id,
        kind: need.task.kind,
        decl: need.task.currier.decl(),
        slots: need.task.currier.slots(),
        body: need.task.currier.body(),
        from: need.task.id,
        map: need.map,
        targets: need.targets@,
    }
}

/// A freshly built plan: a well-formed slot table with every slot empty.
pub open spec fn fresh<B, M>(p: EntryView<B, M>) -> bool {
    &&& p.decl.len() == p.slots.len()
    &&& p.decl.len() <= MAX_ARITY
    &&& forall|i: int| 0 <= i < p.slots.len() ==> (#[trigger] p.slots[i]).is_none()
}

/// The id a task runs under: none for a task without inputs (a given id
/// only names a target, and such a task is no target); for a task with
/// inputs, the given id, or `next` when none was given.
pub open spec fn normal_id(arity: nat, given: TaskId, next: usize) -> TaskId {
    if arity == 0 {
        TaskId { id: 0 }
    } else if given.id == 0 {
        TaskId { id: next }
    } else {
        given
    }
}

/// The plan `p` placed under id `id`, which is also the producer id its
/// results are sent from.
pub open spec fn placed<B, M>(p: EntryView<B, M>, id: TaskId) -> EntryView<B, M> {
    EntryView {
        id,
        kind: p.kind,
        decl: p.decl,
        slots: p.slots,
        body: p.body,
        from: id,
        map: p.map,
        targets: p.targets,
    }
}

/// Submitting a task without inputs does not depend on the id it was given:
/// two such plans that differ only in their ids are placed identically and
/// draw no fresh id.
pub proof fn lemma_zero_arity_ignores_id<B, M>(p: EntryView<B, M>, q: EntryView<B, M>, next: usize)
    requires
        p.decl.len() == 0,
        q == (EntryView { id: q.id, from: q.from, ..p }),
    ensures
        normal_id(0, p.id, next) == normal_id(0, q.id, next),
        placed(p, normal_id(0, p.id, next)) == placed(q, normal_id(0, q.id, next)),
{
}

/// Submits plans into one run queue and the shared wait map.
#[derive(Clone, Copy, Debug)]
pub struct TaskSubmitter {
    pub qid: usize,
}

impl TaskSubmitter {
    /// A submitter for the run queue with id `qid`.
    pub fn new(qid: usize) -> (r: TaskSubmitter)
        ensures
            r.qid == qid,
    {
        TaskSubmitter { qid }
    }

    /// Places `need`: a task without inputs is pushed onto `queue` under the
    /// absent id; a task with inputs is inserted into `c1map` under its id
    /// (a fresh one from `ids` when it has none), unless a task with that id
    /// is already waiting, which is refused.
    pub fn submit<B, M, Ps, R, MapR>(
        &self,
        need: TaskNeed<B, M, Ps, R, MapR>,
        c1map: &mut C1map<B, M>,
        queue: &mut Queue<B, M>,
        ids: &mut TaskIdGen,
    ) -> (r: Result<TaskInf<Ps>, TaskSubmitError>)
        requires
            old(c1map).wf(),
            old(queue).wf(),
            fresh(plan_view(need)),
        ensures
            final(c1map).wf(),
            final(queue).wf(),
            ({
                let p = plan_view(need);
                let n = p.decl.len();
                let id = normal_id(n, p.id, old(ids)@);
                &&& final(ids)@ == (if n > 0 && p.id.id == 0 {
                    crate::task::succ_id(old(ids)@)
                } else {
                    old(ids)@
                })
                &&& n == 0 ==> {
                    &&& r matches Ok(inf) && inf.taskid == id
                    &&& final(queue)@ == old(queue)@.push(placed(p, id))
                    &&& final(c1map)@ == old(c1map)@
                }
                &&& n > 0 && old(c1map)@.contains_key(id.id) ==> {
                    &&& r == Err::<TaskInf<Ps>, TaskSubmitError>(
                        TaskSubmitError::TaskIdAlreadyExists(id),
                    )
                    &&& final(queue)@ == old(queue)@
                    &&& final(c1map)@ == old(c1map)@
                }
                &&& n > 0 && !old(c1map)@.contains_key(id.id) ==> {
                    &&& r matches Ok(inf) && inf.taskid == id
                    &&& final(queue)@ == old(queue)@
                    &&& final(c1map)@ == old(c1map)@.insert(id.id, (placed(p, id), self.qid))
                }
            }),
    {
        let ghost p = plan_view(need);
        let n = need.task.currier.count();
        let TaskNeed { task, map, targets, phantom } = need;
        let TaskCurrier { currier, id, kind } = task;
        if n == 0 {
            let none = TaskId::none();
            let task = TaskCurrier { currier, id: none, kind };
            let post = PostDo { from: none, map, targets };
            proof {
                assert((Entry { task, post })@ == placed(p, none));
            }
            queue.add_boxtask(task, post);
            Ok(TaskInf::new(none))
        } else {
            let id = if id.id == 0 {
                ids.next()
            } else {
                id
            };
            if c1map.check(id).is_some() {
                return Err(TaskSubmitError::TaskIdAlreadyExists(id));
            }
            let task = TaskCurrier { currier, id, kind };
            let post = PostDo { from: id, map, targets };
            proof {
                assert((Entry { task, post })@ == placed(p, id));
                assert(!crate::curry::all_filled(p.slots)) by {
                    assert(p.slots[0].is_none());
                }
                assert(waiting_ok(id.id, (placed(p, id), self.qid)));
            }
            let _inserted = c1map.try_insert(task, post, self.qid, id.id);
            Ok(TaskInf::new(id))
        }
    }

    /// Submits `need` and returns the id it was placed under. The
    /// submission must not be refused.
    pub fn old_submit<B, M, Ps, R, MapR>(
        &self,
        need: TaskNeed<B, M, Ps, R, MapR>,
        c1map: &mut C1map<B, M>,
        queue: &mut Queue<B, M>,
        ids: &mut TaskIdGen,
    ) -> (r: TaskId)
        requires
            old(c1map).wf(),
            old(queue).wf(),
            fresh(plan_view(need)),
            !(plan_view(need).decl.len() > 0 && old(c1map)@.contains_key(
                normal_id(plan_view(need).decl.len(), need.task.id, old(ids)@).id,
            )),
        ensures
            final(c1map).wf(),
            final(queue).wf(),
            r == normal_id(plan_view(need).decl.len(), need.task.id, old(ids)@),
    {
        match self.submit(need, c1map, queue, ids) {
            Ok(inf) => inf.taskid(),
            Err(_) => {
                proof {
                    assert(false);
                }
                TaskId::none()
            },
        }
    }
}

/// What a worker does next.
pub enum Step<B, M> {
    /// Leave the loop.
    Quit,
    /// The queue is empty: wait for a push.
    Wait,
    /// Run the popped task, then its post-step.
    Run(Entry<B, M>),
}

/// The worker's decision at the top of its loop: leave when its exit flag is
/// set (nothing is taken from the queue), else take the head of its queue,
/// or wait if there is none.
pub fn next_step<B, M>(exit_flag: bool, queue: &mut Queue<B, M>) -> (r: Step<B, M>)
    ensures
        old(queue).wf() ==> final(queue).wf(),
        exit_flag ==> r is Quit && final(queue)@ == old(queue)@,
        !exit_flag && old(queue)@.len() == 0 ==> r is Wait && final(queue)@ == old(queue)@,
        !exit_flag && old(queue)@.len() > 0 ==> {
            &&& r matches Step::Run(e) && e@ == old(queue)@[0]
            &&& final(queue)@ == old(queue)@.drop_first()
        },
        old(queue).wf() ==> (r matches Step::Run(e) ==> ready(e@)),
{
    if exit_flag {
        return Step::Quit;
    }
    match queue.pop() {
        Some(e) => Step::Run(e),
        None => Step::Wait,
    }
}

/// Whether the worker goes on after running a task of kind `kind`.
pub fn keeps_running(kind: Kind) -> (r: bool)
    ensures
        r == (kind == Kind::Normal),
{
    match kind {
        Kind::Normal => true,
        Kind::Exit => false,
    }
}

} // verus!
