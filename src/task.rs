//! Tasks: the envelope that the engine moves around, the id generator, and
//! the builder that turns a callable into a submittable plan.
//!
//! A plan ([`TaskNeed`]) is a callable with its parameter types, an optional
//! id, a map function over the result, and the addresses that the mapped
//! sub-results are bound to. One result goes to one address with
//! [`TaskNeed::bind_to`]; a tuple of sub-results fans out with
//! [`TaskNeed::map_tuple_with`] and [`TaskNeed::bind_all_to`].
use core::marker::PhantomData;
use crate::cond::{Anchor, ArgIdx, CondAddr, Section, TaskId};
use crate::curry::{Currier, MAX_ARITY};
use crate::meta::{unbound, AnchorTuple, TupleAt, TupleCondAddr};
use crate::value::{TypeTag, Typed, Value};
use vstd::prelude::*;

verus! {

/// What a worker does after running a task.
#[derive(Clone, Copy, Debug, PartialEq, Eq, Structural)]
pub enum Kind {
    /// The worker goes on with the next task.
    Normal,
    /// The worker leaves its loop once the task and its routing are done.
    Exit,
}

/// A task envelope: the carrier, the task's id and its kind.
pub struct TaskCurrier<B> {
    pub currier: Currier<B>,
    pub id: TaskId,
    pub kind: Kind,
}

impl<B> TaskCurrier<B> {
    /// The task's id.
    pub fn id(&self) -> (r: TaskId)
        ensures
            r == self.id,
    {
        self.id
    }

    /// The task's kind.
    pub fn kind(&self) -> (r: Kind)
        ensures
            r == self.kind,
    {
        self.kind
    }
}

/// The next id after `n`: one more, wrapping past the largest to one, so
/// that zero is never handed out.
pub open spec fn succ_id(n: usize) -> usize {
    if n == usize::MAX {
        1
    } else {
        (n + 1) as usize
    }
}

/// Source of fresh nonzero task ids.
pub struct TaskIdGen {
    nexter: usize,
}

impl TaskIdGen {
    /// The id that the next call hands out.
    pub closed spec fn view(&self) -> usize {
        if self.nexter == 0 {
            1
        } else {
            self.nexter
        }
    }

    /// A generator whose first id is 1.
    pub fn new() -> (r: TaskIdGen)
        ensures
            r@ == 1,
    {
        TaskIdGen { nexter: 1 }
    }

    /// Hands out the next id; it is never zero.
    pub fn next(&mut self) -> (r: TaskId)
        ensures
            r.id == old(self)@,
            r.id != 0,
            final(self)@ == succ_id(r.id),
    {
        let id = if self.nexter == 0 {
            1
        } else {
            self.nexter
        };
        self.nexter = if id == usize::MAX {
            1
        } else {
            id + 1
        };
        TaskId { id }
    }
}

/// Draws a fresh, nonzero task id from `gen`.
pub fn taskid_next(gen: &mut TaskIdGen) -> (r: TaskId)
    ensures
        r.id == old(gen)@,
        r.id != 0,
        final(gen)@ == succ_id(r.id),
{
    gen.next()
}

/// The map that passes a result on unchanged, as a one-element tuple.
pub struct PassthroughMapFn<P> {
    pub phantom: PhantomData<P>,
}

impl<P> PassthroughMapFn<P> {
    pub fn new() -> (r: PassthroughMapFn<P>) {
        PassthroughMapFn { phantom: PhantomData }
    }
}

/// A task plan ready for submission: the envelope, the map function `M`
/// applied to the body's result `R`, and the addresses its sub-results
/// (the tuple `MapR`) go to. `Ps` is the tuple of parameter types.
pub struct TaskNeed<B, M, Ps, R, MapR> {
    pub task: TaskCurrier<B>,
    pub map: M,
    pub targets: Vec<Anchor>,
    pub phantom: PhantomData<(Ps, R, MapR)>,
}

impl<B, Ps, R> TaskNeed<B, PassthroughMapFn<R>, Ps, R, (R,)> {
    /// A plan for body `f` with parameter types `decl`, the given id and
    /// kind, its result passed on unchanged and bound nowhere yet.
    pub fn build(f: B, decl: Vec<TypeTag>, id: TaskId, kind: Kind) -> (r: TaskNeed<
        B,
        PassthroughMapFn<R>,
        Ps,
        R,
        (R,),
    >)
        requires
            decl@.len() <= MAX_ARITY,
        ensures
            r.task.currier.body() == f,
            r.task.currier.decl() == decl@,
            r.task.currier.slots() == Seq::new(decl@.len(), |i: int| None::<Value>),
            r.task.currier.wf(),
            r.task.id == id,
            r.task.kind == kind,
            r.targets@ == Seq::<Anchor>::empty(),
    {
        TaskNeed {
            task: TaskCurrier { currier: Currier::from(f, decl), id, kind },
            map: PassthroughMapFn::new(),
            targets: Vec::new(),
            phantom: PhantomData,
        }
    }
}

impl<B, M, Ps, R, MapR> TaskNeed<B, M, Ps, R, MapR> {
    /// The id the plan carries (absent if none was given).
    pub fn id(&self) -> (r: TaskId)
        ensures
            r == self.task.id,
    {
        self.task.id
    }

    /// Sends the result, unchanged, to the input condition `ca`.
    pub fn bind_to(self, ca: CondAddr<R>) -> (r: TaskNeed<B, PassthroughMapFn<R>, Ps, R, (R,)>)
        ensures
            r.task == self.task,
            r.targets@ == seq![ca.anchor_spec()],
    {
        let TaskNeed { task, map, targets, phantom } = self;
        let mut t: Vec<Anchor> = Vec::new();
        t.push(ca.anchor());
        TaskNeed { task, map: PassthroughMapFn::new(), targets: t, phantom: PhantomData }
    }

    /// Sends the result, unchanged, to argument `ai` of task `to`.
    pub fn to(self, to: usize, ai: usize) -> (r: TaskNeed<B, PassthroughMapFn<R>, Ps, R, (R,)>)
        requires
            ai <= u8::MAX,
        ensures
            r.task == self.task,
            r.targets@ == seq![Anchor { taskid: TaskId { id: to }, argidx: ai as u8 }],
    {
        let ca = CondAddr::<R>::from_parts(TaskId::from(to), Section::Input, ArgIdx::from(ai as u8));
        self.bind_to(ca)
    }

    /// Replaces the map with `mapfn`, which turns the result into a tuple of
    /// sub-results; each is bound later by [`TaskNeed::bind_all_to`] and
    /// until then points at no task.
    pub fn map_tuple_with<M2, MapR2>(self, mapfn: M2) -> (r: TaskNeed<B, M2, Ps, R, MapR2>) where
        M2: FnOnce(R) -> MapR2,
        MapR2: TupleCondAddr,

        ensures
            r.task == self.task,
            r.map == mapfn,
            r.targets@ == unbound(MapR2::width()),
    {
        let TaskNeed { task, map, targets, phantom } = self;
        let tca = MapR2::one_to_one();
        TaskNeed { task, map: mapfn, targets: tca.anchors(), phantom: PhantomData }
    }

    /// Binds element `i` of the sub-result tuple to address `i` of `cats`.
    pub fn bind_all_to(self, cats: MapR::TCA) -> (r: TaskNeed<B, M, Ps, R, MapR>) where
        MapR: TupleCondAddr,

        ensures
            r.task == self.task,
            r.map == self.map,
            r.targets@ == cats.anchors_spec(),
    {
        let TaskNeed { task, map, targets, phantom } = self;
        TaskNeed { task, map, targets: cats.anchors(), phantom }
    }

    /// The address of input `I` of the planned task.
    pub fn input_ca<const I: u8>(&self) -> (r: CondAddr<<Ps as TupleAt<I>>::EleT>) where
        Ps: TupleAt<I>,

        ensures
            r.taskid == self.task.id,
            r.section == Section::Input,
            r.argidx.i == I,
    {
        CondAddr::from_parts(self.task.id, Section::Input, ArgIdx::const_new(I))
    }

    /// The address of output `I` of the planned task (reserved).
    pub fn output_ca<const I: u8>(&self) -> (r: CondAddr<<MapR as TupleAt<I>>::EleT>) where
        MapR: TupleAt<I>,

        ensures
            r.taskid == self.task.id,
            r.section == Section::Output,
            r.argidx.i == I,
    {
        CondAddr::from_parts(self.task.id, Section::Output, ArgIdx::const_new(I))
    }

    /// Marks the plan so that the worker that runs it leaves afterwards.
    pub fn into_exit(self) -> (r: TaskNeed<B, M, Ps, R, MapR>)
        ensures
            r.task.currier == self.task.currier,
            r.task.id == self.task.id,
            r.task.kind == Kind::Exit,
            r.map == self.map,
            r.targets == self.targets,
    {
        let TaskNeed { task, map, targets, phantom } = self;
        let TaskCurrier { currier, id, kind } = task;
        TaskNeed { task: TaskCurrier { currier, id, kind: Kind::Exit }, map, targets, phantom }
    }

    /// Exchanges body and map for `b` and `m`, keeping everything else.
    pub fn swap_parts<B2, M2>(self, b: B2, m: M2) -> (r: (B, M, TaskNeed<B2, M2, Ps, R, MapR>))
        ensures
            r.0 == self.task.currier.body(),
            r.1 == self.map,
            r.2.task.currier.body() == b,
            r.2.task.currier.decl() == self.task.currier.decl(),
            r.2.task.currier.slots() == self.task.currier.slots(),
            r.2.task.currier.wf() == self.task.currier.wf(),
            r.2.task.id == self.task.id,
            r.2.task.kind == self.task.kind,
            r.2.map == m,
            r.2.targets == self.targets,
    {
        let TaskNeed { task, map, targets, phantom } = self;
        let TaskCurrier { currier, id, kind } = task;
        let (f, currier2) = currier.replace_body(b);
        (f, map, TaskNeed { task: TaskCurrier { currier: currier2, id, kind }, map: m, targets, phantom: PhantomData })
    }
}

/// Builds a plan from a callable, or from a callable and an explicit id.
///
/// The callable's parameter types give the slot types; a callable may take
/// up to eight parameters, each of a [`Typed`] type.
pub trait TaskBuildNew<B, Ps, R>: Sized {
    /// The body the plan will carry.
    spec fn body_of(&self) -> B;

    /// The id the plan will carry (absent when none was given).
    spec fn id_of(&self) -> TaskId;

    /// The declared parameter types.
    spec fn params() -> Seq<TypeTag>;

    /// A plan of kind [`Kind::Normal`].
    fn into_task(self) -> (r: TaskNeed<B, PassthroughMapFn<R>, Ps, R, (R,)>)
        ensures
            r.task.currier.body() == self.body_of(),
            r.task.currier.decl() == Self::params(),
            r.task.currier.slots() == Seq::new(Self::params().len(), |i: int| None::<Value>),
            r.task.currier.wf(),
            r.task.id == self.id_of(),
            r.task.kind == Kind::Normal,
            r.targets@ == Seq::<Anchor>::empty(),
    ;

    /// A plan of kind [`Kind::Exit`]: the worker leaves after running it.
    fn into_exit_task(self) -> (r: TaskNeed<B, PassthroughMapFn<R>, Ps, R, (R,)>)
        ensures
            r.task.currier.body() == self.body_of(),
            r.task.currier.decl() == Self::params(),
            r.task.currier.slots() == Seq::new(Self::params().len(), |i: int| None::<Value>),
            r.task.currier.wf(),
            r.task.id == self.id_of(),
            r.task.kind == Kind::Exit,
            r.targets@ == Seq::<Anchor>::empty(),
    ;
}

impl<F: FnOnce() -> R, R> TaskBuildNew<F, (), R> for F {
    open spec fn body_of(&self) -> F {
        *self
    }

    open spec fn id_of(&self) -> TaskId {
        TaskId { id: 0 }
    }

    open spec fn params() -> Seq<TypeTag> {
        Seq::empty()
    }

    fn into_task(self) -> (r: TaskNeed<F, PassthroughMapFn<R>, (), R, (R,)>) {
        let decl: Vec<TypeTag> = Vec::new();
        proof {
            assert(decl@ =~= Self::params());
        }
        let id = TaskId::none();
        TaskNeed::build(self, decl, id, Kind::Normal)
    }

    fn into_exit_task(self) -> (r: TaskNeed<F, PassthroughMapFn<R>, (), R, (R,)>) {
        let decl: Vec<TypeTag> = Vec::new();
        proof {
            assert(decl@ =~= Self::params());
        }
        let id = TaskId::none();
        TaskNeed::build(self, decl, id, Kind::Exit)
    }
}

impl<F: FnOnce() -> R, R> TaskBuildNew<F, (), R> for (F, TaskId) {
    open spec fn body_of(&self) -> F {
        self.0
    }

    open spec fn id_of(&self) -> TaskId {
        self.1
    }

    open spec fn params() -> Seq<TypeTag> {
        Seq::empty()
    }

    fn into_task(self) -> (r: TaskNeed<F, PassthroughMapFn<R>, (), R, (R,)>) {
        let decl: Vec<TypeTag> = Vec::new();
        proof {
            assert(decl@ =~= Self::params());
        }
        let id = self.1;
        TaskNeed::build(self.0, decl, id, Kind::Normal)
    }

    fn into_exit_task(self) -> (r: TaskNeed<F, PassthroughMapFn<R>, (), R, (R,)>) {
        let decl: Vec<TypeTag> = Vec::new();
        proof {
            assert(decl@ =~= Self::params());
        }
        let id = self.1;
        TaskNeed::build(self.0, decl, id, Kind::Exit)
    }
}

impl<F: FnOnce(P1) -> R, P1: Typed, R> TaskBuildNew<F, (P1,), R> for F {
    open spec fn body_of(&self) -> F {
        *self
    }

    open spec fn id_of(&self) -> TaskId {
        TaskId { id: 0 }
    }

    open spec fn params() -> Seq<TypeTag> {
        seq![P1::tag_of()]
    }

    fn into_task(self) -> (r: TaskNeed<F, PassthroughMapFn<R>, (P1,), R, (R,)>) {
        let decl: Vec<TypeTag> = vec![P1::type_tag()];
        proof {
            assert(decl@ =~= Self::params());
        }
        let id = TaskId::none();
        TaskNeed::build(self, decl, id, Kind::Normal)
    }

    fn into_exit_task(self) -> (r: TaskNeed<F, PassthroughMapFn<R>, (P1,), R, (R,)>) {
        let decl: Vec<TypeTag> = vec![P1::type_tag()];
        proof {
            assert(decl@ =~= Self::params());
        }
        let id = TaskId::none();
        TaskNeed::build(self, decl, id, Kind::Exit)
    }
}

impl<F: FnOnce(P1) -> R, P1: Typed, R> TaskBuildNew<F, (P1,), R> for (F, TaskId) {
    open spec fn body_of(&self) -> F {
        self.0
    }

    open spec fn id_of(&self) -> TaskId {
        self.1
    }

    open spec fn params() -> Seq<TypeTag> {
        seq![P1::tag_of()]
    }

    fn into_task(self) -> (r: TaskNeed<F, PassthroughMapFn<R>, (P1,), R, (R,)>) {
        let decl: Vec<TypeTag> = vec![P1::type_tag()];
        proof {
            assert(decl@ =~= Self::params());
        }
        let id = self.1;
        TaskNeed::build(self.0, decl, id, Kind::Normal)
    }

    fn into_exit_task(self) -> (r: TaskNeed<F, PassthroughMapFn<R>, (P1,), R, (R,)>) {
        let decl: Vec<TypeTag> = vec![P1::type_tag()];
        proof {
            assert(decl@ =~= Self::params());
        }
        let id = self.1;
        TaskNeed::build(self.0, decl, id, Kind::Exit)
    }
}

impl<F: FnOnce(P1, P2) -> R, P1: Typed, P2: Typed, R> TaskBuildNew<F, (P1, P2), R> for F {
    open spec fn body_of(&self) -> F {
        *self
    }

    open spec fn id_of(&self) -> TaskId {
        TaskId { id: 0 }
    }

    open spec fn params() -> Seq<TypeTag> {
        seq![P1::tag_of(), P2::tag_of()]
    }

    fn into_task(self) -> (r: TaskNeed<F, PassthroughMapFn<R>, (P1, P2), R, (R,)>) {
        let decl: Vec<TypeTag> = vec![P1::type_tag(), P2::type_tag()];
        proof {
            assert(decl@ =~= Self::params());
        }
        let id = TaskId::none();
        TaskNeed::build(self, decl, id, Kind::Normal)
    }

    fn into_exit_task(self) -> (r: TaskNeed<F, PassthroughMapFn<R>, (P1, P2), R, (R,)>) {
        let decl: Vec<TypeTag> = vec![P1::type_tag(), P2::type_tag()];
        proof {
            assert(decl@ =~= Self::params());
        }
        let id = TaskId::none();
        TaskNeed::build(self, decl, id, Kind::Exit)
    }
}

impl<F: FnOnce(P1, P2) -> R, P1: Typed, P2: Typed, R> TaskBuildNew<F, (P1, P2), R> for (F, TaskId) {
    open spec fn body_of(&self) -> F {
        self.0
    }

    open spec fn id_of(&self) -> TaskId {
        self.1
    }

    open spec fn params() -> Seq<TypeTag> {
        seq![P1::tag_of(), P2::tag_of()]
    }

    fn into_task(self) -> (r: TaskNeed<F, PassthroughMapFn<R>, (P1, P2), R, (R,)>) {
        let decl: Vec<TypeTag> = vec![P1::type_tag(), P2::type_tag()];
        proof {
            assert(decl@ =~= Self::params());
        }
        let id = self.1;
        TaskNeed::build(self.0, decl, id, Kind::Normal)
    }

    fn into_exit_task(self) -> (r: TaskNeed<F, PassthroughMapFn<R>, (P1, P2), R, (R,)>) {
        let decl: Vec<TypeTag> = vec![P1::type_tag(), P2::type_tag()];
        proof {
            assert(decl@ =~= Self::params());
        }
        let id = self.1;
        TaskNeed::build(self.0, decl, id, Kind::Exit)
    }
}

impl<F: FnOnce(P1, P2, P3) -> R, P1: Typed, P2: Typed, P3: Typed, R> TaskBuildNew<F, (P1, P2, P3), R> for F {
    open spec fn body_of(&self) -> F {
        *self
    }

    open spec fn id_of(&self) -> TaskId {
        TaskId { id: 0 }
    }

    open spec fn params() -> Seq<TypeTag> {
        seq![P1::tag_of(), P2::tag_of(), P3::tag_of()]
    }

    fn into_task(self) -> (r: TaskNeed<F, PassthroughMapFn<R>, (P1, P2, P3), R, (R,)>) {
        let decl: Vec<TypeTag> = vec![P1::type_tag(), P2::type_tag(), P3::type_tag()];
        proof {
            assert(decl@ =~= Self::params());
        }
        let id = TaskId::none();
        TaskNeed::build(self, decl, id, Kind::Normal)
    }

    fn into_exit_task(self) -> (r: TaskNeed<F, PassthroughMapFn<R>, (P1, P2, P3), R, (R,)>) {
        let decl: Vec<TypeTag> = vec![P1::type_tag(), P2::type_tag(), P3::type_tag()];
        proof {
            assert(decl@ =~= Self::params());
        }
        let id = TaskId::none();
        TaskNeed::build(self, decl, id, Kind::Exit)
    }
}

impl<F: FnOnce(P1, P2, P3) -> R, P1: Typed, P2: Typed, P3: Typed, R> TaskBuildNew<F, (P1, P2, P3), R> for (F, TaskId) {
    open spec fn body_of(&self) -> F {
        self.0
    }

    open spec fn id_of(&self) -> TaskId {
        self.1
    }

    open spec fn params() -> Seq<TypeTag> {
        seq![P1::tag_of(), P2::tag_of(), P3::tag_of()]
    }

    fn into_task(self) -> (r: TaskNeed<F, PassthroughMapFn<R>, (P1, P2, P3), R, (R,)>) {
        let decl: Vec<TypeTag> = vec![P1::type_tag(), P2::type_tag(), P3::type_tag()];
        proof {
            assert(decl@ =~= Self::params());
        }
        let id = self.1;
        TaskNeed::build(self.0, decl, id, Kind::Normal)
    }

    fn into_exit_task(self) -> (r: TaskNeed<F, PassthroughMapFn<R>, (P1, P2, P3), R, (R,)>) {
        let decl: Vec<TypeTag> = vec![P1::type_tag(), P2::type_tag(), P3::type_tag()];
        proof {
            assert(decl@ =~= Self::params());
        }
        let id = self.1;
        TaskNeed::build(self.0, decl, id, Kind::Exit)
    }
}

impl<F: FnOnce(P1, P2, P3, P4) -> R, P1: Typed, P2: Typed, P3: Typed, P4: Typed, R> TaskBuildNew<F, (P1, P2, P3, P4), R> for F {
    open spec fn body_of(&self) -> F {
        *self
    }

    open spec fn id_of(&self) -> TaskId {
        TaskId { id: 0 }
    }

    open spec fn params() -> Seq<TypeTag> {
        seq![P1::tag_of(), P2::tag_of(), P3::tag_of(), P4::tag_of()]
    }

    fn into_task(self) -> (r: TaskNeed<F, PassthroughMapFn<R>, (P1, P2, P3, P4), R, (R,)>) {
        let decl: Vec<TypeTag> = vec![P1::type_tag(), P2::type_tag(), P3::type_tag(), P4::type_tag()];
        proof {
            assert(decl@ =~= Self::params());
        }
        let id = TaskId::none();
        TaskNeed::build(self, decl, id, Kind::Normal)
    }

    fn into_exit_task(self) -> (r: TaskNeed<F, PassthroughMapFn<R>, (P1, P2, P3, P4), R, (R,)>) {
        let decl: Vec<TypeTag> = vec![P1::type_tag(), P2::type_tag(), P3::type_tag(), P4::type_tag()];
        proof {
            assert(decl@ =~= Self::params());
        }
        let id = TaskId::none();
        TaskNeed::build(self, decl, id, Kind::Exit)
    }
}

impl<F: FnOnce(P1, P2, P3, P4) -> R, P1: Typed, P2: Typed, P3: Typed, P4: Typed, R> TaskBuildNew<F, (P1, P2, P3, P4), R> for (F, TaskId) {
    open spec fn body_of(&self) -> F {
        self.0
    }

    open spec fn id_of(&self) -> TaskId {
        self.1
    }

    open spec fn params() -> Seq<TypeTag> {
        seq![P1::tag_of(), P2::tag_of(), P3::tag_of(), P4::tag_of()]
    }

    fn into_task(self) -> (r: TaskNeed<F, PassthroughMapFn<R>, (P1, P2, P3, P4), R, (R,)>) {
        let decl: Vec<TypeTag> = vec![P1::type_tag(), P2::type_tag(), P3::type_tag(), P4::type_tag()];
        proof {
            assert(decl@ =~= Self::params());
        }
        let id = self.1;
        TaskNeed::build(self.0, decl, id, Kind::Normal)
    }

    fn into_exit_task(self) -> (r: TaskNeed<F, PassthroughMapFn<R>, (P1, P2, P3, P4), R, (R,)>) {
        let decl: Vec<TypeTag> = vec![P1::type_tag(), P2::type_tag(), P3::type_tag(), P4::type_tag()];
        proof {
            assert(decl@ =~= Self::params());
        }
        let id = self.1;
        TaskNeed::build(self.0, decl, id, Kind::Exit)
    }
}

impl<F: FnOnce(P1, P2, P3, P4, P5) -> R, P1: Typed, P2: Typed, P3: Typed, P4: Typed, P5: Typed, R> TaskBuildNew<F, (P1, P2, P3, P4, P5), R> for F {
    open spec fn body_of(&self) -> F {
        *self
    }

    open spec fn id_of(&self) -> TaskId {
        TaskId { id: 0 }
    }

    open spec fn params() -> Seq<TypeTag> {
        seq![P1::tag_of(), P2::tag_of(), P3::tag_of(), P4::tag_of(), P5::tag_of()]
    }

    fn into_task(self) -> (r: TaskNeed<F, PassthroughMapFn<R>, (P1, P2, P3, P4, P5), R, (R,)>) {
        let decl: Vec<TypeTag> = vec![P1::type_tag(), P2::type_tag(), P3::type_tag(), P4::type_tag(), P5::type_tag()];
        proof {
            assert(decl@ =~= Self::params());
        }
        let id = TaskId::none();
        TaskNeed::build(self, decl, id, Kind::Normal)
    }

    fn into_exit_task(self) -> (r: TaskNeed<F, PassthroughMapFn<R>, (P1, P2, P3, P4, P5), R, (R,)>) {
        let decl: Vec<TypeTag> = vec![P1::type_tag(), P2::type_tag(), P3::type_tag(), P4::type_tag(), P5::type_tag()];
        proof {
            assert(decl@ =~= Self::params());
        }
        let id = TaskId::none();
        TaskNeed::build(self, decl, id, Kind::Exit)
    }
}

impl<F: FnOnce(P1, P2, P3, P4, P5) -> R, P1: Typed, P2: Typed, P3: Typed, P4: Typed, P5: Typed, R> TaskBuildNew<F, (P1, P2, P3, P4, P5), R> for (F, TaskId) {
    open spec fn body_of(&self) -> F {
        self.0
    }

    open spec fn id_of(&self) -> TaskId {
        self.1
    }

    open spec fn params() -> Seq<TypeTag> {
        seq![P1::tag_of(), P2::tag_of(), P3::tag_of(), P4::tag_of(), P5::tag_of()]
    }

    fn into_task(self) -> (r: TaskNeed<F, PassthroughMapFn<R>, (P1, P2, P3, P4, P5), R, (R,)>) {
        let decl: Vec<TypeTag> = vec![P1::type_tag(), P2::type_tag(), P3::type_tag(), P4::type_tag(), P5::type_tag()];
        proof {
            assert(decl@ =~= Self::params());
        }
        let id = self.1;
        TaskNeed::build(self.0, decl, id, Kind::Normal)
    }

    fn into_exit_task(self) -> (r: TaskNeed<F, PassthroughMapFn<R>, (P1, P2, P3, P4, P5), R, (R,)>) {
        let decl: Vec<TypeTag> = vec![P1::type_tag(), P2::type_tag(), P3::type_tag(), P4::type_tag(), P5::type_tag()];
        proof {
            assert(decl@ =~= Self::params());
        }
        let id = self.1;
        TaskNeed::build(self.0, decl, id, Kind::Exit)
    }
}

impl<F: FnOnce(P1, P2, P3, P4, P5, P6) -> R, P1: Typed, P2: Typed, P3: Typed, P4: Typed, P5: Typed, P6: Typed, R> TaskBuildNew<F, (P1, P2, P3, P4, P5, P6), R> for F {
    open spec fn body_of(&self) -> F {
        *self
    }

    open spec fn id_of(&self) -> TaskId {
        TaskId { id: 0 }
    }

    open spec fn params() -> Seq<TypeTag> {
        seq![P1::tag_of(), P2::tag_of(), P3::tag_of(), P4::tag_of(), P5::tag_of(), P6::tag_of()]
    }

    fn into_task(self) -> (r: TaskNeed<F, PassthroughMapFn<R>, (P1, P2, P3, P4, P5, P6), R, (R,)>) {
        let decl: Vec<TypeTag> = vec![P1::type_tag(), P2::type_tag(), P3::type_tag(), P4::type_tag(), P5::type_tag(), P6::type_tag()];
        proof {
            assert(decl@ =~= Self::params());
        }
        let id = TaskId::none();
        TaskNeed::build(self, decl, id, Kind::Normal)
    }

    fn into_exit_task(self) -> (r: TaskNeed<F, PassthroughMapFn<R>, (P1, P2, P3, P4, P5, P6), R, (R,)>) {
        let decl: Vec<TypeTag> = vec![P1::type_tag(), P2::type_tag(), P3::type_tag(), P4::type_tag(), P5::type_tag(), P6::type_tag()];
        proof {
            assert(decl@ =~= Self::params());
        }
        let id = TaskId::none();
        TaskNeed::build(self, decl, id, Kind::Exit)
    }
}

impl<F: FnOnce(P1, P2, P3, P4, P5, P6) -> R, P1: Typed, P2: Typed, P3: Typed, P4: Typed, P5: Typed, P6: Typed, R> TaskBuildNew<F, (P1, P2, P3, P4, P5, P6), R> for (F, TaskId) {
    open spec fn body_of(&self) -> F {
        self.0
    }

    open spec fn id_of(&self) -> TaskId {
        self.1
    }

    open spec fn params() -> Seq<TypeTag> {
        seq![P1::tag_of(), P2::tag_of(), P3::tag_of(), P4::tag_of(), P5::tag_of(), P6::tag_of()]
    }

    fn into_task(self) -> (r: TaskNeed<F, PassthroughMapFn<R>, (P1, P2, P3, P4, P5, P6), R, (R,)>) {
        let decl: Vec<TypeTag> = vec![P1::type_tag(), P2::type_tag(), P3::type_tag(), P4::type_tag(), P5::type_tag(), P6::type_tag()];
        proof {
            assert(decl@ =~= Self::params());
        }
        let id = self.1;
        TaskNeed::build(self.0, decl, id, Kind::Normal)
    }

    fn into_exit_task(self) -> (r: TaskNeed<F, PassthroughMapFn<R>, (P1, P2, P3, P4, P5, P6), R, (R,)>) {
        let decl: Vec<TypeTag> = vec![P1::type_tag(), P2::type_tag(), P3::type_tag(), P4::type_tag(), P5::type_tag(), P6::type_tag()];
        proof {
            assert(decl@ =~= Self::params());
        }
        let id = self.1;
        TaskNeed::build(self.0, decl, id, Kind::Exit)
    }
}

impl<F: FnOnce(P1, P2, P3, P4, P5, P6, P7) -> R, P1: Typed, P2: Typed, P3: Typed, P4: Typed, P5: Typed, P6: Typed, P7: Typed, R> TaskBuildNew<F, (P1, P2, P3, P4, P5, P6, P7), R> for F {
    open spec fn body_of(&self) -> F {
        *self
    }

    open spec fn id_of(&self) -> TaskId {
        TaskId { id: 0 }
    }

    open spec fn params() -> Seq<TypeTag> {
        seq![P1::tag_of(), P2::tag_of(), P3::tag_of(), P4::tag_of(), P5::tag_of(), P6::tag_of(), P7::tag_of()]
    }

    fn into_task(self) -> (r: TaskNeed<F, PassthroughMapFn<R>, (P1, P2, P3, P4, P5, P6, P7), R, (R,)>) {
        let decl: Vec<TypeTag> = vec![P1::type_tag(), P2::type_tag(), P3::type_tag(), P4::type_tag(), P5::type_tag(), P6::type_tag(), P7::type_tag()];
        proof {
            assert(decl@ =~= Self::params());
        }
        let id = TaskId::none();
        TaskNeed::build(self, decl, id, Kind::Normal)
    }

    fn into_exit_task(self) -> (r: TaskNeed<F, PassthroughMapFn<R>, (P1, P2, P3, P4, P5, P6, P7), R, (R,)>) {
        let decl: Vec<TypeTag> = vec![P1::type_tag(), P2::type_tag(), P3::type_tag(), P4::type_tag(), P5::type_tag(), P6::type_tag(), P7::type_tag()];
        proof {
            assert(decl@ =~= Self::params());
        }
        let id = TaskId::none();
        TaskNeed::build(self, decl, id, Kind::Exit)
    }
}

impl<F: FnOnce(P1, P2, P3, P4, P5, P6, P7) -> R, P1: Typed, P2: Typed, P3: Typed, P4: Typed, P5: Typed, P6: Typed, P7: Typed, R> TaskBuildNew<F, (P1, P2, P3, P4, P5, P6, P7), R> for (F, TaskId) {
    open spec fn body_of(&self) -> F {
        self.0
    }

    open spec fn id_of(&self) -> TaskId {
        self.1
    }

    open spec fn params() -> Seq<TypeTag> {
        seq![P1::tag_of(), P2::tag_of(), P3::tag_of(), P4::tag_of(), P5::tag_of(), P6::tag_of(), P7::tag_of()]
    }

    fn into_task(self) -> (r: TaskNeed<F, PassthroughMapFn<R>, (P1, P2, P3, P4, P5, P6, P7), R, (R,)>) {
        let decl: Vec<TypeTag> = vec![P1::type_tag(), P2::type_tag(), P3::type_tag(), P4::type_tag(), P5::type_tag(), P6::type_tag(), P7::type_tag()];
        proof {
            assert(decl@ =~= Self::params());
        }
        let id = self.1;
        TaskNeed::build(self.0, decl, id, Kind::Normal)
    }

    fn into_exit_task(self) -> (r: TaskNeed<F, PassthroughMapFn<R>, (P1, P2, P3, P4, P5, P6, P7), R, (R,)>) {
        let decl: Vec<TypeTag> = vec![P1::type_tag(), P2::type_tag(), P3::type_tag(), P4::type_tag(), P5::type_tag(), P6::type_tag(), P7::type_tag()];
        proof {
            assert(decl@ =~= Self::params());
        }
        let id = self.1;
        TaskNeed::build(self.0, decl, id, Kind::Exit)
    }
}

impl<F: FnOnce(P1, P2, P3, P4, P5, P6, P7, P8) -> R, P1: Typed, P2: Typed, P3: Typed, P4: Typed, P5: Typed, P6: Typed, P7: Typed, P8: Typed, R> TaskBuildNew<F, (P1, P2, P3, P4, P5, P6, P7, P8), R> for F {
    open spec fn body_of(&self) -> F {
        *self
    }

    open spec fn id_of(&self) -> TaskId {
        TaskId { id: 0 }
    }

    open spec fn params() -> Seq<TypeTag> {
        seq![P1::tag_of(), P2::tag_of(), P3::tag_of(), P4::tag_of(), P5::tag_of(), P6::tag_of(), P7::tag_of(), P8::tag_of()]
    }

    fn into_task(self) -> (r: TaskNeed<F, PassthroughMapFn<R>, (P1, P2, P3, P4, P5, P6, P7, P8), R, (R,)>) {
        let decl: Vec<TypeTag> = vec![P1::type_tag(), P2::type_tag(), P3::type_tag(), P4::type_tag(), P5::type_tag(), P6::type_tag(), P7::type_tag(), P8::type_tag()];
        proof {
            assert(decl@ =~= Self::params());
        }
        let id = TaskId::none();
        TaskNeed::build(self, decl, id, Kind::Normal)
    }

    fn into_exit_task(self) -> (r: TaskNeed<F, PassthroughMapFn<R>, (P1, P2, P3, P4, P5, P6, P7, P8), R, (R,)>) {
        let decl: Vec<TypeTag> = vec![P1::type_tag(), P2::type_tag(), P3::type_tag(), P4::type_tag(), P5::type_tag(), P6::type_tag(), P7::type_tag(), P8::type_tag()];
        proof {
            assert(decl@ =~= Self::params());
        }
        let id = TaskId::none();
        TaskNeed::build(self, decl, id, Kind::Exit)
    }
}

impl<F: FnOnce(P1, P2, P3, P4, P5, P6, P7, P8) -> R, P1: Typed, P2: Typed, P3: Typed, P4: Typed, P5: Typed, P6: Typed, P7: Typed, P8: Typed, R> TaskBuildNew<F, (P1, P2, P3, P4, P5, P6, P7, P8), R> for (F, TaskId) {
    open spec fn body_of(&self) -> F {
        self.0
    }

    open spec fn id_of(&self) -> TaskId {
        self.1
    }

    open spec fn params() -> Seq<TypeTag> {
        seq![P1::tag_of(), P2::tag_of(), P3::tag_of(), P4::tag_of(), P5::tag_of(), P6::tag_of(), P7::tag_of(), P8::tag_of()]
    }

    fn into_task(self) -> (r: TaskNeed<F, PassthroughMapFn<R>, (P1, P2, P3, P4, P5, P6, P7, P8), R, (R,)>) {
        let decl: Vec<TypeTag> = vec![P1::type_tag(), P2::type_tag(), P3::type_tag(), P4::type_tag(), P5::type_tag(), P6::type_tag(), P7::type_tag(), P8::type_tag()];
        proof {
            assert(decl@ =~= Self::params());
        }
        let id = self.1;
        TaskNeed::build(self.0, decl, id, Kind::Normal)
    }

    fn into_exit_task(self) -> (r: TaskNeed<F, PassthroughMapFn<R>, (P1, P2, P3, P4, P5, P6, P7, P8), R, (R,)>) {
        let decl: Vec<TypeTag> = vec![P1::type_tag(), P2::type_tag(), P3::type_tag(), P4::type_tag(), P5::type_tag(), P6::type_tag(), P7::type_tag(), P8::type_tag()];
        proof {
            assert(decl@ =~= Self::params());
        }
        let id = self.1;
        TaskNeed::build(self.0, decl, id, Kind::Exit)
    }
}

/// Fan-out to a single target is binding: the addresses that
/// [`TaskNeed::bind_all_to`] records for a one-element tuple `(ca,)` are the
/// ones [`TaskNeed::bind_to`] records for `ca`.
pub proof fn lemma_single_fan_out_is_bind_to<T>(ca: CondAddr<T>)
    ensures
        (ca,).anchors_spec() == seq![ca.anchor_spec()],
{
}

} // verus!
