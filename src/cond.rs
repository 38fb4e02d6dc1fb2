//! Logical addresses of task conditions.
//!
//! A condition is one typed input slot of a task. [`CondAddr<T>`] names it by
//! task id, section and argument index; `T` is the type the slot expects.
//! An address is a pure descriptor: it gives no access to the data.
use core::marker::PhantomData;
use vstd::prelude::*;

verus! {

/// Identifier of a task. Zero is reserved and means "no task".
#[derive(Clone, Copy, Debug, PartialEq, Eq, Structural)]
pub struct TaskId {
    pub id: usize,
}

impl TaskId {
    /// The absent id, used by tasks that have no conditions.
    pub fn none() -> (r: TaskId)
        ensures
            r.id == 0,
    {
        TaskId { id: 0 }
    }

    pub open spec fn view(self) -> nat {
        self.id as nat
    }

    /// True for an id that names a task (nonzero).
    pub open spec fn is_present(self) -> bool {
        self.id != 0
    }

    /// Builds an id from a raw number; zero gives the absent id.
    pub fn new(id: usize) -> (r: TaskId)
        ensures
            r.id == id,
    {
        TaskId { id }
    }

    /// The raw number of this id (zero for the absent id).
    pub fn as_usize(&self) -> (r: usize)
        ensures
            r == self.id,
    {
        self.id
    }

    /// Whether this id names a task.
    pub fn is_some(&self) -> (r: bool)
        ensures
            r == self.is_present(),
    {
        self.id != 0
    }
}

impl From<usize> for TaskId {
    /// Zero is reserved: `from(0)` yields the absent id, which can never be
    /// the target of a binding.
    fn from(id: usize) -> (r: TaskId)
        ensures
            r.id == id,
    {
        TaskId::new(id)
    }
}

impl vstd::std_specs::convert::FromSpecImpl<usize> for TaskId {
    open spec fn obeys_from_spec() -> bool {
        true
    }

    open spec fn from_spec(id: usize) -> TaskId {
        TaskId { id }
    }
}

/// Zero-based index of a parameter; `T` is the parameter's type.
#[derive(Debug)]
pub struct ArgIdx<T> {
    pub i: u8,
    pub ty: PhantomData<T>,
}

/// The sentinel index used by the empty address.
pub const AI_NONE: u8 = 255;

impl<T> ArgIdx<T> {

    pub open spec fn view(self) -> u8 {
        self.i
    }

    /// An index with the given position.
    pub fn const_new(i: u8) -> (r: ArgIdx<T>)
        ensures
            r.i == i,
    {
        ArgIdx { i, ty: PhantomData }
    }

    /// The position of this index.
    pub fn i(&self) -> (r: u8)
        ensures
            r == self.i,
    {
        self.i
    }

    /// A copy of this index.
    pub fn duplicate(&self) -> (r: ArgIdx<T>)
        ensures
            r.i == self.i,
    {
        ArgIdx { i: self.i, ty: PhantomData }
    }
}

impl<T> From<u8> for ArgIdx<T> {
    fn from(i: u8) -> (r: ArgIdx<T>)
        ensures
            r.i == i,
    {
        ArgIdx::const_new(i)
    }
}

impl<T> vstd::std_specs::convert::FromSpecImpl<u8> for ArgIdx<T> {
    open spec fn obeys_from_spec() -> bool {
        true
    }

    open spec fn from_spec(i: u8) -> ArgIdx<T> {
        ArgIdx { i, ty: PhantomData }
    }
}

impl<T> PartialEq for ArgIdx<T> {
    fn eq(&self, o: &ArgIdx<T>) -> (r: bool)
        ensures
            r == (self.i == o.i),
    {
        self.i == o.i
    }
}

impl<T> vstd::std_specs::cmp::PartialEqSpecImpl for ArgIdx<T> {
    open spec fn obeys_eq_spec() -> bool {
        true
    }

    open spec fn eq_spec(&self, o: &ArgIdx<T>) -> bool {
        self.i == o.i
    }
}

/// Which side of a task's interface an address points at.
/// Callers only use `Input`; `Output` is reserved.
#[derive(Clone, Copy, Debug, PartialEq, Eq, Structural)]
pub enum Section {
    Input,
    Output,
}

/// An untyped address: the task id and argument index of a condition.
/// This is what the engine routes by once the compile-time type is gone.
#[derive(Clone, Copy, Debug, PartialEq, Eq, Structural)]
pub struct Anchor {
    pub taskid: TaskId,
    pub argidx: u8,
}

/// Logical address of one condition: task id, section and argument index,
/// tagged with the type `T` that the slot expects.
#[derive(Debug)]
pub struct CondAddr<T> {
    pub taskid: TaskId,
    pub section: Section,
    pub argidx: ArgIdx<T>,
}

impl<T> PartialEq for CondAddr<T> {
    fn eq(&self, o: &CondAddr<T>) -> (r: bool)
        ensures
            r == (self.taskid == o.taskid && self.section == o.section && self.argidx.i
                == o.argidx.i),
    {
        self.taskid == o.taskid && self.section == o.section && self.argidx.i == o.argidx.i
    }
}

impl<T> vstd::std_specs::cmp::PartialEqSpecImpl for CondAddr<T> {
    open spec fn obeys_eq_spec() -> bool {
        true
    }

    open spec fn eq_spec(&self, o: &CondAddr<T>) -> bool {
        self.taskid == o.taskid && self.section == o.section && self.argidx.i == o.argidx.i
    }
}

impl<T> CondAddr<T> {
    /// The untyped address that this typed address denotes.
    pub open spec fn anchor_spec(self) -> Anchor {
        Anchor { taskid: self.taskid, argidx: self.argidx.i }
    }

    /// The address that points at no condition.
    pub fn none() -> (r: CondAddr<T>)
        ensures
            r.taskid.id == 0,
            r.section == Section::Input,
            r.argidx.i == AI_NONE,
    {
        CondAddr { taskid: TaskId::none(), section: Section::Input, argidx: ArgIdx::const_new(AI_NONE) }
    }

    /// The input address at position `i` of a task whose id is not known yet.
    pub fn new(i: u8) -> (r: CondAddr<T>)
        ensures
            r.taskid.id == 0,
            r.section == Section::Input,
            r.argidx.i == i,
    {
        CondAddr { taskid: TaskId::none(), section: Section::Input, argidx: ArgIdx::const_new(i) }
    }

    /// The address made of the three components.
    pub fn from_parts(taskid: TaskId, section: Section, argidx: ArgIdx<T>) -> (r: CondAddr<T>)
        ensures
            r.taskid == taskid,
            r.section == section,
            r.argidx.i == argidx.i,
    {
        CondAddr { taskid, section, argidx }
    }

    pub fn taskid(&self) -> (r: TaskId)
        ensures
            r == self.taskid,
    {
        self.taskid
    }

    pub fn section(&self) -> (r: &Section)
        ensures
            *r == self.section,
    {
        &self.section
    }

    pub fn argidx(&self) -> (r: &ArgIdx<T>)
        ensures
            r.i == self.argidx.i,
    {
        &self.argidx
    }

    /// Replaces all three components.
    pub fn set(&mut self, id: TaskId, section: Section, i: ArgIdx<T>)
        ensures
            final(self).taskid == id,
            final(self).section == section,
            final(self).argidx.i == i.i,
    {
        self.taskid = id;
        self.section = section;
        self.argidx = i;
    }

    /// Replaces the task id, keeping section and index.
    pub fn set_taskid(&mut self, id: TaskId)
        ensures
            final(self).taskid == id,
            final(self).section == old(self).section,
            final(self).argidx.i == old(self).argidx.i,
    {
        self.taskid = id;
    }

    /// The untyped address of this condition.
    pub fn anchor(&self) -> (r: Anchor)
        ensures
            r == self.anchor_spec(),
    {
        Anchor { taskid: self.taskid, argidx: self.argidx.i }
    }

    /// A copy of this address.
    pub fn duplicate(&self) -> (r: CondAddr<T>)
        ensures
            r.taskid == self.taskid,
            r.section == self.section,
            r.argidx.i == self.argidx.i,
    {
        CondAddr { taskid: self.taskid, section: self.section, argidx: self.argidx.duplicate() }
    }
}

impl<T> From<(TaskId, Section, ArgIdx<T>)> for CondAddr<T> {
    fn from(parts: (TaskId, Section, ArgIdx<T>)) -> (r: CondAddr<T>)
        ensures
            r.taskid == parts.0,
            r.section == parts.1,
            r.argidx.i == parts.2.i,
    {
        let (taskid, section, argidx) = parts;
        CondAddr { taskid, section, argidx }
    }
}

impl<T> vstd::std_specs::convert::FromSpecImpl<(TaskId, Section, ArgIdx<T>)> for CondAddr<T> {
    open spec fn obeys_from_spec() -> bool {
        false
    }

    open spec fn from_spec(parts: (TaskId, Section, ArgIdx<T>)) -> CondAddr<T> {
        CondAddr { taskid: parts.0, section: parts.1, argidx: parts.2 }
    }
}

} // verus!
