//! The callable carrier: a task body together with its table of input slots.
//!
//! The carrier never calls the body. It records the declared type of every
//! parameter, accepts a slot write only when the value's runtime type equals
//! the declared one, and hands body and arguments out together, once, when
//! every slot is filled.
use crate::value::{TypeTag, Value};
use vstd::prelude::*;

verus! {

/// The largest number of parameters a task may declare.
pub const MAX_ARITY: usize = 8;

/// The arguments held by a full slot table, in parameter order.
pub open spec fn unwrap_all(s: Seq<Option<Value>>) -> Seq<Value> {
    s.map_values(|o: Option<Value>| o.unwrap())
}

/// Every slot of the table is filled.
pub open spec fn all_filled(s: Seq<Option<Value>>) -> bool {
    forall|i: int| 0 <= i < s.len() ==> (#[trigger] s[i]).is_some()
}

/// A task body `f` plus one optional slot per declared parameter type.
pub struct Currier<B> {
    f: B,
    decl: Vec<TypeTag>,
    slots: Vec<Option<Value>>,
}

impl<B> Currier<B> {
    /// The declared parameter types, in order.
    pub closed spec fn decl(&self) -> Seq<TypeTag> {
        self.decl@
    }

    /// The slot table, in parameter order.
    pub closed spec fn slots(&self) -> Seq<Option<Value>> {
        self.slots@
    }

    /// The body that will be called with the arguments.
    pub closed spec fn body(&self) -> B {
        self.f
    }

    /// One slot per declared parameter, at most eight of them.
    pub open spec fn wf(&self) -> bool {
        &&& self.decl().len() == self.slots().len()
        &&& self.decl().len() <= MAX_ARITY
    }

    /// A carrier for body `f` with parameters of the types `decl`, all slots
    /// empty.
    pub fn from(f: B, decl: Vec<TypeTag>) -> (r: Currier<B>)
        requires
            decl@.len() <= MAX_ARITY,
        ensures
            r.body() == f,
            r.decl() == decl@,
            r.slots() == Seq::new(decl@.len(), |i: int| None::<Value>),
            r.wf(),
    {
        let n = decl.len();
        let mut slots: Vec<Option<Value>> = Vec::new();
        let mut k: usize = 0;
        while k < n
            invariant
                k <= n,
                slots@ == Seq::new(k as nat, |i: int| None::<Value>),
            decreases n - k,
        {
            slots.push(None);
            k = k + 1;
        }
        proof {
            assert(slots@ =~= Seq::new(decl@.len(), |i: int| None::<Value>));
        }
        Currier { f, decl, slots }
    }

    /// The declared number of parameters (0 to 8).
    pub fn count(&self) -> (r: usize)
        ensures
            r == self.decl().len(),
            self.wf() ==> r == self.slots().len() && r <= MAX_ARITY,
    {
        self.decl.len()
    }

    /// The declared type of parameter `i`, if there is such a parameter.
    pub fn typename(&self, i: usize) -> (r: Option<TypeTag>)
        ensures
            i < self.decl().len() ==> r == Some(self.decl()[i as int]),
            i >= self.decl().len() ==> r.is_none(),
    {
        if i < self.decl.len() {
            Some(self.decl[i])
        } else {
            None
        }
    }

    /// Writes `value` into slot `i` when `i` is a parameter position and the
    /// value's runtime type is the declared type there. Returns whether it
    /// did; otherwise nothing changes.
    pub fn set(&mut self, i: usize, value: Value) -> (r: bool)
        ensures
            old(self).wf() ==> r == (i < old(self).decl().len() && value.tag_spec()
                == old(self).decl()[i as int]),
            final(self).decl() == old(self).decl(),
            final(self).body() == old(self).body(),
            r ==> final(self).slots() == old(self).slots().update(i as int, Some(value)),
            !r ==> final(self).slots() == old(self).slots(),
            old(self).wf() ==> final(self).wf(),
    {
        if i >= self.decl.len() || i >= self.slots.len() {
            return false;
        }
        if value.tag() != self.decl[i] {
            return false;
        }
        self.slots.set(i, Some(value));
        true
    }

    /// Whether every slot holds a value.
    pub fn is_full(&self) -> (r: bool)
        ensures
            r == all_filled(self.slots()),
    {
        let n = self.slots.len();
        let mut k: usize = 0;
        while k < n
            invariant
                k <= n,
                n == self.slots@.len(),
                forall|j: int| 0 <= j < k ==> (#[trigger] self.slots@[j]).is_some(),
            decreases n - k,
        {
            if self.slots[k].is_none() {
                return false;
            }
            k = k + 1;
        }
        true
    }

    /// Whether no slot holds a value yet.
    pub fn is_empty(&self) -> (r: bool)
        ensures
            r == forall|j: int| 0 <= j < self.slots().len() ==> (#[trigger] self.slots()[j]).is_none(),
    {
        let n = self.slots.len();
        let mut k: usize = 0;
        while k < n
            invariant
                k <= n,
                n == self.slots@.len(),
                forall|j: int| 0 <= j < k ==> (#[trigger] self.slots@[j]).is_none(),
            decreases n - k,
        {
            if self.slots[k].is_some() {
                return false;
            }
            k = k + 1;
        }
        true
    }

    /// Exchanges the body for `g`, keeping the slot table.
    pub fn replace_body<B2>(self, g: B2) -> (r: (B, Currier<B2>))
        ensures
            r.0 == self.body(),
            r.1.body() == g,
            r.1.decl() == self.decl(),
            r.1.slots() == self.slots(),
            r.1.wf() == self.wf(),
    {
        let Currier { f, decl, slots } = self;
        (f, Currier { f: g, decl, slots })
    }

    /// Consumes the carrier and hands out the body with its arguments, in
    /// parameter order. Only a full carrier can be taken apart.
    pub fn into_call(self) -> (r: (B, Vec<Value>))
        requires
            all_filled(self.slots()),
        ensures
            r.0 == self.body(),
            r.1@ == unwrap_all(self.slots()),
    {
        let Currier { f, decl, slots } = self;
        let ghost orig = slots@;
        let mut rest = slots;
        let mut args: Vec<Value> = Vec::new();
        while rest.len() > 0
            invariant
                all_filled(orig),
                args@.len() + rest@.len() == orig.len(),
                rest@ == orig.skip(args@.len() as int),
                args@ == unwrap_all(orig.take(args@.len() as int)),
            decreases rest@.len(),
        {
            let ghost k = args@.len() as int;
            let slot = rest.remove(0);
            assert(slot == orig[k]);
            match slot {
                Some(v) => {
                    args.push(v);
                },
                None => {
                    assert(orig[k].is_some());
                },
            }
            proof {
                assert(rest@ =~= orig.skip(k + 1));
                assert(orig.take(k + 1) =~= orig.take(k).push(orig[k]));
                assert(args@ =~= unwrap_all(orig.take(k + 1)));
            }
        }
        proof {
            assert(orig.take(orig.len() as int) =~= orig);
        }
        (f, args)
    }
}

} // verus!
