//! Positional typing of tuples.
//!
//! [`TupleAt<I>`] names the type of element `I` of a tuple, so that a task's
//! parameter tuple yields a typed [`CondAddr`] for each of its inputs.
//! [`TupleCondAddr`] pairs a result tuple with the tuple of addresses its
//! elements are bound to.
use crate::cond::{Anchor, CondAddr, TaskId};
use vstd::prelude::*;

verus! {

/// Element `I` of a tuple, by type and by reference.
pub trait TupleAt<const I: u8> {
    type EleT;

    fn value_at(&self) -> (r: &Self::EleT);
}

/// A tuple of typed addresses, one per element of a result tuple.
pub trait AnchorTuple {
    /// The untyped addresses, in element order.
    spec fn anchors_spec(&self) -> Seq<Anchor>;

    fn anchors(&self) -> (r: Vec<Anchor>)
        ensures
            r@ == self.anchors_spec(),
    ;
}

/// `n` addresses of no task, at positions `0..n`: a result tuple that is
/// not bound anywhere yet.
pub open spec fn unbound(n: nat) -> Seq<Anchor> {
    Seq::new(n, |i: int| Anchor { taskid: TaskId { id: 0 }, argidx: i as u8 })
}

/// A result tuple and the type of the address tuple that binds it.
pub trait TupleCondAddr {
    type TCA: AnchorTuple;

    /// The number of elements.
    spec fn width() -> nat;

    /// Element `i` bound to input `i` of a task not known yet.
    fn one_to_one() -> (r: Self::TCA)
        ensures
            r.anchors_spec() == unbound(Self::width()),
    ;
}

impl AnchorTuple for () {
    open spec fn anchors_spec(&self) -> Seq<Anchor> {
        Seq::empty()
    }

    fn anchors(&self) -> (r: Vec<Anchor>) {
        Vec::new()
    }
}

impl TupleCondAddr for () {
    type TCA = ();

    open spec fn width() -> nat {
        0
    }

    fn one_to_one() -> (r: ()) {
        proof {
            assert(unbound(0) =~= Seq::<Anchor>::empty());
        }
    }
}

impl<T1> TupleAt<0> for (T1,) {
    type EleT = T1;

    fn value_at(&self) -> (r: &T1)
    {
        &self.0
    }
}

impl<T1> AnchorTuple for (CondAddr<T1>,) {
    open spec fn anchors_spec(&self) -> Seq<Anchor> {
        seq![self.0.anchor_spec()]
    }

    fn anchors(&self) -> (r: Vec<Anchor>) {
        let r = vec![self.0.anchor()];
        proof {
            assert(r@ =~= self.anchors_spec());
        }
        r
    }
}

impl<T1> TupleCondAddr for (T1,) {
    type TCA = (CondAddr<T1>,);

    open spec fn width() -> nat {
        1
    }

    fn one_to_one() -> (r: (CondAddr<T1>,)) {
        let r = (CondAddr::new(0),);
        proof {
            assert(r.anchors_spec() =~= unbound(1));
        }
        r
    }
}

impl<T1, T2> TupleAt<0> for (T1, T2) {
    type EleT = T1;

    fn value_at(&self) -> (r: &T1)
    {
        &self.0
    }
}

impl<T1, T2> TupleAt<1> for (T1, T2) {
    type EleT = T2;

    fn value_at(&self) -> (r: &T2)
    {
        &self.1
    }
}

impl<T1, T2> AnchorTuple for (CondAddr<T1>, CondAddr<T2>) {
    open spec fn anchors_spec(&self) -> Seq<Anchor> {
        seq![self.0.anchor_spec(), self.1.anchor_spec()]
    }

    fn anchors(&self) -> (r: Vec<Anchor>) {
        let r = vec![self.0.anchor(), self.1.anchor()];
        proof {
            assert(r@ =~= self.anchors_spec());
        }
        r
    }
}

impl<T1, T2> TupleCondAddr for (T1, T2) {
    type TCA = (CondAddr<T1>, CondAddr<T2>);

    open spec fn width() -> nat {
        2
    }

    fn one_to_one() -> (r: (CondAddr<T1>, CondAddr<T2>)) {
        let r = (CondAddr::new(0), CondAddr::new(1));
        proof {
            assert(r.anchors_spec() =~= unbound(2));
        }
        r
    }
}

impl<T1, T2, T3> TupleAt<0> for (T1, T2, T3) {
    type EleT = T1;

    fn value_at(&self) -> (r: &T1)
    {
        &self.0
    }
}

impl<T1, T2, T3> TupleAt<1> for (T1, T2, T3) {
    type EleT = T2;

    fn value_at(&self) -> (r: &T2)
    {
        &self.1
    }
}

impl<T1, T2, T3> TupleAt<2> for (T1, T2, T3) {
    type EleT = T3;

    fn value_at(&self) -> (r: &T3)
    {
        &self.2
    }
}

impl<T1, T2, T3> AnchorTuple for (CondAddr<T1>, CondAddr<T2>, CondAddr<T3>) {
    open spec fn anchors_spec(&self) -> Seq<Anchor> {
        seq![self.0.anchor_spec(), self.1.anchor_spec(), self.2.anchor_spec()]
    }

    fn anchors(&self) -> (r: Vec<Anchor>) {
        let r = vec![self.0.anchor(), self.1.anchor(), self.2.anchor()];
        proof {
            assert(r@ =~= self.anchors_spec());
        }
        r
    }
}

impl<T1, T2, T3> TupleCondAddr for (T1, T2, T3) {
    type TCA = (CondAddr<T1>, CondAddr<T2>, CondAddr<T3>);

    open spec fn width() -> nat {
        3
    }

    fn one_to_one() -> (r: (CondAddr<T1>, CondAddr<T2>, CondAddr<T3>)) {
        let r = (CondAddr::new(0), CondAddr::new(1), CondAddr::new(2));
        proof {
            assert(r.anchors_spec() =~= unbound(3));
        }
        r
    }
}

impl<T1, T2, T3, T4> TupleAt<0> for (T1, T2, T3, T4) {
    type EleT = T1;

    fn value_at(&self) -> (r: &T1)
    {
        &self.0
    }
}

impl<T1, T2, T3, T4> TupleAt<1> for (T1, T2, T3, T4) {
    type EleT = T2;

    fn value_at(&self) -> (r: &T2)
    {
        &self.1
    }
}

impl<T1, T2, T3, T4> TupleAt<2> for (T1, T2, T3, T4) {
    type EleT = T3;

    fn value_at(&self) -> (r: &T3)
    {
        &self.2
    }
}

impl<T1, T2, T3, T4> TupleAt<3> for (T1, T2, T3, T4) {
    type EleT = T4;

    fn value_at(&self) -> (r: &T4)
    {
        &self.3
    }
}

impl<T1, T2, T3, T4> AnchorTuple for (CondAddr<T1>, CondAddr<T2>, CondAddr<T3>, CondAddr<T4>) {
    open spec fn anchors_spec(&self) -> Seq<Anchor> {
        seq![self.0.anchor_spec(), self.1.anchor_spec(), self.2.anchor_spec(), self.3.anchor_spec()]
    }

    fn anchors(&self) -> (r: Vec<Anchor>) {
        let r = vec![self.0.anchor(), self.1.anchor(), self.2.anchor(), self.3.anchor()];
        proof {
            assert(r@ =~= self.anchors_spec());
        }
        r
    }
}

impl<T1, T2, T3, T4> TupleCondAddr for (T1, T2, T3, T4) {
    type TCA = (CondAddr<T1>, CondAddr<T2>, CondAddr<T3>, CondAddr<T4>);

    open spec fn width() -> nat {
        4
    }

    fn one_to_one() -> (r: (CondAddr<T1>, CondAddr<T2>, CondAddr<T3>, CondAddr<T4>)) {
        let r = (CondAddr::new(0), CondAddr::new(1), CondAddr::new(2), CondAddr::new(3));
        proof {
            assert(r.anchors_spec() =~= unbound(4));
        }
        r
    }
}

impl<T1, T2, T3, T4, T5> TupleAt<0> for (T1, T2, T3, T4, T5) {
    type EleT = T1;

    fn value_at(&self) -> (r: &T1)
    {
        &self.0
    }
}

impl<T1, T2, T3, T4, T5> TupleAt<1> for (T1, T2, T3, T4, T5) {
    type EleT = T2;

    fn value_at(&self) -> (r: &T2)
    {
        &self.1
    }
}

impl<T1, T2, T3, T4, T5> TupleAt<2> for (T1, T2, T3, T4, T5) {
    type EleT = T3;

    fn value_at(&self) -> (r: &T3)
    {
        &self.2
    }
}

impl<T1, T2, T3, T4, T5> TupleAt<3> for (T1, T2, T3, T4, T5) {
    type EleT = T4;

    fn value_at(&self) -> (r: &T4)
    {
        &self.3
    }
}

impl<T1, T2, T3, T4, T5> TupleAt<4> for (T1, T2, T3, T4, T5) {
    type EleT = T5;

    fn value_at(&self) -> (r: &T5)
    {
        &self.4
    }
}

impl<T1, T2, T3, T4, T5> AnchorTuple for (CondAddr<T1>, CondAddr<T2>, CondAddr<T3>, CondAddr<T4>, CondAddr<T5>) {
    open spec fn anchors_spec(&self) -> Seq<Anchor> {
        seq![self.0.anchor_spec(), self.1.anchor_spec(), self.2.anchor_spec(), self.3.anchor_spec(), self.4.anchor_spec()]
    }

    fn anchors(&self) -> (r: Vec<Anchor>) {
        let r = vec![self.0.anchor(), self.1.anchor(), self.2.anchor(), self.3.anchor(), self.4.anchor()];
        proof {
            assert(r@ =~= self.anchors_spec());
        }
        r
    }
}

impl<T1, T2, T3, T4, T5> TupleCondAddr for (T1, T2, T3, T4, T5) {
    type TCA = (CondAddr<T1>, CondAddr<T2>, CondAddr<T3>, CondAddr<T4>, CondAddr<T5>);

    open spec fn width() -> nat {
        5
    }

    fn one_to_one() -> (r: (CondAddr<T1>, CondAddr<T2>, CondAddr<T3>, CondAddr<T4>, CondAddr<T5>)) {
        let r = (CondAddr::new(0), CondAddr::new(1), CondAddr::new(2), CondAddr::new(3), CondAddr::new(4));
        proof {
            assert(r.anchors_spec() =~= unbound(5));
        }
        r
    }
}

impl<T1, T2, T3, T4, T5, T6> TupleAt<0> for (T1, T2, T3, T4, T5, T6) {
    type EleT = T1;

    fn value_at(&self) -> (r: &T1)
    {
        &self.0
    }
}

impl<T1, T2, T3, T4, T5, T6> TupleAt<1> for (T1, T2, T3, T4, T5, T6) {
    type EleT = T2;

    fn value_at(&self) -> (r: &T2)
    {
        &self.1
    }
}

impl<T1, T2, T3, T4, T5, T6> TupleAt<2> for (T1, T2, T3, T4, T5, T6) {
    type EleT = T3;

    fn value_at(&self) -> (r: &T3)
    {
        &self.2
    }
}

impl<T1, T2, T3, T4, T5, T6> TupleAt<3> for (T1, T2, T3, T4, T5, T6) {
    type EleT = T4;

    fn value_at(&self) -> (r: &T4)
    {
        &self.3
    }
}

impl<T1, T2, T3, T4, T5, T6> TupleAt<4> for (T1, T2, T3, T4, T5, T6) {
    type EleT = T5;

    fn value_at(&self) -> (r: &T5)
    {
        &self.4
    }
}

impl<T1, T2, T3, T4, T5, T6> TupleAt<5> for (T1, T2, T3, T4, T5, T6) {
    type EleT = T6;

    fn value_at(&self) -> (r: &T6)
    {
        &self.5
    }
}

impl<T1, T2, T3, T4, T5, T6> AnchorTuple for (CondAddr<T1>, CondAddr<T2>, CondAddr<T3>, CondAddr<T4>, CondAddr<T5>, CondAddr<T6>) {
    open spec fn anchors_spec(&self) -> Seq<Anchor> {
        seq![self.0.anchor_spec(), self.1.anchor_spec(), self.2.anchor_spec(), self.3.anchor_spec(), self.4.anchor_spec(), self.5.anchor_spec()]
    }

    fn anchors(&self) -> (r: Vec<Anchor>) {
        let r = vec![self.0.anchor(), self.1.anchor(), self.2.anchor(), self.3.anchor(), self.4.anchor(), self.5.anchor()];
        proof {
            assert(r@ =~= self.anchors_spec());
        }
        r
    }
}

impl<T1, T2, T3, T4, T5, T6> TupleCondAddr for (T1, T2, T3, T4, T5, T6) {
    type TCA = (CondAddr<T1>, CondAddr<T2>, CondAddr<T3>, CondAddr<T4>, CondAddr<T5>, CondAddr<T6>);

    open spec fn width() -> nat {
        6
    }

    fn one_to_one() -> (r: (CondAddr<T1>, CondAddr<T2>, CondAddr<T3>, CondAddr<T4>, CondAddr<T5>, CondAddr<T6>)) {
        let r = (CondAddr::new(0), CondAddr::new(1), CondAddr::new(2), CondAddr::new(3), CondAddr::new(4), CondAddr::new(5));
        proof {
            assert(r.anchors_spec() =~= unbound(6));
        }
        r
    }
}

impl<T1, T2, T3, T4, T5, T6, T7> TupleAt<0> for (T1, T2, T3, T4, T5, T6, T7) {
    type EleT = T1;

    fn value_at(&self) -> (r: &T1)
    {
        &self.0
    }
}

impl<T1, T2, T3, T4, T5, T6, T7> TupleAt<1> for (T1, T2, T3, T4, T5, T6, T7) {
    type EleT = T2;

    fn value_at(&self) -> (r: &T2)
    {
        &self.1
    }
}

impl<T1, T2, T3, T4, T5, T6, T7> TupleAt<2> for (T1, T2, T3, T4, T5, T6, T7) {
    type EleT = T3;

    fn value_at(&self) -> (r: &T3)
    {
        &self.2
    }
}

impl<T1, T2, T3, T4, T5, T6, T7> TupleAt<3> for (T1, T2, T3, T4, T5, T6, T7) {
    type EleT = T4;

    fn value_at(&self) -> (r: &T4)
    {
        &self.3
    }
}

impl<T1, T2, T3, T4, T5, T6, T7> TupleAt<4> for (T1, T2, T3, T4, T5, T6, T7) {
    type EleT = T5;

    fn value_at(&self) -> (r: &T5)
    {
        &self.4
    }
}

impl<T1, T2, T3, T4, T5, T6, T7> TupleAt<5> for (T1, T2, T3, T4, T5, T6, T7) {
    type EleT = T6;

    fn value_at(&self) -> (r: &T6)
    {
        &self.5
    }
}

impl<T1, T2, T3, T4, T5, T6, T7> TupleAt<6> for (T1, T2, T3, T4, T5, T6, T7) {
    type EleT = T7;

    fn value_at(&self) -> (r: &T7)
    {
        &self.6
    }
}

impl<T1, T2, T3, T4, T5, T6, T7> AnchorTuple for (CondAddr<T1>, CondAddr<T2>, CondAddr<T3>, CondAddr<T4>, CondAddr<T5>, CondAddr<T6>, CondAddr<T7>) {
    open spec fn anchors_spec(&self) -> Seq<Anchor> {
        seq![self.0.anchor_spec(), self.1.anchor_spec(), self.2.anchor_spec(), self.3.anchor_spec(), self.4.anchor_spec(), self.5.anchor_spec(), self.6.anchor_spec()]
    }

    fn anchors(&self) -> (r: Vec<Anchor>) {
        let r = vec![self.0.anchor(), self.1.anchor(), self.2.anchor(), self.3.anchor(), self.4.anchor(), self.5.anchor(), self.6.anchor()];
        proof {
            assert(r@ =~= self.anchors_spec());
        }
        r
    }
}

impl<T1, T2, T3, T4, T5, T6, T7> TupleCondAddr for (T1, T2, T3, T4, T5, T6, T7) {
    type TCA = (CondAddr<T1>, CondAddr<T2>, CondAddr<T3>, CondAddr<T4>, CondAddr<T5>, CondAddr<T6>, CondAddr<T7>);

    open spec fn width() -> nat {
        7
    }

    fn one_to_one() -> (r: (CondAddr<T1>, CondAddr<T2>, CondAddr<T3>, CondAddr<T4>, CondAddr<T5>, CondAddr<T6>, CondAddr<T7>)) {
        let r = (CondAddr::new(0), CondAddr::new(1), CondAddr::new(2), CondAddr::new(3), CondAddr::new(4), CondAddr::new(5), CondAddr::new(6));
        proof {
            assert(r.anchors_spec() =~= unbound(7));
        }
        r
    }
}

impl<T1, T2, T3, T4, T5, T6, T7, T8> TupleAt<0> for (T1, T2, T3, T4, T5, T6, T7, T8) {
    type EleT = T1;

    fn value_at(&self) -> (r: &T1)
    {
        &self.0
    }
}

impl<T1, T2, T3, T4, T5, T6, T7, T8> TupleAt<1> for (T1, T2, T3, T4, T5, T6, T7, T8) {
    type EleT = T2;

    fn value_at(&self) -> (r: &T2)
    {
        &self.1
    }
}

impl<T1, T2, T3, T4, T5, T6, T7, T8> TupleAt<2> for (T1, T2, T3, T4, T5, T6, T7, T8) {
    type EleT = T3;

    fn value_at(&self) -> (r: &T3)
    {
        &self.2
    }
}

impl<T1, T2, T3, T4, T5, T6, T7, T8> TupleAt<3> for (T1, T2, T3, T4, T5, T6, T7, T8) {
    type EleT = T4;

    fn value_at(&self) -> (r: &T4)
    {
        &self.3
    }
}

impl<T1, T2, T3, T4, T5, T6, T7, T8> TupleAt<4> for (T1, T2, T3, T4, T5, T6, T7, T8) {
    type EleT = T5;

    fn value_at(&self) -> (r: &T5)
    {
        &self.4
    }
}

impl<T1, T2, T3, T4, T5, T6, T7, T8> TupleAt<5> for (T1, T2, T3, T4, T5, T6, T7, T8) {
    type EleT = T6;

    fn value_at(&self) -> (r: &T6)
    {
        &self.5
    }
}

impl<T1, T2, T3, T4, T5, T6, T7, T8> TupleAt<6> for (T1, T2, T3, T4, T5, T6, T7, T8) {
    type EleT = T7;

    fn value_at(&self) -> (r: &T7)
    {
        &self.6
    }
}

impl<T1, T2, T3, T4, T5, T6, T7, T8> TupleAt<7> for (T1, T2, T3, T4, T5, T6, T7, T8) {
    type EleT = T8;

    fn value_at(&self) -> (r: &T8)
    {
        &self.7
    }
}

impl<T1, T2, T3, T4, T5, T6, T7, T8> AnchorTuple for (CondAddr<T1>, CondAddr<T2>, CondAddr<T3>, CondAddr<T4>, CondAddr<T5>, CondAddr<T6>, CondAddr<T7>, CondAddr<T8>) {
    open spec fn anchors_spec(&self) -> Seq<Anchor> {
        seq![self.0.anchor_spec(), self.1.anchor_spec(), self.2.anchor_spec(), self.3.anchor_spec(), self.4.anchor_spec(), self.5.anchor_spec(), self.6.anchor_spec(), self.7.anchor_spec()]
    }

    fn anchors(&self) -> (r: Vec<Anchor>) {
        let r = vec![self.0.anchor(), self.1.anchor(), self.2.anchor(), self.3.anchor(), self.4.anchor(), self.5.anchor(), self.6.anchor(), self.7.anchor()];
        proof {
            assert(r@ =~= self.anchors_spec());
        }
        r
    }
}

impl<T1, T2, T3, T4, T5, T6, T7, T8> TupleCondAddr for (T1, T2, T3, T4, T5, T6, T7, T8) {
    type TCA = (CondAddr<T1>, CondAddr<T2>, CondAddr<T3>, CondAddr<T4>, CondAddr<T5>, CondAddr<T6>, CondAddr<T7>, CondAddr<T8>);

    open spec fn width() -> nat {
        8
    }

    fn one_to_one() -> (r: (CondAddr<T1>, CondAddr<T2>, CondAddr<T3>, CondAddr<T4>, CondAddr<T5>, CondAddr<T6>, CondAddr<T7>, CondAddr<T8>)) {
        let r = (CondAddr::new(0), CondAddr::new(1), CondAddr::new(2), CondAddr::new(3), CondAddr::new(4), CondAddr::new(5), CondAddr::new(6), CondAddr::new(7));
        proof {
            assert(r.anchors_spec() =~= unbound(8));
        }
        r
    }
}

} // verus!
