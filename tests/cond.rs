use std::any::Any;
use taskorch::{ArgIdx, CondAddr, Section, TaskId, TupleAt, TupleCondAddr};

#[test]
fn test_tid() {
    let tid = TaskId::from(3);
    assert_eq!(tid.as_usize(), 3);
    let tid: TaskId = 3.into();
    assert_eq!(tid.as_usize(), 3);
    let tid = TaskId::new(0);
    assert_eq!(tid, TaskId::none());
    assert!(!tid.is_some());
}

#[test]
fn test_argidx() {
    let ai = ArgIdx::<i8>::const_new(0);
    assert_eq!(ai.i(), 0);
    let ai = ArgIdx::<i8>::from(2);
    assert_eq!(ai.i(), 2);
    let ai: ArgIdx<i8> = 2.into();
    assert_eq!(ai.i(), 2);
}

#[test]
fn test_tuple_at() {
    type T = (i32, &'static str);
    let a = <T as TupleAt<0>>::value_at(&(2, ""));
    assert_eq!(*a, 2);
    let b = <T as TupleAt<1>>::value_at(&(2, "x"));
    assert_eq!(*b, "x");
}

#[test]
fn test_tuple_condaddr() {
    let addr = <(i32, u32) as TupleCondAddr>::one_to_one();
    assert_eq!(addr.0, CondAddr::<i32>::from((TaskId::none(), Section::Input, ArgIdx::from(0))));
    assert_eq!(addr.1, CondAddr::<u32>::from((TaskId::none(), Section::Input, ArgIdx::from(1))));
    println!("{:?}", addr);
}

#[test]
fn test_conv() {
    let a = 3i32;
    let a: &dyn Any = &a;
    let b = a.downcast_ref::<i32>();
    assert!(b.is_some());
    let b = a.downcast_ref::<i8>();
    assert!(b.is_none());
    let b = a.downcast_ref::<i64>();
    assert!(b.is_none());
}

#[test]
fn condaddr_accessors_and_setters() {
    let mut ca = CondAddr::<i32>::from((TaskId::from(4), Section::Input, ArgIdx::from(1)));
    assert_eq!(ca.taskid(), TaskId::from(4));
    assert_eq!(*ca.section(), Section::Input);
    assert_eq!(ca.argidx().i(), 1);
    ca.set_taskid(TaskId::from(9));
    assert_eq!(ca.taskid().as_usize(), 9);
    assert_eq!(ca.argidx().i(), 1);
    ca.set(TaskId::from(5), Section::Output, ArgIdx::from(7));
    assert_eq!(ca.taskid().as_usize(), 5);
    assert_eq!(*ca.section(), Section::Output);
    assert_eq!(ca.argidx().i(), 7);
    let none = CondAddr::<i32>::none();
    assert_eq!(none.taskid(), TaskId::none());
    assert_eq!(none.argidx().i(), 255);
    let anchor = CondAddr::<i32>::from((TaskId::from(2), Section::Input, ArgIdx::from(3))).anchor();
    assert_eq!(anchor.taskid.as_usize(), 2);
    assert_eq!(anchor.argidx, 3);
}
