use taskorch::{
    post_do, Anchor, ArgIdx, C1map, CondAddr, Currier, Kind, PassthroughMapFn, Queue, Section,
    TaskBuildNew, TaskId, TaskIdGen, TaskInf, TaskNeed, TaskSubmitError, TaskSubmitter, TypeTag,
    Typed, Value, taskid_next,
};

#[test]
fn curry_test2() {
    let f = || {};
    let f1 = |_: i32| {};
    let c1 = Currier::from(f, vec![]);
    let c2 = Currier::from(f1, vec![TypeTag::I32]);
    println!("{:?}", c1.count());
    println!("{:?}", c2.count());
    assert_eq!(c1.count(), 0);
    assert_eq!(c2.count(), 1);
    assert!(c1.is_full());
    assert!(!c2.is_full());
}

#[test]
fn test1() {
    let c = Currier::from(|| 3, vec![]);
    let (f, args) = c.into_call();
    assert!(args.is_empty());
    assert_eq!(f(), 3);
    let mut n = 3;
    let c = Currier::from(|| n = 4, vec![]);
    let (mut f, _) = c.into_call();
    f();
    assert_eq!(n, 4);
    let n = String::new();
    let c = Currier::from(
        || {
            let _ = n;
        },
        vec![],
    );
    let (f, _) = c.into_call();
    f();
}

#[test]
fn curry_test_call() {
    let mut c = Currier::from(|a: i32| a > 3, vec![TypeTag::I32]);
    assert!(c.set(0, Value::I32(3)));
    assert!(c.is_full());
    let (f, mut args) = c.into_call();
    let a = i32::from_value(args.remove(0)).unwrap();
    assert!(!f(a));

    let mut c = Currier::from(|a: i32, b: i32| a < b, vec![TypeTag::I32, TypeTag::I32]);
    assert!(c.set(0, Value::I32(3)));
    assert!(!c.is_full());
    assert!(c.set(1, Value::I32(4)));
    assert!(c.is_full());
    let (f, mut args) = c.into_call();
    let a = i32::from_value(args.remove(0)).unwrap();
    let b = i32::from_value(args.remove(0)).unwrap();
    assert!(f(a, b));
}

#[test]
fn slot_write_with_wrong_type_is_rejected() {
    let mut c = Currier::from(|_: i32| {}, vec![TypeTag::I32]);
    assert_eq!(c.typename(0), Some(TypeTag::I32));
    assert_eq!(c.typename(1), None);
    assert!(!c.set(0, Value::I16(3)));
    assert!(!c.is_full());
    assert!(!c.set(1, Value::I32(3)));
    assert!(!c.is_full());
    assert!(c.set(0, Value::I32(3)));
    assert!(c.is_full());
}

#[test]
fn typed_values_round_trip() {
    assert_eq!(i32::type_tag(), TypeTag::I32);
    assert_eq!(7i32.into_value(), Value::I32(7));
    assert_eq!(i32::from_value(Value::I32(7)), Some(7));
    assert_eq!(i32::from_value(Value::I16(7)), None);
    assert_eq!(<&'static str>::from_value(Value::Str("a")), Some("a"));
    assert_eq!(String::from_value(Value::Text("b".to_string())), Some("b".to_string()));
    assert_eq!(<Vec<i32>>::from_value(Value::I32s(vec![1, 2])), Some(vec![1, 2]));
    assert_eq!(().into_value().tag(), TypeTag::Unit);
    assert_eq!(Value::Bool(true).tag(), TypeTag::Bool);
}

#[test]
fn taskid_generator_skips_zero() {
    let mut gen = TaskIdGen::new();
    assert_eq!(taskid_next(&mut gen), TaskId::from(1));
    assert_eq!(taskid_next(&mut gen), TaskId::from(2));
    assert_eq!(gen.next().as_usize(), 3);
}

#[test]
fn test_taskinf() {
    let taskinf = TaskInf::<(i32,)>::new(TaskId::new(3));
    assert_eq!(taskinf.taskid(), TaskId::from(3));
    let ca = taskinf.input_ca::<0>();
    assert_eq!(ca.taskid(), TaskId::from(3));
    assert_eq!(ca.argidx().i(), 0);
}

#[test]
fn test_submmit() {
    let s = TaskSubmitter::new(1);
    let mut c1map = C1map::new();
    let mut queue = Queue::new();
    let mut ids = TaskIdGen::new();
    let id1 = TaskId::new(1);
    let (_, _, task) = (|_: i32| (), id1).into_task().swap_parts((), ());
    let task = s.submit(task, &mut c1map, &mut queue, &mut ids);
    assert!(task.is_ok_and(|a| a.taskid() == id1));

    // a second task under the same id is refused
    let (_, _, task) = (|_: i8| (), id1).into_task().swap_parts((), ());
    let task = s.submit(task, &mut c1map, &mut queue, &mut ids);
    assert!(task.is_err_and(|e| matches!(e, TaskSubmitError::TaskIdAlreadyExists(id) if id == id1)));
}

#[test]
fn test_task_build_fan_and_to() {
    let task = (|| 3).into_task();
    let fanned = task.map_tuple_with(|_: i32| (3,));
    assert_eq!(fanned.targets.len(), 1);
    assert_eq!(fanned.targets[0].taskid, TaskId::none());
    let task = (|| 3).into_task();
    let bound = task.bind_to(CondAddr::from((TaskId::from(3), Section::Input, ArgIdx::<i32>::from(0))));
    assert_eq!(bound.targets, vec![Anchor { taskid: TaskId::from(3), argidx: 0 }]);

    let task = (|| {}).into_task();
    let to = task.to(1, 2);
    assert_eq!(to.targets, vec![Anchor { taskid: TaskId::from(1), argidx: 2 }]);
    let task = (|| {}).into_task();
    let fanned = task.map_tuple_with(|_: ()| (3,));
    assert_eq!(fanned.targets.len(), 1);
}

#[test]
fn test_taskneed_construct() {
    let task: TaskNeed<_, PassthroughMapFn<()>, (), (), ((),)> =
        (|| println!("task='free':  Hello, 1 2 3 .."), TaskId::from(1)).into_task();
    println!("task id={:?}", task.id());
    assert_eq!(task.id(), TaskId::from(1));
    assert_eq!(task.task.kind(), Kind::Normal);
}

#[test]
fn test_task_new() {
    let f = || ();
    let t = f.into_exit_task();
    assert_eq!(t.task.kind(), Kind::Exit);
    let (f1, args) = t.task.currier.into_call();
    assert!(args.is_empty());
    f1();

    let t = f.into_task();
    assert_eq!(t.task.kind(), Kind::Normal);
    let (f2, _) = t.task.currier.into_call();
    f2();

    let s = String::new();
    let f = || {
        let _s = s;
    };
    let t = f.into_task();
    let (f3, _) = t.task.currier.into_call();
    f3();
}

#[test]
fn test_task_postdo() {
    let mut v = 3;
    let mut f = || {
        v = 3;
        v
    };
    let w = Some(String::new());
    let postdo = |_: i32| {
        w.unwrap();
    };
    let _r1: &mut dyn FnMut() -> i32 = &mut f;
    let r1: Box<dyn FnOnce(i32)> = Box::new(postdo);
    r1(3);
}

#[test]
fn test_task_run() {
    // one cond
    let c1 = (|_p: i32| println!("get c1")).into_task();
    let mut c1 = c1.task;
    assert!(c1.currier.set(0, Value::I32(5)));
    let (f, mut args) = c1.currier.into_call();
    f(i32::from_value(args.remove(0)).unwrap());

    // 8 cond
    let tp1 = 1;
    let tp2 = "2nd static str";
    let tp3 = "3rd String".to_string();
    let tp4 = vec![41, 42, 43];
    let tp5 = 5;
    let tp6 = 6;
    let tp7 = 7;
    let tp8 = 8;
    let tr8 = tp1 + tp5 + tp6 + tp7 + tp8;
    let tp3c = tp3.clone();
    let tp4c = tp4.clone();
    let c8 = (move |p1: i32,
                    p2: &'static str,
                    p3: String,
                    p4: Vec<i32>,
                    p5: i32,
                    p6: i32,
                    p7: i32,
                    p8: i32| {
        assert_eq!(p1, tp1);
        assert_eq!(p2, tp2);
        assert_eq!(p3, tp3c);
        assert_eq!(p4, tp4c);
        assert_eq!(p5, tp5);
        assert_eq!(p6, tp6);
        assert_eq!(p7, tp7);
        assert_eq!(p8, tp8);
        println!("recevied cond: {p1},{p2},{p3},{p4:?},{p5},{p6},{p7},{p8},");
        p1 + p5 + p6 + p7 + p8
    })
    .into_task();
    let mut c8 = c8.task;
    let ok = c8.currier.set(0, tp1.into_value())
        && c8.currier.set(1, tp2.into_value())
        && c8.currier.set(2, tp3.clone().into_value())
        && c8.currier.set(3, tp4.clone().into_value())
        && c8.currier.set(4, tp5.into_value())
        && c8.currier.set(5, tp6.into_value())
        && c8.currier.set(6, tp7.into_value())
        && c8.currier.set(7, tp8.into_value());
    assert!(ok);
    let (f, args) = c8.currier.into_call();
    let mut it = args.into_iter();
    let r = f(
        i32::from_value(it.next().unwrap()).unwrap(),
        <&'static str>::from_value(it.next().unwrap()).unwrap(),
        String::from_value(it.next().unwrap()).unwrap(),
        <Vec<i32>>::from_value(it.next().unwrap()).unwrap(),
        i32::from_value(it.next().unwrap()).unwrap(),
        i32::from_value(it.next().unwrap()).unwrap(),
        i32::from_value(it.next().unwrap()).unwrap(),
        i32::from_value(it.next().unwrap()).unwrap(),
    );
    assert_eq!(r, tr8);
}

#[test]
fn test_when_tuple_comed() {
    let mut c1map: C1map<(), ()> = C1map::new();
    let cond_addr1 = CondAddr::<i32>::new(0);
    let cond_addr2 = CondAddr::<i32>::new(1);
    let released = post_do(&vec![], vec![], &mut c1map);
    assert!(released.is_empty());
    let targets = vec![cond_addr1.anchor(), cond_addr2.anchor()];
    let released = post_do(&targets, vec![Value::I32(42), Value::I32(43)], &mut c1map);
    assert!(released.is_empty());
    assert_eq!(c1map.check(TaskId::from(2)), None);
}
