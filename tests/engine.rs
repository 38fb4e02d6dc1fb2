use std::cell::RefCell;
use std::rc::Rc;
use taskorch::{
    next_step, keeps_running, post_do, C1map, Entry, Kind, Queue, Step, TaskBuildNew, TaskId,
    TaskIdGen, TaskNeed, TaskSubmitError, TaskSubmitter, Typed, Value,
};

type Job = Box<dyn FnOnce(Vec<Value>) -> Value>;
type MapJob = Box<dyn FnOnce(Value) -> Vec<Value>>;

fn job0<F: FnOnce() -> R + 'static, R: Typed>(f: F) -> Job {
    Box::new(move |_args: Vec<Value>| f().into_value())
}

fn job1<F: FnOnce(P1) -> R + 'static, P1: Typed, R: Typed>(f: F) -> Job {
    Box::new(move |mut args: Vec<Value>| {
        let p1 = P1::from_value(args.remove(0)).unwrap();
        f(p1).into_value()
    })
}

fn job2<F: FnOnce(P1, P2) -> R + 'static, P1: Typed, P2: Typed, R: Typed>(f: F) -> Job {
    Box::new(move |mut args: Vec<Value>| {
        let p1 = P1::from_value(args.remove(0)).unwrap();
        let p2 = P2::from_value(args.remove(0)).unwrap();
        f(p1, p2).into_value()
    })
}

fn pass() -> MapJob {
    Box::new(|v: Value| vec![v])
}

/// Replaces a plan's typed body by `make(body)` and its map by `map`.
fn erase<F, M, Ps, R, MapR>(
    need: TaskNeed<F, M, Ps, R, MapR>,
    make: impl FnOnce(F) -> Job,
    map: MapJob,
) -> TaskNeed<Job, MapJob, Ps, R, MapR> {
    let (f, _m, need) = need.swap_parts((), ());
    let (_, _, need) = need.swap_parts(make(f), map);
    need
}

struct Engine {
    c1map: C1map<Job, MapJob>,
    queues: Vec<Queue<Job, MapJob>>,
    ids: TaskIdGen,
}

#[derive(Debug, PartialEq)]
enum Outcome {
    Quit,
    Wait,
    Ran(Kind),
}

impl Engine {
    fn new(nqueues: usize) -> Engine {
        let mut queues = Vec::new();
        for _ in 0..nqueues {
            queues.push(Queue::new());
        }
        Engine { c1map: C1map::new(), queues, ids: TaskIdGen::new() }
    }

    fn submit<Ps, R, MapR>(
        &mut self,
        qid: usize,
        need: TaskNeed<Job, MapJob, Ps, R, MapR>,
    ) -> Result<taskorch::TaskInf<Ps>, TaskSubmitError> {
        TaskSubmitter::new(qid).submit(need, &mut self.c1map, &mut self.queues[qid], &mut self.ids)
    }

    /// One pass of a worker's loop on queue `qid`.
    fn step(&mut self, qid: usize, exit_flag: bool) -> Outcome {
        match next_step(exit_flag, &mut self.queues[qid]) {
            Step::Quit => Outcome::Quit,
            Step::Wait => Outcome::Wait,
            Step::Run(Entry { task, post }) => {
                let kind = task.kind();
                let (f, args) = task.currier.into_call();
                let result = f(args);
                let subs = (post.map)(result);
                let released = post_do(&post.targets, subs, &mut self.c1map);
                for w in released {
                    let Entry { task, post } = w.entry;
                    self.queues[w.qid].add_boxtask(task, post);
                }
                Outcome::Ran(kind)
            }
        }
    }

    /// Runs a worker on queue `qid` until it leaves or its queue is empty.
    fn run(&mut self, qid: usize) -> Outcome {
        loop {
            match self.step(qid, false) {
                Outcome::Ran(kind) => {
                    if !keeps_running(kind) {
                        return Outcome::Ran(kind);
                    }
                }
                other => return other,
            }
        }
    }
}

#[test]
fn free_task_and_exit_task() {
    let log = Rc::new(RefCell::new(Vec::<String>::new()));
    let mut eng = Engine::new(1);
    let l = log.clone();
    let a = erase((move || l.borrow_mut().push("hello".to_string())).into_task(), job0, pass());
    eng.submit(0, a).unwrap();
    let l = log.clone();
    let x = erase(
        (move |m: &'static str| l.borrow_mut().push(m.to_string())).into_exit_task(),
        job1,
        pass(),
    );
    let x = eng.submit(0, x).unwrap();
    let b = erase((|| "msg").into_task().bind_to(x.input_ca::<0>()), job0, pass());
    eng.submit(0, b).unwrap();
    assert_eq!(eng.run(0), Outcome::Ran(Kind::Exit));
    assert_eq!(*log.borrow(), vec!["hello".to_string(), "msg".to_string()]);
    assert_eq!(eng.queues[0].len(), 0);
}

#[test]
fn fan_out_then_join() {
    let seen = Rc::new(RefCell::new(None::<(i32, &'static str)>));
    let mut eng = Engine::new(1);
    let s = seen.clone();
    let exit = erase(
        (move |a: i32, m: &'static str| *s.borrow_mut() = Some((a, m))).into_exit_task(),
        job2,
        pass(),
    );
    let exit = eng.submit(0, exit).unwrap();
    let b1 = erase((|a: i32| a).into_task().bind_to(exit.input_ca::<0>()), job1, pass());
    let b1 = eng.submit(0, b1).unwrap();
    let b2 = erase((|m: &'static str| m).into_task().bind_to(exit.input_ca::<1>()), job1, pass());
    let b2 = eng.submit(0, b2).unwrap();
    let a = (|| 3i32)
        .into_task()
        .map_tuple_with(|a: i32| (a, "exit"))
        .bind_all_to((b1.input_ca::<0>(), b2.input_ca::<0>()));
    let fan: MapJob = Box::new(|v: Value| {
        let a = i32::from_value(v).unwrap();
        let (x, y) = (a, "exit");
        vec![x.into_value(), y.into_value()]
    });
    let a = erase(a, job0, fan);
    eng.submit(0, a).unwrap();
    assert_eq!(eng.run(0), Outcome::Ran(Kind::Exit));
    assert_eq!(*seen.borrow(), Some((3, "exit")));
}

#[test]
fn producer_consumer_across_queues() {
    let seen = Rc::new(RefCell::new(None::<i32>));
    let mut eng = Engine::new(2);
    let s = seen.clone();
    let exit = erase((move |v: i32| *s.borrow_mut() = Some(v)).into_exit_task(), job1, pass());
    let exit = eng.submit(0, exit).unwrap();
    let add = erase((|a: i32, b: i32| a + b).into_task().bind_to(exit.input_ca::<0>()), job2, pass());
    let add = eng.submit(0, add).unwrap();
    let feed1 = erase((|| 1i32).into_task().bind_to(add.input_ca::<0>()), job0, pass());
    let feed2 = erase((|| 2i32).into_task().bind_to(add.input_ca::<1>()), job0, pass());
    eng.submit(1, feed1).unwrap();
    eng.submit(1, feed2).unwrap();
    assert_eq!(eng.queues[0].len(), 0);
    assert_eq!(eng.run(1), Outcome::Wait);
    // the completed adder went to its own queue, not the feeders' queue
    assert_eq!(eng.queues[0].len(), 1);
    assert_eq!(eng.run(0), Outcome::Ran(Kind::Exit));
    assert_eq!(*seen.borrow(), Some(3));
}

#[test]
fn type_mismatch_is_rejected() {
    let mut eng = Engine::new(1);
    let target = erase((|_: i32| ()).into_task(), job1, pass());
    let target = eng.submit(0, target).unwrap();
    let id = target.taskid();
    let producer = erase((|| 3i16).into_task().to(id.as_usize(), 0), job0, pass());
    eng.submit(0, producer).unwrap();
    assert_eq!(eng.run(0), Outcome::Wait);
    assert_eq!(eng.c1map.check(id), Some(id));
    assert_eq!(eng.queues[0].len(), 0);
}

#[test]
fn duplicate_id_is_refused() {
    let mut eng = Engine::new(1);
    let t1 = erase((|_: i32| (), TaskId::from(10)).into_task(), job1, pass());
    assert_eq!(eng.submit(0, t1).unwrap().taskid(), TaskId::from(10));
    let t2 = erase((|_: i32, _: i32| (), TaskId::from(10)).into_task(), job2, pass());
    assert_eq!(eng.submit(0, t2).err(), Some(TaskSubmitError::TaskIdAlreadyExists(TaskId::from(10))));
}

#[test]
fn unique_or_zero_ids_are_accepted() {
    let mut eng = Engine::new(1);
    let t = erase((|_: i32| ()).into_task(), job1, pass());
    assert_eq!(eng.submit(0, t).unwrap().taskid(), TaskId::from(1));
    let t = erase((|_: i32| (), TaskId::from(7)).into_task(), job1, pass());
    assert_eq!(eng.submit(0, t).unwrap().taskid(), TaskId::from(7));
    let t = erase((|_: i32| ()).into_task(), job1, pass());
    assert_eq!(eng.submit(0, t).unwrap().taskid(), TaskId::from(2));
}

#[test]
fn cooperative_shutdown() {
    let runs = Rc::new(RefCell::new(0));
    let mut eng = Engine::new(1);
    let r = runs.clone();
    let t = erase((move || *r.borrow_mut() += 1).into_task(), job0, pass());
    eng.submit(0, t).unwrap();
    // one of the workers on the queue takes the task
    assert_eq!(eng.step(0, false), Outcome::Ran(Kind::Normal));
    // every worker's exit flag is set: each of them leaves
    for _ in 0..3 {
        assert_eq!(eng.step(0, true), Outcome::Quit);
    }
    assert_eq!(*runs.borrow(), 1);
}

#[test]
fn exit_flag_leaves_queued_tasks_untouched() {
    let runs = Rc::new(RefCell::new(0));
    let mut eng = Engine::new(1);
    let r = runs.clone();
    let t = erase((move || *r.borrow_mut() += 1).into_task(), job0, pass());
    eng.submit(0, t).unwrap();
    assert_eq!(eng.step(0, true), Outcome::Quit);
    assert_eq!(eng.queues[0].len(), 1);
    assert_eq!(*runs.borrow(), 0);
}

#[test]
fn run_queue_is_fifo() {
    let order = Rc::new(RefCell::new(Vec::<i32>::new()));
    let mut eng = Engine::new(1);
    for k in 0..3 {
        let o = order.clone();
        let t = erase((move || o.borrow_mut().push(k)).into_task(), job0, pass());
        eng.submit(0, t).unwrap();
    }
    assert_eq!(eng.run(0), Outcome::Wait);
    assert_eq!(*order.borrow(), vec![0, 1, 2]);
}

#[test]
fn zero_arity_id_is_ignored() {
    let mut eng = Engine::new(1);
    let with_id = erase((|| 1i32, TaskId::from(5)).into_task(), job0, pass());
    let without = erase((|| 1i32).into_task(), job0, pass());
    assert_eq!(eng.submit(0, with_id).unwrap().taskid(), TaskId::none());
    assert_eq!(eng.submit(0, without).unwrap().taskid(), TaskId::none());
    assert_eq!(eng.c1map.check(TaskId::from(5)), None);
    // the id was not taken: a waiting task may still use it
    let t = erase((|_: i32| (), TaskId::from(5)).into_task(), job1, pass());
    assert_eq!(eng.submit(0, t).unwrap().taskid(), TaskId::from(5));
}

#[test]
fn identity_single_target_delivers_value_unchanged() {
    let seen = Rc::new(RefCell::new(None::<String>));
    let mut eng = Engine::new(1);
    let s = seen.clone();
    let sink = erase((move |v: String| *s.borrow_mut() = Some(v)).into_task(), job1, pass());
    let sink = eng.submit(0, sink).unwrap();
    let src = erase((|| "payload".to_string()).into_task().bind_to(sink.input_ca::<0>()), job0, pass());
    eng.submit(0, src).unwrap();
    assert_eq!(eng.run(0), Outcome::Wait);
    assert_eq!(*seen.borrow(), Some("payload".to_string()));
}

#[test]
fn single_fan_out_matches_bind_to() {
    let a = (|| 4i32).into_task();
    let b = (|| 4i32).into_task();
    let target = (|_: i32| (), TaskId::from(8)).into_task();
    let bound = a.bind_to(target.input_ca::<0>());
    let fanned = b.map_tuple_with(|v: i32| (v,)).bind_all_to((target.input_ca::<0>(),));
    assert_eq!(bound.targets, fanned.targets);
}

#[test]
fn task_leaves_wait_map_once_complete() {
    let mut eng = Engine::new(1);
    let t = erase((|a: i32, b: i32| a * b, TaskId::from(3)).into_task(), job2, pass());
    eng.submit(0, t).unwrap();
    let anchors = vec![taskorch::Anchor { taskid: TaskId::from(3), argidx: 0 }];
    assert!(post_do(&anchors, vec![Value::I32(6)], &mut eng.c1map).is_empty());
    assert_eq!(eng.c1map.check(TaskId::from(3)), Some(TaskId::from(3)));
    let anchors = vec![taskorch::Anchor { taskid: TaskId::from(3), argidx: 1 }];
    let released = post_do(&anchors, vec![Value::I32(7)], &mut eng.c1map);
    assert_eq!(released.len(), 1);
    assert_eq!(eng.c1map.check(TaskId::from(3)), None);
    // a further write to the same id finds nothing
    assert!(post_do(&anchors, vec![Value::I32(7)], &mut eng.c1map).is_empty());
}
