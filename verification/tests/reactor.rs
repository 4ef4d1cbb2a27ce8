use std::cell::Cell;
use std::rc::Rc;

use task_manager::{AsyncNotifier, Context, Runtime, Scheduler, Task, ID};

struct PipeSource(i32);

impl AsyncNotifier for PipeSource {
    fn as_raw_fd(&self) -> i32 {
        self.0
    }
}

/// A pipe whose read end is already readable: one byte sits in it.
fn ready_pipe() -> (i32, i32) {
    let (r, w): (i32, i32) = nix::unistd::pipe().expect("pipe");
    let n: usize = nix::unistd::write(w, b"x").expect("write");
    assert_eq!(n, 1);
    (r, w)
}

struct OneShot {
    hits: Rc<Cell<u32>>,
}

impl Task for OneShot {
    fn execute(self, context: &mut Context<OneShot>) {
        assert!(context.event() & 0x1 != 0, "readable sources report read readiness");
        self.hits.set(self.hits.get() + 1);
    }
}

#[test]
fn exhaustion_after_a_single_dispatch() {
    let (r, _w) = ready_pipe();
    let hits = Rc::new(Cell::new(0));
    let mut rt = Runtime::<OneShot>::create().expect("runtime");
    rt.register_async(&PipeSource(r))
        .with(&mut rt, OneShot { hits: hits.clone() })
        .expect("bind");
    assert!(rt.has_live_tasks());

    let more = rt.poll_once().expect("poll");

    // One dispatch, then the terminal, non-error exhausted state — and even
    // though the pipe still holds its byte, the one-shot watch never fires
    // again without a re-arm.
    assert!(!more);
    assert_eq!(hits.get(), 1);
    assert!(!rt.has_live_tasks());
}

struct ReArm {
    hits: Rc<Cell<u32>>,
    fd: i32,
}

impl Task for ReArm {
    fn execute(self, context: &mut Context<ReArm>) {
        self.hits.set(self.hits.get() + 1);
        if self.hits.get() < 2 {
            let fd = self.fd;
            let hits = self.hits.clone();
            context
                .register_async(&PipeSource(fd))
                .with(context, ReArm { hits, fd })
                .expect("rebind");
        }
    }
}

#[test]
fn rebinding_dispatches_again_exactly_once_per_readiness() {
    let (r, _w) = ready_pipe();
    let hits = Rc::new(Cell::new(0));
    let mut rt = Runtime::<ReArm>::create().expect("runtime");
    rt.register_async(&PipeSource(r))
        .with(&mut rt, ReArm { hits: hits.clone(), fd: r })
        .expect("bind");

    let mut rounds: u32 = 0;
    while rt.poll_once().expect("poll") {
        rounds += 1;
        assert!(rounds < 10, "the reactor must exhaust after the second dispatch");
    }

    // The source stayed readable throughout, so the task that re-registered
    // itself was dispatched a second time; after it stopped re-arming, no
    // further dispatch happened.
    assert_eq!(hits.get(), 2);
    assert!(!rt.has_live_tasks());
}

struct Killer {
    hits: Rc<Cell<u32>>,
    other: Rc<Cell<Option<ID>>>,
}

impl Task for Killer {
    fn execute(self, context: &mut Context<Killer>) {
        self.hits.set(self.hits.get() + 1);
        if let Some(other) = self.other.get() {
            context.remove(other);
        }
    }
}

#[test]
fn leftover_event_for_a_removed_task_is_dropped() {
    let (ra, _wa) = ready_pipe();
    let (rb, _wb) = ready_pipe();
    let hits_a = Rc::new(Cell::new(0));
    let hits_b = Rc::new(Cell::new(0));
    let other_a = Rc::new(Cell::new(None));
    let other_b = Rc::new(Cell::new(None));

    let mut rt = Runtime::<Killer>::create().expect("runtime");
    let id_a = rt.register(Killer { hits: hits_a.clone(), other: other_a.clone() });
    rt.sys_register(id_a, ra).expect("arm");
    let id_b = rt.register(Killer { hits: hits_b.clone(), other: other_b.clone() });
    rt.sys_register(id_b, rb).expect("arm");
    other_a.set(Some(id_b));
    other_b.set(Some(id_a));

    while rt.poll_once().expect("poll") {}

    // Both sources were ready, but whichever task ran first removed the
    // other, so the other's readiness event hit a vacant slot and was
    // dropped: exactly one execution in total, and no error.
    assert_eq!(hits_a.get() + hits_b.get(), 1);
    assert!(!rt.has_live_tasks());
}
