use std::cell::Cell;
use std::rc::Rc;

use task_manager::{AsyncCreateContext, Context, Runtime, Scheduler, Task, ID};

struct CountTask {
    hits: Rc<Cell<u32>>,
}

impl Task for CountTask {
    fn execute(self, _context: &mut Context<CountTask>) {
        self.hits.set(self.hits.get() + 1);
    }
}

#[test]
fn live_identities_never_share_index_and_generation() {
    let mut rt = Runtime::<u32>::create().expect("runtime");
    let a = rt.register(1);
    let b = rt.register(2);
    let c = rt.register(3);
    assert_eq!(a.index(), 0);
    assert_eq!(b.index(), 1);
    assert_eq!(c.index(), 2);
    assert!(a.generation() == 0 && b.generation() == 0 && c.generation() == 0);

    rt.remove(b);
    let d = rt.register(4);
    assert_eq!(d.index(), 1);
    assert_eq!(d.generation(), 1);

    let live = [a, c, d];
    for i in 0..live.len() {
        for j in 0..live.len() {
            if i != j {
                let shares = live[i].index() == live[j].index() && live[i].generation()
                    == live[j].generation();
                assert!(!shares);
            }
        }
    }
}

#[test]
fn slot_reuse_advances_the_generation() {
    let mut rt = Runtime::<u32>::create().expect("runtime");
    let old_id = rt.register(10);
    rt.remove(old_id);
    let new_id = rt.register(20);
    assert_eq!(new_id.index(), old_id.index());
    assert_eq!(new_id.generation(), (old_id.generation().wrapping_add(1)));
    assert!(!old_id.is_same_generation(new_id));
}

#[test]
fn removing_a_stale_identity_is_a_no_op() {
    let mut rt = Runtime::<u32>::create().expect("runtime");
    let id = rt.register(10);
    let stale = ID::new(id.index() as u32, id.generation().wrapping_add(1));
    rt.remove(stale);
    assert_eq!(rt.table_len(), 1);
    assert_eq!(rt.free_len(), 0);
    assert!(rt.has_live_tasks());
}

#[test]
fn failed_bind_restores_the_registry_exactly() {
    let mut rt = Runtime::<u32>::create().expect("runtime");

    // Appending path: the slot created for the task is taken back out.
    let r = AsyncCreateContext::for_descriptor(-1).with(&mut rt, 5);
    assert!(r.is_err());
    assert_eq!(rt.table_len(), 0);
    assert_eq!(rt.free_len(), 0);
    assert!(!rt.has_live_tasks());

    // Reuse path: the freed identity goes back on the free list unchanged,
    // so the next register still advances its generation only once.
    let id = rt.register(7);
    rt.remove(id);
    assert_eq!(rt.table_len(), 1);
    assert_eq!(rt.free_len(), 1);
    let r = AsyncCreateContext::for_descriptor(-1).with(&mut rt, 8);
    assert!(r.is_err());
    assert_eq!(rt.table_len(), 1);
    assert_eq!(rt.free_len(), 1);
    let again = rt.register(9);
    assert_eq!(again.index(), id.index());
    assert_eq!(again.generation(), id.generation().wrapping_add(1));
}

#[test]
fn stale_events_are_dropped_without_invoking_any_task() {
    let hits = Rc::new(Cell::new(0));
    let mut rt = Runtime::<CountTask>::create().expect("runtime");
    let id = rt.register(CountTask { hits: hits.clone() });
    assert_eq!(id.index(), 0);
    assert_eq!(id.generation(), 0);

    // Generation mismatch: the slot has been reused by a different occupant.
    rt.dispatch_one(0, ID::new(0, 1));
    assert_eq!(hits.get(), 0);
    assert!(rt.has_live_tasks());

    // Index outside the table: nothing to deliver to.
    rt.dispatch_one(0, ID::new(5, 0));
    assert_eq!(hits.get(), 0);
    assert!(rt.has_live_tasks());

    // The matching identity: delivered exactly once, vacating the slot.
    rt.dispatch_one(0, ID::new(0, 0));
    assert_eq!(hits.get(), 1);
    assert!(!rt.has_live_tasks());

    // Vacant slot: a leftover event for the old identity is dropped.
    rt.dispatch_one(0, ID::new(0, 0));
    assert_eq!(hits.get(), 1);
}

#[test]
fn take_delivered_vacates_the_slot_only_on_a_match() {
    let mut rt = Runtime::<u32>::create().expect("runtime");
    let id = rt.register(42);

    // A mismatched generation or an out-of-range index takes nothing.
    assert!(rt.take_delivered(ID::new(0, 1)).is_none());
    assert!(rt.take_delivered(ID::new(3, 0)).is_none());
    assert!(rt.has_live_tasks());

    // The matching identity yields the stored pair and vacates the slot,
    // leaving the free list alone.
    let (tid, task) = rt.take_delivered(id).expect("delivered");
    assert_eq!(tid, id);
    assert_eq!(task, 42);
    assert!(!rt.has_live_tasks());
    assert_eq!(rt.table_len(), 1);
    assert_eq!(rt.free_len(), 0);

    // A leftover event for the vacated slot takes nothing.
    assert!(rt.take_delivered(id).is_none());
}
