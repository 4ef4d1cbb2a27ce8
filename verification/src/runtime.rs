use vstd::prelude::*;
use crate::id::{ID, MAX_INDEX};
use crate::sys::{SysRuntime, armed_set};
use crate::context::Context;
use crate::task::Task;

verus! {

/// The mathematical state of the task registry: the slot table of live
/// `(identity, task)` pairs and the free list of identities whose slots await
/// reuse.
#[verifier::ext_equal]
pub struct RegistryModel<T> {
    pub table: Seq<Option<(ID, T)>>,
    pub free: Seq<ID>,
}

impl<T> RegistryModel<T> {
    /// Well-formedness: every occupant's identity carries its own slot index;
    /// the table never outgrows the 24-bit index space; every free identity
    /// names a vacant slot inside the table; and no two free identities share
    /// an index.
    pub open spec fn wf(self) -> bool {
        &&& forall|i: int|
            0 <= i < self.table.len() && self.table[i] is Some ==> (#[trigger] self.table[i])
                ->Some_0.0.spec_index() == i
        &&& self.table.len() <= MAX_INDEX + 1
        &&& forall|k: int|
            0 <= k < self.free.len() ==> (#[trigger] self.free[k]).spec_index() < self.table.len()
                && self.table[self.free[k].spec_index() as int] is None
        &&& forall|k1: int, k2: int|
            0 <= k1 < k2 < self.free.len() ==> (#[trigger] self.free[k1]).spec_index() != (
            #[trigger] self.free[k2]).spec_index()
    }

    /// `id` is the live occupant of its slot.
    pub open spec fn live(self, id: ID) -> bool {
        &&& id.spec_index() < self.table.len()
        &&& self.table[id.spec_index() as int] matches Some(p) && p.0 == id
    }

    /// No slot holds a task any more: the reactor has nothing left to drive.
    pub open spec fn exhausted(self) -> bool {
        forall|i: int| 0 <= i < self.table.len() ==> self.table[i] is None
    }

    /// Whether `register` may allocate: a freed slot can be reused, or the
    /// table can still grow within the 24-bit index space.
    pub open spec fn can_register(self) -> bool {
        self.free.len() > 0 || self.table.len() < MAX_INDEX + 1
    }

    /// The identity the next `register` call issues: the most recently freed
    /// identity with its generation advanced, or a fresh index at generation
    /// zero.
    pub open spec fn next_id(self) -> ID {
        if self.free.len() > 0 {
            self.free.last().spec_next_generation()
        } else {
            ID::spec_new(self.table.len() as u32, 0)
        }
    }

    /// The registry after `register(task)`: the issued identity's slot holds
    /// the task, and the free list shrinks if a slot was reused.
    pub open spec fn after_register(self, task: T) -> RegistryModel<T> {
        let id = self.next_id();
        if self.free.len() > 0 {
            RegistryModel {
                table: self.table.update(id.spec_index() as int, Some((id, task))),
                free: self.free.drop_last(),
            }
        } else {
            RegistryModel { table: self.table.push(Some((id, task))), free: self.free }
        }
    }

    /// The registry after `remove(id)`: the slot is vacated and `id` queued
    /// for reuse, but only when `id` is the live occupant; otherwise nothing
    /// changes.
    pub open spec fn after_remove(self, id: ID) -> RegistryModel<T> {
        if self.live(id) {
            RegistryModel {
                table: self.table.update(id.spec_index() as int, None),
                free: self.free.push(id),
            }
        } else {
            self
        }
    }

    /// A readiness event carrying `id` is delivered rather than dropped: the
    /// slot at `id`'s index is occupied and the occupant's generation matches
    /// the event's. Under well-formedness a matching generation makes the
    /// occupant's identity equal to `id` itself, since both carry the slot's
    /// index.
    pub open spec fn delivers(self, id: ID) -> bool {
        &&& id.spec_index() < self.table.len()
        &&& self.table[id.spec_index() as int] matches Some(p) && p.0.spec_generation()
            == id.spec_generation()
    }
}

/// The scheduler capability: registering and removing tasks and arming the
/// readiness poller, exposed uniformly by the registry itself and by the
/// per-dispatch execution context, so that a task executing inside a dispatch
/// can act on the same registry it is being dispatched from.
pub trait Scheduler<T>: Sized {
    /// The registry this capability acts on.
    spec fn reg(&self) -> RegistryModel<T>;

    /// The poller handle table behind this capability.
    spec fn armed(&self) -> Seq<Option<i32>>;

    /// Places `task` in the registry and issues its identity: the most
    /// recently freed slot is taken over with the generation advanced by one,
    /// or a new slot is appended at generation zero. Registration never fails.
    fn register(&mut self, task: T) -> (id: ID)
        requires
            old(self).reg().wf(),
            old(self).reg().can_register(),
        ensures
            final(self).reg().wf(),
            id == old(self).reg().next_id(),
            final(self).reg() == old(self).reg().after_register(task),
            final(self).armed() == old(self).armed(),
    ;

    /// Vacates `id`'s slot and queues `id` for index reuse. On an identity
    /// that is not the live occupant of its slot this is a no-op: stale
    /// removals are tolerated rather than corrupting the table.
    fn remove(&mut self, id: ID)
        requires
            old(self).reg().wf(),
        ensures
            final(self).reg().wf(),
            final(self).reg() == old(self).reg().after_remove(id),
            final(self).armed() == old(self).armed(),
    ;

    /// Arms the poller with a one-shot read-readiness watch for `fd` under
    /// `id`'s correlation token. On failure nothing is recorded.
    fn sys_register(&mut self, id: ID, fd: i32) -> (r: Result<(), std::io::Error>)
        ensures
            final(self).reg() == old(self).reg(),
            r is Err ==> final(self).armed() == old(self).armed(),
            r is Ok ==> final(self).armed() == armed_set(
                old(self).armed(),
                id.spec_index() as int,
                fd,
            ),
    ;

    /// How many freed identities await index reuse.
    fn free_len(&self) -> (n: usize)
        ensures
            n == self.reg().free.len(),
    ;

    /// How many slots the table holds, vacant ones included.
    fn table_len(&self) -> (n: usize)
        ensures
            n == self.reg().table.len(),
    ;

    /// Undoes the `register` that issued `id` after the follow-up poller
    /// arming failed, restoring the registry to its exact prior state;
    /// `appended` says whether that `register` grew the table rather than
    /// reusing a freed slot.
    fn rollback_register(&mut self, id: ID, appended: bool)
        requires
            old(self).reg().wf(),
            old(self).reg().live(id),
            appended ==> id.spec_index() + 1 == old(self).reg().table.len(),
        ensures
            final(self).reg().wf(),
            appended ==> final(self).reg().table == old(self).reg().table.drop_last()
                && final(self).reg().free == old(self).reg().free,
            !appended ==> final(self).reg().table == old(self).reg().table.update(
                id.spec_index() as int,
                None,
            ) && final(self).reg().free == old(self).reg().free.push(id.spec_prev_generation()),
            final(self).armed() == old(self).armed(),
    ;
}

/// The task registry and reactor core: owns the slot table of live tasks, the
/// free list of reusable identities, and the readiness-poller adapter, and
/// drives the dispatch loop.
pub struct Runtime<T> {
    sys: SysRuntime,
    tasks: Vec<Option<(ID, T)>>,
    task_ids: Vec<ID>,
}

impl<T> Runtime<T> {
    /// A fresh registry with no tasks and a fresh poller instance.
    pub fn create() -> (r: Result<Runtime<T>, std::io::Error>)
        ensures
            r matches Ok(rt) ==> {
                &&& rt.reg().wf()
                &&& rt.reg().table.len() == 0
                &&& rt.reg().free.len() == 0
                &&& rt.armed().len() == 0
            },
    {
        let sys = match SysRuntime::create() {
            Ok(s) => s,
            Err(e) => return Err(e),
        };
        Ok(Runtime { sys, tasks: Vec::new(), task_ids: Vec::new() })
    }

    /// An inert registry that stands in while the real one is lent to an
    /// execution context.
    pub(crate) fn placeholder() -> (r: Runtime<T>)
        ensures
            r.reg().wf(),
    {
        Runtime { sys: SysRuntime::placeholder(), tasks: Vec::new(), task_ids: Vec::new() }
    }

    /// Starts binding a readiness source to a task: builds the binder for the
    /// descriptor `as_raw_fd` hands out, as `for_descriptor` would, and `with`
    /// completes the binding against a scheduler capability. `AsyncNotifier`
    /// is an uncontracted user trait, so only `for_descriptor` can tie the
    /// binder's descriptor to its argument in the contract.
    pub fn register_async<N: AsyncNotifier>(&self, source: &N) -> (r: AsyncCreateContext) {
        AsyncCreateContext::for_descriptor(source.as_raw_fd())
    }

    /// Whether any slot still holds a task.
    pub fn has_live_tasks(&self) -> (r: bool)
        ensures
            r == !self.reg().exhausted(),
    {
        let mut i: usize = 0;
        while i < self.tasks.len()
            invariant
                i <= self.tasks@.len(),
                forall|j: int| 0 <= j < i ==> self.tasks@[j] is None,
            decreases self.tasks@.len() - i,
        {
            if self.tasks[i].is_some() {
                return true;
            }
            i += 1;
        }
        false
    }
}

impl<T> Runtime<T> {
    /// Takes out the task a readiness event carrying `id` is to be delivered
    /// to. When the slot at `id`'s index holds an occupant of the same
    /// generation, the occupant's pair comes back and its slot is vacant —
    /// before the task runs, so that the task's own registrations never
    /// observe it — while the free list and the handle table are untouched.
    /// On a stale event (vacant slot, or a slot reused by a later
    /// generation) nothing changes and `None` comes back.
    pub fn take_delivered(&mut self, id: ID) -> (t: Option<(ID, T)>)
        requires
            old(self).reg().wf(),
        ensures
            final(self).reg().wf(),
            t is Some <==> old(self).reg().delivers(id),
            t matches Some(p) ==> {
                &&& Some(p) == old(self).reg().table[id.spec_index() as int]
                &&& final(self).reg().table == old(self).reg().table.update(
                    id.spec_index() as int,
                    None,
                )
                &&& final(self).reg().free == old(self).reg().free
            },
            t is None ==> *final(self) == *old(self),
            final(self).armed() == old(self).armed(),
    {
        let idx = id.index();
        if idx >= self.tasks.len() {
            return None;
        }
        let deliver = match &self.tasks[idx] {
            Some(p) => id.is_same_generation(p.0),
            None => false,
        };
        if !deliver {
            return None;
        }
        let slot = &mut self.tasks[idx];
        let entry = slot.take();
        proof {
            assert(self.tasks@ =~= old(self).tasks@.update(idx as int, None));
            assert(self.reg().wf());
        }
        entry
    }
}

impl<T: Task> Runtime<T> {
    /// Delivers one readiness event. If `id` is the live occupant of its slot
    /// — the generations match — the task is taken out by `take_delivered`,
    /// leaving the slot vacant, and executes once with a context carrying the
    /// readiness bitmask. A stale event (vacant slot, or a slot reused by a
    /// later generation) is dropped: no task is invoked, nothing is reported,
    /// and the registry is left untouched.
    pub fn dispatch_one(&mut self, event: u32, id: ID)
        requires
            old(self).reg().wf(),
        ensures
            final(self).reg().wf(),
            !old(self).reg().delivers(id) ==> *final(self) == *old(self),
    {
        match self.take_delivered(id) {
            Some((_, task)) => {
                let mut lent = Runtime::placeholder();
                core::mem::swap(self, &mut lent);
                let mut context = Context::new(lent, event);
                task.execute(&mut context);
                let restored = context.into_runtime();
                *self = restored;
            },
            None => {},
        }
    }

    /// One iteration of the reactor's dispatch loop. With no task registered
    /// the reactor is exhausted: nothing is waited for and `Ok(false)` reports
    /// the terminal, non-error state. Otherwise this blocks on the poller
    /// (each fired watch is withdrawn as it is returned, the one-shot disarm),
    /// delivers the batch of events in order — each to the live occupant it
    /// was issued for, dropping stale ones — and says whether tasks remain.
    /// A poller failure is fatal and is returned to the caller.
    pub fn poll_once(&mut self) -> (r: Result<bool, std::io::Error>)
        requires
            old(self).reg().wf(),
        ensures
            final(self).reg().wf(),
            r matches Ok(more) ==> more == !final(self).reg().exhausted(),
            r is Err ==> final(self).reg() == old(self).reg(),
            old(self).reg().exhausted() ==> r == Ok::<bool, std::io::Error>(false) && *final(self)
                == *old(self),
    {
        if !self.has_live_tasks() {
            return Ok(false);
        }
        let events = match self.sys.wait(None) {
            Ok(v) => v,
            Err(e) => return Err(e),
        };
        let mut k: usize = 0;
        while k < events.len()
            invariant
                self.reg().wf(),
            decreases events@.len() - k,
        {
            let (ev, id) = events[k];
            self.dispatch_one(ev, id);
            k += 1;
        }
        let more = self.has_live_tasks();
        Ok(more)
    }
}

impl<T> Scheduler<T> for Runtime<T> {
    closed spec fn reg(&self) -> RegistryModel<T> {
        RegistryModel { table: self.tasks@, free: self.task_ids@ }
    }

    closed spec fn armed(&self) -> Seq<Option<i32>> {
        self.sys.armed()
    }

    fn register(&mut self, task: T) -> (id: ID) {
        let id = match self.task_ids.pop() {
            Some(prev) => prev.next_generation(),
            None => {
                proof {
                    ID::lemma_parts(self.tasks@.len() as u32, 0);
                }
                let id = ID::new(self.tasks.len() as u32, 0);
                self.tasks.push(None);
                id
            },
        };
        let idx = id.index();
        let slot = &mut self.tasks[idx];
        *slot = Some((id, task));
        proof {
            let m0 = old(self).reg();
            let m1 = self.reg();
            if m0.free.len() > 0 {
                assert(m1 =~= m0.after_register(task));
            } else {
                assert(self.tasks@ =~= m0.table.push(Some((id, task))));
                assert(m1 =~= m0.after_register(task));
            }
            assert forall|k: int| 0 <= k < m1.free.len() implies (#[trigger] m1.free[k]).spec_index()
                < m1.table.len() && m1.table[m1.free[k].spec_index() as int] is None by {
                assert(m0.free[k] == m1.free[k]);
                assert(m0.free[k].spec_index() != m0.free.last().spec_index());
            }
            assert(m1.wf());
        }
        id
    }

    fn remove(&mut self, id: ID) {
        let idx = id.index();
        if idx < self.tasks.len() {
            let is_live = match &self.tasks[idx] {
                Some(p) => p.0 == id,
                None => false,
            };
            if is_live {
                let slot = &mut self.tasks[idx];
                *slot = None;
                self.task_ids.push(id);
                proof {
                    let m0 = old(self).reg();
                    let m1 = self.reg();
                    assert(m1 =~= m0.after_remove(id));
                    assert forall|k1: int, k2: int| 0 <= k1 < k2 < m1.free.len() implies (
                    #[trigger] m1.free[k1]).spec_index() != (#[trigger] m1.free[k2]).spec_index()
                        by {
                        if k2 == m1.free.len() - 1 {
                            assert(m0.table[m0.free[k1].spec_index() as int] is None);
                        }
                    }
                    assert(m1.wf());
                }
            }
        }
    }

    fn sys_register(&mut self, id: ID, fd: i32) -> (r: Result<(), std::io::Error>) {
        self.sys.register(id, fd)
    }

    fn free_len(&self) -> (n: usize) {
        self.task_ids.len()
    }

    fn table_len(&self) -> (n: usize) {
        self.tasks.len()
    }

    fn rollback_register(&mut self, id: ID, appended: bool) {
        if appended {
            self.tasks.pop();
            proof {
                let m1 = self.reg();
                assert(self.tasks@ =~= old(self).reg().table.drop_last());
                assert(m1.wf());
            }
        } else {
            let idx = id.index();
            let slot = &mut self.tasks[idx];
            *slot = None;
            self.task_ids.push(id.prev_generation());
            proof {
                let m0 = old(self).reg();
                let m1 = self.reg();
                ID::lemma_index_bound(id);
                ID::lemma_parts(id.spec_index(), ((id.spec_generation() + 255) % 256) as u8);
                assert(id.spec_prev_generation().spec_index() == id.spec_index());
                assert forall|k1: int, k2: int| 0 <= k1 < k2 < m1.free.len() implies (
                #[trigger] m1.free[k1]).spec_index() != (#[trigger] m1.free[k2]).spec_index() by {
                    if k2 == m1.free.len() - 1 {
                        assert(m0.table[m0.free[k1].spec_index() as int] is None);
                    }
                }
                assert(m1.wf());
            }
        }
    }
}

/// A readiness source: anything exposing a stable OS-level descriptor the
/// poller can watch. An implementor must keep the descriptor valid while the
/// source is armed and must operate non-blockingly.
pub trait AsyncNotifier {
    fn as_raw_fd(&self) -> i32;
}

/// A pending binding of one readiness source to one task. `with` couples
/// "place the task in the registry" with "arm the source with the poller" so
/// that a poller-side failure rolls the registry back to its exact prior
/// state.
#[must_use]
pub struct AsyncCreateContext {
    pub(crate) fd: i32,
}

impl AsyncCreateContext {
    /// The descriptor of the source being bound.
    pub closed spec fn spec_fd(self) -> i32 {
        self.fd
    }

    /// A binder for the source whose descriptor is `fd`.
    pub fn for_descriptor(fd: i32) -> (r: AsyncCreateContext)
        ensures
            r.spec_fd() == fd,
    {
        AsyncCreateContext { fd }
    }

    /// Completes the binding: registers `task` and arms the poller for this
    /// binder's source under the fresh identity's correlation token. On a
    /// poller failure the registration is rolled back — the registry is left
    /// exactly as before the call — and the failure is returned. On success
    /// the task is registered and exactly one armed watch holds this source's
    /// descriptor, at the new identity's index.
    pub fn with<T, S: Scheduler<T>>(self, scheduler: &mut S, task: T) -> (r: Result<
        (),
        std::io::Error,
    >)
        requires
            old(scheduler).reg().wf(),
            old(scheduler).reg().can_register(),
        ensures
            final(scheduler).reg().wf(),
            r is Err ==> final(scheduler).reg() == old(scheduler).reg() && final(scheduler).armed()
                == old(scheduler).armed(),
            r is Ok ==> final(scheduler).reg() == old(scheduler).reg().after_register(task)
                && final(scheduler).armed() == armed_set(
                old(scheduler).armed(),
                old(scheduler).reg().next_id().spec_index() as int,
                self.spec_fd(),
            ),
    {
        let ghost m0 = old(scheduler).reg();
        let appended = scheduler.free_len() == 0;
        proof {
            if m0.free.len() == 0 {
                ID::lemma_parts(m0.table.len() as u32, 0);
            }
        }
        let id = scheduler.register(task);
        proof {
            if m0.free.len() > 0 {
                let prev = m0.free.last();
                ID::lemma_index_bound(prev);
                ID::lemma_parts(prev.spec_index(), ((prev.spec_generation() + 1) % 256) as u8);
            }
        }
        match scheduler.sys_register(id, self.fd) {
            Ok(()) => Ok(()),
            Err(e) => {
                scheduler.rollback_register(id, appended);
                proof {
                    let m2 = scheduler.reg();
                    if m0.free.len() == 0 {
                        assert(m2.table =~= m0.table);
                    } else {
                        let prev = m0.free.last();
                        ID::lemma_prev_of_next(prev);
                        assert(m0.table[prev.spec_index() as int] is None);
                        assert(m2.table =~= m0.table);
                        assert(m2.free =~= m0.free);
                    }
                    assert(m2 =~= m0);
                }
                Err(e)
            },
        }
    }
}

} // verus!
