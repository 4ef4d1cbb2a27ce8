use vstd::prelude::*;
use crate::id::ID;

verus! {

/// The operating-system error type that the poller's calls report.
#[verifier::external_type_specification]
#[verifier::external_body]
pub struct ExIoError(std::io::Error);

/// Relies on epoll::create: makes a new readiness-poller instance and returns
/// its descriptor, or the OS error.
#[verifier::external_body]
fn sys_epoll_create() -> (r: Result<i32, std::io::Error>) {
    epoll::create(false)
}

/// Relies on epoll::ctl with EPOLL_CTL_ADD: arms a one-shot, read-readiness
/// watch for `fd` on the poller `epfd`, tagged with the correlation token
/// `token`. The watch fires at most once per arming.
#[verifier::external_body]
fn sys_epoll_add(epfd: i32, fd: i32, token: u64) -> (r: Result<(), std::io::Error>) {
    epoll::ctl(
        epfd,
        epoll::ControlOptions::EPOLL_CTL_ADD,
        fd,
        epoll::Event::new(epoll::Events::EPOLLIN | epoll::Events::EPOLLONESHOT, token),
    )
}

/// Relies on epoll::ctl with EPOLL_CTL_DEL: withdraws the watch for `fd` from
/// the poller `epfd`.
#[verifier::external_body]
fn sys_epoll_del(epfd: i32, fd: i32, token: u64) -> (r: Result<(), std::io::Error>) {
    epoll::ctl(
        epfd,
        epoll::ControlOptions::EPOLL_CTL_DEL,
        fd,
        epoll::Event::new(epoll::Events::empty(), token),
    )
}

/// Relies on epoll::wait: blocks until a watch fires or `timeout` milliseconds
/// elapse (indefinitely when `timeout` is negative), and hands back each fired
/// watch's readiness bitmask and correlation token. At most ten fired watches
/// come back per call, the size of the buffer handed to epoll::wait; and a
/// blocking call that returns successfully returns at least one, since with
/// no timeout epoll::wait returns only once a watch has fired (an interrupted
/// wait is an error, not an empty batch).
#[verifier::external_body]
fn sys_epoll_wait(epfd: i32, timeout: i32) -> (r: Result<Vec<(u32, u64)>, std::io::Error>)
    ensures
        r matches Ok(v) ==> v@.len() <= 10,
        timeout < 0 ==> (r matches Ok(v) ==> v@.len() >= 1),
{
    let mut buf = vec![epoll::Event::new(epoll::Events::empty(), 0); 10];
    let n = epoll::wait(epfd, timeout, &mut buf)?;
    Ok(buf.into_iter().take(n).map(|e| (e.events, e.data)).collect())
}

/// Decodes a raw poller batch: each fired watch keeps its readiness bitmask
/// and has its correlation token decoded back into the identity it was armed
/// under, in delivery order.
pub fn decode_event_batch(raw: &Vec<(u32, u64)>) -> (out: Vec<(u32, ID)>)
    ensures
        out@.len() == raw@.len(),
        forall|k: int|
            0 <= k < raw@.len() ==> (#[trigger] out@[k]).0 == raw@[k].0 && out@[k].1
                == ID::spec_from_token(raw@[k].1),
{
    let mut out: Vec<(u32, ID)> = Vec::new();
    let mut k: usize = 0;
    while k < raw.len()
        invariant
            k <= raw@.len(),
            out@.len() == k,
            forall|j: int|
                0 <= j < k ==> (#[trigger] out@[j]).0 == raw@[j].0 && out@[j].1
                    == ID::spec_from_token(raw@[j].1),
        decreases raw@.len() - k,
    {
        let (ev, data) = raw[k];
        out.push((ev, ID::from_u64(data)));
        k += 1;
    }
    out
}

/// The handle table after `fd` is recorded for the slot index `idx`: the
/// table grows with empty entries until it covers `idx`, and `idx`'s entry
/// becomes `fd`.
pub open spec fn armed_set(a: Seq<Option<i32>>, idx: int, fd: i32) -> Seq<Option<i32>> {
    let grown = if a.len() < idx + 1 {
        a + Seq::new((idx + 1 - a.len()) as nat, |k: int| None::<i32>)
    } else {
        a
    };
    grown.update(idx, Some(fd))
}

/// The handle table after the entry at `idx` is cleared: withdrawal of a
/// watch, a no-op outside the table's range.
pub open spec fn cleared(a: Seq<Option<i32>>, idx: int) -> Seq<Option<i32>> {
    if 0 <= idx < a.len() {
        a.update(idx, None)
    } else {
        a
    }
}

/// The readiness-poller adapter: wraps an OS readiness-multiplexing facility
/// configured for one-shot delivery, and keeps a sparse handle table mapping
/// each slot index to the descriptor currently armed for the identity at that
/// index.
pub struct SysRuntime {
    epoll: i32,
    handles: Vec<Option<i32>>,
}

impl SysRuntime {
    /// The handle table: for each slot index, the descriptor whose watch is
    /// currently armed under an identity with that index, if any.
    pub closed spec fn armed(self) -> Seq<Option<i32>> {
        self.handles@
    }

    pub(crate) fn create() -> (r: Result<SysRuntime, std::io::Error>)
        ensures
            r matches Ok(s) ==> s.armed() == Seq::<Option<i32>>::empty(),
    {
        let epoll = match sys_epoll_create() {
            Ok(fd) => fd,
            Err(e) => return Err(e),
        };
        Ok(SysRuntime { epoll, handles: Vec::new() })
    }

    /// Arms a one-shot read-readiness watch for `fd`, tagged with `id`'s
    /// correlation token, and records `index -> fd` in the handle table,
    /// growing it as needed. On an OS-side failure nothing is recorded.
    pub(crate) fn register(&mut self, id: ID, fd: i32) -> (r: Result<(), std::io::Error>)
        ensures
            r is Err ==> final(self).armed() == old(self).armed(),
            r is Ok ==> final(self).armed() == armed_set(
                old(self).armed(),
                id.spec_index() as int,
                fd,
            ),
    {
        match sys_epoll_add(self.epoll, fd, id.to_u64()) {
            Ok(()) => {}
            Err(e) => return Err(e),
        }
        let idx = id.index();
        proof {
            ID::lemma_index_bound(id);
        }
        while self.handles.len() < idx + 1
            invariant
                idx + 1 <= usize::MAX,
                self.handles@.len() <= idx + 1 || self.handles@.len() == old(self).armed().len(),
                self.handles@.len() >= old(self).armed().len(),
                self.epoll == old(self).epoll,
                forall|i: int|
                    0 <= i < self.handles@.len() ==> self.handles@[i] == (if i < old(self).armed().len() {
                        old(self).armed()[i]
                    } else {
                        None::<i32>
                    }),
            decreases idx + 1 - self.handles.len(),
        {
            self.handles.push(None);
        }
        let slot = &mut self.handles[idx];
        *slot = Some(fd);
        proof {
            assert(self.handles@ =~= armed_set(old(self).armed(), id.spec_index() as int, fd));
        }
        Ok(())
    }

    /// An inert adapter that stands in for the real one while the registry is
    /// lent to an execution context: no watches, no poller instance.
    pub(crate) fn placeholder() -> (r: SysRuntime)
        ensures
            r.armed() == Seq::<Option<i32>>::empty(),
    {
        SysRuntime { epoll: -1, handles: Vec::new() }
    }

    /// Withdraws the watch recorded for `id`'s index and clears the entry.
    /// With no entry recorded this is a no-op: a withdrawal of an already
    /// unarmed watch is expected after cancellation and is not an error.
    fn deregister(&mut self, id: ID) -> (r: Result<(), std::io::Error>)
        ensures
            final(self).armed() == cleared(old(self).armed(), id.spec_index() as int),
            !(id.spec_index() < old(self).armed().len() && old(self).armed()[id.spec_index() as int]
                is Some) ==> r is Ok,
    {
        let idx = id.index();
        if idx < self.handles.len() {
            let slot = &mut self.handles[idx];
            let entry = slot.take();
            proof {
                assert(self.handles@ =~= cleared(old(self).armed(), id.spec_index() as int));
            }
            match entry {
                Some(fd) => sys_epoll_del(self.epoll, fd, id.to_u64()),
                None => Ok(()),
            }
        } else {
            Ok(())
        }
    }

    /// Blocks until at least one watch fires or the timeout (in milliseconds)
    /// elapses; `None` blocks indefinitely. Every fired watch comes back as a
    /// readiness bitmask with its decoded identity, and is withdrawn before it
    /// is returned, so that one arming is delivered at most once: on return no
    /// returned identity's index holds an armed entry, and entries not
    /// returned are untouched. A blocking call (no timeout) that succeeds
    /// returns at least one fired watch.
    pub(crate) fn wait(&mut self, timeout: Option<u32>) -> (r: Result<
        Vec<(u32, ID)>,
        std::io::Error,
    >)
        ensures
            final(self).armed().len() == old(self).armed().len(),
            forall|i: int|
                0 <= i < old(self).armed().len() ==> final(self).armed()[i] == old(self).armed()[i]
                    || final(self).armed()[i] is None,
            r matches Ok(v) ==> forall|k: int|
                0 <= k < v@.len() && v@[k].1.spec_index() < final(self).armed().len() ==> final(self).armed()[v@[k].1.spec_index() as int] is None,
            r matches Ok(v) ==> forall|i: int|
                0 <= i < old(self).armed().len() && (forall|k: int|
                    0 <= k < v@.len() ==> (#[trigger] v@[k].1).spec_index() != i) ==> final(self).armed()[i] == old(self).armed()[i],
            timeout is None ==> (r matches Ok(v) ==> v@.len() >= 1),
    {
        let t: i32 = match timeout {
            None => -1,
            Some(u) => if u > 0x7FFF_FFFF {
                0x7FFF_FFFF
            } else {
                u as i32
            },
        };
        let raw = match sys_epoll_wait(self.epoll, t) {
            Ok(v) => v,
            Err(e) => return Err(e),
        };
        let events = decode_event_batch(&raw);
        let mut k: usize = 0;
        while k < events.len()
            invariant
                k <= events@.len(),
                self.armed().len() == old(self).armed().len(),
                forall|i: int|
                    0 <= i < old(self).armed().len() ==> self.armed()[i] == old(self).armed()[i]
                        || self.armed()[i] is None,
                forall|j: int|
                    0 <= j < k && events@[j].1.spec_index() < self.armed().len()
                        ==> self.armed()[events@[j].1.spec_index() as int] is None,
                forall|i: int|
                    0 <= i < old(self).armed().len() && (forall|j: int|
                        0 <= j < k ==> (#[trigger] events@[j].1).spec_index() != i)
                        ==> self.armed()[i] == old(self).armed()[i],
            decreases events@.len() - k,
        {
            let id = events[k].1;
            let ghost pre = self.armed();
            let ghost done = k as int;
            match self.deregister(id) {
                Ok(()) => {}
                Err(e) => return Err(e),
            }
            k += 1;
            proof {
                assert forall|i: int|
                    0 <= i < old(self).armed().len() && (forall|j: int|
                        0 <= j < k ==> (#[trigger] events@[j].1).spec_index() != i) implies
                    self.armed()[i] == old(self).armed()[i] by {
                    assert(events@[done].1.spec_index() != i);
                    assert(pre[i] == old(self).armed()[i]);
                    assert(self.armed()[i] == pre[i]);
                }
            }
        }
        Ok(events)
    }
}

} // verus!
