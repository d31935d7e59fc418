use std::collections::HashMap;
use crate::memory::{le_u32, GuestMemory};
use vstd::prelude::*;

verus! {

broadcast use vstd::std_specs::hash::group_hash_axioms;

/// A thread blocked on a futex: its identity and the waker that unblocks it.
/// `waker == None` means the waiter is poll-driven and has no waker yet.
#[derive(Clone, Copy, Debug, PartialEq, Eq)]
pub struct Waiter {
    pub id: u64,
    pub waker: Option<u64>,
}

/// Outcome of a futex wait, or of one poll of it.
#[derive(Clone, Copy, Debug, PartialEq, Eq)]
pub enum FutexWait {
    /// A wake released the waiter.
    Woken,
    /// The value at the address differed from the expected one; nothing was registered.
    ValueMismatch,
    /// The deadline passed before any wake.
    TimedOut,
    /// The waiter is registered and still blocked.
    Pending,
}

/// The waiters at `a`, in registration order; empty where no futex exists.
pub open spec fn waiters_at(m: Map<u64, Seq<Waiter>>, a: u64) -> Seq<Waiter> {
    if m.contains_key(a) {
        m[a]
    } else {
        Seq::empty()
    }
}

pub open spec fn has_waiter(ws: Seq<Waiter>, id: u64) -> bool {
    exists|i: int| 0 <= i < ws.len() && ws[i].id == id
}

/// Where the waiter `id` stands in `ws`, or -1.
pub open spec fn position(ws: Seq<Waiter>, id: u64) -> int {
    if has_waiter(ws, id) {
        choose|i: int| 0 <= i < ws.len() && ws[i].id == id
    } else {
        -1
    }
}

pub open spec fn distinct_ids(ws: Seq<Waiter>) -> bool {
    forall|i: int, j: int|
        0 <= i < ws.len() && 0 <= j < ws.len() && i != j ==> ws[i].id != ws[j].id
}

/// `ws` with `w` registered: a waiter already present keeps its place and takes
/// the new waker; a new one goes last.
pub open spec fn with_waiter(ws: Seq<Waiter>, w: Waiter) -> Seq<Waiter> {
    if has_waiter(ws, w.id) {
        ws.update(position(ws, w.id), w)
    } else {
        ws.push(w)
    }
}

/// `ws` without the waiter `id`.
pub open spec fn without_waiter(ws: Seq<Waiter>, id: u64) -> Seq<Waiter> {
    if has_waiter(ws, id) {
        ws.remove(position(ws, id))
    } else {
        ws
    }
}

/// The table with the waiters at `a` set to `ws`; an empty list removes the entry.
pub open spec fn set_waiters(m: Map<u64, Seq<Waiter>>, a: u64, ws: Seq<Waiter>) -> Map<
    u64,
    Seq<Waiter>,
> {
    if ws.len() == 0 {
        m.remove(a)
    } else {
        m.insert(a, ws)
    }
}

/// Every entry has at least one waiter, and no waiter twice.
pub open spec fn table_wf(m: Map<u64, Seq<Waiter>>) -> bool {
    forall|a: u64| #[trigger] m.contains_key(a) ==> m[a].len() > 0 && distinct_ids(m[a])
}

pub open spec fn registered(m: Map<u64, Seq<Waiter>>, a: u64, w: Waiter) -> Map<u64, Seq<Waiter>> {
    set_waiters(m, a, with_waiter(waiters_at(m, a), w))
}

pub open spec fn cancelled(m: Map<u64, Seq<Waiter>>, a: u64, id: u64) -> Map<u64, Seq<Waiter>> {
    set_waiters(m, a, without_waiter(waiters_at(m, a), id))
}

/// The table after releasing the first waiter at `a`.
pub open spec fn woken_one(m: Map<u64, Seq<Waiter>>, a: u64) -> Map<u64, Seq<Waiter>> {
    if m.contains_key(a) {
        set_waiters(m, a, m[a].drop_first())
    } else {
        m
    }
}

/// The futexes of one process, keyed by guest address.
pub struct FutexTable {
    futexes: HashMap<u64, Vec<Waiter>>,
}

proof fn lemma_position(ws: Seq<Waiter>, id: u64, i: int)
    requires
        distinct_ids(ws),
        0 <= i < ws.len(),
        ws[i].id == id,
    ensures
        has_waiter(ws, id),
        position(ws, id) == i,
{
}

proof fn lemma_with_waiter(ws: Seq<Waiter>, w: Waiter)
    requires
        distinct_ids(ws),
    ensures
        distinct_ids(with_waiter(ws, w)),
        with_waiter(ws, w).len() > 0,
        has_waiter(with_waiter(ws, w), w.id),
{
    let r = with_waiter(ws, w);
    if has_waiter(ws, w.id) {
        let p = position(ws, w.id);
        assert(r[p].id == w.id);
    } else {
        assert(r[ws.len() as int].id == w.id);
    }
}

proof fn lemma_without_waiter(ws: Seq<Waiter>, id: u64)
    requires
        distinct_ids(ws),
    ensures
        distinct_ids(without_waiter(ws, id)),
        !has_waiter(without_waiter(ws, id), id),
{
    let r = without_waiter(ws, id);
    if has_waiter(ws, id) {
        let p = position(ws, id);
        assert forall|i: int| 0 <= i < r.len() implies r[i].id != id by {
            if i < p {
                assert(r[i] == ws[i]);
            } else {
                assert(r[i] == ws[i + 1]);
            }
        }
        assert forall|i: int, j: int|
            0 <= i < r.len() && 0 <= j < r.len() && i != j implies r[i].id != r[j].id by {
            let i2 = if i < p { i } else { i + 1 };
            let j2 = if j < p { j } else { j + 1 };
            assert(r[i] == ws[i2]);
            assert(r[j] == ws[j2]);
        }
    }
}

fn find_waiter(ws: &Vec<Waiter>, id: u64) -> (r: Option<usize>)
    requires
        distinct_ids(ws@),
    ensures
        match r {
            Some(i) => i < ws@.len() && ws@[i as int].id == id && position(ws@, id) == i,
            None => !has_waiter(ws@, id),
        },
{
    let mut i: usize = 0;
    while i < ws.len()
        invariant
            i <= ws@.len(),
            distinct_ids(ws@),
            forall|j: int| 0 <= j < i ==> ws@[j].id != id,
        decreases ws@.len() - i,
    {
        if ws[i].id == id {
            proof {
                lemma_position(ws@, id, i as int);
            }
            return Some(i);
        }
        i = i + 1;
    }
    None
}

impl FutexTable {
    /// The waiters at each address that has any.
    pub closed spec fn view(&self) -> Map<u64, Seq<Waiter>> {
        Map::new(|a: u64| self.futexes@.contains_key(a), |a: u64| self.futexes@[a]@)
    }

    pub open spec fn wf(&self) -> bool {
        table_wf(self@)
    }

    /// An empty table.
    pub fn new() -> (r: Self)
        ensures
            r@ == Map::<u64, Seq<Waiter>>::empty(),
            r.wf(),
    {
        let r = FutexTable { futexes: HashMap::new() };
        assert(r@ =~= Map::<u64, Seq<Waiter>>::empty());
        r
    }

    /// Takes the waiters at `a` out of the table.
    fn take(&mut self, a: u64) -> (r: Vec<Waiter>)
        ensures
            r@ == waiters_at(old(self)@, a),
            final(self)@ == old(self)@.remove(a),
    {
        let r = match self.futexes.remove(&a) {
            Some(ws) => ws,
            None => Vec::new(),
        };
        assert(final(self)@ =~= old(self)@.remove(a));
        r
    }

    /// Puts `ws` at `a`, where the table holds nothing at `a`.
    fn put(&mut self, a: u64, ws: Vec<Waiter>)
        requires
            !old(self)@.contains_key(a),
        ensures
            final(self)@ == set_waiters(old(self)@, a, ws@),
    {
        if ws.len() > 0 {
            self.futexes.insert(a, ws);
            assert(final(self)@ =~= old(self)@.insert(a, ws@));
        } else {
            assert(old(self)@.remove(a) =~= old(self)@);
        }
    }

    /// The number of threads blocked at `a`.
    pub fn waiter_count(&self, a: u64) -> (r: usize)
        ensures
            r == waiters_at(self@, a).len(),
    {
        match self.futexes.get(&a) {
            Some(ws) => ws.len(),
            None => 0,
        }
    }

    /// Registers `w` at `a`, keeping its place if it is already there.
    fn register(&mut self, a: u64, w: Waiter)
        requires
            old(self).wf(),
        ensures
            final(self).wf(),
            final(self)@ == registered(old(self)@, a, w),
    {
        let ghost m = self@;
        let mut ws = self.take(a);
        proof {
            lemma_with_waiter(ws@, w);
        }
        match find_waiter(&ws, w.id) {
            Some(i) => {
                ws.set(i, w);
            },
            None => {
                ws.push(w);
            },
        }
        assert(ws@ == with_waiter(waiters_at(m, a), w));
        self.put(a, ws);
        assert(m.remove(a).insert(a, with_waiter(waiters_at(m, a), w)) =~= m.insert(a, with_waiter(waiters_at(m, a), w)));
    }

    /// Begins a wait at `a`: `current` is the value just read from guest memory
    /// there. A value other than `expected` gives `ValueMismatch`; a zero
    /// timeout gives `TimedOut`; in neither case is anything registered.
    /// Otherwise `w` is registered and the wait is `Pending`.
    pub fn wait(&mut self, a: u64, expected: u32, current: u32, w: Waiter, timeout: Option<u64>) -> (r: FutexWait)
        requires
            old(self).wf(),
        ensures
            final(self).wf(),
            current != expected ==> r == FutexWait::ValueMismatch && final(self)@ == old(self)@,
            current == expected && timeout == Some(0u64) ==> r == FutexWait::TimedOut
                && final(self)@ == old(self)@,
            current == expected && timeout != Some(0u64) ==> r == FutexWait::Pending
                && final(self)@ == registered(old(self)@, a, w),
    {
        if current != expected {
            return FutexWait::ValueMismatch;
        }
        if let Some(t) = timeout {
            if t == 0 {
                return FutexWait::TimedOut;
            }
        }
        self.register(a, w);
        FutexWait::Pending
    }

    /// Polls a wait begun at `a`: `Woken` once no waiter `w.id` stands there any
    /// more; otherwise `w`'s new waker is recorded and the wait stays `Pending`.
    pub fn poll_wait(&mut self, a: u64, w: Waiter) -> (r: FutexWait)
        requires
            old(self).wf(),
        ensures
            final(self).wf(),
            !has_waiter(waiters_at(old(self)@, a), w.id) ==> r == FutexWait::Woken
                && final(self)@ == old(self)@,
            has_waiter(waiters_at(old(self)@, a), w.id) ==> r == FutexWait::Pending
                && final(self)@ == registered(old(self)@, a, w),
    {
        let present = match self.futexes.get(&a) {
            Some(ws) => {
                assert(ws@ == waiters_at(self@, a));
                find_waiter(ws, w.id).is_some()
            },
            None => {
                assert(waiters_at(self@, a).len() == 0);
                false
            },
        };
        if present {
            self.register(a, w);
            FutexWait::Pending
        } else {
            FutexWait::Woken
        }
    }

    /// Ends a wait at `a` whose deadline has passed. A waiter still registered
    /// is removed and the wait is `TimedOut`; one that a wake already released
    /// is `Woken`, so the wake is neither lost nor counted twice.
    pub fn cancel_wait(&mut self, a: u64, id: u64) -> (r: FutexWait)
        requires
            old(self).wf(),
        ensures
            final(self).wf(),
            final(self)@ == cancelled(old(self)@, a, id),
            r == (if has_waiter(waiters_at(old(self)@, a), id) {
                FutexWait::TimedOut
            } else {
                FutexWait::Woken
            }),
    {
        let ghost m = self@;
        let mut ws = self.take(a);
        proof {
            lemma_without_waiter(ws@, id);
        }
        let r = match find_waiter(&ws, id) {
            Some(i) => {
                ws.remove(i);
                FutexWait::TimedOut
            },
            None => FutexWait::Woken,
        };
        assert(ws@ == without_waiter(waiters_at(m, a), id));
        self.put(a, ws);
        proof {
            let ws2 = without_waiter(waiters_at(m, a), id);
            assert(m.remove(a).insert(a, ws2) =~= m.insert(a, ws2));
            assert(m.remove(a).remove(a) =~= m.remove(a));
            assert forall|b: u64| #[trigger] self@.contains_key(b) implies self@[b].len() > 0
                && distinct_ids(self@[b]) by {
                if b != a {
                    assert(m.contains_key(b));
                }
            }
        }
        r
    }

    /// Releases the first waiter registered at `a`, if any; the entry goes
    /// once its last waiter is released.
    pub fn wake(&mut self, a: u64) -> (r: Option<Waiter>)
        requires
            old(self).wf(),
        ensures
            final(self).wf(),
            final(self)@ == woken_one(old(self)@, a),
            !old(self)@.contains_key(a) ==> r is None && final(self)@ == old(self)@,
            old(self)@.contains_key(a) ==> r == Some(old(self)@[a][0]),
    {
        let ghost m = self@;
        let mut ws = self.take(a);
        if ws.len() == 0 {
            self.put(a, ws);
            assert(m.remove(a) =~= m);
            return None;
        }
        let first = ws.remove(0);
        assert(ws@ =~= m[a].drop_first());
        self.put(a, ws);
        proof {
            let rest = m[a].drop_first();
            assert(m.remove(a).insert(a, rest) =~= m.insert(a, rest));
            assert(m.remove(a).remove(a) =~= m.remove(a));
            assert forall|b: u64| #[trigger] self@.contains_key(b) implies self@[b].len() > 0
                && distinct_ids(self@[b]) by {
                if b != a {
                    assert(m.contains_key(b));
                } else {
                    assert forall|i: int, j: int|
                        0 <= i < rest.len() && 0 <= j < rest.len() && i != j implies rest[i].id
                        != rest[j].id by {
                        assert(rest[i] == m[a][i + 1]);
                        assert(rest[j] == m[a][j + 1]);
                    }
                }
            }
        }
        Some(first)
    }

    /// Releases every waiter at `a`, in registration order, and removes the entry.
    pub fn wake_all(&mut self, a: u64) -> (r: Vec<Waiter>)
        requires
            old(self).wf(),
        ensures
            final(self).wf(),
            r@ == waiters_at(old(self)@, a),
            final(self)@ == old(self)@.remove(a),
    {
        self.take(a)
    }
}

/// The table after registering each of `ws` at `a`, first to last.
pub open spec fn registered_all(m: Map<u64, Seq<Waiter>>, a: u64, ws: Seq<Waiter>) -> Map<
    u64,
    Seq<Waiter>,
>
    decreases ws.len(),
{
    if ws.len() == 0 {
        m
    } else {
        registered(registered_all(m, a, ws.drop_last()), a, ws.last())
    }
}

/// The table after `n` single wakes at `a`.
pub open spec fn woken_n(m: Map<u64, Seq<Waiter>>, a: u64, n: nat) -> Map<u64, Seq<Waiter>>
    decreases n,
{
    if n == 0 {
        m
    } else {
        woken_one(woken_n(m, a, (n - 1) as nat), a)
    }
}

/// Waking an address that nobody waits on, singly or all at once, releases
/// nobody and leaves the table as it was.
pub proof fn lemma_wake_unwaited(m: Map<u64, Seq<Waiter>>, a: u64)
    requires
        !m.contains_key(a),
    ensures
        woken_one(m, a) == m,
        m.remove(a) == m,
        waiters_at(m, a).len() == 0,
{
    assert(m.remove(a) =~= m);
}

/// Waiters with distinct ids registered one after another at an address with
/// no futex all stand there, in registration order, and nowhere else changes.
pub proof fn lemma_registered_all(m: Map<u64, Seq<Waiter>>, a: u64, ws: Seq<Waiter>)
    requires
        !m.contains_key(a),
        distinct_ids(ws),
    ensures
        waiters_at(registered_all(m, a, ws), a) == ws,
        forall|b: u64| b != a ==> #[trigger] waiters_at(registered_all(m, a, ws), b) == waiters_at(m, b),
    decreases ws.len(),
{
    if ws.len() > 0 {
        let init = ws.drop_last();
        assert(distinct_ids(init));
        lemma_registered_all(m, a, init);
        let w = ws.last();
        assert(!has_waiter(init, w.id)) by {
            if has_waiter(init, w.id) {
                let i = choose|i: int| 0 <= i < init.len() && init[i].id == w.id;
                assert(ws[i].id == ws[ws.len() - 1].id);
            }
        }
        assert(init.push(w) =~= ws);
        let prev = registered_all(m, a, init);
        assert forall|b: u64| b != a implies #[trigger] waiters_at(registered_all(m, a, ws), b)
            == waiters_at(m, b) by {
            assert(waiters_at(prev, b) == waiters_at(m, b));
        }
    }
}

/// After N waits registered at an address with no futex, one wake-all
/// releases all N, in registration order, and a second wake-all releases none.
pub proof fn lemma_wake_all_releases_every_waiter(m: Map<u64, Seq<Waiter>>, a: u64, ws: Seq<Waiter>)
    requires
        !m.contains_key(a),
        distinct_ids(ws),
    ensures
        waiters_at(registered_all(m, a, ws), a) == ws,
        waiters_at(registered_all(m, a, ws).remove(a), a).len() == 0,
        registered_all(m, a, ws).remove(a).remove(a) == registered_all(m, a, ws).remove(a),
{
    lemma_registered_all(m, a, ws);
    lemma_wake_unwaited(registered_all(m, a, ws).remove(a), a);
}

/// Single wakes release waiters in registration order: after `k` of them the
/// waiters left at `a` are those registered after the first `k`, and the
/// next wake releases the `k`-th.
pub proof fn lemma_wake_fifo(m: Map<u64, Seq<Waiter>>, a: u64, k: nat)
    requires
        table_wf(m),
        k <= waiters_at(m, a).len(),
    ensures
        waiters_at(woken_n(m, a, k), a) == waiters_at(m, a).subrange(k as int, waiters_at(m, a).len() as int),
        k < waiters_at(m, a).len() ==> woken_n(m, a, k).contains_key(a)
            && woken_n(m, a, k)[a][0] == waiters_at(m, a)[k as int],
    decreases k,
{
    let ws = waiters_at(m, a);
    if k == 0 {
        assert(ws.subrange(0, ws.len() as int) =~= ws);
    } else {
        lemma_wake_fifo(m, a, (k - 1) as nat);
        let prev = woken_n(m, a, (k - 1) as nat);
        assert(prev[a].drop_first() =~= ws.subrange(k as int, ws.len() as int));
    }
}

/// Status codes that the futex calls report to the guest.
#[derive(Clone, Copy, Debug, PartialEq, Eq)]
pub enum Errno {
    Success,
    /// An address lay outside the guest's memory.
    Memviolation,
}

/// Begins a guest wait on the `u32` at `futex_ptr`: reads it from `memory` and
/// compares it with `expected`, as `FutexTable::wait` describes.
pub fn futex_wait(
    futexes: &mut FutexTable,
    memory: &GuestMemory,
    futex_ptr: u64,
    expected: u32,
    w: Waiter,
    timeout: Option<u64>,
) -> (r: Result<FutexWait, Errno>)
    requires
        old(futexes).wf(),
    ensures
        final(futexes).wf(),
        futex_ptr as int + 4 > memory.bytes@.len() ==> r == Err::<FutexWait, Errno>(Errno::Memviolation)
            && final(futexes)@ == old(futexes)@,
        futex_ptr as int + 4 <= memory.bytes@.len() ==> {
            let current = le_u32(memory.bytes@, futex_ptr as int);
            &&& current != expected ==> r == Ok::<FutexWait, Errno>(FutexWait::ValueMismatch)
                && final(futexes)@ == old(futexes)@
            &&& current == expected && timeout == Some(0u64) ==> r == Ok::<FutexWait, Errno>(
                FutexWait::TimedOut,
            ) && final(futexes)@ == old(futexes)@
            &&& current == expected && timeout != Some(0u64) ==> r == Ok::<FutexWait, Errno>(
                FutexWait::Pending,
            ) && final(futexes)@ == registered(old(futexes)@, futex_ptr, w)
        },
{
    match memory.read_u32(futex_ptr) {
        Some(current) => Ok(futexes.wait(futex_ptr, expected, current, w, timeout)),
        None => Err(Errno::Memviolation),
    }
}

/// Wakes one thread waiting on the futex at `futex_ptr` and returns how many
/// were woken (0 or 1) with the released waiter.
pub fn futex_wake(futexes: &mut FutexTable, futex_ptr: u64) -> (r: (u32, Option<Waiter>))
    requires
        old(futexes).wf(),
    ensures
        final(futexes).wf(),
        final(futexes)@ == woken_one(old(futexes)@, futex_ptr),
        r.0 == (if old(futexes)@.contains_key(futex_ptr) { 1u32 } else { 0u32 }),
        old(futexes)@.contains_key(futex_ptr) ==> r.1 == Some(old(futexes)@[futex_ptr][0]),
        !old(futexes)@.contains_key(futex_ptr) ==> r.1 is None,
{
    let w = futexes.wake(futex_ptr);
    match w {
        Some(_) => (1, w),
        None => (0, w),
    }
}

/// Wakes every thread waiting on the futex at `futex_ptr` and writes to the
/// guest's `ret_woken` byte whether any was woken (1) or none (0). Returns the
/// status, the number of threads woken, and the wakers to invoke, in
/// registration order.
pub fn futex_wake_all(
    futexes: &mut FutexTable,
    memory: &mut GuestMemory,
    futex_ptr: u64,
    ret_woken: u64,
) -> (r: (Errno, usize, Vec<u64>))
    requires
        old(futexes).wf(),
    ensures
        final(futexes).wf(),
        final(futexes)@ == old(futexes)@.remove(futex_ptr),
        r.1 == waiters_at(old(futexes)@, futex_ptr).len(),
        r.2@ == wakers_of(waiters_at(old(futexes)@, futex_ptr)),
        ret_woken < old(memory).bytes@.len() ==> r.0 == Errno::Success
            && final(memory).bytes@ == old(memory).bytes@.update(
            ret_woken as int,
            if old(futexes)@.contains_key(futex_ptr) {
                1u8
            } else {
                0u8
            },
        ),
        ret_woken >= old(memory).bytes@.len() ==> r.0 == Errno::Memviolation
            && final(memory).bytes@ == old(memory).bytes@,
{
    let ghost m = futexes@;
    let ws = futexes.wake_all(futex_ptr);
    let wakers = collect_wakers(&ws);
    let woken = ws.len();
    assert(m.contains_key(futex_ptr) ==> m[futex_ptr].len() > 0);
    let flag: u8 = if woken > 0 {
        1
    } else {
        0
    };
    if memory.write_u8(ret_woken, flag) {
        (Errno::Success, woken, wakers)
    } else {
        (Errno::Memviolation, woken, wakers)
    }
}

/// The wakers of `ws` that are set, in order.
pub open spec fn wakers_of(ws: Seq<Waiter>) -> Seq<u64>
    decreases ws.len(),
{
    if ws.len() == 0 {
        Seq::empty()
    } else {
        match ws.last().waker {
            Some(k) => wakers_of(ws.drop_last()).push(k),
            None => wakers_of(ws.drop_last()),
        }
    }
}

/// The wakers of `ws` that are set, in order.
pub fn collect_wakers(ws: &Vec<Waiter>) -> (r: Vec<u64>)
    ensures
        r@ == wakers_of(ws@),
{
    let mut r: Vec<u64> = Vec::new();
    let mut i: usize = 0;
    while i < ws.len()
        invariant
            i <= ws@.len(),
            r@ == wakers_of(ws@.subrange(0, i as int)),
        decreases ws@.len() - i,
    {
        assert(ws@.subrange(0, i + 1).drop_last() =~= ws@.subrange(0, i as int));
        if let Some(k) = ws[i].waker {
            r.push(k);
        }
        i = i + 1;
    }
    assert(ws@.subrange(0, ws@.len() as int) =~= ws@);
    r
}

} // verus!
