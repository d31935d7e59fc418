use crate::compiler::{is_valid_module, validate};
use crate::futex::{registered, waiters_at, woken_one, FutexTable, Waiter};
use crate::memory::GuestMemory;
use std::collections::HashMap;
use vstd::prelude::*;

verus! {

broadcast use vstd::std_specs::hash::group_hash_axioms;

/// What a blocked thread waits for.
#[derive(Clone, Copy, Debug, PartialEq, Eq)]
pub enum BlockReason {
    FutexWait(u64),
    Sleep(u64),
    IoWait,
    Joining(u32),
}

/// Where a thread is in its life; `Exited` is final.
#[derive(Clone, Copy, Debug, PartialEq, Eq)]
pub enum ThreadState {
    Running,
    Blocked(BlockReason),
    Exited(i32),
}

/// A guest thread. `pending` holds one bit per signal number awaiting delivery.
#[derive(Clone, Copy, Debug, PartialEq, Eq)]
pub struct Thread {
    pub tid: u32,
    pub state: ThreadState,
    pub pending: u64,
}

/// Where a process is in its life. A fork or an exec changes the table in one
/// step, so `Forking` and `Execing` never outlast the call; `Zombie` is final
/// and holds the exit code.
#[derive(Clone, Copy, Debug, PartialEq, Eq)]
pub enum ProcessState {
    Running,
    Forking,
    Execing,
    Zombie(i32),
}

/// Why a lifecycle operation failed; the process is then as it was.
#[derive(Clone, Copy, Debug, PartialEq, Eq)]
pub enum ProcError {
    /// No such thread or process, or not in a state that allows the operation.
    InvalidHandle,
    /// A thread or process limit is reached, or ids ran out.
    ResourceExhausted,
    /// The image is not a valid module.
    InvalidImage,
    /// The signal number is 64 or more.
    InvalidSignal,
}

/// The answer to a join: the exit code, or not exited yet.
#[derive(Clone, Copy, Debug, PartialEq, Eq)]
pub enum JoinStatus {
    Exited(i32),
    Pending,
}

pub open spec fn has_tid(ts: Seq<Thread>, tid: u32) -> bool {
    exists|i: int| 0 <= i < ts.len() && ts[i].tid == tid
}

/// Where thread `tid` stands in `ts`, or -1.
pub open spec fn tid_pos(ts: Seq<Thread>, tid: u32) -> int {
    if has_tid(ts, tid) {
        choose|i: int| 0 <= i < ts.len() && ts[i].tid == tid
    } else {
        -1
    }
}

/// What joining thread `tid` gives: `None` for an unknown thread.
pub open spec fn thread_join(ts: Seq<Thread>, tid: u32) -> Option<JoinStatus> {
    if has_tid(ts, tid) {
        match ts[tid_pos(ts, tid)].state {
            ThreadState::Exited(c) => Some(JoinStatus::Exited(c)),
            _ => Some(JoinStatus::Pending),
        }
    } else {
        None
    }
}

/// The thread states that an operation accepts.
pub enum Wanted {
    Running,
    Blocked,
    /// Running or blocked: not exited.
    Live,
}

pub open spec fn state_wanted(st: ThreadState, want: Wanted) -> bool {
    match st {
        ThreadState::Running => !(want is Blocked),
        ThreadState::Blocked(_) => !(want is Running),
        ThreadState::Exited(_) => false,
    }
}

pub open spec fn all_exited(ts: Seq<Thread>) -> bool {
    forall|i: int| 0 <= i < ts.len() ==> ts[i].state is Exited
}

/// A guest process: one memory image, one futex table, its threads.
pub struct Process {
    pub pid: u32,
    pub parent: Option<u32>,
    pub children: Vec<u32>,
    pub state: ProcessState,
    pub threads: Vec<Thread>,
    pub next_tid: u32,
    pub futexes: FutexTable,
    pub image: Vec<u8>,
    pub memory: GuestMemory,
    pub pending: u64,
}

impl Process {
    /// Thread ids are distinct and below `next_tid`; a running process has a
    /// thread and a zombie none that has not exited; the futex table is well formed.
    pub open spec fn wf(&self) -> bool {
        &&& self.futexes.wf()
        &&& self.state == ProcessState::Running ==> self.threads@.len() > 0
        &&& self.state is Zombie ==> all_exited(self.threads@)
        &&& forall|i: int, j: int|
            0 <= i < self.threads@.len() && 0 <= j < self.threads@.len() && i != j
                ==> self.threads@[i].tid != self.threads@[j].tid
        &&& forall|i: int| 0 <= i < self.threads@.len() ==> self.threads@[i].tid < self.next_tid
    }

    fn find_thread(&self, tid: u32) -> (r: Option<usize>)
        requires
            self.wf(),
        ensures
            match r {
                Some(i) => i < self.threads@.len() && self.threads@[i as int].tid == tid && tid_pos(
                    self.threads@,
                    tid,
                ) == i,
                None => !has_tid(self.threads@, tid),
            },
    {
        let mut i: usize = 0;
        while i < self.threads.len()
            invariant
                self.wf(),
                i <= self.threads@.len(),
                forall|j: int| 0 <= j < i ==> self.threads@[j].tid != tid,
            decreases self.threads@.len() - i,
        {
            if self.threads[i].tid == tid {
                let ghost k = tid_pos(self.threads@, tid);
                assert(self.threads@[k].tid == tid);
                return Some(i);
            }
            i = i + 1;
        }
        None
    }

    fn every_thread_exited(&self) -> (r: bool)
        ensures
            r == all_exited(self.threads@),
    {
        let mut i: usize = 0;
        while i < self.threads.len()
            invariant
                i <= self.threads@.len(),
                forall|j: int| 0 <= j < i ==> self.threads@[j].state is Exited,
            decreases self.threads@.len() - i,
        {
            if !matches!(self.threads[i].state, ThreadState::Exited(_)) {
                return false;
            }
            i = i + 1;
        }
        true
    }
}

/// `after` is `before` with `c` added to its children.
pub open spec fn child_added(before: Process, after: Process, c: u32) -> bool {
    &&& after.children@ == before.children@.push(c)
    &&& after.pid == before.pid
    &&& after.parent == before.parent
    &&& after.state == before.state
    &&& after.threads@ == before.threads@
    &&& after.next_tid == before.next_tid
    &&& after.futexes@ == before.futexes@
    &&& after.image@ == before.image@
    &&& after.memory.bytes@ == before.memory.bytes@
    &&& after.pending == before.pending
}

/// A process `pid` just made from `image`: one running thread, id 0, a
/// zeroed memory of `memory_size` bytes, no futex, no child, no signal.
pub open spec fn fresh_process(p: Process, pid: u32, parent: Option<u32>, image: Seq<u8>, memory_size: nat) -> bool {
    &&& p.pid == pid
    &&& p.parent == parent
    &&& p.children@ == Seq::<u32>::empty()
    &&& p.state == ProcessState::Running
    &&& p.threads@ == seq![Thread { tid: 0, state: ThreadState::Running, pending: 0 }]
    &&& p.next_tid == 1
    &&& p.futexes@ == Map::<u64, Seq<Waiter>>::empty()
    &&& p.image@ == image
    &&& p.memory.bytes@.len() == memory_size
    &&& forall|i: int| 0 <= i < memory_size ==> p.memory.bytes@[i] == 0
    &&& p.pending == 0
}

/// `child` is the fork of `parent` at `c` by thread `tid`: a copy of the image
/// and memory, the calling thread alone, and a futex table of its own.
pub open spec fn forked(parent: Process, child: Process, c: u32, tid: u32) -> bool {
    &&& child.pid == c
    &&& child.parent == Some(parent.pid)
    &&& child.children@ == Seq::<u32>::empty()
    &&& child.state == ProcessState::Running
    &&& child.threads@ == seq![Thread { tid, state: ThreadState::Running, pending: 0 }]
    &&& child.next_tid == parent.next_tid
    &&& child.futexes@ == Map::<u64, Seq<Waiter>>::empty()
    &&& child.image@ == parent.image@
    &&& child.memory.bytes@ == parent.memory.bytes@
    &&& child.pending == 0
}

/// `after` is `before` with its image replaced by `image`: one fresh running
/// thread, a zeroed memory of `memory_size` bytes and an empty futex table;
/// id, parent, children and pending signals are kept.
pub open spec fn execed(before: Process, after: Process, image: Seq<u8>, memory_size: nat) -> bool {
    &&& after.pid == before.pid
    &&& after.parent == before.parent
    &&& after.children@ == before.children@
    &&& after.state == ProcessState::Running
    &&& after.threads@ == seq![Thread { tid: before.next_tid, state: ThreadState::Running, pending: 0 }]
    &&& after.next_tid == before.next_tid + 1
    &&& after.futexes@ == Map::<u64, Seq<Waiter>>::empty()
    &&& after.image@ == image
    &&& after.memory.bytes@.len() == memory_size
    &&& forall|i: int| 0 <= i < memory_size ==> after.memory.bytes@[i] == 0
    &&& after.pending == before.pending
}

/// `after` is `before` with its threads now `ts` and its state `st`.
pub open spec fn threads_changed(before: Process, after: Process, ts: Seq<Thread>, next_tid: u32, st: ProcessState) -> bool {
    &&& after.threads@ == ts
    &&& after.next_tid == next_tid
    &&& after.state == st
    &&& after.pid == before.pid
    &&& after.parent == before.parent
    &&& after.children@ == before.children@
    &&& after.futexes@ == before.futexes@
    &&& after.image@ == before.image@
    &&& after.memory.bytes@ == before.memory.bytes@
    &&& after.pending == before.pending
}

/// Every process other than `a` and `b` is as it was.
pub open spec fn others_unchanged(before: Map<u32, Process>, after: Map<u32, Process>, a: u32, b: u32) -> bool {
    forall|q: u32|
        q != a && q != b ==> (#[trigger] after.contains_key(q) == before.contains_key(q)) && (
        before.contains_key(q) ==> after[q] == before[q])
}

/// What joining process `pid` gives: `None` for an unknown process.
pub open spec fn process_join(m: Map<u32, Process>, pid: u32) -> Option<JoinStatus> {
    if m.contains_key(pid) {
        match m[pid].state {
            ProcessState::Zombie(c) => Some(JoinStatus::Exited(c)),
            _ => Some(JoinStatus::Pending),
        }
    } else {
        None
    }
}

/// All guest processes. A process that becomes a zombie stays in the table,
/// so its exit code can be joined any number of times; its children keep it
/// as their parent.
pub struct ProcessTable {
    pub procs: HashMap<u32, Process>,
    pub next_pid: u32,
    pub max_processes: usize,
}

impl ProcessTable {
    /// Each process is filed under its own id, below `next_pid`, and is well formed.
    pub open spec fn wf(&self) -> bool {
        forall|p: u32|
            #[trigger] self.procs@.contains_key(p) ==> self.procs@[p].pid == p && self.procs@[p].wf()
                && p < self.next_pid
    }

    /// An empty table that holds at most `max_processes` processes.
    pub fn new(max_processes: usize) -> (r: Self)
        ensures
            r.wf(),
            r.procs@ == Map::<u32, Process>::empty(),
            r.next_pid == 1,
            r.max_processes == max_processes,
    {
        ProcessTable { procs: HashMap::new(), next_pid: 1, max_processes }
    }

    fn take(&mut self, pid: u32) -> (r: Option<Process>)
        ensures
            final(self).procs@ == old(self).procs@.remove(pid),
            final(self).next_pid == old(self).next_pid,
            final(self).max_processes == old(self).max_processes,
            old(self).procs@.contains_key(pid) ==> r == Some(old(self).procs@[pid]),
            !old(self).procs@.contains_key(pid) ==> r is None,
    {
        self.procs.remove(&pid)
    }

    fn put(&mut self, p: Process)
        ensures
            final(self).procs@ == old(self).procs@.insert(p.pid, p),
            final(self).next_pid == old(self).next_pid,
            final(self).max_processes == old(self).max_processes,
    {
        self.procs.insert(p.pid, p);
    }

    /// Whether another process fits.
    fn has_room(&self) -> (r: bool)
        ensures
            r == (self.procs@.len() < self.max_processes && self.next_pid < u32::MAX),
    {
        self.procs.len() < self.max_processes && self.next_pid < u32::MAX
    }

    /// Creates a process running `image`, a child of `parent` where one is
    /// given, and returns its id; nothing else changes.
    pub fn spawn_process(&mut self, parent: Option<u32>, image: &Vec<u8>, memory_size: usize) -> (r: Result<u32, ProcError>)
        requires
            old(self).wf(),
        ensures
            final(self).wf(),
            final(self).max_processes == old(self).max_processes,
            match parent {
                Some(q) => !old(self).procs@.contains_key(q),
                None => false,
            } ==> r == Err::<u32, ProcError>(ProcError::InvalidHandle),
            match parent {
                Some(q) => old(self).procs@.contains_key(q),
                None => true,
            } ==> {
                &&& !is_valid_module(image@) ==> r == Err::<u32, ProcError>(ProcError::InvalidImage)
                &&& is_valid_module(image@) && !(old(self).procs@.len() < old(self).max_processes
                    && old(self).next_pid < u32::MAX) ==> r == Err::<u32, ProcError>(ProcError::ResourceExhausted)
                &&& is_valid_module(image@) && old(self).procs@.len() < old(self).max_processes
                    && old(self).next_pid < u32::MAX ==> r == Ok::<u32, ProcError>(old(self).next_pid)
            },
            r is Err ==> final(self).procs@ == old(self).procs@ && final(self).next_pid == old(self).next_pid,
            r matches Ok(c) ==> {
                &&& c == old(self).next_pid
                &&& final(self).next_pid == c + 1
                &&& !old(self).procs@.contains_key(c)
                &&& final(self).procs@.contains_key(c)
                &&& fresh_process(final(self).procs@[c], c, parent, image@, memory_size as nat)
                &&& parent matches Some(q) ==> final(self).procs@.contains_key(q)
                    && child_added(old(self).procs@[q], final(self).procs@[q], c)
                &&& others_unchanged(old(self).procs@, final(self).procs@, c, match parent {
                    Some(q) => q,
                    None => c,
                })
            },
    {
        if let Some(q) = parent {
            if !self.procs.contains_key(&q) {
                return Err(ProcError::InvalidHandle);
            }
        }
        if validate(image.as_slice()).is_err() {
            return Err(ProcError::InvalidImage);
        }
        if !self.has_room() {
            return Err(ProcError::ResourceExhausted);
        }
        let c = self.next_pid;
        assert(!self.procs@.contains_key(c));
        let mut threads: Vec<Thread> = Vec::new();
        threads.push(Thread { tid: 0, state: ThreadState::Running, pending: 0 });
        let p = Process {
            pid: c,
            parent,
            children: Vec::new(),
            state: ProcessState::Running,
            threads,
            next_tid: 1,
            futexes: FutexTable::new(),
            image: image.clone(),
            memory: GuestMemory::zeroed(memory_size),
            pending: 0,
        };
        assert(p.threads@ =~= seq![Thread { tid: 0, state: ThreadState::Running, pending: 0 }]);
        if let Some(q) = parent {
            let mut pp = self.take(q).unwrap();
            pp.children.push(c);
            self.put(pp);
        }
        self.put(p);
        self.next_pid = c + 1;
        Ok(c)
    }

    /// Forks process `pid` at its running thread `tid` and returns the child's
    /// id: the child holds a copy of the image and memory, only the thread
    /// `tid`, and an empty futex table of its own; the parent gains the child.
    pub fn fork(&mut self, pid: u32, tid: u32) -> (r: Result<u32, ProcError>)
        requires
            old(self).wf(),
        ensures
            final(self).wf(),
            final(self).max_processes == old(self).max_processes,
            !(old(self).procs@.contains_key(pid) && old(self).procs@[pid].state == ProcessState::Running
                && has_tid(old(self).procs@[pid].threads@, tid)
                && old(self).procs@[pid].threads@[tid_pos(old(self).procs@[pid].threads@, tid)].state
                == ThreadState::Running) ==> r == Err::<u32, ProcError>(ProcError::InvalidHandle),
            old(self).procs@.contains_key(pid) && old(self).procs@[pid].state == ProcessState::Running
                && has_tid(old(self).procs@[pid].threads@, tid)
                && old(self).procs@[pid].threads@[tid_pos(old(self).procs@[pid].threads@, tid)].state
                == ThreadState::Running ==> r == (
            if old(self).procs@.len() < old(self).max_processes && old(self).next_pid < u32::MAX {
                Ok::<u32, ProcError>(old(self).next_pid)
            } else {
                Err(ProcError::ResourceExhausted)
            }),
            r is Err ==> final(self).procs@ == old(self).procs@ && final(self).next_pid == old(self).next_pid,
            r matches Ok(c) ==> {
                &&& final(self).next_pid == c + 1
                &&& !old(self).procs@.contains_key(c)
                &&& final(self).procs@.contains_key(c)
                &&& final(self).procs@.contains_key(pid)
                &&& forked(old(self).procs@[pid], final(self).procs@[c], c, tid)
                &&& child_added(old(self).procs@[pid], final(self).procs@[pid], c)
                &&& others_unchanged(old(self).procs@, final(self).procs@, c, pid)
            },
    {
        let ok = match self.procs.get(&pid) {
            Some(p) => {
                matches!(p.state, ProcessState::Running) && match p.find_thread(tid) {
                    Some(i) => matches!(p.threads[i].state, ThreadState::Running),
                    None => false,
                }
            },
            None => false,
        };
        if !ok {
            return Err(ProcError::InvalidHandle);
        }
        if !self.has_room() {
            return Err(ProcError::ResourceExhausted);
        }
        let c = self.next_pid;
        assert(!self.procs@.contains_key(c));
        let mut pp = self.take(pid).unwrap();
        let mut threads: Vec<Thread> = Vec::new();
        threads.push(Thread { tid, state: ThreadState::Running, pending: 0 });
        assert(threads@ =~= seq![Thread { tid, state: ThreadState::Running, pending: 0 }]);
        proof {
            let k = tid_pos(pp.threads@, tid);
            assert(pp.threads@[k].tid < pp.next_tid);
        }
        let child = Process {
            pid: c,
            parent: Some(pid),
            children: Vec::new(),
            state: ProcessState::Running,
            threads,
            next_tid: pp.next_tid,
            futexes: FutexTable::new(),
            image: pp.image.clone(),
            memory: pp.memory.duplicate(),
            pending: 0,
        };
        pp.children.push(c);
        self.put(pp);
        self.put(child);
        self.next_pid = c + 1;
        Ok(c)
    }

    /// Replaces the image of process `pid` in place. The image is validated
    /// before anything changes, so a failed exec leaves the process as it was.
    pub fn exec(&mut self, pid: u32, image: &Vec<u8>, memory_size: usize) -> (r: Result<(), ProcError>)
        requires
            old(self).wf(),
        ensures
            final(self).wf(),
            final(self).max_processes == old(self).max_processes,
            final(self).next_pid == old(self).next_pid,
            !old(self).procs@.contains_key(pid) || old(self).procs@[pid].state is Zombie
                ==> r == Err::<(), ProcError>(ProcError::InvalidHandle),
            old(self).procs@.contains_key(pid) && !(old(self).procs@[pid].state is Zombie) ==> r == (
            if !is_valid_module(image@) {
                Err::<(), ProcError>(ProcError::InvalidImage)
            } else if old(self).procs@[pid].next_tid == u32::MAX {
                Err(ProcError::ResourceExhausted)
            } else {
                Ok(())
            }),
            r is Err ==> final(self).procs@ == old(self).procs@,
            r is Ok ==> final(self).procs@.contains_key(pid) && execed(
                old(self).procs@[pid],
                final(self).procs@[pid],
                image@,
                memory_size as nat,
            ) && others_unchanged(old(self).procs@, final(self).procs@, pid, pid),
    {
        let (live, tid_left) = match self.procs.get(&pid) {
            Some(p) => (!matches!(p.state, ProcessState::Zombie(_)), p.next_tid < u32::MAX),
            None => (false, false),
        };
        if !live {
            return Err(ProcError::InvalidHandle);
        }
        if validate(image.as_slice()).is_err() {
            return Err(ProcError::InvalidImage);
        }
        if !tid_left {
            return Err(ProcError::ResourceExhausted);
        }
        let mut pp = self.take(pid).unwrap();
        let mut threads: Vec<Thread> = Vec::new();
        threads.push(Thread { tid: pp.next_tid, state: ThreadState::Running, pending: 0 });
        assert(threads@ =~= seq![Thread { tid: pp.next_tid, state: ThreadState::Running, pending: 0 }]);
        pp.threads = threads;
        pp.next_tid = pp.next_tid + 1;
        pp.futexes = FutexTable::new();
        pp.image = image.clone();
        pp.memory = GuestMemory::zeroed(memory_size);
        pp.state = ProcessState::Running;
        self.put(pp);
        Ok(())
    }

    /// Adds a running thread to process `pid` and returns its id, fresh within
    /// the process; at most `max_threads` threads may exist.
    pub fn spawn_thread(&mut self, pid: u32, max_threads: usize) -> (r: Result<u32, ProcError>)
        requires
            old(self).wf(),
        ensures
            final(self).wf(),
            final(self).max_processes == old(self).max_processes,
            final(self).next_pid == old(self).next_pid,
            !old(self).procs@.contains_key(pid) || old(self).procs@[pid].state is Zombie
                ==> r == Err::<u32, ProcError>(ProcError::InvalidHandle),
            old(self).procs@.contains_key(pid) && !(old(self).procs@[pid].state is Zombie) ==> r == (
            if old(self).procs@[pid].threads@.len() >= max_threads || old(self).procs@[pid].next_tid == u32::MAX {
                Err::<u32, ProcError>(ProcError::ResourceExhausted)
            } else {
                Ok(old(self).procs@[pid].next_tid)
            }),
            r is Err ==> final(self).procs@ == old(self).procs@,
            r matches Ok(t) ==> final(self).procs@.contains_key(pid) && threads_changed(
                old(self).procs@[pid],
                final(self).procs@[pid],
                old(self).procs@[pid].threads@.push(Thread { tid: t, state: ThreadState::Running, pending: 0 }),
                (t + 1) as u32,
                old(self).procs@[pid].state,
            ) && others_unchanged(old(self).procs@, final(self).procs@, pid, pid),
    {
        let (live, room) = match self.procs.get(&pid) {
            Some(p) => (
                !matches!(p.state, ProcessState::Zombie(_)),
                p.threads.len() < max_threads && p.next_tid < u32::MAX,
            ),
            None => (false, false),
        };
        if !live {
            return Err(ProcError::InvalidHandle);
        }
        if !room {
            return Err(ProcError::ResourceExhausted);
        }
        let mut pp = self.take(pid).unwrap();
        let t = pp.next_tid;
        pp.threads.push(Thread { tid: t, state: ThreadState::Running, pending: 0 });
        pp.next_tid = t + 1;
        self.put(pp);
        Ok(t)
    }

    /// Ends thread `tid` of process `pid` with `code`. Futexes are keyed by
    /// address, not owned by threads, so nobody is woken. Once every thread
    /// has exited the process becomes a zombie with this code.
    pub fn exit_thread(&mut self, pid: u32, tid: u32, code: i32) -> (r: Result<(), ProcError>)
        requires
            old(self).wf(),
        ensures
            final(self).wf(),
            final(self).max_processes == old(self).max_processes,
            final(self).next_pid == old(self).next_pid,
            r is Ok <==> old(self).procs@.contains_key(pid) && thread_join(old(self).procs@[pid].threads@, tid)
                == Some(JoinStatus::Pending),
            r is Err ==> r == Err::<(), ProcError>(ProcError::InvalidHandle) && final(self).procs@ == old(self).procs@,
            r is Ok ==> {
                let before = old(self).procs@[pid];
                let ts = before.threads@.update(
                    tid_pos(before.threads@, tid),
                    Thread { state: ThreadState::Exited(code), ..before.threads@[tid_pos(before.threads@, tid)] },
                );
                &&& final(self).procs@.contains_key(pid)
                &&& threads_changed(before, final(self).procs@[pid], ts, before.next_tid,
                    if all_exited(ts) { ProcessState::Zombie(code) } else { before.state })
                &&& others_unchanged(old(self).procs@, final(self).procs@, pid, pid)
            },
    {
        let i = match self.live_thread(pid, tid, Wanted::Live) {
            Some(i) => i,
            None => {
                return Err(ProcError::InvalidHandle);
            },
        };
        let mut pp = self.take(pid).unwrap();
        let t = pp.threads[i];
        pp.threads.set(i, Thread { state: ThreadState::Exited(code), ..t });
        if pp.every_thread_exited() {
            pp.state = ProcessState::Zombie(code);
        }
        proof {
            assert forall|a: int, b: int|
                0 <= a < pp.threads@.len() && 0 <= b < pp.threads@.len() && a != b
                    implies pp.threads@[a].tid != pp.threads@[b].tid by {
                assert(pp.threads@[a].tid == old(self).procs@[pid].threads@[a].tid);
                assert(pp.threads@[b].tid == old(self).procs@[pid].threads@[b].tid);
            }
            assert forall|a: int| 0 <= a < pp.threads@.len() implies pp.threads@[a].tid < pp.next_tid by {
                assert(pp.threads@[a].tid == old(self).procs@[pid].threads@[a].tid);
            }
        }
        self.put(pp);
        Ok(())
    }

    /// Joins thread `tid` of process `pid`: its exit code once it has exited,
    /// `Pending` before. Nothing changes, so a join after exit can be repeated
    /// and gives the same code.
    pub fn join_thread(&self, pid: u32, tid: u32) -> (r: Result<JoinStatus, ProcError>)
        requires
            self.wf(),
        ensures
            !self.procs@.contains_key(pid) ==> r == Err::<JoinStatus, ProcError>(ProcError::InvalidHandle),
            self.procs@.contains_key(pid) ==> r == match thread_join(self.procs@[pid].threads@, tid) {
                Some(j) => Ok::<JoinStatus, ProcError>(j),
                None => Err(ProcError::InvalidHandle),
            },
    {
        match self.procs.get(&pid) {
            Some(p) => match p.find_thread(tid) {
                Some(i) => match p.threads[i].state {
                    ThreadState::Exited(c) => Ok(JoinStatus::Exited(c)),
                    _ => Ok(JoinStatus::Pending),
                },
                None => Err(ProcError::InvalidHandle),
            },
            None => Err(ProcError::InvalidHandle),
        }
    }

    /// Joins process `pid`: its exit code once it is a zombie, `Pending`
    /// before. Nothing changes, so the join can be repeated.
    pub fn join_process(&self, pid: u32) -> (r: Result<JoinStatus, ProcError>)
        ensures
            r == match process_join(self.procs@, pid) {
                Some(j) => Ok::<JoinStatus, ProcError>(j),
                None => Err(ProcError::InvalidHandle),
            },
    {
        match self.procs.get(&pid) {
            Some(p) => match p.state {
                ProcessState::Zombie(c) => Ok(JoinStatus::Exited(c)),
                _ => Ok(JoinStatus::Pending),
            },
            None => Err(ProcError::InvalidHandle),
        }
    }

    /// Puts `t` in place of the thread at index `i` of process `pid`.
    fn replace_thread(&mut self, pid: u32, i: usize, t: Thread)
        requires
            old(self).wf(),
            old(self).procs@.contains_key(pid),
            i < old(self).procs@[pid].threads@.len(),
            t.tid == old(self).procs@[pid].threads@[i as int].tid,
            !(old(self).procs@[pid].threads@[i as int].state is Exited),
        ensures
            final(self).wf(),
            final(self).max_processes == old(self).max_processes,
            final(self).next_pid == old(self).next_pid,
            final(self).procs@.contains_key(pid),
            threads_changed(
                old(self).procs@[pid],
                final(self).procs@[pid],
                old(self).procs@[pid].threads@.update(i as int, t),
                old(self).procs@[pid].next_tid,
                old(self).procs@[pid].state,
            ),
            others_unchanged(old(self).procs@, final(self).procs@, pid, pid),
    {
        let mut pp = self.take(pid).unwrap();
        pp.threads.set(i, t);
        proof {
            assert forall|a: int, b: int|
                0 <= a < pp.threads@.len() && 0 <= b < pp.threads@.len() && a != b
                    implies pp.threads@[a].tid != pp.threads@[b].tid by {
                assert(pp.threads@[a].tid == old(self).procs@[pid].threads@[a].tid);
                assert(pp.threads@[b].tid == old(self).procs@[pid].threads@[b].tid);
            }
            assert forall|a: int| 0 <= a < pp.threads@.len() implies pp.threads@[a].tid < pp.next_tid by {
                assert(pp.threads@[a].tid == old(self).procs@[pid].threads@[a].tid);
            }
        }
        self.put(pp);
    }

    /// Index of thread `tid` of process `pid` where its state is one `want` accepts.
    fn live_thread(&self, pid: u32, tid: u32, want: Wanted) -> (r: Option<usize>)
        requires
            self.wf(),
        ensures
            match r {
                Some(i) => self.procs@.contains_key(pid) && i < self.procs@[pid].threads@.len()
                    && i == tid_pos(self.procs@[pid].threads@, tid)
                    && self.procs@[pid].threads@[i as int].tid == tid
                    && state_wanted(self.procs@[pid].threads@[i as int].state, want),
                None => !(self.procs@.contains_key(pid) && has_tid(self.procs@[pid].threads@, tid)
                    && state_wanted(self.procs@[pid].threads@[tid_pos(self.procs@[pid].threads@, tid)].state, want)),
            },
    {
        match self.procs.get(&pid) {
            Some(p) => match p.find_thread(tid) {
                Some(i) => {
                    let ok = match p.threads[i].state {
                        ThreadState::Running => !matches!(want, Wanted::Blocked),
                        ThreadState::Blocked(_) => !matches!(want, Wanted::Running),
                        ThreadState::Exited(_) => false,
                    };
                    if ok {
                        Some(i)
                    } else {
                        None
                    }
                },
                None => None,
            },
            None => None,
        }
    }

    /// Blocks the running thread `tid` of process `pid` on `reason`.
    pub fn block_thread(&mut self, pid: u32, tid: u32, reason: BlockReason) -> (r: Result<(), ProcError>)
        requires
            old(self).wf(),
        ensures
            final(self).wf(),
            final(self).max_processes == old(self).max_processes,
            final(self).next_pid == old(self).next_pid,
            r is Ok <==> old(self).procs@.contains_key(pid) && has_tid(old(self).procs@[pid].threads@, tid)
                && old(self).procs@[pid].threads@[tid_pos(old(self).procs@[pid].threads@, tid)].state
                == ThreadState::Running,
            r is Err ==> r == Err::<(), ProcError>(ProcError::InvalidHandle) && final(self).procs@ == old(self).procs@,
            r is Ok ==> {
                let before = old(self).procs@[pid];
                let k = tid_pos(before.threads@, tid);
                &&& final(self).procs@.contains_key(pid)
                &&& threads_changed(before, final(self).procs@[pid], before.threads@.update(k,
                    Thread { state: ThreadState::Blocked(reason), ..before.threads@[k] }),
                    before.next_tid, before.state)
                &&& others_unchanged(old(self).procs@, final(self).procs@, pid, pid)
            },
    {
        match self.live_thread(pid, tid, Wanted::Running) {
            Some(i) => {
                let t = self.procs.get(&pid).unwrap().threads[i];
                self.replace_thread(pid, i, Thread { state: ThreadState::Blocked(reason), ..t });
                Ok(())
            },
            None => Err(ProcError::InvalidHandle),
        }
    }

    /// Lets the blocked thread `tid` of process `pid` run again.
    pub fn resume_thread(&mut self, pid: u32, tid: u32) -> (r: Result<(), ProcError>)
        requires
            old(self).wf(),
        ensures
            final(self).wf(),
            final(self).max_processes == old(self).max_processes,
            final(self).next_pid == old(self).next_pid,
            r is Ok <==> old(self).procs@.contains_key(pid) && has_tid(old(self).procs@[pid].threads@, tid)
                && old(self).procs@[pid].threads@[tid_pos(old(self).procs@[pid].threads@, tid)].state is Blocked,
            r is Err ==> r == Err::<(), ProcError>(ProcError::InvalidHandle) && final(self).procs@ == old(self).procs@,
            r is Ok ==> {
                let before = old(self).procs@[pid];
                let k = tid_pos(before.threads@, tid);
                &&& final(self).procs@.contains_key(pid)
                &&& threads_changed(before, final(self).procs@[pid], before.threads@.update(k,
                    Thread { state: ThreadState::Running, ..before.threads@[k] }),
                    before.next_tid, before.state)
                &&& others_unchanged(old(self).procs@, final(self).procs@, pid, pid)
            },
    {
        match self.live_thread(pid, tid, Wanted::Blocked) {
            Some(i) => {
                let t = self.procs.get(&pid).unwrap().threads[i];
                self.replace_thread(pid, i, Thread { state: ThreadState::Running, ..t });
                Ok(())
            },
            None => Err(ProcError::InvalidHandle),
        }
    }

    /// Records signal `sig` as pending on thread `tid` of process `pid`, for
    /// delivery at its next suspension point.
    pub fn signal_thread(&mut self, pid: u32, tid: u32, sig: u8) -> (r: Result<(), ProcError>)
        requires
            old(self).wf(),
        ensures
            final(self).wf(),
            final(self).max_processes == old(self).max_processes,
            final(self).next_pid == old(self).next_pid,
            r == (if !(old(self).procs@.contains_key(pid) && thread_join(old(self).procs@[pid].threads@, tid)
                == Some(JoinStatus::Pending)) {
                Err::<(), ProcError>(ProcError::InvalidHandle)
            } else if sig >= 64 {
                Err(ProcError::InvalidSignal)
            } else {
                Ok(())
            }),
            r is Err ==> final(self).procs@ == old(self).procs@,
            r is Ok ==> {
                let before = old(self).procs@[pid];
                let k = tid_pos(before.threads@, tid);
                &&& final(self).procs@.contains_key(pid)
                &&& threads_changed(before, final(self).procs@[pid], before.threads@.update(k,
                    Thread { pending: before.threads@[k].pending | (1u64 << sig), ..before.threads@[k] }),
                    before.next_tid, before.state)
                &&& others_unchanged(old(self).procs@, final(self).procs@, pid, pid)
            },
    {
        let i = match self.live_thread(pid, tid, Wanted::Live) {
            Some(i) => i,
            None => {
                return Err(ProcError::InvalidHandle);
            },
        };
        if sig >= 64 {
            return Err(ProcError::InvalidSignal);
        }
        let t = self.procs.get(&pid).unwrap().threads[i];
        self.replace_thread(pid, i, Thread { pending: t.pending | (1u64 << sig), ..t });
        Ok(())
    }

    /// Records signal `sig` as pending on process `pid`, for its
    /// signal-handling thread at the next suspension point.
    pub fn signal_process(&mut self, pid: u32, sig: u8) -> (r: Result<(), ProcError>)
        requires
            old(self).wf(),
        ensures
            final(self).wf(),
            final(self).max_processes == old(self).max_processes,
            final(self).next_pid == old(self).next_pid,
            r == (if !old(self).procs@.contains_key(pid) || old(self).procs@[pid].state is Zombie {
                Err::<(), ProcError>(ProcError::InvalidHandle)
            } else if sig >= 64 {
                Err(ProcError::InvalidSignal)
            } else {
                Ok(())
            }),
            r is Err ==> final(self).procs@ == old(self).procs@,
            r is Ok ==> {
                let before = old(self).procs@[pid];
                let after = final(self).procs@[pid];
                &&& final(self).procs@.contains_key(pid)
                &&& after.pending == before.pending | (1u64 << sig)
                &&& after.pid == before.pid && after.parent == before.parent
                &&& after.children@ == before.children@ && after.state == before.state
                &&& after.threads@ == before.threads@ && after.next_tid == before.next_tid
                &&& after.futexes@ == before.futexes@ && after.image@ == before.image@
                &&& after.memory.bytes@ == before.memory.bytes@
                &&& others_unchanged(old(self).procs@, final(self).procs@, pid, pid)
            },
    {
        let live = match self.procs.get(&pid) {
            Some(p) => !matches!(p.state, ProcessState::Zombie(_)),
            None => false,
        };
        if !live {
            return Err(ProcError::InvalidHandle);
        }
        if sig >= 64 {
            return Err(ProcError::InvalidSignal);
        }
        let mut pp = self.take(pid).unwrap();
        pp.pending = pp.pending | (1u64 << sig);
        self.put(pp);
        Ok(())
    }

    /// Captures what it takes to resume process `pid` later: its image,
    /// memory, threads and pending signals.
    pub fn snapshot(&self, pid: u32) -> (r: Result<ProcessSnapshot, ProcError>)
        ensures
            !self.procs@.contains_key(pid) ==> r is Err && r->Err_0 == ProcError::InvalidHandle,
            self.procs@.contains_key(pid) ==> (r matches Ok(s) && {
                let p = self.procs@[pid];
                &&& s.image@ == p.image@
                &&& s.memory@ == p.memory.bytes@
                &&& s.threads@ == p.threads@
                &&& s.next_tid == p.next_tid
                &&& s.pending == p.pending
            }),
    {
        match self.procs.get(&pid) {
            Some(p) => Ok(
                ProcessSnapshot {
                    image: p.image.clone(),
                    memory: p.memory.bytes.clone(),
                    threads: p.threads.clone(),
                    next_tid: p.next_tid,
                    pending: p.pending,
                },
            ),
            None => Err(ProcError::InvalidHandle),
        }
    }
}

/// The state of a process captured for a later resume.
pub struct ProcessSnapshot {
    pub image: Vec<u8>,
    pub memory: Vec<u8>,
    pub threads: Vec<Thread>,
    pub next_tid: u32,
    pub pending: u64,
}

/// After a fork the child has a futex table of its own: it starts empty, the
/// parent's is untouched, a wait the child registers at `a` stands in the
/// child's table alone, and a wake at `a` in the parent releases exactly what
/// it would have released without the child, and the other way round.
pub proof fn lemma_fork_futex_isolation(
    before: Process,
    parent: Process,
    child: Process,
    c: u32,
    tid: u32,
    a: u64,
    w: Waiter,
)
    requires
        forked(before, child, c, tid),
        child_added(before, parent, c),
    ensures
        waiters_at(child.futexes@, a).len() == 0,
        parent.futexes@ == before.futexes@,
        waiters_at(registered(child.futexes@, a, w), a) == seq![w],
        woken_one(parent.futexes@, a) == woken_one(before.futexes@, a),
        waiters_at(registered(parent.futexes@, a, w), a) == waiters_at(registered(before.futexes@, a, w), a),
        woken_one(child.futexes@, a) == child.futexes@,
{
    let m = child.futexes@;
    assert(waiters_at(m, a) =~= Seq::<Waiter>::empty());
    assert(!crate::futex::has_waiter(Seq::<Waiter>::empty(), w.id));
    assert(Seq::<Waiter>::empty().push(w) =~= seq![w]);
}

/// A thread that exited with `code` joins with `code`: exiting a live thread
/// of a well-formed process and then joining it, any number of times, gives
/// the code it exited with.
pub proof fn lemma_join_after_exit(p: Process, tid: u32, code: i32)
    requires
        p.wf(),
        has_tid(p.threads@, tid),
    ensures
        ({
            let k = tid_pos(p.threads@, tid);
            let ts = p.threads@.update(k, Thread { state: ThreadState::Exited(code), ..p.threads@[k] });
            thread_join(ts, tid) == Some(JoinStatus::Exited(code))
        }),
{
    let k = tid_pos(p.threads@, tid);
    let ts = p.threads@.update(k, Thread { state: ThreadState::Exited(code), ..p.threads@[k] });
    assert(ts[k].tid == tid);
    let j = tid_pos(ts, tid);
    assert(ts[j].tid == tid);
    assert(j == k);
}

/// A process that is a zombie with `code` joins with `code`.
pub proof fn lemma_join_zombie(m: Map<u32, Process>, pid: u32, code: i32)
    requires
        m.contains_key(pid),
        m[pid].state == ProcessState::Zombie(code),
    ensures
        process_join(m, pid) == Some(JoinStatus::Exited(code)),
{
}

/// An exec touches no process but its own: after a fork and an exec of the
/// parent, the child is as the fork left it.
pub proof fn lemma_exec_leaves_others(before: Map<u32, Process>, after: Map<u32, Process>, pid: u32, c: u32)
    requires
        others_unchanged(before, after, pid, pid),
        before.contains_key(c),
        c != pid,
    ensures
        after.contains_key(c),
        after[c] == before[c],
{
    assert(after.contains_key(c) == before.contains_key(c));
}

} // verus!
