use wasix_core::compiler::{validate, CompileError, LLVMCompiler};
use wasix_core::futex::{FutexWait, Waiter};
use wasix_core::process::{BlockReason, JoinStatus, ProcError, ProcessState, ProcessTable, ThreadState};

fn module() -> Vec<u8> {
    vec![0x00, 0x61, 0x73, 0x6d, 0x01, 0x00, 0x00, 0x00]
}

fn other_module() -> Vec<u8> {
    // A module with an empty type section.
    vec![0x00, 0x61, 0x73, 0x6d, 0x01, 0x00, 0x00, 0x00, 0x01, 0x01, 0x00]
}

#[test]
fn validation_follows_the_header() {
    assert!(validate(&module()).is_ok());
    assert!(validate(&other_module()).is_ok());
    assert!(validate(&[0x00, 0x61, 0x73, 0x6d, 0x02, 0x00, 0x00, 0x00]).is_err());
    assert!(validate(&[]).is_err());
    assert!(validate(b"not wasm").is_err());
    assert!(LLVMCompiler::new().check(&module()).is_ok());
}

#[test]
fn validation_error_carries_message() {
    match validate(&[0x01, 0x02, 0x03, 0x04, 0x01, 0x00, 0x00, 0x00]) {
        Err(CompileError::ValidationError { msg }) => assert!(msg.contains("magic header not detected")),
        Ok(()) => panic!("bad magic accepted"),
    }
}

#[test]
fn spawn_process_checks_image_and_room() {
    let mut t = ProcessTable::new(2);
    assert_eq!(t.spawn_process(None, &vec![1, 2, 3], 16), Err(ProcError::InvalidImage));
    assert_eq!(t.spawn_process(Some(9), &module(), 16), Err(ProcError::InvalidHandle));
    assert_eq!(t.spawn_process(None, &module(), 16), Ok(1));
    assert_eq!(t.spawn_process(Some(1), &module(), 16), Ok(2));
    assert_eq!(t.spawn_process(None, &module(), 16), Err(ProcError::ResourceExhausted));
    let root = t.procs.get(&1).unwrap();
    assert_eq!(root.children, vec![2]);
    let child = t.procs.get(&2).unwrap();
    assert_eq!(child.parent, Some(1));
    assert_eq!(child.threads.len(), 1);
    assert_eq!(child.threads[0].tid, 0);
    assert_eq!(child.memory.bytes, vec![0u8; 16]);
}

#[test]
fn fork_then_exec_leaves_child_alone() {
    let mut t = ProcessTable::new(8);
    let p = t.spawn_process(None, &module(), 32).unwrap();
    t.procs.get_mut(&p).unwrap().memory.write_u32(4, 77);
    let c = t.fork(p, 0).unwrap();
    assert_eq!(t.exec(p, &other_module(), 8), Ok(()));
    let parent = t.procs.get(&p).unwrap();
    assert_eq!(parent.pid, p);
    assert_eq!(parent.threads.len(), 1);
    assert_eq!(parent.threads[0].tid, 1);
    assert_eq!(parent.threads[0].state, ThreadState::Running);
    assert_eq!(parent.image, other_module());
    assert_eq!(parent.memory.bytes, vec![0u8; 8]);
    assert_eq!(parent.children, vec![c]);
    let child = t.procs.get(&c).unwrap();
    assert_eq!(child.image, module());
    assert_eq!(child.parent, Some(p));
    assert_eq!(child.threads.len(), 1);
    assert_eq!(child.threads[0].tid, 0);
    assert_eq!(child.memory.read_u32(4), Some(77));
}

#[test]
fn exec_with_bad_image_changes_nothing() {
    let mut t = ProcessTable::new(8);
    let p = t.spawn_process(None, &module(), 4).unwrap();
    t.spawn_thread(p, 4).unwrap();
    assert_eq!(t.exec(p, &vec![0, 1, 2], 4), Err(ProcError::InvalidImage));
    let proc_ = t.procs.get(&p).unwrap();
    assert_eq!(proc_.threads.len(), 2);
    assert_eq!(proc_.image, module());
    assert_eq!(t.exec(42, &module(), 4), Err(ProcError::InvalidHandle));
}

#[test]
fn fork_gives_child_its_own_futex_table() {
    let mut t = ProcessTable::new(8);
    let p = t.spawn_process(None, &module(), 16).unwrap();
    let tid = t.spawn_thread(p, 4).unwrap();
    let w_parent = Waiter { id: 1, waker: Some(1) };
    t.procs.get_mut(&p).unwrap().futexes.wait(0x8, 0, 0, w_parent, None);
    let c = t.fork(p, tid).unwrap();
    assert_eq!(t.procs.get(&c).unwrap().threads.len(), 1);
    assert_eq!(t.procs.get(&c).unwrap().threads[0].tid, tid);
    assert_eq!(t.procs.get(&c).unwrap().futexes.waiter_count(0x8), 0);
    let w_child = Waiter { id: 2, waker: Some(2) };
    assert_eq!(t.procs.get_mut(&c).unwrap().futexes.wait(0x4, 0, 0, w_child, None), FutexWait::Pending);
    assert_eq!(t.procs.get_mut(&p).unwrap().futexes.wake(0x4), None);
    assert_eq!(t.procs.get(&c).unwrap().futexes.waiter_count(0x4), 1);
    assert_eq!(t.procs.get_mut(&c).unwrap().futexes.wake(0x8), None);
    assert_eq!(t.procs.get_mut(&p).unwrap().futexes.wake(0x8), Some(w_parent));
}

#[test]
fn fork_needs_live_thread_and_room() {
    let mut t = ProcessTable::new(1);
    let p = t.spawn_process(None, &module(), 4).unwrap();
    assert_eq!(t.fork(p, 5), Err(ProcError::InvalidHandle));
    assert_eq!(t.fork(7, 0), Err(ProcError::InvalidHandle));
    assert_eq!(t.fork(p, 0), Err(ProcError::ResourceExhausted));
}

#[test]
fn join_after_exit_is_repeatable() {
    let mut t = ProcessTable::new(8);
    let p = t.spawn_process(None, &module(), 4).unwrap();
    let tid = t.spawn_thread(p, 4).unwrap();
    assert_eq!(t.join_thread(p, tid), Ok(JoinStatus::Pending));
    assert_eq!(t.exit_thread(p, tid, 3), Ok(()));
    for _ in 0..3 {
        assert_eq!(t.join_thread(p, tid), Ok(JoinStatus::Exited(3)));
    }
    assert_eq!(t.exit_thread(p, tid, 4), Err(ProcError::InvalidHandle));
    assert_eq!(t.join_process(p), Ok(JoinStatus::Pending));
    assert_eq!(t.exit_thread(p, 0, 9), Ok(()));
    assert_eq!(t.procs.get(&p).unwrap().state, ProcessState::Zombie(9));
    for _ in 0..3 {
        assert_eq!(t.join_process(p), Ok(JoinStatus::Exited(9)));
    }
    assert_eq!(t.join_thread(p, 99), Err(ProcError::InvalidHandle));
    assert_eq!(t.join_process(99), Err(ProcError::InvalidHandle));
    assert_eq!(t.spawn_thread(p, 4), Err(ProcError::InvalidHandle));
}

#[test]
fn thread_limit_is_enforced() {
    let mut t = ProcessTable::new(8);
    let p = t.spawn_process(None, &module(), 4).unwrap();
    assert_eq!(t.spawn_thread(p, 3), Ok(1));
    assert_eq!(t.spawn_thread(p, 3), Ok(2));
    assert_eq!(t.spawn_thread(p, 3), Err(ProcError::ResourceExhausted));
}

#[test]
fn signals_are_recorded_as_pending() {
    let mut t = ProcessTable::new(8);
    let p = t.spawn_process(None, &module(), 4).unwrap();
    assert_eq!(t.signal_thread(p, 0, 2), Ok(()));
    assert_eq!(t.signal_thread(p, 0, 5), Ok(()));
    assert_eq!(t.procs.get(&p).unwrap().threads[0].pending, 0b100100);
    assert_eq!(t.signal_thread(p, 0, 64), Err(ProcError::InvalidSignal));
    assert_eq!(t.signal_thread(p, 3, 1), Err(ProcError::InvalidHandle));
    assert_eq!(t.signal_process(p, 1), Ok(()));
    assert_eq!(t.procs.get(&p).unwrap().pending, 0b10);
    assert_eq!(t.signal_process(8, 1), Err(ProcError::InvalidHandle));
}

#[test]
fn snapshot_captures_process_state() {
    let mut t = ProcessTable::new(8);
    let p = t.spawn_process(None, &module(), 8).unwrap();
    t.procs.get_mut(&p).unwrap().memory.write_u8(3, 5);
    t.spawn_thread(p, 4).unwrap();
    t.signal_process(p, 4).unwrap();
    let s = t.snapshot(p).ok().unwrap();
    assert_eq!(s.image, module());
    assert_eq!(s.memory, vec![0, 0, 0, 5, 0, 0, 0, 0]);
    assert_eq!(s.threads.len(), 2);
    assert_eq!(s.next_tid, 2);
    assert_eq!(s.pending, 0b10000);
    assert!(t.snapshot(p + 1).is_err());
}

#[test]
fn block_and_resume_thread() {
    let mut t = ProcessTable::new(8);
    let p = t.spawn_process(None, &module(), 4).unwrap();
    assert_eq!(t.resume_thread(p, 0), Err(ProcError::InvalidHandle));
    assert_eq!(t.block_thread(p, 0, BlockReason::FutexWait(0x1000)), Ok(()));
    assert_eq!(t.procs.get(&p).unwrap().threads[0].state, ThreadState::Blocked(BlockReason::FutexWait(0x1000)));
    assert_eq!(t.block_thread(p, 0, BlockReason::IoWait), Err(ProcError::InvalidHandle));
    assert_eq!(t.join_thread(p, 0), Ok(JoinStatus::Pending));
    assert_eq!(t.fork(p, 0), Err(ProcError::InvalidHandle));
    assert_eq!(t.resume_thread(p, 0), Ok(()));
    assert_eq!(t.fork(p, 0), Ok(2));
    assert_eq!(t.procs.get(&p).unwrap().threads[0].state, ThreadState::Running);
    assert_eq!(t.exit_thread(p, 0, 1), Ok(()));
    assert_eq!(t.block_thread(p, 0, BlockReason::Sleep(5)), Err(ProcError::InvalidHandle));
    assert_eq!(t.exec(p, &module(), 4), Err(ProcError::InvalidHandle));
}
