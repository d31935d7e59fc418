use crate::fs::FsError;
use vstd::prelude::*;

verus! {

/// Wakers registered to be invoked when a condition may have changed. A
/// waker is a token that the scheduler maps to a suspended task.
pub struct WakerRegistry {
    pub wakers: Vec<u64>,
}

impl WakerRegistry {
    pub fn new() -> (r: Self)
        ensures
            r.wakers@ == Seq::<u64>::empty(),
    {
        WakerRegistry { wakers: Vec::new() }
    }

    /// Records `waker` to be invoked later.
    pub fn register(&mut self, waker: u64)
        ensures
            final(self).wakers@ == old(self).wakers@.push(waker),
    {
        self.wakers.push(waker);
    }

    /// Hands out every registered waker, in registration order, to be invoked
    /// once; the registry is then empty, so no waker is handed out twice.
    pub fn take_all(&mut self) -> (r: Vec<u64>)
        ensures
            r@ == old(self).wakers@,
            final(self).wakers@ == Seq::<u64>::empty(),
    {
        let mut r: Vec<u64> = Vec::new();
        std::mem::swap(&mut r, &mut self.wakers);
        r
    }
}

/// The outcome of polling a file for readiness.
#[derive(Clone, Copy, Debug, PartialEq, Eq)]
pub enum Readiness {
    /// This many bytes can be transferred without blocking.
    Ready(usize),
    /// Nothing can be transferred yet; a waker was registered.
    Pending,
    /// The poll failed; `WouldBlock` means readiness is unknown and the caller
    /// must fall back to a synchronous transfer.
    Failed(FsError),
}

/// The readiness that a byte-availability answer `q` stands for.
pub open spec fn readiness_of(q: Result<Option<usize>, FsError>) -> Readiness {
    match q {
        Ok(Some(n)) => if n == 0 {
            Readiness::Pending
        } else {
            Readiness::Ready(n)
        },
        Ok(None) => Readiness::Failed(FsError::WouldBlock),
        Err(e) => Readiness::Failed(e),
    }
}

/// Turns a byte-availability answer into a readiness: no bytes available
/// registers `waker` and gives `Pending`.
pub fn poll_ready(q: Result<Option<usize>, FsError>, waker: u64, wakers: &mut WakerRegistry) -> (r:
    Readiness)
    ensures
        r == readiness_of(q),
        r == Readiness::Pending ==> final(wakers).wakers@ == old(wakers).wakers@.push(waker),
        r != Readiness::Pending ==> final(wakers).wakers@ == old(wakers).wakers@,
{
    match q {
        Ok(Some(n)) => {
            if n == 0 {
                wakers.register(waker);
                Readiness::Pending
            } else {
                Readiness::Ready(n)
            }
        },
        Ok(None) => Readiness::Failed(FsError::WouldBlock),
        Err(e) => Readiness::Failed(e),
    }
}

/// Polls for a file to close: while it is open, registers `waker` and gives
/// `false` (pending); once closed, gives `true`.
pub fn poll_closed(is_open: bool, waker: u64, wakers: &mut WakerRegistry) -> (r: bool)
    ensures
        r == !is_open,
        is_open ==> final(wakers).wakers@ == old(wakers).wakers@.push(waker),
        !is_open ==> final(wakers).wakers@ == old(wakers).wakers@,
{
    if is_open {
        wakers.register(waker);
        false
    } else {
        true
    }
}

/// The next step of an asynchronous transfer, decided from one readiness poll.
#[derive(Clone, Copy, Debug, PartialEq, Eq)]
pub enum TransferStep {
    /// Stay suspended until the registered waker fires.
    Wait,
    /// Transfer now: the file is ready, or its readiness is unknown.
    Transfer,
    /// Give up with this error.
    Fail(FsError),
}

/// Decides an asynchronous read or write from a readiness poll: readiness
/// unknown falls back to a plain transfer, any other error ends the operation,
/// and a read whose buffer was already handed out fails with `BrokenPipe`.
pub fn transfer_step(ready: Readiness, has_buffer: bool) -> (r: TransferStep)
    ensures
        ready == Readiness::Pending ==> r == TransferStep::Wait,
        (ready is Failed && ready != Readiness::Failed(FsError::WouldBlock)) ==> r
            == TransferStep::Fail(ready->Failed_0),
        (ready is Ready || ready == Readiness::Failed(FsError::WouldBlock)) ==> r == (if has_buffer {
            TransferStep::Transfer
        } else {
            TransferStep::Fail(FsError::BrokenPipe)
        }),
{
    match ready {
        Readiness::Pending => TransferStep::Wait,
        Readiness::Failed(e) => {
            if !matches!(e, FsError::WouldBlock) {
                TransferStep::Fail(e)
            } else if has_buffer {
                TransferStep::Transfer
            } else {
                TransferStep::Fail(FsError::BrokenPipe)
            }
        },
        Readiness::Ready(_) => {
            if has_buffer {
                TransferStep::Transfer
            } else {
                TransferStep::Fail(FsError::BrokenPipe)
            }
        },
    }
}

/// A file that reports no bytes and is polled registers its waker and is
/// pending; once it reports `n > 0` bytes, polling again gives `Ready(n)`.
pub proof fn lemma_pending_then_ready(n: usize)
    requires
        n > 0,
    ensures
        readiness_of(Ok(Some(0usize))) == Readiness::Pending,
        readiness_of(Ok(Some(n))) == Readiness::Ready(n),
{
}

} // verus!
