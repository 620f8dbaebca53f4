use vstd::prelude::*;

use crate::common::{Tid, SINGLE_THREAD_TID};
use crate::error::Error;
use crate::protocol::SpecificIdKind;
use crate::target::{ActiveThreads, ThreadList};

pub mod core_impl;

verus! {

/// The protocol features negotiated with the client.
#[derive(Debug, Clone, Copy, PartialEq, Eq)]
pub struct ProtocolFeatures {
    pub multiprocess: bool,
    pub no_ack_mode: bool,
}

impl ProtocolFeatures {
    /// No feature negotiated.
    pub fn empty() -> (r: ProtocolFeatures)
        ensures
            r == ProtocolFeatures::empty_spec(),
    {
        ProtocolFeatures { multiprocess: false, no_ack_mode: false }
    }

    pub fn multiprocess(&self) -> (r: bool)
        ensures
            r == self.multiprocess,
    {
        self.multiprocess
    }

    pub fn set_multiprocess(&mut self, on: bool)
        ensures
            *final(self) == (ProtocolFeatures { multiprocess: on, ..*old(self) }),
    {
        self.multiprocess = on;
    }

    pub fn no_ack_mode(&self) -> (r: bool)
        ensures
            r == self.no_ack_mode,
    {
        self.no_ack_mode
    }

    pub fn set_no_ack_mode(&mut self, on: bool)
        ensures
            *final(self) == (ProtocolFeatures { no_ack_mode: on, ..*old(self) }),
    {
        self.no_ack_mode = on;
    }
}

/// Why a session ends.
#[derive(Debug, Clone, Copy, PartialEq, Eq)]
pub enum DisconnectReason {
    /// The client detached.
    Disconnect,
    /// The client killed the target.
    Kill,
}

/// What is left to do once a handler has run.
#[derive(Debug, Clone, Copy, PartialEq, Eq)]
pub enum HandlerStatus {
    /// The handler wrote the whole response.
    Handled,
    /// The response is `OK`, still to be written.
    NeedsOk,
    /// The session ends.
    Disconnect(DisconnectReason),
}

/// The thread that "any thread" stands for.
pub open spec fn sane_any_tid<E>(threads: ActiveThreads<E>) -> Result<Tid, Error<E>> {
    match threads {
        ActiveThreads::SingleThread => Ok(SINGLE_THREAD_TID),
        ActiveThreads::MultiThread(list) => match list.result {
            Err(e) => Err(Error::TargetError(e)),
            Ok(()) => if list.tids@.len() > 0 {
                Ok(list.tids@[0])
            } else {
                Err(Error::NoActiveThreads)
            },
        },
    }
}

/// The state of a stub that lives across packets.
#[derive(Debug, Clone, Copy, PartialEq, Eq)]
pub struct GdbStubImpl {
    /// The negotiated protocol features.
    pub features: ProtocolFeatures,
    /// The thread that memory and register accesses go to.
    pub current_mem_tid: Tid,
    /// The thread that step and continue commands go to.
    pub current_resume_tid: SpecificIdKind,
}

impl GdbStubImpl {
    /// A stub at the start of a session: nothing negotiated, accesses going
    /// to the single thread, resumption applying to all threads.
    pub fn new() -> (r: GdbStubImpl)
        ensures
            r.features == ProtocolFeatures::empty_spec(),
            r.current_mem_tid == SINGLE_THREAD_TID,
            r.current_resume_tid == SpecificIdKind::All,
    {
        GdbStubImpl {
            features: ProtocolFeatures::empty(),
            current_mem_tid: SINGLE_THREAD_TID,
            current_resume_tid: SpecificIdKind::All,
        }
    }

    /// Picks the thread that stands for "any thread": the single thread, or
    /// the first thread that a multi-threaded target lists.
    pub fn get_sane_any_tid<E>(&mut self, threads: ActiveThreads<E>) -> (r: Result<Tid, Error<E>>)
        ensures
            r == sane_any_tid(threads),
            *final(self) == *old(self),
    {
        match threads {
            ActiveThreads::SingleThread => Ok(SINGLE_THREAD_TID),
            ActiveThreads::MultiThread(list) => {
                let ThreadList { tids, result } = list;
                match result {
                    Err(e) => Err(Error::TargetError(e)),
                    Ok(()) => {
                        if tids.len() > 0 {
                            Ok(tids[0])
                        } else {
                            Err(Error::NoActiveThreads)
                        }
                    },
                }
            },
        }
    }
}

impl ProtocolFeatures {
    /// The value of [`ProtocolFeatures::empty`].
    pub open spec fn empty_spec() -> ProtocolFeatures {
        ProtocolFeatures { multiprocess: false, no_ack_mode: false }
    }
}

/// Why a handler failed: the handler itself, or a write to the connection.
#[derive(Debug, Clone, PartialEq, Eq)]
pub enum HandlerError<E, C> {
    Handler(Error<E>),
    Connection(C),
}

/// The last failure among writes that were each attempted whatever became
/// of the ones before.
pub open spec fn last_failure<C>(writes: Seq<Result<(), C>>) -> Result<(), C>
    decreases writes.len(),
{
    if writes.len() == 0 {
        Ok(())
    } else if writes.last() is Err {
        writes.last()
    } else {
        last_failure(writes.drop_last())
    }
}

/// The outcome of a handler that wrote its response in order, stopping at
/// the first write that failed (`sent`): its writes all come before the
/// point where its own result is decided, so a failed write is what it
/// reports.
pub open spec fn settled_written<E, C>(
    handler: Result<HandlerStatus, Error<E>>,
    sent: Result<(), C>,
) -> Result<HandlerStatus, HandlerError<E, C>> {
    match sent {
        Err(c) => Err(HandlerError::Connection(c)),
        Ok(()) => match handler {
            Ok(s) => Ok(s),
            Err(e) => Err(HandlerError::Handler(e)),
        },
    }
}

/// The outcome of a handler whose writes were made from inside a target
/// call, one group per item the target handed over: a failed group does not
/// stop the later ones, the handler's own error comes first, then the last
/// failed group.
pub open spec fn settled_callback_writes<E, C>(
    handler: Result<HandlerStatus, Error<E>>,
    writes: Seq<Result<(), C>>,
) -> Result<HandlerStatus, HandlerError<E, C>> {
    match handler {
        Err(e) => Err(HandlerError::Handler(e)),
        Ok(s) => match last_failure(writes) {
            Err(c) => Err(HandlerError::Connection(c)),
            Ok(()) => Ok(s),
        },
    }
}

/// The outcome of a handler that wrote its response in order, stopping at
/// the first failed write.
pub fn settle_written<E, C>(handler: Result<HandlerStatus, Error<E>>, sent: Result<(), C>) -> (r:
    Result<HandlerStatus, HandlerError<E, C>>)
    ensures
        r == settled_written(handler, sent),
{
    match sent {
        Err(c) => Err(HandlerError::Connection(c)),
        Ok(()) => match handler {
            Ok(s) => Ok(s),
            Err(e) => Err(HandlerError::Handler(e)),
        },
    }
}

/// The outcome of a handler whose writes were made group by group from
/// inside a target call; `writes` holds the outcome of each group.
pub fn settle_callback_writes<E, C>(
    handler: Result<HandlerStatus, Error<E>>,
    writes: Vec<Result<(), C>>,
) -> (r: Result<HandlerStatus, HandlerError<E, C>>)
    ensures
        r == settled_callback_writes(handler, writes@),
{
    match handler {
        Err(e) => Err(HandlerError::Handler(e)),
        Ok(s) => {
            let ghost all = writes@;
            let mut rest = writes;
            while rest.len() > 0
                invariant
                    last_failure(rest@) == last_failure(all),
                    all == writes@,
                    handler == Ok::<HandlerStatus, Error<E>>(s),
                decreases rest@.len(),
            {
                let ghost before = rest@;
                let w = rest.pop().unwrap();
                assert(before.drop_last() =~= rest@);
                assert(before.last() == w);
                if let Err(c) = w {
                    assert(last_failure(all) == Err::<(), C>(c));
                    return Err(HandlerError::Connection(c));
                }
            }
            assert(rest@.len() == 0);
            assert(last_failure(all) == Ok::<(), C>(()));
            Ok(s)
        },
    }
}

/// The thread that a memory or register access names: the thread selected
/// by `H` on a multi-threaded target, none on a single-threaded one.
pub open spec fn access_tid_of(s: GdbStubImpl, multi_thread: bool) -> Option<Tid> {
    if multi_thread {
        Some(s.current_mem_tid)
    } else {
        None
    }
}

impl GdbStubImpl {
    /// The thread that a memory or register access (`g`, `G`, `m`, `M`) is
    /// to name when the target is asked.
    pub fn access_tid(&self, multi_thread: bool) -> (r: Option<Tid>)
        ensures
            r == access_tid_of(*self, multi_thread),
    {
        if multi_thread {
            Some(self.current_mem_tid)
        } else {
            None
        }
    }
}

/// Where a handler's writes are made from inside a target call, the
/// target's own error is what the handler reports, whatever became of the
/// writes; and with no failed write, the handler's own result stands.
pub proof fn law_target_error_wins_over_failed_writes<E, C>(
    handler: Result<HandlerStatus, Error<E>>,
    writes: Seq<Result<(), C>>,
)
    ensures
        handler is Err ==> settled_callback_writes(handler, writes) == Err::<
            HandlerStatus,
            HandlerError<E, C>,
        >(HandlerError::Handler(handler->Err_0)),
        (forall|i: int| 0 <= i < writes.len() ==> #[trigger] writes[i] is Ok) ==> (
        settled_callback_writes(handler, writes) == match handler {
            Ok(s) => Ok::<HandlerStatus, HandlerError<E, C>>(s),
            Err(e) => Err(HandlerError::Handler(e)),
        }),
    decreases writes.len(),
{
    if writes.len() > 0 {
        law_target_error_wins_over_failed_writes(handler, writes.drop_last());
        if forall|i: int| 0 <= i < writes.len() ==> #[trigger] writes[i] is Ok {
            assert(writes.last() is Ok);
            assert forall|i: int| 0 <= i < writes.drop_last().len() implies #[trigger] writes.drop_last()[i] is Ok by {
                assert(writes.drop_last()[i] == writes[i]);
            }
        }
    }
}

} // verus!
