use vstd::prelude::*;

verus! {

/// A thread id, as the protocol spells it (always non-zero on the wire).
pub type Tid = usize;

/// A process id, as the protocol spells it (always non-zero on the wire).
pub type Pid = usize;

/// The thread id reported for a target that has a single thread.
pub const SINGLE_THREAD_TID: Tid = 1;

/// The process id reported when the multiprocess extension is in use.
pub const FAKE_PID: Pid = 1;

} // verus!
