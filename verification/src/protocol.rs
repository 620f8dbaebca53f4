use vstd::prelude::*;

use crate::common::Tid;

verus! {

/// A thread or process id as a client may name it.
#[derive(Debug, Clone, Copy, PartialEq, Eq)]
pub enum IdKind {
    /// Any thread (`0` on the wire).
    Any,
    /// All threads (`-1` on the wire).
    All,
    /// One given thread.
    WithId(Tid),
}

/// A thread or process id as the stub reports it.
#[derive(Debug, Clone, Copy, PartialEq, Eq)]
pub enum SpecificIdKind {
    /// All threads.
    All,
    /// One given thread.
    WithId(Tid),
}

/// A thread id, possibly qualified by a process id.
#[derive(Debug, Clone, Copy, PartialEq, Eq)]
pub struct ThreadId {
    pub pid: Option<IdKind>,
    pub tid: IdKind,
}

/// A thread id as the stub reports it, possibly qualified by a process id.
#[derive(Debug, Clone, Copy, PartialEq, Eq)]
pub struct SpecificThreadId {
    pub pid: Option<SpecificIdKind>,
    pub tid: SpecificIdKind,
}

/// The protocol features that a client may offer in `qSupported`.
#[derive(Debug, Clone, Copy, PartialEq, Eq)]
pub enum Feature {
    Multiprocess,
}

/// One feature of a `qSupported` packet as the parser hands it over: a known
/// feature with its `+`/`-` setting, an unknown one (`None`), or one that did
/// not parse (`Err`).
pub type FeatureItem = Result<Option<(Feature, bool)>, ()>;

} // verus!

verus! {

/// What an `H` packet selects a thread for.
#[derive(Debug, Clone, Copy, PartialEq, Eq)]
pub enum SetThreadOp {
    /// Step and continue (`Hc`).
    StepContinue,
    /// Everything else: memory and register accesses (`Hg`).
    Other,
}

} // verus!
