//! What a target tells the stub: its optional capabilities, and the answers
//! of the target operations that the handlers act on.

use vstd::prelude::*;

use crate::common::Tid;
use crate::error::TargetError;

verus! {

/// The reverse-execution support of a target that can resume.
#[derive(Debug, Clone, Copy, PartialEq, Eq)]
pub struct ResumeSupport {
    pub reverse_cont: bool,
    pub reverse_step: bool,
}

/// The optional operations of a target that runs in extended mode.
#[derive(Debug, Clone, Copy, PartialEq, Eq)]
pub struct ExtendedModeSupport {
    pub configure_aslr: bool,
    pub configure_env: bool,
    pub configure_startup_shell: bool,
    pub configure_working_dir: bool,
}

/// The kinds of breakpoints a target supports.
#[derive(Debug, Clone, Copy, PartialEq, Eq)]
pub struct BreakpointSupport {
    pub sw_breakpoint: bool,
    pub hw_breakpoint: bool,
    pub hw_watchpoint: bool,
}

/// The optional features of a target, as `qSupported` reports them.
#[derive(Debug, Clone, Copy, PartialEq, Eq)]
pub struct TargetSupport {
    /// The target can resume (`None`: it cannot).
    pub resume: Option<ResumeSupport>,
    /// The target runs in extended mode (`None`: it does not).
    pub extended_mode: Option<ExtendedModeSupport>,
    /// The target supports breakpoints (`None`: it does not).
    pub breakpoints: Option<BreakpointSupport>,
    pub catch_syscalls: bool,
    /// The target wants its target description XML to be offered.
    pub use_target_description_xml: bool,
    /// The architecture has a target description XML.
    pub arch_target_description_xml: bool,
    /// The target overrides the target description XML.
    pub target_description_xml_override: bool,
    pub memory_map: bool,
    pub exec_file: bool,
    pub auxv: bool,
}

/// The threads a target reported through its thread-listing call: the ids
/// it handed out, in order, and what the call itself returned.
pub struct ThreadList<E> {
    pub tids: Vec<Tid>,
    pub result: Result<(), E>,
}

/// How a target answers for its threads.
pub enum ActiveThreads<E> {
    /// The target has exactly one thread.
    SingleThread,
    /// The target listed its threads.
    MultiThread(ThreadList<E>),
}

/// Whether a process was attached to or started by the target.
#[derive(Debug, Clone, Copy, PartialEq, Eq)]
pub enum AttachKind {
    Attach,
    Run,
}

impl AttachKind {
    /// True for a process that was attached to.
    pub fn was_attached(self) -> (r: bool)
        ensures
            r == (self is Attach),
    {
        match self {
            AttachKind::Attach => true,
            AttachKind::Run => false,
        }
    }
}

/// Whether the stub should end the session after a kill.
#[derive(Debug, Clone, Copy, PartialEq, Eq)]
pub enum ShouldTerminate {
    Yes,
    No,
}

impl ShouldTerminate {
    /// True for `Yes`.
    pub fn into_bool(self) -> (r: bool)
        ensures
            r == (self is Yes),
    {
        match self {
            ShouldTerminate::Yes => true,
            ShouldTerminate::No => false,
        }
    }
}

/// The section or segment offsets of a loaded program.
#[derive(Debug, Clone, Copy, PartialEq, Eq)]
pub enum Offsets {
    Sections { text: u64, data: u64, bss: Option<u64> },
    Segments { text_seg: u64, data_seg: Option<u64> },
}

} // verus!

verus! {

/// What became of a `G` packet: the register values did not fit the
/// architecture, or they were handed to the target with this result.
pub enum RegisterWrite<E> {
    Malformed,
    Written(Result<(), TargetError<E>>),
}

/// What a target answered to a kill request: nothing, as it does not run in
/// extended mode, or this result.
pub enum KillAnswer<E> {
    NoExtendedMode,
    Killed(Result<ShouldTerminate, TargetError<E>>),
}

/// What a target answered when asked whether a thread is alive.
pub enum ThreadAlive<E> {
    /// The target has a single thread, and was not asked.
    SingleThread,
    /// The answer of a multi-threaded target.
    MultiThread(Result<bool, E>),
}

} // verus!
