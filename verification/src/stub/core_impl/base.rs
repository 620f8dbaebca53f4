//! The base command set: handshaking, registers, memory and threads.

use vstd::prelude::*;

use crate::arch::{addr_from_be_bytes, addr_limit, offset_to_addr, parse_be_addr, AddrWidth};
use crate::common::{Pid, Tid, FAKE_PID, SINGLE_THREAD_TID};
use crate::error::{handle_error, target_error_to_error, Error, PacketParseError, TargetError};
use crate::protocol::{Feature, FeatureItem, IdKind, SetThreadOp, SpecificIdKind, SpecificThreadId};
use crate::response::{responses_view, Response, ResponseOpView};
use crate::stub::{
    access_tid_of, sane_any_tid, DisconnectReason, GdbStubImpl, HandlerStatus, ProtocolFeatures,
};
use crate::target::{
    ActiveThreads, AttachKind, KillAnswer, RegisterWrite, ShouldTerminate, TargetSupport,
    ThreadAlive, ThreadList,
};

verus! {

/// `op`, where `cond` holds.
pub open spec fn op_if(cond: bool, op: ResponseOpView) -> Seq<ResponseOpView> {
    if cond {
        seq![op]
    } else {
        Seq::empty()
    }
}

/// True when every feature item parsed.
pub open spec fn all_parsed(items: Seq<FeatureItem>) -> bool {
    forall|i: int| 0 <= i < items.len() ==> !(#[trigger] items[i] is Err)
}

/// The multiprocess setting after the features in `items` were offered in
/// order, starting from `current`: the last setting offered wins.
pub open spec fn negotiate_multiprocess(current: bool, items: Seq<FeatureItem>) -> bool
    decreases items.len(),
{
    if items.len() == 0 {
        current
    } else {
        match items.last() {
            Ok(Some((Feature::Multiprocess, on))) => on,
            _ => negotiate_multiprocess(current, items.drop_last()),
        }
    }
}

/// The features that every `qSupported` reply announces, after the packet size.
pub open spec fn supported_header(packet_buffer_len: usize) -> Seq<ResponseOpView> {
    seq![
        ResponseOpView::Str("PacketSize="@),
        ResponseOpView::Num(packet_buffer_len as u64),
        ResponseOpView::Str(";vContSupported+;multiprocess+;QStartNoAckMode+"@),
    ]
}

/// The reverse-execution features of a `qSupported` reply.
pub open spec fn supported_resume(caps: TargetSupport) -> Seq<ResponseOpView> {
    match caps.resume {
        Some(r) => op_if(r.reverse_cont, ResponseOpView::Str(";ReverseContinue+"@)) + op_if(
            r.reverse_step,
            ResponseOpView::Str(";ReverseStep+"@),
        ),
        None => Seq::empty(),
    }
}

/// The extended-mode features of a `qSupported` reply.
pub open spec fn supported_extended(caps: TargetSupport) -> Seq<ResponseOpView> {
    match caps.extended_mode {
        Some(x) => op_if(x.configure_aslr, ResponseOpView::Str(";QDisableRandomization+"@)) + (
        if x.configure_env {
            seq![
                ResponseOpView::Str(";QEnvironmentHexEncoded+"@),
                ResponseOpView::Str(";QEnvironmentUnset+"@),
                ResponseOpView::Str(";QEnvironmentReset+"@),
            ]
        } else {
            Seq::empty()
        }) + op_if(x.configure_startup_shell, ResponseOpView::Str(";QStartupWithShell+"@))
            + op_if(x.configure_working_dir, ResponseOpView::Str(";QSetWorkingDir+"@)),
        None => Seq::empty(),
    }
}

/// The breakpoint features of a `qSupported` reply.
pub open spec fn supported_breakpoints(caps: TargetSupport) -> Seq<ResponseOpView> {
    match caps.breakpoints {
        Some(b) => op_if(b.sw_breakpoint, ResponseOpView::Str(";swbreak+"@)) + op_if(
            b.hw_breakpoint || b.hw_watchpoint,
            ResponseOpView::Str(";hwbreak+"@),
        ),
        None => Seq::empty(),
    }
}

/// The remaining features of a `qSupported` reply.
pub open spec fn supported_misc(caps: TargetSupport) -> Seq<ResponseOpView> {
    op_if(caps.catch_syscalls, ResponseOpView::Str(";QCatchSyscalls+"@)) + op_if(
        caps.use_target_description_xml && (caps.arch_target_description_xml
            || caps.target_description_xml_override),
        ResponseOpView::Str(";qXfer:features:read+"@),
    ) + op_if(caps.memory_map, ResponseOpView::Str(";qXfer:memory-map:read+"@)) + op_if(
        caps.exec_file,
        ResponseOpView::Str(";qXfer:exec-file:read+"@),
    ) + op_if(caps.auxv, ResponseOpView::Str(";qXfer:auxv:read+"@))
}

/// The features of a `qSupported` reply that depend on the target.
pub open spec fn supported_by_target(caps: TargetSupport) -> Seq<ResponseOpView> {
    supported_resume(caps) + supported_extended(caps) + supported_breakpoints(caps)
        + supported_misc(caps)
}

/// The whole `qSupported` reply.
pub open spec fn supported_reply(packet_buffer_len: usize, caps: TargetSupport) -> Seq<ResponseOpView> {
    supported_header(packet_buffer_len) + supported_by_target(caps)
}

fn write_if(res: &mut Response, cond: bool, s: &'static str)
    ensures
        final(res)@ == old(res)@ + op_if(cond, ResponseOpView::Str(s@)),
{
    if cond {
        res.write_str(s);
    }
    assert(res@ =~= old(res)@ + op_if(cond, ResponseOpView::Str(s@)));
}

fn write_supported_resume(res: &mut Response, caps: &TargetSupport)
    ensures
        final(res)@ == old(res)@ + supported_resume(*caps),
{
    if let Some(r) = caps.resume {
        write_if(res, r.reverse_cont, ";ReverseContinue+");
        write_if(res, r.reverse_step, ";ReverseStep+");
    }
    assert(res@ =~= old(res)@ + supported_resume(*caps));
}

fn write_supported_extended(res: &mut Response, caps: &TargetSupport)
    ensures
        final(res)@ == old(res)@ + supported_extended(*caps),
{
    if let Some(x) = caps.extended_mode {
        write_if(res, x.configure_aslr, ";QDisableRandomization+");
        if x.configure_env {
            res.write_str(";QEnvironmentHexEncoded+");
            res.write_str(";QEnvironmentUnset+");
            res.write_str(";QEnvironmentReset+");
        }
        write_if(res, x.configure_startup_shell, ";QStartupWithShell+");
        write_if(res, x.configure_working_dir, ";QSetWorkingDir+");
    }
    assert(res@ =~= old(res)@ + supported_extended(*caps));
}

fn write_supported_breakpoints(res: &mut Response, caps: &TargetSupport)
    ensures
        final(res)@ == old(res)@ + supported_breakpoints(*caps),
{
    if let Some(b) = caps.breakpoints {
        write_if(res, b.sw_breakpoint, ";swbreak+");
        write_if(res, b.hw_breakpoint || b.hw_watchpoint, ";hwbreak+");
    }
    assert(res@ =~= old(res)@ + supported_breakpoints(*caps));
}

fn write_supported_misc(res: &mut Response, caps: &TargetSupport)
    ensures
        final(res)@ == old(res)@ + supported_misc(*caps),
{
    write_if(res, caps.catch_syscalls, ";QCatchSyscalls+");
    write_if(
        res,
        caps.use_target_description_xml && (caps.arch_target_description_xml
            || caps.target_description_xml_override),
        ";qXfer:features:read+",
    );
    write_if(res, caps.memory_map, ";qXfer:memory-map:read+");
    write_if(res, caps.exec_file, ";qXfer:exec-file:read+");
    write_if(res, caps.auxv, ";qXfer:auxv:read+");
    assert(res@ =~= old(res)@ + supported_misc(*caps));
}

fn write_supported_reply(res: &mut Response, packet_buffer_len: usize, caps: &TargetSupport)
    ensures
        final(res)@ == old(res)@ + supported_reply(packet_buffer_len, *caps),
{
    res.write_str("PacketSize=");
    res.write_num(packet_buffer_len as u64);
    res.write_str(";vContSupported+;multiprocess+;QStartNoAckMode+");
    assert(res@ =~= old(res)@ + supported_header(packet_buffer_len));
    write_supported_by_target(res, caps);
    assert(res@ =~= old(res)@ + supported_reply(packet_buffer_len, *caps));
}

fn write_supported_by_target(res: &mut Response, caps: &TargetSupport)
    ensures
        final(res)@ == old(res)@ + supported_by_target(*caps),
{
    let ghost s0 = res@;
    write_supported_resume(res, caps);
    write_supported_extended(res, caps);
    write_supported_breakpoints(res, caps);
    write_supported_misc(res, caps);
    proof {
        lemma_add_assoc4(
            s0,
            supported_resume(*caps),
            supported_extended(*caps),
            supported_breakpoints(*caps),
            supported_misc(*caps),
        );
    }
}

/// Appending four sequences one after another appends their concatenation.
proof fn lemma_add_assoc4<T>(s: Seq<T>, a: Seq<T>, b: Seq<T>, c: Seq<T>, d: Seq<T>)
    ensures
        s + a + b + c + d == s + (a + b + c + d),
{
    assert(s + a + b + c + d =~= s + (a + b + c + d));
}

impl GdbStubImpl {
    /// Applies the features that the client offers, in order, up to the
    /// first one that did not parse; false when there is such a one.
    fn negotiate_features(&mut self, features: &Vec<FeatureItem>) -> (ok: bool)
        ensures
            final(self).current_mem_tid == old(self).current_mem_tid,
            final(self).current_resume_tid == old(self).current_resume_tid,
            final(self).features.no_ack_mode == old(self).features.no_ack_mode,
            ok == all_parsed(features@),
            ok ==> final(self).features.multiprocess == negotiate_multiprocess(
                old(self).features.multiprocess,
                features@,
            ),
            !ok ==> exists|k: int|
                0 <= k < features@.len() && #[trigger] features@[k] is Err && all_parsed(
                    features@.take(k),
                ) && final(self).features.multiprocess == negotiate_multiprocess(
                    old(self).features.multiprocess,
                    features@.take(k),
                ),
    {
        let mut i: usize = 0;
        while i < features.len()
            invariant
                i <= features@.len(),
                all_parsed(features@.take(i as int)),
                self.features.multiprocess == negotiate_multiprocess(
                    old(self).features.multiprocess,
                    features@.take(i as int),
                ),
                self.features.no_ack_mode == old(self).features.no_ack_mode,
                self.current_mem_tid == old(self).current_mem_tid,
                self.current_resume_tid == old(self).current_resume_tid,
            decreases features@.len() - i,
        {
            let item = features[i];
            proof {
                assert(features@.take(i as int + 1).drop_last() =~= features@.take(i as int));
            }
            match item {
                Ok(None) => {},
                Ok(Some((feature, supported))) => match feature {
                    Feature::Multiprocess => self.features.set_multiprocess(supported),
                },
                Err(()) => {
                    assert(features@[i as int] is Err);
                    return false;
                },
            }
            assert forall|j: int| 0 <= j < i + 1 implies !(#[trigger] features@.take(
                i as int + 1,
            )[j] is Err) by {
                if j < i {
                    assert(features@.take(i as int + 1)[j] == features@.take(i as int)[j]);
                }
            }
            i = i + 1;
        }
        assert(features@.take(i as int) =~= features@);
        true
    }

    /// `qSupported`: takes in the features that the client offers, then
    /// announces the packet size and the features of the stub and target.
    /// A feature that did not parse fails the packet; the features offered
    /// before it stay applied.
    pub fn handle_q_supported<E>(
        &mut self,
        res: &mut Response,
        packet_buffer_len: usize,
        features: &Vec<FeatureItem>,
        caps: &TargetSupport,
    ) -> (r: Result<HandlerStatus, Error<E>>)
        ensures
            packet_step(*old(self), StubPacket::<E>::Other, *final(self)),
            final(self).current_mem_tid == old(self).current_mem_tid,
            final(self).current_resume_tid == old(self).current_resume_tid,
            final(self).features.no_ack_mode == old(self).features.no_ack_mode,
            all_parsed(features@) ==> {
                &&& r == Ok::<HandlerStatus, Error<E>>(HandlerStatus::Handled)
                &&& final(self).features.multiprocess == negotiate_multiprocess(
                    old(self).features.multiprocess,
                    features@,
                )
                &&& final(res)@ == old(res)@ + supported_reply(packet_buffer_len, *caps)
            },
            !all_parsed(features@) ==> {
                &&& r == Err::<HandlerStatus, Error<E>>(
                    Error::PacketParse(PacketParseError::MalformedCommand),
                )
                &&& final(res)@ == old(res)@
                &&& exists|k: int|
                    0 <= k < features@.len() && #[trigger] features@[k] is Err && all_parsed(
                        features@.take(k),
                    ) && final(self).features.multiprocess == negotiate_multiprocess(
                        old(self).features.multiprocess,
                        features@.take(k),
                    )
            },
    {
        if !self.negotiate_features(features) {
            return Err(Error::PacketParse(PacketParseError::MalformedCommand));
        }
        write_supported_reply(res, packet_buffer_len, caps);
        Ok(HandlerStatus::Handled)
    }
}

/// The id under which the stub reports thread `tid`: qualified by the fake
/// process id where the multiprocess extension was negotiated.
pub open spec fn reported_thread_id(multiprocess: bool, tid: Tid) -> SpecificThreadId {
    SpecificThreadId {
        pid: if multiprocess {
            Some(SpecificIdKind::WithId(FAKE_PID))
        } else {
            None
        },
        tid: SpecificIdKind::WithId(tid),
    }
}

/// The rest of the reply to `?`, after its `T05thread:` prefix (a stop reply
/// for signal 5): the "any" thread and a `;`. Where that thread cannot be
/// found, the reply breaks off after the prefix.
pub open spec fn question_mark_outcome<E>(multiprocess: bool, threads: ActiveThreads<E>) -> (
    Result<HandlerStatus, Error<E>>,
    Seq<ResponseOpView>,
) {
    match sane_any_tid(threads) {
        Ok(tid) => (
            Ok(HandlerStatus::Handled),
            seq![
                ResponseOpView::ThreadId(reported_thread_id(multiprocess, tid)),
                ResponseOpView::Str(";"@),
            ],
        ),
        Err(e) => (Err(e), Seq::empty()),
    }
}

/// The write of one serialised register byte: two hex digits, or `xx` for
/// a byte the target does not know.
pub open spec fn register_byte_op(b: Option<u8>) -> ResponseOpView {
    match b {
        Some(b) => ResponseOpView::HexBuf(seq![b]),
        None => ResponseOpView::Str("xx"@),
    }
}

/// The writes for one thread of a `qfThreadInfo` reply: a comma before
/// every thread but the first, then the thread's id.
pub open spec fn thread_group_ops(multiprocess: bool, first: bool, tid: Tid) -> Seq<
    ResponseOpView,
> {
    (if first {
        Seq::empty()
    } else {
        seq![ResponseOpView::Str(","@)]
    }) + seq![ResponseOpView::ThreadId(reported_thread_id(multiprocess, tid))]
}

/// The writes of a `qfThreadInfo` reply for the listed threads, one group
/// per thread, in the order the target listed them.
pub open spec fn thread_info_groups(multiprocess: bool, tids: Seq<Tid>) -> Seq<Seq<ResponseOpView>> {
    Seq::new(tids.len(), |j: int| thread_group_ops(multiprocess, j == 0, tids[j]))
}

/// The state and result after an `H` packet; `threads` is what the target
/// reported for its threads, where it was asked.
pub open spec fn set_thread_outcome<E>(
    s: GdbStubImpl,
    op: SetThreadOp,
    tid: IdKind,
    threads: Option<ActiveThreads<E>>,
) -> (GdbStubImpl, Result<HandlerStatus, Error<E>>) {
    match tid {
        IdKind::Any => match sane_any_tid(threads.unwrap()) {
            Ok(t) => match op {
                SetThreadOp::Other => (
                    GdbStubImpl { current_mem_tid: t, ..s },
                    Ok(HandlerStatus::NeedsOk),
                ),
                SetThreadOp::StepContinue => (
                    GdbStubImpl { current_resume_tid: SpecificIdKind::WithId(t), ..s },
                    Ok(HandlerStatus::NeedsOk),
                ),
            },
            Err(e) => (s, Err(e)),
        },
        IdKind::All => match op {
            SetThreadOp::Other => (s, Err(Error::PacketUnexpected)),
            SetThreadOp::StepContinue => (
                GdbStubImpl { current_resume_tid: SpecificIdKind::All, ..s },
                Ok(HandlerStatus::NeedsOk),
            ),
        },
        IdKind::WithId(t) => match op {
            SetThreadOp::Other => (GdbStubImpl { current_mem_tid: t, ..s }, Ok(HandlerStatus::NeedsOk)),
            SetThreadOp::StepContinue => (
                GdbStubImpl { current_resume_tid: SpecificIdKind::WithId(t), ..s },
                Ok(HandlerStatus::NeedsOk),
            ),
        },
    }
}

/// The result of a `T` packet; `alive` is the target's answer, where it
/// was asked.
pub open spec fn thread_alive_outcome<E>(tid: IdKind, alive: Option<ThreadAlive<E>>) -> Result<
    HandlerStatus,
    Error<E>,
> {
    match tid {
        IdKind::WithId(t) => {
            let is_alive = match alive.unwrap() {
                ThreadAlive::SingleThread => Ok(t == SINGLE_THREAD_TID),
                ThreadAlive::MultiThread(r) => match r {
                    Ok(b) => Ok(b),
                    Err(e) => Err(Error::TargetError(e)),
                },
            };
            match is_alive {
                Ok(true) => Ok(HandlerStatus::NeedsOk),
                Ok(false) => Err(Error::NonFatalError(1)),
                Err(e) => Err(e),
            }
        },
        _ => Err(Error::PacketUnexpected),
    }
}

impl GdbStubImpl {
    /// The id under which the stub reports thread `tid`.
    fn reported_thread_id(&self, tid: Tid) -> (r: SpecificThreadId)
        ensures
            r == reported_thread_id(self.features.multiprocess, tid),
    {
        SpecificThreadId {
            pid: if self.features.multiprocess() {
                Some(SpecificIdKind::WithId(FAKE_PID))
            } else {
                None
            },
            tid: SpecificIdKind::WithId(tid),
        }
    }

    /// `QStartNoAckMode`: from now on packets go without acknowledgement.
    pub fn handle_q_start_no_ack_mode(&mut self) -> (r: HandlerStatus)
        ensures
            packet_step(*old(self), StubPacket::<()>::Other, *final(self)),
            r == HandlerStatus::NeedsOk,
            *final(self) == (GdbStubImpl {
                features: ProtocolFeatures { no_ack_mode: true, ..old(self).features },
                ..*old(self)
            }),
    {
        self.features.set_no_ack_mode(true);
        HandlerStatus::NeedsOk
    }

    /// `?`, first part: the prefix of the stop reply, written before the
    /// target is asked for its threads.
    pub fn begin_question_mark(&self, res: &mut Response)
        ensures
            final(res)@ == old(res)@.push(ResponseOpView::Str("T05thread:"@)),
    {
        res.write_str("T05thread:");
    }

    /// `?`, second part, after [`GdbStubImpl::begin_question_mark`]: names a
    /// valid thread, the one that "any thread" stands for.
    pub fn handle_question_mark<E>(&mut self, res: &mut Response, threads: ActiveThreads<E>) -> (r:
        Result<HandlerStatus, Error<E>>)
        ensures
            packet_step(*old(self), StubPacket::<E>::Other, *final(self)),
            *final(self) == *old(self),
            r == question_mark_outcome(old(self).features.multiprocess, threads).0,
            final(res)@ == old(res)@ + question_mark_outcome(
                old(self).features.multiprocess,
                threads,
            ).1,
    {
        let tid = match self.get_sane_any_tid(threads) {
            Ok(tid) => tid,
            Err(e) => {
                assert(res@ =~= old(res)@ + question_mark_outcome(
                    old(self).features.multiprocess,
                    threads,
                ).1);
                return Err(e);
            },
        };
        let id = self.reported_thread_id(tid);
        res.write_specific_thread_id(id);
        res.write_str(";");
        assert(res@ =~= old(res)@ + question_mark_outcome(old(self).features.multiprocess, threads).1);
        Ok(HandlerStatus::Handled)
    }

    /// For `qAttached`: the process that the target is to be asked about.
    /// Only a target in extended mode is asked, and only where the client
    /// named a process.
    pub fn attached_query(&self, extended_mode: bool, pid: Option<Pid>) -> (r: Option<Pid>)
        ensures
            r == (if extended_mode {
                pid
            } else {
                None
            }),
    {
        if extended_mode {
            pid
        } else {
            None
        }
    }

    /// `qAttached`: whether the process was attached to (`1`) or started
    /// (`0`). `answer` is the target's answer where it was asked; a process
    /// the target was not asked about counts as attached to.
    pub fn handle_q_attached<E>(
        &self,
        res: &mut Response,
        answer: Option<Result<AttachKind, TargetError<E>>>,
    ) -> (r: Result<HandlerStatus, Error<E>>)
        ensures
            match answer {
                Some(Err(e)) => r == Err::<HandlerStatus, Error<E>>(target_error_to_error(e))
                    && final(res)@ == old(res)@,
                Some(Ok(AttachKind::Run)) => r == Ok::<HandlerStatus, Error<E>>(
                    HandlerStatus::Handled,
                ) && final(res)@ == old(res)@.push(ResponseOpView::Str("0"@)),
                _ => r == Ok::<HandlerStatus, Error<E>>(HandlerStatus::Handled) && final(res)@
                    == old(res)@.push(ResponseOpView::Str("1"@)),
            },
    {
        let is_attached = match answer {
            None => true,
            Some(query) => match handle_error(query) {
                Ok(kind) => kind.was_attached(),
                Err(e) => return Err(e),
            },
        };
        res.write_str(if is_attached { "1" } else { "0" });
        Ok(HandlerStatus::Handled)
    }

    /// `g`: the registers, serialised by the architecture into bytes, each
    /// written as two hex digits (`xx` for an unknown byte). Each byte is
    /// written on its own, as the serialiser hands it over, so `writes`
    /// receives one response per byte.
    pub fn handle_read_registers<E>(
        &self,
        writes: &mut Vec<Response>,
        regs: Result<Vec<Option<u8>>, TargetError<E>>,
    ) -> (r: Result<HandlerStatus, Error<E>>)
        ensures
            match regs {
                Err(e) => r == Err::<HandlerStatus, Error<E>>(target_error_to_error(e))
                    && final(writes)@ == old(writes)@,
                Ok(bytes) => r == Ok::<HandlerStatus, Error<E>>(HandlerStatus::Handled)
                    && responses_view(final(writes)@) == responses_view(old(writes)@)
                    + bytes@.map_values(|b: Option<u8>| seq![register_byte_op(b)]),
            },
    {
        let bytes = match handle_error(regs) {
            Ok(bytes) => bytes,
            Err(e) => return Err(e),
        };
        let ghost start = writes@;
        let mut i: usize = 0;
        while i < bytes.len()
            invariant
                i <= bytes@.len(),
                responses_view(writes@) == responses_view(start) + bytes@.take(i as int).map_values(
                    |b: Option<u8>| seq![register_byte_op(b)],
                ),
            decreases bytes@.len() - i,
        {
            let mut one = Response::new();
            match bytes[i] {
                Some(b) => {
                    let byte = [b];
                    one.write_hex_buf(&byte);
                    assert(byte@ =~= seq![b]);
                },
                None => one.write_str("xx"),
            }
            assert(one@ =~= seq![register_byte_op(bytes@[i as int])]);
            let ghost before = writes@;
            writes.push(one);
            assert(responses_view(writes@) =~= responses_view(before).push(one@));
            assert(bytes@.take(i as int + 1).map_values(|b: Option<u8>| seq![register_byte_op(b)])
                =~= bytes@.take(i as int).map_values(|b: Option<u8>| seq![register_byte_op(b)]).push(
                seq![register_byte_op(bytes@[i as int])],
            ));
            i = i + 1;
        }
        assert(bytes@.take(i as int) =~= bytes@);
        Ok(HandlerStatus::Handled)
    }

    /// `G`: the registers are written; values that do not fit the
    /// architecture fail the packet before the target sees them.
    pub fn handle_write_registers<E>(&self, outcome: RegisterWrite<E>) -> (r: Result<
        HandlerStatus,
        Error<E>,
    >)
        ensures
            r == match outcome {
                RegisterWrite::Malformed => Err(Error::TargetMismatch),
                RegisterWrite::Written(Ok(())) => Ok(HandlerStatus::NeedsOk),
                RegisterWrite::Written(Err(e)) => Err(target_error_to_error(e)),
            },
    {
        match outcome {
            RegisterWrite::Malformed => Err(Error::TargetMismatch),
            RegisterWrite::Written(w) => match handle_error(w) {
                Ok(()) => Ok(HandlerStatus::NeedsOk),
                Err(e) => Err(e),
            },
        }
    }

    /// `M` (and `m`): the address of the packet, as the architecture's
    /// address type.
    pub fn parse_address<E>(&self, addr: &[u8], width: AddrWidth) -> (r: Result<u64, Error<E>>)
        ensures
            r == match parse_be_addr(addr@, width) {
                Some(a) => Ok::<u64, Error<E>>(a),
                None => Err(Error::<E>::TargetMismatch),
            },
    {
        match addr_from_be_bytes(addr, width) {
            Some(a) => Ok(a),
            None => Err(Error::TargetMismatch),
        }
    }

    /// `M`: the target's answer to the memory write.
    pub fn handle_write_memory<E>(&self, written: Result<(), TargetError<E>>) -> (r: Result<
        HandlerStatus,
        Error<E>,
    >)
        ensures
            r == match written {
                Ok(()) => Ok(HandlerStatus::NeedsOk),
                Err(e) => Err(target_error_to_error(e)),
            },
    {
        match handle_error(written) {
            Ok(()) => Ok(HandlerStatus::NeedsOk),
            Err(e) => Err(e),
        }
    }

    /// For `k` and `vKill`: whether the target is asked to kill, and about
    /// which process. Only a target in extended mode is asked; `vKill` names
    /// its process, `k` none.
    pub fn kill_request(&self, extended_mode: bool, vkill_pid: Option<Pid>) -> (r: Option<
        Option<Pid>,
    >)
        ensures
            r == (if extended_mode {
                Some(vkill_pid)
            } else {
                None
            }),
    {
        if extended_mode {
            Some(vkill_pid)
        } else {
            None
        }
    }

    /// `k` and `vKill`: without extended mode the session ends; in extended
    /// mode it ends (after an explicit `OK`) only where the target says so.
    pub fn handle_kill<E>(&self, res: &mut Response, answer: KillAnswer<E>) -> (r: Result<
        HandlerStatus,
        Error<E>,
    >)
        ensures
            match answer {
                KillAnswer::NoExtendedMode => r == Ok::<HandlerStatus, Error<E>>(
                    HandlerStatus::Disconnect(DisconnectReason::Kill),
                ) && final(res)@ == old(res)@,
                KillAnswer::Killed(Err(e)) => r == Err::<HandlerStatus, Error<E>>(
                    target_error_to_error(e),
                ) && final(res)@ == old(res)@,
                KillAnswer::Killed(Ok(ShouldTerminate::Yes)) => r == Ok::<HandlerStatus, Error<E>>(
                    HandlerStatus::Disconnect(DisconnectReason::Kill),
                ) && final(res)@ == old(res)@.push(ResponseOpView::Str("OK"@)),
                KillAnswer::Killed(Ok(ShouldTerminate::No)) => r == Ok::<HandlerStatus, Error<E>>(
                    HandlerStatus::NeedsOk,
                ) && final(res)@ == old(res)@,
            },
    {
        match answer {
            KillAnswer::NoExtendedMode => Ok(HandlerStatus::Disconnect(DisconnectReason::Kill)),
            KillAnswer::Killed(killed) => {
                let should_terminate = match handle_error(killed) {
                    Ok(s) => s,
                    Err(e) => return Err(e),
                };
                if should_terminate.into_bool() {
                    res.write_str("OK");
                    Ok(HandlerStatus::Disconnect(DisconnectReason::Kill))
                } else {
                    Ok(HandlerStatus::NeedsOk)
                }
            },
        }
    }

    /// `D`: the client detaches; `OK` is written here, as the session ends.
    pub fn handle_detach<E>(&self, res: &mut Response) -> (r: Result<HandlerStatus, Error<E>>)
        ensures
            r == Ok::<HandlerStatus, Error<E>>(HandlerStatus::Disconnect(DisconnectReason::Disconnect)),
            final(res)@ == old(res)@.push(ResponseOpView::Str("OK"@)),
    {
        res.write_str("OK");
        Ok(HandlerStatus::Disconnect(DisconnectReason::Disconnect))
    }

    /// For `H`: whether the target is to be asked for its threads. It is,
    /// exactly where the packet says "any thread".
    pub fn set_thread_query(&self, tid: IdKind) -> (r: bool)
        ensures
            r == (tid is Any),
    {
        match tid {
            IdKind::Any => true,
            _ => false,
        }
    }

    /// For `T`: the thread that the target is to be asked about, where the
    /// packet names one.
    pub fn thread_alive_query(&self, tid: IdKind) -> (r: Option<Tid>)
        ensures
            r == match tid {
                IdKind::WithId(t) => Some(t),
                _ => None::<Tid>,
            },
    {
        match tid {
            IdKind::WithId(t) => Some(t),
            _ => None,
        }
    }

    /// For `G`: whether the target is asked to write the registers, and for
    /// which thread. Values that did not decode for the architecture are
    /// never written; decoded ones go to the thread that accesses name.
    pub fn register_write_request(&self, decoded: bool, multi_thread: bool) -> (r: Option<Option<Tid>>)
        ensures
            r == (if decoded {
                Some(access_tid_of(*self, multi_thread))
            } else {
                None
            }),
    {
        if decoded {
            Some(self.access_tid(multi_thread))
        } else {
            None
        }
    }

    /// `H`: selects the thread for memory and register accesses, or for
    /// step and continue. "Any thread" stands for the thread that
    /// [`GdbStubImpl::get_sane_any_tid`] picks, so `threads` is what the
    /// target reported, asked exactly where `tid` is `Any`. "All threads"
    /// makes no sense for memory accesses.
    pub fn handle_set_thread<E>(
        &mut self,
        op: SetThreadOp,
        tid: IdKind,
        threads: Option<ActiveThreads<E>>,
    ) -> (r: Result<HandlerStatus, Error<E>>)
        requires
            tid is Any ==> threads is Some,
        ensures
            packet_step(*old(self), StubPacket::SetThread { op, tid, threads }, *final(self)),
            (*final(self), r) == set_thread_outcome(*old(self), op, tid, threads),
    {
        match op {
            SetThreadOp::Other => match tid {
                IdKind::Any => {
                    let threads = threads.unwrap();
                    match self.get_sane_any_tid(threads) {
                        Ok(t) => self.current_mem_tid = t,
                        Err(e) => return Err(e),
                    }
                },
                IdKind::All => return Err(Error::PacketUnexpected),
                IdKind::WithId(t) => self.current_mem_tid = t,
            },
            SetThreadOp::StepContinue => match tid {
                IdKind::Any => {
                    let threads = threads.unwrap();
                    match self.get_sane_any_tid(threads) {
                        Ok(t) => self.current_resume_tid = SpecificIdKind::WithId(t),
                        Err(e) => return Err(e),
                    }
                },
                IdKind::All => self.current_resume_tid = SpecificIdKind::All,
                IdKind::WithId(t) => self.current_resume_tid = SpecificIdKind::WithId(t),
            },
        }
        Ok(HandlerStatus::NeedsOk)
    }

    /// `qfThreadInfo`, first part: the `m` that opens the list, written
    /// before the target is asked for its threads.
    pub fn begin_thread_info(&self, res: &mut Response)
        ensures
            final(res)@ == old(res)@.push(ResponseOpView::Str("m"@)),
    {
        res.write_str("m");
    }

    /// `qfThreadInfo`, second part, after [`GdbStubImpl::begin_thread_info`]:
    /// the ids of the active threads, separated by commas. A multi-threaded
    /// target hands its threads over one by one, and each is written on its
    /// own: `listed` receives one response per thread. The threads a target
    /// listed before its listing failed are written before the failure is
    /// reported.
    pub fn handle_thread_info_first<E>(
        &self,
        res: &mut Response,
        listed: &mut Vec<Response>,
        threads: ActiveThreads<E>,
    ) -> (r: Result<HandlerStatus, Error<E>>)
        ensures
            match threads {
                ActiveThreads::SingleThread => r == Ok::<HandlerStatus, Error<E>>(
                    HandlerStatus::Handled,
                ) && final(res)@ == old(res)@.push(
                    ResponseOpView::ThreadId(
                        reported_thread_id(self.features.multiprocess, SINGLE_THREAD_TID),
                    ),
                ) && final(listed)@ == old(listed)@,
                ActiveThreads::MultiThread(list) => final(res)@ == old(res)@ && responses_view(
                    final(listed)@,
                ) == responses_view(old(listed)@) + thread_info_groups(
                    self.features.multiprocess,
                    list.tids@,
                ) && r == match list.result {
                    Ok(()) => Ok::<HandlerStatus, Error<E>>(HandlerStatus::Handled),
                    Err(e) => Err(Error::TargetError(e)),
                },
            },
    {
        match threads {
            ActiveThreads::SingleThread => {
                let id = self.reported_thread_id(SINGLE_THREAD_TID);
                res.write_specific_thread_id(id);
                Ok(HandlerStatus::Handled)
            },
            ActiveThreads::MultiThread(list) => {
                let ThreadList { tids, result } = list;
                let ghost start = listed@;
                let mut first = true;
                let mut i: usize = 0;
                while i < tids.len()
                    invariant
                        i <= tids@.len(),
                        first == (i == 0),
                        responses_view(listed@) == responses_view(start) + thread_info_groups(
                            self.features.multiprocess,
                            tids@.take(i as int),
                        ),
                    decreases tids@.len() - i,
                {
                    let mut group = Response::new();
                    if !first {
                        group.write_str(",");
                    }
                    let id = self.reported_thread_id(tids[i]);
                    group.write_specific_thread_id(id);
                    assert(group@ =~= thread_group_ops(self.features.multiprocess, first, tids@[i as int]));
                    first = false;
                    let ghost before = listed@;
                    listed.push(group);
                    assert(responses_view(listed@) =~= responses_view(before).push(group@));
                    assert(thread_info_groups(self.features.multiprocess, tids@.take(i as int + 1))
                        =~= thread_info_groups(self.features.multiprocess, tids@.take(i as int)).push(
                        thread_group_ops(self.features.multiprocess, i == 0, tids@[i as int]),
                    ));
                    i = i + 1;
                }
                assert(tids@.take(i as int) =~= tids@);
                match result {
                    Ok(()) => Ok(HandlerStatus::Handled),
                    Err(e) => Err(Error::TargetError(e)),
                }
            },
        }
    }

    /// `qsThreadInfo`: all threads were listed by `qfThreadInfo`.
    pub fn handle_thread_info_subsequent<E>(&self, res: &mut Response) -> (r: Result<
        HandlerStatus,
        Error<E>,
    >)
        ensures
            r == Ok::<HandlerStatus, Error<E>>(HandlerStatus::Handled),
            final(res)@ == old(res)@.push(ResponseOpView::Str("l"@)),
    {
        res.write_str("l");
        Ok(HandlerStatus::Handled)
    }

    /// `T`: whether a given thread is alive. A single-threaded target has
    /// only its single thread; a multi-threaded one is asked (`alive` is its
    /// answer, asked exactly where `tid` names a thread). A dead thread is
    /// reported with error code 1.
    pub fn handle_thread_alive<E>(&self, tid: IdKind, alive: Option<ThreadAlive<E>>) -> (r: Result<
        HandlerStatus,
        Error<E>,
    >)
        requires
            tid is WithId ==> alive is Some,
        ensures
            r == thread_alive_outcome(tid, alive),
    {
        let is_alive = match tid {
            IdKind::WithId(t) => match alive.unwrap() {
                ThreadAlive::SingleThread => t == SINGLE_THREAD_TID,
                ThreadAlive::MultiThread(answer) => match answer {
                    Ok(b) => b,
                    Err(e) => return Err(Error::TargetError(e)),
                },
            },
            _ => return Err(Error::PacketUnexpected),
        };
        if is_alive {
            Ok(HandlerStatus::NeedsOk)
        } else {
            Err(Error::NonFatalError(1))
        }
    }
}

/// The size of the next chunk of an `m` read: what remains, as far as the
/// buffer holds.
pub open spec fn chunk_size(remaining: nat, buf_len: nat) -> nat {
    if remaining < buf_len {
        remaining
    } else {
        buf_len
    }
}

/// The sizes of the chunks in which an `m` read of `remaining` bytes goes,
/// through a buffer of `buf_len` bytes.
pub open spec fn chunk_sizes(remaining: nat, buf_len: nat) -> Seq<nat>
    decreases remaining,
{
    if remaining == 0 || buf_len == 0 {
        Seq::empty()
    } else {
        seq![chunk_size(remaining, buf_len)] + chunk_sizes(
            (remaining - chunk_size(remaining, buf_len)) as nat,
            buf_len,
        )
    }
}

/// The sum of a sequence of sizes.
pub open spec fn total(s: Seq<nat>) -> nat
    decreases s.len(),
{
    if s.len() == 0 {
        0
    } else {
        s[0] + total(s.drop_first())
    }
}

/// An `m` read in progress: the start address, how far the read has got,
/// what remains to be read, and the size of the buffer that each chunk of
/// memory goes through.
#[derive(Debug, Clone, Copy, PartialEq, Eq)]
pub struct MemoryRead {
    pub addr: u64,
    pub tid: Option<Tid>,
    pub width: AddrWidth,
    pub offset: usize,
    pub remaining: usize,
    pub buf_len: usize,
}

/// What an `m` read does next.
#[derive(Debug, Clone, Copy, PartialEq, Eq)]
pub enum MemoryReadStep {
    /// Read `len` bytes at `addr` from the target (from thread `tid`, where
    /// it has many) into the buffer, then hand them to
    /// [`MemoryRead::chunk_read`].
    Read { addr: u64, len: usize, tid: Option<Tid> },
    /// The read is complete; the packet ends with this status.
    Done(HandlerStatus),
}

impl GdbStubImpl {
    /// `m`: starts a read of `len` bytes at the address of the packet, from
    /// the thread that memory accesses go to.
    pub fn start_read_memory<E>(
        &self,
        addr: &[u8],
        len: usize,
        buf_len: usize,
        width: AddrWidth,
        multi_thread: bool,
    ) -> (r: Result<MemoryRead, Error<E>>)
        ensures
            r == match parse_be_addr(addr@, width) {
                Some(a) => Ok::<MemoryRead, Error<E>>(
                    MemoryRead {
                        addr: a,
                        tid: access_tid_of(*self, multi_thread),
                        width,
                        offset: 0,
                        remaining: len,
                        buf_len,
                    },
                ),
                None => Err(Error::<E>::TargetMismatch),
            },
    {
        let addr = match self.parse_address(addr, width) {
            Ok(a) => a,
            Err(e) => return Err(e),
        };
        let tid = self.access_tid(multi_thread);
        Ok(MemoryRead { addr, tid, width, offset: 0, remaining: len, buf_len })
    }
}

/// True when the address of the next chunk of `read` fits the address
/// width: the condition under which [`MemoryRead::next_step`] may be called.
pub open spec fn next_address_fits(read: MemoryRead) -> bool {
    read.remaining > 0 && read.offset < addr_limit(read.width) ==> read.addr + read.offset
        < addr_limit(read.width)
}

impl MemoryRead {
    /// Whether the address of the next chunk fits the address width; where
    /// it does not, the address computation of the read overflows.
    pub fn next_address_fits(&self) -> (r: bool)
        ensures
            r == next_address_fits(*self),
    {
        let limit: u128 = match self.width {
            AddrWidth::Bits8 => 0x100,
            AddrWidth::Bits16 => 0x1_0000,
            AddrWidth::Bits32 => 0x1_0000_0000,
            AddrWidth::Bits64 => 0x1_0000_0000_0000_0000,
        };
        !(self.remaining > 0 && (self.offset as u128) < limit) || (self.addr as u128)
            + (self.offset as u128) < limit
    }

    /// The next step of the read: done once nothing remains, otherwise a read
    /// of the next chunk at the start address plus the offset reached. An
    /// offset that the address type cannot hold fails the packet.
    pub fn next_step<E>(&self) -> (r: Result<MemoryReadStep, Error<E>>)
        requires
            next_address_fits(*self),
        ensures
            r == (if self.remaining == 0 {
                Ok::<MemoryReadStep, Error<E>>(MemoryReadStep::Done(HandlerStatus::Handled))
            } else if self.offset >= addr_limit(self.width) {
                Err(Error::<E>::TargetMismatch)
            } else {
                Ok(
                    MemoryReadStep::Read {
                        addr: (self.addr + self.offset) as u64,
                        len: chunk_size(self.remaining as nat, self.buf_len as nat) as usize,
                        tid: self.tid,
                    },
                )
            }),
    {
        if self.remaining == 0 {
            return Ok(MemoryReadStep::Done(HandlerStatus::Handled));
        }
        let chunk = if self.remaining < self.buf_len {
            self.remaining
        } else {
            self.buf_len
        };
        let offset = match offset_to_addr(self.offset, self.width) {
            Some(o) => o,
            None => return Err(Error::TargetMismatch),
        };
        Ok(MemoryReadStep::Read { addr: self.addr + offset, len: chunk, tid: self.tid })
    }

    /// Takes in the target's answer to the read of the current chunk: the
    /// chunk, as read into the buffer, is written in hex and the read moves
    /// on by its size.
    pub fn chunk_read<E>(
        &mut self,
        res: &mut Response,
        read: Result<(), TargetError<E>>,
        data: &[u8],
    ) -> (r: Result<(), Error<E>>)
        requires
            old(self).remaining > 0,
            old(self).offset + old(self).remaining <= usize::MAX,
            data@.len() == chunk_size(old(self).remaining as nat, old(self).buf_len as nat),
        ensures
            match read {
                Err(e) => r == Err::<(), Error<E>>(target_error_to_error(e)) && *final(self)
                    == *old(self) && final(res)@ == old(res)@,
                Ok(()) => r == Ok::<(), Error<E>>(()) && final(res)@ == old(res)@.push(
                    ResponseOpView::HexBuf(data@),
                ) && *final(self) == (MemoryRead {
                    offset: (old(self).offset + data@.len()) as usize,
                    remaining: (old(self).remaining - data@.len()) as usize,
                    ..*old(self)
                }),
            },
    {
        match handle_error(read) {
            Ok(()) => {},
            Err(e) => return Err(e),
        }
        let chunk = data.len();
        self.remaining = self.remaining - chunk;
        self.offset = self.offset + chunk;
        res.write_hex_buf(data);
        Ok(())
    }
}

/// An `m` read driven to completion asks for chunks that each fit the
/// buffer, are never empty, and together cover exactly the requested
/// length; each chunk leaves the rest to be read in the same way.
pub proof fn law_memory_read_chunks_cover(remaining: nat, buf_len: nat)
    requires
        buf_len > 0,
    ensures
        total(chunk_sizes(remaining, buf_len)) == remaining,
        forall|i: int|
            0 <= i < chunk_sizes(remaining, buf_len).len() ==> 0 < #[trigger] chunk_sizes(
                remaining,
                buf_len,
            )[i] <= buf_len,
        remaining > 0 ==> chunk_sizes(remaining, buf_len) == seq![chunk_size(remaining, buf_len)]
            + chunk_sizes((remaining - chunk_size(remaining, buf_len)) as nat, buf_len),
    decreases remaining,
{
    if remaining > 0 {
        let c = chunk_size(remaining, buf_len);
        let rest = chunk_sizes((remaining - c) as nat, buf_len);
        law_memory_read_chunks_cover((remaining - c) as nat, buf_len);
        let s = chunk_sizes(remaining, buf_len);
        assert(s.drop_first() =~= rest);
        assert forall|i: int| 0 <= i < s.len() implies 0 < #[trigger] s[i] <= buf_len by {
            if i > 0 {
                assert(s[i] == rest[i - 1]);
            }
        }
    }
}

/// Every `qSupported` reply opens with the packet size and the features
/// that the stub always supports, whatever the target.
pub proof fn law_supported_reply_opens_with_unconditional_features(
    packet_buffer_len: usize,
    caps: TargetSupport,
)
    ensures
        supported_reply(packet_buffer_len, caps).len() >= 3,
        supported_reply(packet_buffer_len, caps).take(3) == supported_header(packet_buffer_len),
{
    lemma_take_prefix(supported_header(packet_buffer_len), supported_by_target(caps));
}

/// Taking the length of `a` from `a + b` gives `a` back.
proof fn lemma_take_prefix<T>(a: Seq<T>, b: Seq<T>)
    ensures
        (a + b).len() >= a.len(),
        (a + b).take(a.len() as int) == a,
{
    assert((a + b).take(a.len() as int) =~= a);
}

/// In `qSupported` the last setting of a feature wins, and features the
/// stub does not know leave the settings as they were.
pub proof fn law_last_multiprocess_setting_wins(current: bool, items: Seq<FeatureItem>, on: bool)
    ensures
        negotiate_multiprocess(current, items.push(Ok(Some((Feature::Multiprocess, on))))) == on,
        negotiate_multiprocess(current, items.push(Ok(None))) == negotiate_multiprocess(
            current,
            items,
        ),
{
    assert(items.push(Ok(None)).drop_last() =~= items);
}

/// "Any thread" means the same thread in `?` and in `H`: the stop reply
/// names the thread that `H` then selects, for memory accesses and for
/// resumption alike; and where no such thread can be found, both fail
/// with the same error.
pub proof fn law_any_thread_agrees<E>(s: GdbStubImpl, threads: ActiveThreads<E>)
    ensures
        match sane_any_tid(threads) {
            Ok(t) => {
                &&& question_mark_outcome(s.features.multiprocess, threads).1[0]
                    == ResponseOpView::ThreadId(reported_thread_id(s.features.multiprocess, t))
                &&& set_thread_outcome(s, SetThreadOp::Other, IdKind::Any, Some(threads)).0.current_mem_tid == t
                &&& set_thread_outcome(
                    s,
                    SetThreadOp::StepContinue,
                    IdKind::Any,
                    Some(threads),
                ).0.current_resume_tid == SpecificIdKind::WithId(t)
            },
            Err(e) => {
                &&& question_mark_outcome(s.features.multiprocess, threads).0 == Err::<
                    HandlerStatus,
                    Error<E>,
                >(e)
                &&& set_thread_outcome(s, SetThreadOp::Other, IdKind::Any, Some(threads)) == (
                s,
                Err::<HandlerStatus, Error<E>>(e),
                )
                &&& set_thread_outcome(s, SetThreadOp::StepContinue, IdKind::Any, Some(threads))
                    == (s, Err::<HandlerStatus, Error<E>>(e))
            },
        },
{
}

/// Selecting a thread for one purpose leaves the thread selected for the
/// other untouched, and the negotiated features too.
pub proof fn law_set_thread_keeps_the_other_selection<E>(
    s: GdbStubImpl,
    tid: IdKind,
    threads: Option<ActiveThreads<E>>,
)
    requires
        tid is Any ==> threads is Some,
    ensures
        set_thread_outcome(s, SetThreadOp::Other, tid, threads).0.current_resume_tid
            == s.current_resume_tid,
        set_thread_outcome(s, SetThreadOp::StepContinue, tid, threads).0.current_mem_tid
            == s.current_mem_tid,
        set_thread_outcome(s, SetThreadOp::Other, tid, threads).0.features == s.features,
        set_thread_outcome(s, SetThreadOp::StepContinue, tid, threads).0.features == s.features,
{
}

/// On a single-threaded target, the thread that `qfThreadInfo` lists is
/// the one thread that `T` reports alive.
pub proof fn law_single_thread_listed_is_alive<E>(multiprocess: bool, tid: Tid)
    ensures
        reported_thread_id(multiprocess, SINGLE_THREAD_TID).tid == SpecificIdKind::WithId(
            SINGLE_THREAD_TID,
        ),
        thread_alive_outcome::<E>(IdKind::WithId(tid), Some(ThreadAlive::SingleThread)) == (if tid
            == SINGLE_THREAD_TID {
            Ok::<HandlerStatus, Error<E>>(HandlerStatus::NeedsOk)
        } else {
            Err(Error::NonFatalError(1))
        }),
{
}

/// The threads that `qfThreadInfo` lists appear in the order the target
/// listed them, one group of writes each, under the id `?` would use for
/// them, with a comma before every one but the first.
pub proof fn law_thread_list_names_each_thread(multiprocess: bool, tids: Seq<Tid>, j: int)
    requires
        0 <= j < tids.len(),
    ensures
        thread_info_groups(multiprocess, tids).len() == tids.len(),
        thread_info_groups(multiprocess, tids)[j].last() == ResponseOpView::ThreadId(
            reported_thread_id(multiprocess, tids[j]),
        ),
        thread_info_groups(multiprocess, tids)[j].len() == (if j == 0 {
            1int
        } else {
            2int
        }),
        j > 0 ==> thread_info_groups(multiprocess, tids)[j][0] == ResponseOpView::Str(","@),
{
}

/// Memory and register accesses go to the thread that the last successful
/// `H` for them selected (on a multi-threaded target), and an `H` for step
/// and continue leaves that thread as it was.
pub proof fn law_accesses_go_to_selected_thread<E>(
    s: GdbStubImpl,
    tid: IdKind,
    threads: Option<ActiveThreads<E>>,
)
    requires
        tid is Any ==> threads is Some,
    ensures
        ({
            let (after, r) = set_thread_outcome(s, SetThreadOp::Other, tid, threads);
            r is Ok ==> access_tid_of(after, true) == Some(
                match tid {
                    IdKind::WithId(t) => t,
                    _ => sane_any_tid(threads.unwrap())->Ok_0,
                },
            )
        }),
        access_tid_of(set_thread_outcome(s, SetThreadOp::StepContinue, tid, threads).0, true)
            == access_tid_of(s, true),
        access_tid_of(set_thread_outcome(s, SetThreadOp::Other, tid, threads).0, false) == None::<Tid>,
{
}

/// A packet, as far as it bears on the threads the stub has selected: an
/// `H`, with what the target reported for its threads where it was asked,
/// or any other packet.
pub enum StubPacket<E> {
    SetThread { op: SetThreadOp, tid: IdKind, threads: Option<ActiveThreads<E>> },
    Other,
}

/// True when `after` is the stub's state after packet `p` from state
/// `before`: an `H` does what [`GdbStubImpl::handle_set_thread`] says, and
/// every other handler leaves both selected threads as they were.
pub open spec fn packet_step<E>(before: GdbStubImpl, p: StubPacket<E>, after: GdbStubImpl) -> bool {
    match p {
        StubPacket::SetThread { op, tid, threads } => after == set_thread_outcome(
            before,
            op,
            tid,
            threads,
        ).0,
        StubPacket::Other => after.current_mem_tid == before.current_mem_tid
            && after.current_resume_tid == before.current_resume_tid,
    }
}

/// The thread that packet `p` selects for memory and register accesses,
/// where it is an `H` for them that succeeds.
pub open spec fn selected_mem_tid<E>(before: GdbStubImpl, p: StubPacket<E>) -> Option<Tid> {
    match p {
        StubPacket::SetThread { op: SetThreadOp::Other, tid, threads } => {
            let (after, r) = set_thread_outcome(before, SetThreadOp::Other, tid, threads);
            if r is Ok {
                Some(after.current_mem_tid)
            } else {
                None
            }
        },
        _ => None,
    }
}

/// The thread selected for accesses by the last successful `H` for them
/// among the first `n` packets, or the thread the stub started with.
pub open spec fn last_selected_mem_tid<E>(
    states: Seq<GdbStubImpl>,
    packets: Seq<StubPacket<E>>,
    n: nat,
) -> Tid
    decreases n,
{
    if n == 0 {
        states[0].current_mem_tid
    } else {
        match selected_mem_tid(states[n - 1], packets[n - 1]) {
            Some(t) => t,
            None => last_selected_mem_tid(states, packets, (n - 1) as nat),
        }
    }
}

proof fn lemma_mem_tid_is_last_selected<E>(
    states: Seq<GdbStubImpl>,
    packets: Seq<StubPacket<E>>,
    n: nat,
)
    requires
        states.len() == packets.len() + 1,
        forall|i: int|
            0 <= i < packets.len() ==> #[trigger] packet_step(states[i], packets[i], states[i + 1]),
        n <= packets.len(),
    ensures
        states[n as int].current_mem_tid == last_selected_mem_tid(states, packets, n),
    decreases n,
{
    if n > 0 {
        let i = n - 1;
        lemma_mem_tid_is_last_selected(states, packets, i as nat);
        assert(packet_step(states[i], packets[i], states[i + 1]));
    }
}

proof fn lemma_selection_persists<E>(
    states: Seq<GdbStubImpl>,
    packets: Seq<StubPacket<E>>,
    k: int,
    n: nat,
)
    requires
        0 <= k < n <= packets.len(),
        selected_mem_tid(states[k], packets[k]) is Some,
        forall|j: int| k < j < packets.len() ==> #[trigger] selected_mem_tid(states[j], packets[j]) is None,
    ensures
        last_selected_mem_tid(states, packets, n) == selected_mem_tid(states[k], packets[k])->Some_0,
    decreases n,
{
    if n - 1 > k {
        lemma_selection_persists(states, packets, k, (n - 1) as nat);
        assert(selected_mem_tid(states[n - 1], packets[n - 1]) is None);
    }
}

/// Across any sequence of packets, memory and register accesses (`g`, `G`,
/// `m`, `M`) on a multi-threaded target name the thread that the last
/// successful `H` for accesses selected, or the thread the stub started
/// with where there was none. In particular, after an `H` for accesses
/// naming thread `t`, every later access names `t` until another such `H`
/// succeeds. `states` are the stub's states between the packets, as the
/// handlers' contracts give them.
pub proof fn law_accesses_name_last_selected_thread<E>(
    states: Seq<GdbStubImpl>,
    packets: Seq<StubPacket<E>>,
)
    requires
        states.len() == packets.len() + 1,
        forall|i: int|
            0 <= i < packets.len() ==> #[trigger] packet_step(states[i], packets[i], states[i + 1]),
    ensures
        forall|n: int|
            0 <= n <= packets.len() ==> access_tid_of(#[trigger] states[n], true) == Some(
                last_selected_mem_tid(states, packets, n as nat),
            ),
        forall|k: int|
            0 <= k < packets.len() && (forall|j: int|
                k < j < packets.len() ==> #[trigger] selected_mem_tid(states[j], packets[j]) is None)
                ==> (#[trigger] packets[k] matches StubPacket::SetThread {
                op: SetThreadOp::Other,
                tid: IdKind::WithId(t),
                ..
            } ==> access_tid_of(states.last(), true) == Some(t)),
{
    assert forall|n: int| 0 <= n <= packets.len() implies access_tid_of(
        #[trigger] states[n],
        true,
    ) == Some(last_selected_mem_tid(states, packets, n as nat)) by {
        lemma_mem_tid_is_last_selected(states, packets, n as nat);
    }
    assert forall|k: int|
        0 <= k < packets.len() && (forall|j: int|
            k < j < packets.len() ==> #[trigger] selected_mem_tid(states[j], packets[j]) is None)
        implies (#[trigger] packets[k] matches StubPacket::SetThread {
        op: SetThreadOp::Other,
        tid: IdKind::WithId(t),
        ..
    } ==> access_tid_of(states.last(), true) == Some(t)) by {
        if let StubPacket::SetThread { op: SetThreadOp::Other, tid: IdKind::WithId(t), .. } = packets[k] {
            assert(selected_mem_tid(states[k], packets[k]) == Some(t));
            lemma_selection_persists(states, packets, k, packets.len());
            lemma_mem_tid_is_last_selected(states, packets, packets.len());
        }
    }
}

/// `g` reports every byte the target knows as its two hex digits, zero
/// included, in the order the architecture serialised them; only a byte the
/// target does not know becomes `xx`.
pub proof fn law_register_bytes_written_as_known(bytes: Seq<Option<u8>>)
    ensures
        bytes.map_values(|b: Option<u8>| seq![register_byte_op(b)]).len() == bytes.len(),
        forall|j: int|
            0 <= j < bytes.len() && #[trigger] bytes[j] is Some ==> bytes.map_values(
                |b: Option<u8>| seq![register_byte_op(b)],
            )[j] == seq![ResponseOpView::HexBuf(seq![bytes[j]->Some_0])],
        forall|j: int|
            0 <= j < bytes.len() && #[trigger] bytes[j] is None ==> bytes.map_values(
                |b: Option<u8>| seq![register_byte_op(b)],
            )[j] == seq![ResponseOpView::Str("xx"@)],
        forall|b: u8| #[trigger] register_byte_op(Some(b)) == ResponseOpView::HexBuf(seq![b]),
{
}

/// The `?` stop reply, whenever the "any" thread is found, whether the
/// target has one thread or many, is that thread's id followed by the `;`
/// that ends the `thread:` pair; the id carries the fake process id exactly
/// where the multiprocess extension was negotiated.
pub proof fn law_stop_reply_names_thread_and_ends<E>(multiprocess: bool, threads: ActiveThreads<E>)
    ensures
        sane_any_tid(threads) is Ok ==> {
            let t = sane_any_tid(threads)->Ok_0;
            &&& question_mark_outcome(multiprocess, threads).0 == Ok::<HandlerStatus, Error<E>>(
                HandlerStatus::Handled,
            )
            &&& question_mark_outcome(multiprocess, threads).1 == seq![
                ResponseOpView::ThreadId(
                    SpecificThreadId {
                        pid: if multiprocess {
                            Some(SpecificIdKind::WithId(FAKE_PID))
                        } else {
                            None
                        },
                        tid: SpecificIdKind::WithId(t),
                    },
                ),
                ResponseOpView::Str(";"@),
            ]
        },
        sane_any_tid(threads) is Err ==> question_mark_outcome(multiprocess, threads).1
            == Seq::<ResponseOpView>::empty() && question_mark_outcome(multiprocess, threads).0
            == Err::<HandlerStatus, Error<E>>(sane_any_tid(threads)->Err_0),
{
}

/// `(a + b)` holds `x` exactly where `a` or `b` does.
proof fn lemma_contains_add<T>(a: Seq<T>, b: Seq<T>, x: T)
    ensures
        (a + b).contains(x) <==> a.contains(x) || b.contains(x),
{
    if (a + b).contains(x) {
        let i = choose|i: int| 0 <= i < (a + b).len() && (a + b)[i] == x;
        if i >= a.len() {
            assert(b[i - a.len()] == x);
        }
    }
    if a.contains(x) {
        let i = choose|i: int| 0 <= i < a.len() && a[i] == x;
        assert((a + b)[i] == x);
    }
    if b.contains(x) {
        let i = choose|i: int| 0 <= i < b.len() && b[i] == x;
        assert((a + b)[a.len() + i] == x);
    }
}

/// `op_if(cond, Str(s))` holds `Str(t)` exactly where `cond` holds and the
/// strings agree.
proof fn lemma_contains_op_if(cond: bool, s: Seq<char>, t: Seq<char>)
    ensures
        op_if(cond, ResponseOpView::Str(s)).contains(ResponseOpView::Str(t)) <==> cond && s == t,
{
    if cond && s == t {
        assert(op_if(cond, ResponseOpView::Str(s))[0] == ResponseOpView::Str(t));
    }
}

/// A `qSupported` reply announces `;hwbreak+` exactly where the target
/// supports breakpoints and, among them, hardware breakpoints or hardware
/// watchpoints.
pub proof fn law_supported_announces_hwbreak(packet_buffer_len: usize, caps: TargetSupport)
    ensures
        supported_reply(packet_buffer_len, caps).contains(ResponseOpView::Str(";hwbreak+"@)) <==> (
        caps.breakpoints matches Some(b) && (b.hw_breakpoint || b.hw_watchpoint)),
{
    let hw = ";hwbreak+"@;
    let x = ResponseOpView::Str(hw);
    reveal_strlit(";hwbreak+");
    reveal_strlit(";swbreak+");
    reveal_strlit("PacketSize=");
    reveal_strlit(";vContSupported+;multiprocess+;QStartNoAckMode+");
    reveal_strlit(";ReverseContinue+");
    reveal_strlit(";ReverseStep+");
    reveal_strlit(";QDisableRandomization+");
    reveal_strlit(";QEnvironmentHexEncoded+");
    reveal_strlit(";QEnvironmentUnset+");
    reveal_strlit(";QEnvironmentReset+");
    reveal_strlit(";QStartupWithShell+");
    reveal_strlit(";QSetWorkingDir+");
    reveal_strlit(";QCatchSyscalls+");
    reveal_strlit(";qXfer:features:read+");
    reveal_strlit(";qXfer:memory-map:read+");
    reveal_strlit(";qXfer:exec-file:read+");
    reveal_strlit(";qXfer:auxv:read+");
    assert(";swbreak+"@[1] != hw[1]);
    // The fixed header.
    let h = supported_header(packet_buffer_len);
    assert(!h.contains(x)) by {
        if h.contains(x) {
            let i = choose|i: int| 0 <= i < h.len() && h[i] == x;
            assert(i == 0 || i == 1 || i == 2);
        }
    }
    // Reverse execution.
    let r = supported_resume(caps);
    assert(!r.contains(x)) by {
        if let Some(rs) = caps.resume {
            lemma_contains_op_if(rs.reverse_cont, ";ReverseContinue+"@, hw);
            lemma_contains_op_if(rs.reverse_step, ";ReverseStep+"@, hw);
            lemma_contains_add(
                op_if(rs.reverse_cont, ResponseOpView::Str(";ReverseContinue+"@)),
                op_if(rs.reverse_step, ResponseOpView::Str(";ReverseStep+"@)),
                x,
            );
        }
    }
    // Extended mode.
    let e = supported_extended(caps);
    assert(!e.contains(x)) by {
        if let Some(xm) = caps.extended_mode {
            let a = op_if(xm.configure_aslr, ResponseOpView::Str(";QDisableRandomization+"@));
            let env: Seq<ResponseOpView> = if xm.configure_env {
                seq![
                    ResponseOpView::Str(";QEnvironmentHexEncoded+"@),
                    ResponseOpView::Str(";QEnvironmentUnset+"@),
                    ResponseOpView::Str(";QEnvironmentReset+"@),
                ]
            } else {
                Seq::empty()
            };
            let sh = op_if(xm.configure_startup_shell, ResponseOpView::Str(";QStartupWithShell+"@));
            let wd = op_if(xm.configure_working_dir, ResponseOpView::Str(";QSetWorkingDir+"@));
            lemma_contains_op_if(xm.configure_aslr, ";QDisableRandomization+"@, hw);
            lemma_contains_op_if(xm.configure_startup_shell, ";QStartupWithShell+"@, hw);
            lemma_contains_op_if(xm.configure_working_dir, ";QSetWorkingDir+"@, hw);
            assert(!env.contains(x)) by {
                if env.contains(x) {
                    let i = choose|i: int| 0 <= i < env.len() && env[i] == x;
                    assert(i == 0 || i == 1 || i == 2);
                }
            }
            lemma_contains_add(a, env, x);
            lemma_contains_add(a + env, sh, x);
            lemma_contains_add(a + env + sh, wd, x);
        }
    }
    // Breakpoints.
    let b = supported_breakpoints(caps);
    assert(b.contains(x) <==> (caps.breakpoints matches Some(bp) && (bp.hw_breakpoint
        || bp.hw_watchpoint))) by {
        if let Some(bp) = caps.breakpoints {
            lemma_contains_op_if(bp.sw_breakpoint, ";swbreak+"@, hw);
            lemma_contains_op_if(bp.hw_breakpoint || bp.hw_watchpoint, hw, hw);
            lemma_contains_add(
                op_if(bp.sw_breakpoint, ResponseOpView::Str(";swbreak+"@)),
                op_if(bp.hw_breakpoint || bp.hw_watchpoint, x),
                x,
            );
        }
    }
    // The rest.
    let m = supported_misc(caps);
    assert(!m.contains(x)) by {
        let c1 = op_if(caps.catch_syscalls, ResponseOpView::Str(";QCatchSyscalls+"@));
        let c2 = op_if(
            caps.use_target_description_xml && (caps.arch_target_description_xml
                || caps.target_description_xml_override),
            ResponseOpView::Str(";qXfer:features:read+"@),
        );
        let c3 = op_if(caps.memory_map, ResponseOpView::Str(";qXfer:memory-map:read+"@));
        let c4 = op_if(caps.exec_file, ResponseOpView::Str(";qXfer:exec-file:read+"@));
        let c5 = op_if(caps.auxv, ResponseOpView::Str(";qXfer:auxv:read+"@));
        lemma_contains_op_if(caps.catch_syscalls, ";QCatchSyscalls+"@, hw);
        lemma_contains_op_if(
            caps.use_target_description_xml && (caps.arch_target_description_xml
                || caps.target_description_xml_override),
            ";qXfer:features:read+"@,
            hw,
        );
        lemma_contains_op_if(caps.memory_map, ";qXfer:memory-map:read+"@, hw);
        lemma_contains_op_if(caps.exec_file, ";qXfer:exec-file:read+"@, hw);
        lemma_contains_op_if(caps.auxv, ";qXfer:auxv:read+"@, hw);
        lemma_contains_add(c1, c2, x);
        lemma_contains_add(c1 + c2, c3, x);
        lemma_contains_add(c1 + c2 + c3, c4, x);
        lemma_contains_add(c1 + c2 + c3 + c4, c5, x);
    }
    lemma_contains_add(r, e, x);
    lemma_contains_add(r + e, b, x);
    lemma_contains_add(r + e + b, m, x);
    lemma_contains_add(h, supported_by_target(caps), x);
}

} // verus!
