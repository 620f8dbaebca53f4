use gdbstub::arch::{addr_from_be_bytes, offset_to_addr, AddrWidth};
use gdbstub::common::{FAKE_PID, SINGLE_THREAD_TID};
use gdbstub::error::{handle_error, Error, PacketParseError, TargetError};
use gdbstub::protocol::{Feature, FeatureItem, IdKind, SetThreadOp, SpecificIdKind, SpecificThreadId};
use gdbstub::response::{Response, ResponseOp};
use gdbstub::stub::core_impl::base::{MemoryRead, MemoryReadStep};
use gdbstub::stub::core_impl::monitor_cmd::MonitorAnswer;
use gdbstub::stub::{settle_callback_writes, settle_written, DisconnectReason, GdbStubImpl, HandlerError, HandlerStatus};
use gdbstub::target::{
    ActiveThreads, AttachKind, BreakpointSupport, ExtendedModeSupport, KillAnswer, Offsets,
    RegisterWrite, ResumeSupport, ShouldTerminate, TargetSupport, ThreadAlive, ThreadList,
};

type StubErr = Error<&'static str>;

fn no_support() -> TargetSupport {
    TargetSupport {
        resume: None,
        extended_mode: None,
        breakpoints: None,
        catch_syscalls: false,
        use_target_description_xml: false,
        arch_target_description_xml: false,
        target_description_xml_override: false,
        memory_map: false,
        exec_file: false,
        auxv: false,
    }
}

fn multi(tids: Vec<usize>) -> ActiveThreads<&'static str> {
    ActiveThreads::MultiThread(ThreadList { tids, result: Ok(()) })
}

fn tid(multiprocess: bool, t: usize) -> ResponseOp {
    ResponseOp::ThreadId(SpecificThreadId {
        pid: if multiprocess { Some(SpecificIdKind::WithId(FAKE_PID)) } else { None },
        tid: SpecificIdKind::WithId(t),
    })
}

#[test]
fn new_stub_starts_on_the_single_thread() {
    let gdb = GdbStubImpl::new();
    assert_eq!(gdb.current_mem_tid, SINGLE_THREAD_TID);
    assert_eq!(gdb.current_resume_tid, SpecificIdKind::All);
    assert!(!gdb.features.multiprocess);
    assert!(!gdb.features.no_ack_mode);
}

#[test]
fn sane_any_tid_single_thread() {
    let mut gdb = GdbStubImpl::new();
    let r: Result<usize, StubErr> = gdb.get_sane_any_tid(ActiveThreads::SingleThread);
    assert_eq!(r, Ok(1));
}

#[test]
fn sane_any_tid_first_listed() {
    let mut gdb = GdbStubImpl::new();
    assert_eq!(gdb.get_sane_any_tid(multi(vec![7, 3, 9])), Ok(7));
}

#[test]
fn sane_any_tid_no_threads() {
    let mut gdb = GdbStubImpl::new();
    assert_eq!(gdb.get_sane_any_tid(multi(vec![])), Err(Error::NoActiveThreads));
}

#[test]
fn sane_any_tid_listing_fails() {
    let mut gdb = GdbStubImpl::new();
    let threads = ActiveThreads::MultiThread(ThreadList { tids: vec![4], result: Err("boom") });
    assert_eq!(gdb.get_sane_any_tid(threads), Err(Error::TargetError("boom")));
}

#[test]
fn handle_error_maps_each_kind() {
    assert_eq!(handle_error::<u8, &str>(Ok(5)), Ok(5));
    assert_eq!(handle_error::<u8, &str>(Err(TargetError::NonFatal)), Err(Error::NonFatalError(121)));
    assert_eq!(handle_error::<u8, &str>(Err(TargetError::Errno(14))), Err(Error::NonFatalError(14)));
    assert_eq!(handle_error::<u8, &str>(Err(TargetError::Fatal("x"))), Err(Error::TargetError("x")));
}

#[test]
fn q_supported_minimal_target() {
    let mut gdb = GdbStubImpl::new();
    let mut res = Response::new();
    let r: Result<HandlerStatus, StubErr> = gdb.handle_q_supported(&mut res, 4096, &vec![], &no_support());
    assert_eq!(r, Ok(HandlerStatus::Handled));
    assert_eq!(
        res.ops,
        vec![
            ResponseOp::Str("PacketSize="),
            ResponseOp::Num(4096),
            ResponseOp::Str(";vContSupported+;multiprocess+;QStartNoAckMode+"),
        ]
    );
    assert!(!gdb.features.multiprocess);
}

#[test]
fn q_supported_full_target() {
    let mut gdb = GdbStubImpl::new();
    let mut res = Response::new();
    let caps = TargetSupport {
        resume: Some(ResumeSupport { reverse_cont: true, reverse_step: true }),
        extended_mode: Some(ExtendedModeSupport {
            configure_aslr: true,
            configure_env: true,
            configure_startup_shell: true,
            configure_working_dir: true,
        }),
        breakpoints: Some(BreakpointSupport { sw_breakpoint: true, hw_breakpoint: false, hw_watchpoint: true }),
        catch_syscalls: true,
        use_target_description_xml: true,
        arch_target_description_xml: false,
        target_description_xml_override: true,
        memory_map: true,
        exec_file: true,
        auxv: true,
    };
    let features: Vec<FeatureItem> = vec![Ok(Some((Feature::Multiprocess, true)))];
    let r: Result<HandlerStatus, StubErr> = gdb.handle_q_supported(&mut res, 100, &features, &caps);
    assert_eq!(r, Ok(HandlerStatus::Handled));
    let strs: Vec<&str> = res.ops[2..]
        .iter()
        .map(|o| match o {
            ResponseOp::Str(s) => *s,
            _ => panic!("unexpected op"),
        })
        .collect();
    assert_eq!(
        strs,
        vec![
            ";vContSupported+;multiprocess+;QStartNoAckMode+",
            ";ReverseContinue+",
            ";ReverseStep+",
            ";QDisableRandomization+",
            ";QEnvironmentHexEncoded+",
            ";QEnvironmentUnset+",
            ";QEnvironmentReset+",
            ";QStartupWithShell+",
            ";QSetWorkingDir+",
            ";swbreak+",
            ";hwbreak+",
            ";QCatchSyscalls+",
            ";qXfer:features:read+",
            ";qXfer:memory-map:read+",
            ";qXfer:exec-file:read+",
            ";qXfer:auxv:read+",
        ]
    );
    assert!(gdb.features.multiprocess);
}

#[test]
fn q_supported_xml_needs_a_description() {
    let mut gdb = GdbStubImpl::new();
    let mut res = Response::new();
    let mut caps = no_support();
    caps.use_target_description_xml = true;
    let r: Result<HandlerStatus, StubErr> = gdb.handle_q_supported(&mut res, 1, &vec![], &caps);
    assert_eq!(r, Ok(HandlerStatus::Handled));
    assert_eq!(res.ops.len(), 3);
}

#[test]
fn q_supported_last_setting_wins() {
    let mut gdb = GdbStubImpl::new();
    let mut res = Response::new();
    let features: Vec<FeatureItem> = vec![
        Ok(Some((Feature::Multiprocess, true))),
        Ok(None),
        Ok(Some((Feature::Multiprocess, false))),
    ];
    let r: Result<HandlerStatus, StubErr> = gdb.handle_q_supported(&mut res, 1, &features, &no_support());
    assert_eq!(r, Ok(HandlerStatus::Handled));
    assert!(!gdb.features.multiprocess);
}

#[test]
fn q_supported_malformed_feature() {
    let mut gdb = GdbStubImpl::new();
    let mut res = Response::new();
    let features: Vec<FeatureItem> = vec![Ok(Some((Feature::Multiprocess, true))), Err(()), Ok(Some((Feature::Multiprocess, false)))];
    let r: Result<HandlerStatus, StubErr> = gdb.handle_q_supported(&mut res, 1, &features, &no_support());
    assert_eq!(r, Err(Error::PacketParse(PacketParseError::MalformedCommand)));
    assert!(res.ops.is_empty());
    assert!(gdb.features.multiprocess);
}

#[test]
fn no_ack_mode_is_set() {
    let mut gdb = GdbStubImpl::new();
    assert_eq!(gdb.handle_q_start_no_ack_mode(), HandlerStatus::NeedsOk);
    assert!(gdb.features.no_ack_mode);
    assert!(!gdb.features.multiprocess);
}

#[test]
fn question_mark_single_thread() {
    let mut gdb = GdbStubImpl::new();
    let mut res = Response::new();
    let r: Result<HandlerStatus, StubErr> = {
        gdb.begin_question_mark(&mut res);
        gdb.handle_question_mark(&mut res, ActiveThreads::SingleThread)
    };
    assert_eq!(r, Ok(HandlerStatus::Handled));
    assert_eq!(res.ops, vec![ResponseOp::Str("T05thread:"), tid(false, 1), ResponseOp::Str(";")]);
}

#[test]
fn question_mark_multiprocess_names_the_fake_pid() {
    let mut gdb = GdbStubImpl::new();
    gdb.features.multiprocess = true;
    let mut res = Response::new();
    let r: Result<HandlerStatus, StubErr> = {
        gdb.begin_question_mark(&mut res);
        gdb.handle_question_mark(&mut res, multi(vec![12, 13]))
    };
    assert_eq!(r, Ok(HandlerStatus::Handled));
    assert_eq!(res.ops[1], tid(true, 12));
}

#[test]
fn question_mark_without_threads_breaks_off() {
    let mut gdb = GdbStubImpl::new();
    let mut res = Response::new();
    let r = {
        gdb.begin_question_mark(&mut res);
        gdb.handle_question_mark(&mut res, multi(vec![]))
    };
    assert_eq!(r, Err(Error::NoActiveThreads));
    assert_eq!(res.ops, vec![ResponseOp::Str("T05thread:")]);
}

#[test]
fn attached_query_only_in_extended_mode() {
    let gdb = GdbStubImpl::new();
    assert_eq!(gdb.attached_query(false, Some(4)), None);
    assert_eq!(gdb.attached_query(true, Some(4)), Some(4));
    assert_eq!(gdb.attached_query(true, None), None);
}

#[test]
fn q_attached_answers() {
    let gdb = GdbStubImpl::new();
    let mut res = Response::new();
    let r: Result<HandlerStatus, StubErr> = gdb.handle_q_attached(&mut res, None);
    assert_eq!(r, Ok(HandlerStatus::Handled));
    let r: Result<HandlerStatus, StubErr> = gdb.handle_q_attached(&mut res, Some(Ok(AttachKind::Run)));
    assert_eq!(r, Ok(HandlerStatus::Handled));
    let r: Result<HandlerStatus, StubErr> = gdb.handle_q_attached(&mut res, Some(Ok(AttachKind::Attach)));
    assert_eq!(r, Ok(HandlerStatus::Handled));
    assert_eq!(res.ops, vec![ResponseOp::Str("1"), ResponseOp::Str("0"), ResponseOp::Str("1")]);
    let r = gdb.handle_q_attached(&mut res, Some(Err(TargetError::Errno(2))));
    assert_eq!(r, Err(Error::<&str>::NonFatalError(2)));
    assert_eq!(res.ops.len(), 3);
}

fn ops_of(writes: &[Response]) -> Vec<Vec<ResponseOp>> {
    writes.iter().map(|r| r.ops.clone()).collect()
}

#[test]
fn read_registers_hex_and_unknown() {
    let gdb = GdbStubImpl::new();
    let mut writes = Vec::new();
    let r: Result<HandlerStatus, StubErr> = gdb.handle_read_registers(&mut writes, Ok(vec![Some(0xab), None, Some(1)]));
    assert_eq!(r, Ok(HandlerStatus::Handled));
    assert_eq!(
        ops_of(&writes),
        vec![
            vec![ResponseOp::HexBuf(vec![0xab])],
            vec![ResponseOp::Str("xx")],
            vec![ResponseOp::HexBuf(vec![1])],
        ]
    );
}

#[test]
fn read_registers_failure() {
    let gdb = GdbStubImpl::new();
    let mut writes = Vec::new();
    let r = gdb.handle_read_registers(&mut writes, Err(TargetError::Fatal("dead")));
    assert_eq!(r, Err(Error::TargetError("dead")));
    assert!(writes.is_empty());
}

#[test]
fn write_registers_outcomes() {
    let gdb = GdbStubImpl::new();
    assert_eq!(gdb.handle_write_registers::<&str>(RegisterWrite::Malformed), Err(Error::TargetMismatch));
    assert_eq!(gdb.handle_write_registers::<&str>(RegisterWrite::Written(Ok(()))), Ok(HandlerStatus::NeedsOk));
    assert_eq!(
        gdb.handle_write_registers::<&str>(RegisterWrite::Written(Err(TargetError::NonFatal))),
        Err(Error::NonFatalError(121))
    );
}

#[test]
fn addresses_from_big_endian_bytes() {
    assert_eq!(addr_from_be_bytes(&[0x12, 0x34], AddrWidth::Bits32), Some(0x1234));
    assert_eq!(addr_from_be_bytes(&[], AddrWidth::Bits64), Some(0));
    assert_eq!(addr_from_be_bytes(&[0, 0, 0xde, 0xad, 0xbe, 0xef], AddrWidth::Bits32), Some(0xdeadbeef));
    assert_eq!(addr_from_be_bytes(&[1, 0, 0, 0, 0], AddrWidth::Bits32), None);
    assert_eq!(
        addr_from_be_bytes(&[0xff; 8], AddrWidth::Bits64),
        Some(u64::MAX)
    );
    assert_eq!(addr_from_be_bytes(&[1, 0, 0, 0, 0, 0, 0, 0, 0], AddrWidth::Bits64), None);
}

#[test]
fn narrow_addresses() {
    assert_eq!(addr_from_be_bytes(&[0, 0xff, 0xfe], AddrWidth::Bits16), Some(0xfffe));
    assert_eq!(addr_from_be_bytes(&[1, 0, 0], AddrWidth::Bits16), None);
    assert_eq!(addr_from_be_bytes(&[0, 0x7f], AddrWidth::Bits8), Some(0x7f));
    assert_eq!(addr_from_be_bytes(&[1, 0], AddrWidth::Bits8), None);
    assert_eq!(offset_to_addr(0xffff, AddrWidth::Bits16), Some(0xffff));
    assert_eq!(offset_to_addr(0x1_0000, AddrWidth::Bits16), None);
    assert_eq!(offset_to_addr(0xff, AddrWidth::Bits8), Some(0xff));
    assert_eq!(offset_to_addr(0x100, AddrWidth::Bits8), None);
}

#[test]
fn offsets_into_the_address_type() {
    assert_eq!(offset_to_addr(5, AddrWidth::Bits32), Some(5));
    assert_eq!(offset_to_addr(usize::MAX, AddrWidth::Bits64), Some(usize::MAX as u64));
    if usize::BITS > 32 {
        assert_eq!(offset_to_addr(1usize << 32, AddrWidth::Bits32), None);
    }
}

#[test]
fn parse_address_mismatch() {
    let gdb = GdbStubImpl::new();
    assert_eq!(gdb.parse_address::<&str>(&[0x10, 0], AddrWidth::Bits32), Ok(0x1000));
    assert_eq!(gdb.parse_address::<&str>(&[2, 0, 0, 0, 0], AddrWidth::Bits32), Err(Error::TargetMismatch));
}

#[test]
fn memory_read_in_chunks() {
    let gdb = GdbStubImpl::new();
    let mut read: MemoryRead = gdb.start_read_memory::<&str>(&[0x10, 0x00], 5, 2, AddrWidth::Bits32, true).unwrap();
    let mut res = Response::new();
    let memory: Vec<u8> = (0u8..32).collect();
    let mut asked = Vec::new();
    loop {
        match read.next_step::<&str>().unwrap() {
            MemoryReadStep::Done(status) => {
                assert_eq!(status, HandlerStatus::Handled);
                break;
            }
            MemoryReadStep::Read { addr, len, tid } => {
                assert_eq!(tid, Some(SINGLE_THREAD_TID));
                asked.push((addr, len));
                let start = (addr - 0x1000) as usize;
                read.chunk_read::<&str>(&mut res, Ok(()), &memory[start..start + len]).unwrap();
            }
        }
    }
    assert_eq!(asked, vec![(0x1000, 2), (0x1002, 2), (0x1004, 1)]);
    assert_eq!(
        res.ops,
        vec![
            ResponseOp::HexBuf(vec![0, 1]),
            ResponseOp::HexBuf(vec![2, 3]),
            ResponseOp::HexBuf(vec![4]),
        ]
    );
    assert_eq!(read.offset, 5);
    assert_eq!(read.remaining, 0);
}

#[test]
fn memory_read_of_nothing() {
    let gdb = GdbStubImpl::new();
    let read = gdb.start_read_memory::<&str>(&[1], 0, 8, AddrWidth::Bits64, false).unwrap();
    assert_eq!(read.next_step::<&str>(), Ok(MemoryReadStep::Done(HandlerStatus::Handled)));
}

#[test]
fn memory_read_failure_keeps_state() {
    let gdb = GdbStubImpl::new();
    let mut read = gdb.start_read_memory::<&str>(&[1], 4, 8, AddrWidth::Bits64, false).unwrap();
    let mut res = Response::new();
    let r = read.chunk_read(&mut res, Err(TargetError::Errno(5)), &[0, 0, 0, 0]);
    assert_eq!(r, Err(Error::<&str>::NonFatalError(5)));
    assert_eq!(read.remaining, 4);
    assert!(res.ops.is_empty());
}

#[test]
fn memory_read_bad_address() {
    let gdb = GdbStubImpl::new();
    let r = gdb.start_read_memory::<&str>(&[1, 0, 0, 0, 0], 4, 8, AddrWidth::Bits32, false);
    assert_eq!(r, Err(Error::TargetMismatch));
}

#[test]
fn memory_read_offset_beyond_the_address_type() {
    if usize::BITS > 32 {
        let read = MemoryRead {
            addr: 0,
            tid: None,
            width: AddrWidth::Bits32,
            offset: 1usize << 32,
            remaining: 1,
            buf_len: 1,
        };
        assert_eq!(read.next_step::<&str>(), Err(Error::TargetMismatch));
    }
}

#[test]
fn write_memory_outcomes() {
    let gdb = GdbStubImpl::new();
    assert_eq!(gdb.handle_write_memory::<&str>(Ok(())), Ok(HandlerStatus::NeedsOk));
    assert_eq!(gdb.handle_write_memory::<&str>(Err(TargetError::Fatal("f"))), Err(Error::TargetError("f")));
}

#[test]
fn kill_outcomes() {
    let gdb = GdbStubImpl::new();
    let mut res = Response::new();
    let r = gdb.handle_kill::<&str>(&mut res, KillAnswer::NoExtendedMode);
    assert_eq!(r, Ok(HandlerStatus::Disconnect(DisconnectReason::Kill)));
    assert!(res.ops.is_empty());
    let r = gdb.handle_kill::<&str>(&mut res, KillAnswer::Killed(Ok(ShouldTerminate::No)));
    assert_eq!(r, Ok(HandlerStatus::NeedsOk));
    assert!(res.ops.is_empty());
    let r = gdb.handle_kill::<&str>(&mut res, KillAnswer::Killed(Ok(ShouldTerminate::Yes)));
    assert_eq!(r, Ok(HandlerStatus::Disconnect(DisconnectReason::Kill)));
    assert_eq!(res.ops, vec![ResponseOp::Str("OK")]);
    let r = gdb.handle_kill::<&str>(&mut res, KillAnswer::Killed(Err(TargetError::NonFatal)));
    assert_eq!(r, Err(Error::NonFatalError(121)));
}

#[test]
fn detach_writes_ok() {
    let gdb = GdbStubImpl::new();
    let mut res = Response::new();
    let r = gdb.handle_detach::<&str>(&mut res);
    assert_eq!(r, Ok(HandlerStatus::Disconnect(DisconnectReason::Disconnect)));
    assert_eq!(res.ops, vec![ResponseOp::Str("OK")]);
}

#[test]
fn set_thread_for_memory() {
    let mut gdb = GdbStubImpl::new();
    assert_eq!(gdb.handle_set_thread::<&str>(SetThreadOp::Other, IdKind::WithId(9), None), Ok(HandlerStatus::NeedsOk));
    assert_eq!(gdb.current_mem_tid, 9);
    assert_eq!(gdb.current_resume_tid, SpecificIdKind::All);
    assert_eq!(gdb.handle_set_thread(SetThreadOp::Other, IdKind::Any, Some(multi(vec![4, 5]))), Ok(HandlerStatus::NeedsOk));
    assert_eq!(gdb.current_mem_tid, 4);
    assert_eq!(gdb.handle_set_thread::<&str>(SetThreadOp::Other, IdKind::All, None), Err(Error::PacketUnexpected));
    assert_eq!(gdb.current_mem_tid, 4);
}

#[test]
fn set_thread_for_resumption() {
    let mut gdb = GdbStubImpl::new();
    assert_eq!(gdb.handle_set_thread::<&str>(SetThreadOp::StepContinue, IdKind::WithId(3), None), Ok(HandlerStatus::NeedsOk));
    assert_eq!(gdb.current_resume_tid, SpecificIdKind::WithId(3));
    assert_eq!(gdb.handle_set_thread::<&str>(SetThreadOp::StepContinue, IdKind::All, None), Ok(HandlerStatus::NeedsOk));
    assert_eq!(gdb.current_resume_tid, SpecificIdKind::All);
    assert_eq!(
        gdb.handle_set_thread(SetThreadOp::StepContinue, IdKind::Any, Some(ActiveThreads::<&str>::SingleThread)),
        Ok(HandlerStatus::NeedsOk)
    );
    assert_eq!(gdb.current_resume_tid, SpecificIdKind::WithId(SINGLE_THREAD_TID));
    assert_eq!(gdb.current_mem_tid, SINGLE_THREAD_TID);
    assert_eq!(gdb.handle_set_thread(SetThreadOp::StepContinue, IdKind::Any, Some(multi(vec![]))), Err(Error::NoActiveThreads));
    assert_eq!(gdb.current_resume_tid, SpecificIdKind::WithId(SINGLE_THREAD_TID));
}

#[test]
fn any_thread_agrees_between_question_mark_and_h() {
    let mut gdb = GdbStubImpl::new();
    let mut res = Response::new();
    gdb.begin_question_mark(&mut res);
    gdb.handle_question_mark(&mut res, multi(vec![21, 22])).unwrap();
    gdb.handle_set_thread(SetThreadOp::Other, IdKind::Any, Some(multi(vec![21, 22]))).unwrap();
    assert_eq!(res.ops[1], tid(false, gdb.current_mem_tid));
}

#[test]
fn thread_info_single_thread() {
    let gdb = GdbStubImpl::new();
    let mut res = Response::new();
    let mut listed = Vec::new();
    gdb.begin_thread_info(&mut res);
    let r = gdb.handle_thread_info_first(&mut res, &mut listed, ActiveThreads::<&str>::SingleThread);
    assert_eq!(r, Ok(HandlerStatus::Handled));
    assert_eq!(res.ops, vec![ResponseOp::Str("m"), tid(false, 1)]);
    assert!(listed.is_empty());
}

#[test]
fn thread_info_multi_thread() {
    let mut gdb = GdbStubImpl::new();
    gdb.features.multiprocess = true;
    let mut res = Response::new();
    let mut listed = Vec::new();
    gdb.begin_thread_info(&mut res);
    let r = gdb.handle_thread_info_first(&mut res, &mut listed, multi(vec![2, 4, 6]));
    assert_eq!(r, Ok(HandlerStatus::Handled));
    assert_eq!(res.ops, vec![ResponseOp::Str("m")]);
    assert_eq!(
        ops_of(&listed),
        vec![
            vec![tid(true, 2)],
            vec![ResponseOp::Str(","), tid(true, 4)],
            vec![ResponseOp::Str(","), tid(true, 6)],
        ]
    );
}

#[test]
fn thread_info_listing_fails_after_some_threads() {
    let gdb = GdbStubImpl::new();
    let mut res = Response::new();
    let mut listed = Vec::new();
    let threads = ActiveThreads::MultiThread(ThreadList { tids: vec![8], result: Err("lost") });
    gdb.begin_thread_info(&mut res);
    let r = gdb.handle_thread_info_first(&mut res, &mut listed, threads);
    assert_eq!(r, Err(Error::TargetError("lost")));
    assert_eq!(res.ops, vec![ResponseOp::Str("m")]);
    assert_eq!(ops_of(&listed), vec![vec![tid(false, 8)]]);
}

#[test]
fn thread_info_subsequent_ends_the_list() {
    let gdb = GdbStubImpl::new();
    let mut res = Response::new();
    assert_eq!(gdb.handle_thread_info_subsequent::<&str>(&mut res), Ok(HandlerStatus::Handled));
    assert_eq!(res.ops, vec![ResponseOp::Str("l")]);
}

#[test]
fn thread_alive_answers() {
    let gdb = GdbStubImpl::new();
    assert_eq!(gdb.handle_thread_alive::<&str>(IdKind::WithId(1), Some(ThreadAlive::SingleThread)), Ok(HandlerStatus::NeedsOk));
    assert_eq!(gdb.handle_thread_alive::<&str>(IdKind::WithId(2), Some(ThreadAlive::SingleThread)), Err(Error::NonFatalError(1)));
    assert_eq!(gdb.handle_thread_alive::<&str>(IdKind::WithId(2), Some(ThreadAlive::MultiThread(Ok(true)))), Ok(HandlerStatus::NeedsOk));
    assert_eq!(gdb.handle_thread_alive::<&str>(IdKind::WithId(2), Some(ThreadAlive::MultiThread(Ok(false)))), Err(Error::NonFatalError(1)));
    assert_eq!(gdb.handle_thread_alive(IdKind::WithId(2), Some(ThreadAlive::MultiThread(Err("e")))), Err(Error::TargetError("e")));
    assert_eq!(gdb.handle_thread_alive::<&str>(IdKind::Any, None), Err(Error::PacketUnexpected));
    assert_eq!(gdb.handle_thread_alive::<&str>(IdKind::All, None), Err(Error::PacketUnexpected));
}

#[test]
fn auxv_outcomes() {
    let gdb = GdbStubImpl::new();
    let buf = [0x23u8, 0x7d, 0x41, 0x42];
    let mut res = Response::new();
    assert_eq!(gdb.handle_auxv::<&str>(&mut res, None, &buf), Ok(HandlerStatus::Handled));
    assert!(res.ops.is_empty());
    assert_eq!(gdb.handle_auxv::<&str>(&mut res, Some(Ok(0)), &buf), Ok(HandlerStatus::Handled));
    assert_eq!(res.ops, vec![ResponseOp::Str("l")]);
    let mut res = Response::new();
    assert_eq!(gdb.handle_auxv::<&str>(&mut res, Some(Ok(3)), &buf), Ok(HandlerStatus::Handled));
    assert_eq!(res.ops, vec![ResponseOp::Str("m"), ResponseOp::Binary(vec![0x23, 0x7d, 0x41])]);
    let mut res = Response::new();
    assert_eq!(gdb.handle_auxv::<&str>(&mut res, Some(Ok(5)), &buf), Err(Error::PacketBufferOverflow));
    assert_eq!(res.ops, vec![ResponseOp::Str("m")]);
    let mut res = Response::new();
    assert_eq!(gdb.handle_auxv::<&str>(&mut res, Some(Err(TargetError::NonFatal)), &buf), Err(Error::NonFatalError(121)));
    assert!(res.ops.is_empty());
}

#[test]
fn section_offsets_bss_defaults_to_data() {
    let gdb = GdbStubImpl::new();
    let mut res = Response::new();
    let r = gdb.handle_section_offsets::<&str>(&mut res, Some(Ok(Offsets::Sections { text: 0x100, data: 0x200, bss: None })));
    assert_eq!(r, Ok(HandlerStatus::Handled));
    assert_eq!(
        res.ops,
        vec![
            ResponseOp::Str("Text="),
            ResponseOp::Num(0x100),
            ResponseOp::Str(";Data="),
            ResponseOp::Num(0x200),
            ResponseOp::Str(";Bss="),
            ResponseOp::Num(0x200),
        ]
    );
}

#[test]
fn section_offsets_with_bss() {
    let gdb = GdbStubImpl::new();
    let mut res = Response::new();
    gdb.handle_section_offsets::<&str>(&mut res, Some(Ok(Offsets::Sections { text: 1, data: 2, bss: Some(3) }))).unwrap();
    assert_eq!(res.ops[5], ResponseOp::Num(3));
}

#[test]
fn section_offsets_segments() {
    let gdb = GdbStubImpl::new();
    let mut res = Response::new();
    gdb.handle_section_offsets::<&str>(&mut res, Some(Ok(Offsets::Segments { text_seg: 0x10, data_seg: None }))).unwrap();
    assert_eq!(res.ops, vec![ResponseOp::Str("TextSeg="), ResponseOp::Num(0x10)]);
    let mut res = Response::new();
    gdb.handle_section_offsets::<&str>(&mut res, Some(Ok(Offsets::Segments { text_seg: 0x10, data_seg: Some(0x20) }))).unwrap();
    assert_eq!(
        res.ops,
        vec![ResponseOp::Str("TextSeg="), ResponseOp::Num(0x10), ResponseOp::Str(";DataSeg="), ResponseOp::Num(0x20)]
    );
}

#[test]
fn section_offsets_unsupported_and_failing() {
    let gdb = GdbStubImpl::new();
    let mut res = Response::new();
    assert_eq!(gdb.handle_section_offsets::<&str>(&mut res, None), Ok(HandlerStatus::Handled));
    assert_eq!(gdb.handle_section_offsets(&mut res, Some(Err("no"))), Err(Error::TargetError("no")));
    assert!(res.ops.is_empty());
}

#[test]
fn monitor_command_console_output() {
    let gdb = GdbStubImpl::new();
    let mut packets = Vec::new();
    let answer = MonitorAnswer::<&str> { use_rle: true, messages: vec![b"hi\n".to_vec(), vec![]], result: Ok(()) };
    let r = gdb.handle_monitor_cmd(&mut packets, Some(answer));
    assert_eq!(r, Ok(HandlerStatus::NeedsOk));
    assert_eq!(packets.len(), 2);
    assert!(packets[0].use_rle);
    assert_eq!(packets[0].response.ops, vec![ResponseOp::Str("O"), ResponseOp::HexBuf(b"hi\n".to_vec())]);
    assert_eq!(packets[1].response.ops, vec![ResponseOp::Str("O"), ResponseOp::HexBuf(vec![])]);
}

#[test]
fn monitor_command_failure_after_output() {
    let gdb = GdbStubImpl::new();
    let mut packets = Vec::new();
    let answer = MonitorAnswer { use_rle: false, messages: vec![vec![1]], result: Err("bad") };
    assert_eq!(gdb.handle_monitor_cmd(&mut packets, Some(answer)), Err(Error::TargetError("bad")));
    assert_eq!(packets.len(), 1);
    assert!(!packets[0].use_rle);
}

#[test]
fn monitor_command_unsupported() {
    let gdb = GdbStubImpl::new();
    let mut packets = Vec::new();
    assert_eq!(gdb.handle_monitor_cmd::<&str>(&mut packets, None), Ok(HandlerStatus::Handled));
    assert!(packets.is_empty());
}

#[test]
fn accesses_go_to_the_selected_thread() {
    let mut gdb = GdbStubImpl::new();
    assert_eq!(gdb.access_tid(true), Some(SINGLE_THREAD_TID));
    gdb.handle_set_thread::<&str>(SetThreadOp::Other, IdKind::WithId(17), None).unwrap();
    assert_eq!(gdb.access_tid(true), Some(17));
    assert_eq!(gdb.access_tid(false), None);
    gdb.handle_set_thread::<&str>(SetThreadOp::StepContinue, IdKind::WithId(3), None).unwrap();
    assert_eq!(gdb.access_tid(true), Some(17));
    let read = gdb.start_read_memory::<&str>(&[0x20], 1, 1, AddrWidth::Bits16, true).unwrap();
    assert_eq!(read.next_step::<&str>(), Ok(MemoryReadStep::Read { addr: 0x20, len: 1, tid: Some(17) }));
}

#[test]
fn kill_request_only_in_extended_mode() {
    let gdb = GdbStubImpl::new();
    assert_eq!(gdb.kill_request(false, Some(4)), None);
    assert_eq!(gdb.kill_request(true, Some(4)), Some(Some(4)));
    assert_eq!(gdb.kill_request(true, None), Some(None));
}

#[test]
fn written_responses_report_the_failed_write() {
    let ok: Result<HandlerStatus, StubErr> = Ok(HandlerStatus::Handled);
    assert_eq!(settle_written(ok.clone(), Ok::<(), u8>(())), Ok(HandlerStatus::Handled));
    assert_eq!(settle_written(ok, Err::<(), u8>(7)), Err(HandlerError::Connection(7)));
    let failed: Result<HandlerStatus, StubErr> = Err(Error::NoActiveThreads);
    assert_eq!(settle_written(failed.clone(), Err::<(), u8>(7)), Err(HandlerError::Connection(7)));
    assert_eq!(settle_written(failed, Ok::<(), u8>(())), Err(HandlerError::Handler(Error::NoActiveThreads)));
}

#[test]
fn callback_writes_keep_the_last_failure() {
    let ok: Result<HandlerStatus, StubErr> = Ok(HandlerStatus::NeedsOk);
    assert_eq!(settle_callback_writes(ok.clone(), vec![Ok::<(), u8>(()), Ok(())]), Ok(HandlerStatus::NeedsOk));
    assert_eq!(settle_callback_writes(ok.clone(), vec![Err(1u8), Ok(()), Err(2), Ok(())]), Err(HandlerError::Connection(2)));
    assert_eq!(settle_callback_writes(ok, Vec::<Result<(), u8>>::new()), Ok(HandlerStatus::NeedsOk));
    let target: Result<HandlerStatus, StubErr> = Err(Error::TargetError("t"));
    assert_eq!(settle_callback_writes(target, vec![Err(1u8)]), Err(HandlerError::Handler(Error::TargetError("t"))));
}

#[test]
fn target_queries() {
    let mut gdb = GdbStubImpl::new();
    assert!(gdb.set_thread_query(IdKind::Any));
    assert!(!gdb.set_thread_query(IdKind::All));
    assert!(!gdb.set_thread_query(IdKind::WithId(2)));
    assert_eq!(gdb.thread_alive_query(IdKind::WithId(2)), Some(2));
    assert_eq!(gdb.thread_alive_query(IdKind::Any), None);
    assert_eq!(gdb.thread_alive_query(IdKind::All), None);
    gdb.handle_set_thread::<&str>(SetThreadOp::Other, IdKind::WithId(5), None).unwrap();
    assert_eq!(gdb.register_write_request(false, true), None);
    assert_eq!(gdb.register_write_request(true, true), Some(Some(5)));
    assert_eq!(gdb.register_write_request(true, false), Some(None));
}

#[test]
fn next_address_fits_the_width() {
    let read = |addr: u64, offset: usize, remaining: usize| MemoryRead {
        addr,
        tid: None,
        width: AddrWidth::Bits16,
        offset,
        remaining,
        buf_len: 4,
    };
    assert!(read(0xfff0, 0xf, 1).next_address_fits());
    assert!(!read(0xfff0, 0x10, 1).next_address_fits());
    assert!(read(0xfff0, 0x10, 0).next_address_fits());
    assert!(read(0, 0x1_0000, 1).next_address_fits());
}

#[test]
fn accesses_follow_a_sequence_of_packets() {
    let mut gdb = GdbStubImpl::new();
    let mut res = Response::new();
    gdb.handle_set_thread::<&str>(SetThreadOp::Other, IdKind::WithId(8), None).unwrap();
    gdb.handle_q_start_no_ack_mode();
    gdb.handle_set_thread::<&str>(SetThreadOp::StepContinue, IdKind::WithId(9), None).unwrap();
    assert_eq!(gdb.handle_set_thread::<&str>(SetThreadOp::Other, IdKind::All, None), Err(Error::PacketUnexpected));
    gdb.begin_question_mark(&mut res);
    gdb.handle_question_mark(&mut res, multi(vec![3])).unwrap();
    let r: Result<HandlerStatus, StubErr> = gdb.handle_q_supported(&mut res, 1, &vec![], &no_support());
    r.unwrap();
    assert_eq!(gdb.access_tid(true), Some(8));
    assert_eq!(gdb.register_write_request(true, true), Some(Some(8)));
}
