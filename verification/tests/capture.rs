use crash_handler::handler::{capture, should_intercept};
use crash_handler::{
    copy_stack_safely, install, register_worker_thread, take_dump, unregister_worker_thread,
    veh_callback, CapturedDump, Context, CrashState, ExceptionPointers, ExceptionRecord, StackRead,
};

const WORKER: u32 = 7;
const THUNK: u64 = 0x1_4000_1000;

fn context() -> Context {
    Context {
        rip: 101,
        rsp: 102,
        rbp: 103,
        rax: 104,
        rbx: 105,
        rcx: 106,
        rdx: 107,
        rsi: 108,
        rdi: 109,
        r8: 110,
        r9: 111,
        r10: 112,
        r11: 113,
        r12: 114,
        r13: 115,
        r14: 116,
        r15: 117,
    }
}

fn record(code: u32) -> ExceptionRecord {
    let mut information = [0u64; 15];
    information[0] = 8;
    information[1] = 0xdead_0000_beef;
    ExceptionRecord { code, flags: 3, number_parameters: 2, information }
}

fn report(code: u32) -> Option<ExceptionPointers> {
    Some(ExceptionPointers { record: Some(record(code)), context: Some(context()) })
}

fn full_stack() -> StackRead {
    let mut read = StackRead { bytes: [0; 128], count: 128 };
    for i in 0..128 {
        read.bytes[i] = i as u8;
    }
    read
}

fn running_worker() -> CrashState {
    let mut state = CrashState::new();
    install(&mut state);
    register_worker_thread(&mut state, WORKER);
    state
}

#[test]
fn initial_state() {
    let state = CrashState::new();
    assert!(!state.installed);
    assert!(!state.captured);
    assert_eq!(state.worker_tid, 0);
    assert_eq!(state.dump, CapturedDump::zero());
    assert_eq!(state.dump.stack, [0; 16]);
}

#[test]
fn install_asks_for_the_handler_once() {
    let mut state = CrashState::new();
    assert_eq!(install(&mut state), Some(1));
    let installed = state;
    assert_eq!(install(&mut state), None);
    assert_eq!(install(&mut state), None);
    assert_eq!(state, installed);
}

#[test]
fn registration() {
    let mut state = CrashState::new();
    register_worker_thread(&mut state, 5);
    assert_eq!(state.worker_tid, 5);
    register_worker_thread(&mut state, 6);
    assert_eq!(state.worker_tid, 6);
    unregister_worker_thread(&mut state);
    assert_eq!(state, CrashState::new());
}

#[test]
fn crash_of_the_worker_is_captured() {
    let mut state = running_worker();
    let mut info = report(0xC000_0005);
    let answer = veh_callback(&mut state, &mut info, WORKER, THUNK, |rsp| {
        assert_eq!(rsp, 102);
        full_stack()
    });
    assert_eq!(answer, -1);
    let mut resumed = context();
    resumed.rip = THUNK;
    assert_eq!(
        info,
        Some(ExceptionPointers { record: Some(record(0xC000_0005)), context: Some(resumed) })
    );
    let d = take_dump(&mut state).unwrap();
    assert_eq!((d.code, d.flags, d.thread_id), (0xC000_0005, 3, WORKER));
    assert_eq!((d.access_kind, d.access_addr), (8, 0xdead_0000_beef));
    assert_eq!((d.rip, d.rsp, d.rbp), (101, 102, 103));
    assert_eq!((d.rax, d.rbx, d.rcx, d.rdx, d.rsi, d.rdi), (104, 105, 106, 107, 108, 109));
    assert_eq!((d.r8, d.r9, d.r10, d.r11), (110, 111, 112, 113));
    assert_eq!((d.r12, d.r13, d.r14, d.r15), (114, 115, 116, 117));
    assert_eq!(d.stack[0], 0x0706_0504_0302_0100);
    assert_eq!(d.stack[15], 0x7f7e_7d7c_7b7a_7978);
}

#[test]
fn every_recoverable_code_is_captured() {
    for code in [0xC000_0005u32, 0xC000_001D, 0xC000_0094, 0xC000_0096] {
        let mut state = running_worker();
        let mut info = report(code);
        assert_eq!(veh_callback(&mut state, &mut info, WORKER, THUNK, |_| full_stack()), -1);
        assert_eq!(take_dump(&mut state).unwrap().code, code);
    }
}

fn passes_through(mut state: CrashState, mut info: Option<ExceptionPointers>, tid: u32) {
    let (state_before, info_before) = (state, info);
    let answer = veh_callback(&mut state, &mut info, tid, THUNK, |_| panic!("stack was read"));
    assert_eq!(answer, 0);
    assert_eq!(state, state_before);
    assert_eq!(info, info_before);
}

#[test]
fn other_exceptions_pass_through() {
    for code in [0xC000_00FDu32, 0x406D_1388, 0x4001_0006, 0] {
        passes_through(running_worker(), report(code), WORKER);
    }
}

#[test]
fn other_threads_pass_through() {
    passes_through(running_worker(), report(0xC000_0005), WORKER + 1);
    passes_through(running_worker(), report(0xC000_0005), 0);
}

#[test]
fn without_a_worker_everything_passes_through() {
    passes_through(CrashState::new(), report(0xC000_0005), WORKER);
    passes_through(CrashState::new(), report(0xC000_0005), 0);
    let mut state = running_worker();
    unregister_worker_thread(&mut state);
    passes_through(state, report(0xC000_0005), WORKER);
    let mut state = running_worker();
    register_worker_thread(&mut state, 0);
    passes_through(state, report(0xC000_0005), WORKER);
}

#[test]
fn incomplete_reports_pass_through() {
    passes_through(running_worker(), None, WORKER);
    passes_through(
        running_worker(),
        Some(ExceptionPointers { record: None, context: Some(context()) }),
        WORKER,
    );
    passes_through(
        running_worker(),
        Some(ExceptionPointers { record: Some(record(0xC000_0005)), context: None }),
        WORKER,
    );
}

#[test]
fn interception_rule() {
    assert!(should_intercept(WORKER, &report(0xC000_0094), WORKER));
    assert!(!should_intercept(WORKER, &report(0xC000_00FD), WORKER));
    assert!(!should_intercept(0, &report(0xC000_0094), 0));
    assert!(!should_intercept(WORKER, &None, WORKER));
}

#[test]
fn dump_is_taken_once() {
    let mut state = running_worker();
    assert_eq!(take_dump(&mut state), None);
    veh_callback(&mut state, &mut report(0xC000_0096), WORKER, THUNK, |_| full_stack());
    assert!(take_dump(&mut state).is_some());
    let emptied = state;
    assert_eq!(take_dump(&mut state), None);
    assert_eq!(state, emptied);
}

#[test]
fn dump_waits_through_other_events() {
    let mut state = running_worker();
    veh_callback(&mut state, &mut report(0xC000_0094), WORKER, THUNK, |_| full_stack());
    let captured = state.dump;
    unregister_worker_thread(&mut state);
    install(&mut state);
    register_worker_thread(&mut state, WORKER + 1);
    veh_callback(&mut state, &mut report(0xC000_0005), WORKER, THUNK, |_| full_stack());
    assert_eq!(take_dump(&mut state), Some(captured));
}

#[test]
fn later_crash_overwrites_the_waiting_one() {
    let mut state = running_worker();
    veh_callback(&mut state, &mut report(0xC000_0094), WORKER, THUNK, |_| full_stack());
    veh_callback(&mut state, &mut report(0xC000_0096), WORKER, THUNK, |_| full_stack());
    assert_eq!(take_dump(&mut state).unwrap().code, 0xC000_0096);
    assert_eq!(take_dump(&mut state), None);
}

#[test]
fn access_details_need_an_access_violation_with_parameters() {
    let mut state = CrashState::new();
    capture(&mut state, &record(0xC000_0005), &context(), WORKER, &full_stack());
    assert_eq!((state.dump.access_kind, state.dump.access_addr), (8, 0xdead_0000_beef));
    let mut bare = record(0xC000_0005);
    bare.number_parameters = 1;
    capture(&mut state, &bare, &context(), WORKER, &full_stack());
    assert_eq!((state.dump.access_kind, state.dump.access_addr), (0, 0));
    capture(&mut state, &record(0xC000_0005), &context(), WORKER, &full_stack());
    capture(&mut state, &record(0xC000_001D), &context(), WORKER, &full_stack());
    assert_eq!((state.dump.access_kind, state.dump.access_addr), (0, 0));
}

#[test]
fn access_kind_keeps_the_low_half() {
    let mut state = CrashState::new();
    let mut r = record(0xC000_0005);
    r.information[0] = 0x5_0000_0001;
    capture(&mut state, &r, &context(), WORKER, &full_stack());
    assert_eq!(state.dump.access_kind, 1);
}

#[test]
fn unread_stack_keeps_the_previous_crash() {
    let mut state = running_worker();
    veh_callback(&mut state, &mut report(0xC000_0094), WORKER, THUNK, |_| full_stack());
    take_dump(&mut state);
    let first = state.dump.stack;
    let unread = StackRead { bytes: [0xff; 128], count: 0 };
    veh_callback(&mut state, &mut report(0xC000_0094), WORKER, THUNK, |_| unread);
    assert_eq!(take_dump(&mut state).unwrap().stack, first);
}

#[test]
fn partly_read_stack() {
    let mut stack = [0x1122_3344_5566_7788u64; 16];
    let read = StackRead { bytes: [0xee; 128], count: 11 };
    copy_stack_safely(&mut stack, &read);
    assert_eq!(stack[0], 0xeeee_eeee_eeee_eeee);
    assert_eq!(stack[1], 0x1122_3344_55ee_eeee);
    assert_eq!(stack[2..], [0x1122_3344_5566_7788u64; 14]);
}

#[test]
fn stack_bytes_are_little_endian() {
    let mut stack = [u64::MAX; 16];
    copy_stack_safely(&mut stack, &full_stack());
    for i in 0..16 {
        let mut bytes = [0u8; 8];
        bytes.copy_from_slice(&full_stack().bytes[8 * i..8 * i + 8]);
        assert_eq!(stack[i], u64::from_le_bytes(bytes));
    }
}

#[test]
fn count_beyond_the_buffer_is_a_full_read() {
    let mut stack = [0u64; 16];
    let mut read = full_stack();
    read.count = usize::MAX;
    copy_stack_safely(&mut stack, &read);
    let mut full = [0u64; 16];
    copy_stack_safely(&mut full, &full_stack());
    assert_eq!(stack, full);
}
