//! The handler's state, and the operations of the three parties that share it: the process start-up
//! that installs the handler, the worker and its exceptions, and the supervisor.

use vstd::prelude::*;

use crate::dump::CapturedDump;
use crate::seh;
use crate::stack;
use crate::stack::StackRead;

verus! {

/// Position argument that puts a vectored handler in front of all others.
pub const FIRST_HANDLER: u32 = 1;

/// Exit code of a worker thread that was ended after a captured crash.
pub const CRASH_EXIT_CODE: u32 = 2;

/// The general registers and the instruction pointer of the faulting thread.
#[derive(Clone, Copy, Debug, PartialEq, Eq)]
pub struct Context {
    pub rip: u64,
    pub rsp: u64,
    pub rbp: u64,
    pub rax: u64,
    pub rbx: u64,
    pub rcx: u64,
    pub rdx: u64,
    pub rsi: u64,
    pub rdi: u64,
    pub r8: u64,
    pub r9: u64,
    pub r10: u64,
    pub r11: u64,
    pub r12: u64,
    pub r13: u64,
    pub r14: u64,
    pub r15: u64,
}

/// What the system reports of an exception.
#[derive(Clone, Copy, Debug, PartialEq, Eq)]
pub struct ExceptionRecord {
    pub code: u32,
    pub flags: u32,
    pub number_parameters: u32,
    pub information: [u64; 15],
}

/// What a vectored handler is called with. Either part can be missing.
#[derive(Clone, Copy, Debug, PartialEq, Eq)]
pub struct ExceptionPointers {
    pub record: Option<ExceptionRecord>,
    pub context: Option<Context>,
}

/// Everything the handler remembers.
#[derive(Clone, Copy, Debug, PartialEq, Eq)]
pub struct CrashState {
    /// The vectored handler has been installed.
    pub installed: bool,
    /// The thread whose exceptions are intercepted; zero for none.
    pub worker_tid: u32,
    /// `dump` holds a crash that nobody has taken yet.
    pub captured: bool,
    /// The last captured crash. It stays in the buffer after it was taken.
    pub dump: CapturedDump,
}

impl CrashState {
    /// The state at process start.
    pub open spec fn is_initial(self) -> bool {
        &&& !self.installed
        &&& self.worker_tid == 0
        &&& !self.captured
        &&& self.dump.is_zero()
    }

    /// What holds of the state at all times: only an access violation has access details,
    /// and a dump that waits to be taken is of a recoverable exception on a real thread.
    pub open spec fn wf(self) -> bool {
        &&& self.dump.code != seh::ACCESS_VIOLATION ==> self.dump.access_kind == 0
            && self.dump.access_addr == 0
        &&& self.captured ==> seh::recoverable(self.dump.code) && self.dump.thread_id != 0
    }

    /// The state at process start.
    pub fn new() -> (state: Self)
        ensures
            state.is_initial(),
            state.wf(),
    {
        CrashState { installed: false, worker_tid: 0, captured: false, dump: CapturedDump::zero() }
    }
}

/// Installing: the first time, the handler has to be added, in front of all others.
pub open spec fn installs(pre: CrashState, post: CrashState, add: Option<u32>) -> bool {
    &&& post == (CrashState { installed: true, ..pre })
    &&& add == if pre.installed {
        None
    } else {
        Some(FIRST_HANDLER)
    }
}

/// Registering `tid` as the worker.
pub open spec fn registers(pre: CrashState, post: CrashState, tid: u32) -> bool {
    post == (CrashState { worker_tid: tid, ..pre })
}

/// Taking the dump: it is handed out if it waits, and then waits no more.
pub open spec fn takes(pre: CrashState, post: CrashState, taken: Option<CapturedDump>) -> bool {
    &&& post == (CrashState { captured: false, ..pre })
    &&& taken == if pre.captured {
        Some(pre.dump)
    } else {
        None
    }
}

/// The exceptions that are intercepted: recoverable ones, fully reported, on the registered worker.
pub open spec fn intercepted(
    worker_tid: u32,
    info: Option<ExceptionPointers>,
    current_tid: u32,
) -> bool {
    &&& info is Some
    &&& info->0.record is Some
    &&& seh::recoverable(info->0.record->0.code)
    &&& worker_tid != 0
    &&& current_tid == worker_tid
    &&& info->0.context is Some
}

/// An access violation says what it tried to do if it comes with at least two parameters.
pub open spec fn has_access_details(record: ExceptionRecord) -> bool {
    record.code == seh::ACCESS_VIOLATION && record.number_parameters >= 2
}

/// `next` records the exception: the report, the registers, the thread, and the stack as far as it
/// was read, over what the buffer held before.
pub open spec fn records(
    prev: CapturedDump,
    next: CapturedDump,
    record: ExceptionRecord,
    context: Context,
    tid: u32,
    read: StackRead,
) -> bool {
    &&& next.code == record.code
    &&& next.flags == record.flags
    &&& next.rip == context.rip
    &&& next.rsp == context.rsp
    &&& next.rbp == context.rbp
    &&& next.rax == context.rax
    &&& next.rbx == context.rbx
    &&& next.rcx == context.rcx
    &&& next.rdx == context.rdx
    &&& next.rsi == context.rsi
    &&& next.rdi == context.rdi
    &&& next.r8 == context.r8
    &&& next.r9 == context.r9
    &&& next.r10 == context.r10
    &&& next.r11 == context.r11
    &&& next.r12 == context.r12
    &&& next.r13 == context.r13
    &&& next.r14 == context.r14
    &&& next.r15 == context.r15
    &&& next.thread_id == tid
    &&& next.access_kind == if has_access_details(record) {
        record.information[0] % 0x1_0000_0000
    } else {
        0
    }
    &&& next.access_addr == if has_access_details(record) {
        record.information[1]
    } else {
        0
    }
    &&& stack::merged(prev.stack@, read, next.stack@)
}

/// Capturing a crash: it is recorded in the buffer and waits to be taken.
pub open spec fn captures(
    pre: CrashState,
    post: CrashState,
    record: ExceptionRecord,
    context: Context,
    tid: u32,
    read: StackRead,
) -> bool {
    &&& post == (CrashState { captured: true, dump: post.dump, ..pre })
    &&& records(pre.dump, post.dump, record, context, tid, read)
}

/// The report with the instruction pointer set to `rip`, and nothing else changed.
pub open spec fn redirected(info: Option<ExceptionPointers>, rip: u64) -> Option<ExceptionPointers> {
    Some(
        ExceptionPointers {
            context: Some(Context { rip, ..info->0.context->0 }),
            ..info->0
        },
    )
}

/// Marks the handler as installed. `Some(position)` asks the caller to add it to the chain at that
/// position; after the first call there is nothing left to do.
pub fn install(state: &mut CrashState) -> (add: Option<u32>)
    ensures
        installs(*old(state), *final(state), add),
        final(state).installed,
        old(state).installed ==> add is None,
        !old(state).installed ==> add == Some(1u32),
        final(state).worker_tid == old(state).worker_tid,
        final(state).captured == old(state).captured,
        final(state).dump == old(state).dump,
        old(state).wf() ==> final(state).wf(),
{
    if state.installed {
        return None;
    }
    state.installed = true;
    Some(FIRST_HANDLER)
}

/// Makes `tid` the thread whose exceptions are intercepted. The worker calls this on itself, before
/// it runs any generated code. Zero clears the registration.
pub fn register_worker_thread(state: &mut CrashState, tid: u32)
    ensures
        registers(*old(state), *final(state), tid),
        final(state).worker_tid == tid,
        final(state).installed == old(state).installed,
        final(state).captured == old(state).captured,
        final(state).dump == old(state).dump,
        old(state).wf() ==> final(state).wf(),
{
    state.worker_tid = tid;
}

/// Clears the registration.
pub fn unregister_worker_thread(state: &mut CrashState)
    ensures
        registers(*old(state), *final(state), 0),
        final(state).worker_tid == 0,
        final(state).installed == old(state).installed,
        final(state).captured == old(state).captured,
        final(state).dump == old(state).dump,
        old(state).wf() ==> final(state).wf(),
{
    state.worker_tid = 0;
}

/// Hands out the dump that waits, if one does. The supervisor calls this after the worker has
/// ended: `Some` means that it crashed, `None` that it ended by itself.
pub fn take_dump(state: &mut CrashState) -> (taken: Option<CapturedDump>)
    ensures
        takes(*old(state), *final(state), taken),
        old(state).captured ==> taken == Some(old(state).dump),
        !old(state).captured ==> taken is None,
        !final(state).captured,
        final(state).installed == old(state).installed,
        final(state).worker_tid == old(state).worker_tid,
        final(state).dump == old(state).dump,
        old(state).wf() ==> final(state).wf(),
{
    if !state.captured {
        return None;
    }
    state.captured = false;
    Some(state.dump)
}

/// Whether an exception on thread `current_tid` is to be intercepted.
pub fn should_intercept(
    worker_tid: u32,
    info: &Option<ExceptionPointers>,
    current_tid: u32,
) -> (yes: bool)
    ensures
        yes == intercepted(worker_tid, *info, current_tid),
        yes <==> {
            &&& info matches Some(ep)
            &&& ep.context is Some
            &&& ep.record matches Some(record)
            &&& (record.code == 0xC000_0005u32 || record.code == 0xC000_001Du32 || record.code
                == 0xC000_0094u32 || record.code == 0xC000_0096u32)
            &&& current_tid == worker_tid
            &&& current_tid != 0
        },
{
    match info {
        Some(ExceptionPointers { record: Some(record), context }) => seh::is_recoverable(
            record.code,
        ) && worker_tid != 0 && current_tid == worker_tid && context.is_some(),
        _ => false,
    }
}

/// Records a crash in the buffer and publishes it.
pub fn capture(
    state: &mut CrashState,
    record: &ExceptionRecord,
    context: &Context,
    current_tid: u32,
    read: &StackRead,
)
    ensures
        captures(*old(state), *final(state), *record, *context, current_tid, *read),
        final(state).captured,
        final(state).installed == old(state).installed,
        final(state).worker_tid == old(state).worker_tid,
        final(state).dump.code == record.code,
        final(state).dump.flags == record.flags,
        final(state).dump.thread_id == current_tid,
        final(state).dump.rip == context.rip,
        final(state).dump.rsp == context.rsp,
        final(state).dump.rbp == context.rbp,
        final(state).dump.rax == context.rax,
        final(state).dump.rbx == context.rbx,
        final(state).dump.rcx == context.rcx,
        final(state).dump.rdx == context.rdx,
        final(state).dump.rsi == context.rsi,
        final(state).dump.rdi == context.rdi,
        final(state).dump.r8 == context.r8,
        final(state).dump.r9 == context.r9,
        final(state).dump.r10 == context.r10,
        final(state).dump.r11 == context.r11,
        final(state).dump.r12 == context.r12,
        final(state).dump.r13 == context.r13,
        final(state).dump.r14 == context.r14,
        final(state).dump.r15 == context.r15,
        record.code == 0xC000_0005u32 && record.number_parameters >= 2 ==> final(state).dump.access_kind
            == record.information[0] % 0x1_0000_0000 && final(state).dump.access_addr == record.information[1],
        record.code != 0xC000_0005u32 || record.number_parameters < 2 ==> final(state).dump.access_kind == 0
            && final(state).dump.access_addr == 0,
        old(state).wf() && seh::recoverable(record.code) && current_tid != 0 ==> final(state).wf(),
{
    state.dump.code = record.code;
    state.dump.flags = record.flags;
    state.dump.rip = context.rip;
    state.dump.rsp = context.rsp;
    state.dump.rbp = context.rbp;
    state.dump.rax = context.rax;
    state.dump.rbx = context.rbx;
    state.dump.rcx = context.rcx;
    state.dump.rdx = context.rdx;
    state.dump.rsi = context.rsi;
    state.dump.rdi = context.rdi;
    state.dump.r8 = context.r8;
    state.dump.r9 = context.r9;
    state.dump.r10 = context.r10;
    state.dump.r11 = context.r11;
    state.dump.r12 = context.r12;
    state.dump.r13 = context.r13;
    state.dump.r14 = context.r14;
    state.dump.r15 = context.r15;
    state.dump.thread_id = current_tid;
    if seh::is_access_violation(record.code) && record.number_parameters >= 2 {
        let kind: u64 = record.information[0];
        assert(kind as u32 == kind % 0x1_0000_0000) by (bit_vector);
        state.dump.access_kind = #[verifier::truncate] (kind as u32);
        state.dump.access_addr = record.information[1];
    } else {
        state.dump.access_kind = 0;
        state.dump.access_addr = 0;
    }
    stack::copy_stack_safely(&mut state.dump.stack, read);
    state.captured = true;
}

/// The vectored handler. Whether the exception on thread `current_tid` is the worker's to recover
/// from is decided first; if it is not, nothing changes and the next handler is asked. If it is,
/// the stack is read through `read_stack`, at the faulting stack pointer, the crash is captured,
/// and the thread resumes at `thunk`.
pub fn veh_callback<F: FnOnce(u64) -> StackRead>(
    state: &mut CrashState,
    info: &mut Option<ExceptionPointers>,
    current_tid: u32,
    thunk: u64,
    read_stack: F,
) -> (answer: i32)
    requires
        intercepted(old(state).worker_tid, *old(info), current_tid) ==> call_requires(
            read_stack,
            (old(info)->0.context->0.rsp,),
        ),
    ensures
        !intercepted(old(state).worker_tid, *old(info), current_tid) ==> {
            &&& answer == seh::CONTINUE_SEARCH
            &&& *final(state) == *old(state)
            &&& *final(info) == *old(info)
        },
        intercepted(old(state).worker_tid, *old(info), current_tid) ==> {
            &&& answer == seh::CONTINUE_EXECUTION
            &&& *final(info) == redirected(*old(info), thunk)
            &&& exists|read: StackRead| #[trigger]
                call_ensures(read_stack, (old(info)->0.context->0.rsp,), read) && captures(
                    *old(state),
                    *final(state),
                    old(info)->0.record->0,
                    old(info)->0.context->0,
                    current_tid,
                    read,
                )
        },
        answer == -1 || answer == 0,
        answer == 0 ==> *final(state) == *old(state) && *final(info) == *old(info),
        answer == -1 ==> {
            &&& *old(info) matches Some(ep)
            &&& ep.record matches Some(record)
            &&& ep.context matches Some(context)
            &&& final(info)->0.record == ep.record
            &&& final(info)->0.context is Some
            &&& final(info)->0.context->0.rip == thunk
            &&& final(info)->0.context->0.rsp == context.rsp
            &&& final(info)->0.context->0.rbp == context.rbp
            &&& final(info)->0.context->0.rax == context.rax
            &&& final(info)->0.context->0.rbx == context.rbx
            &&& final(info)->0.context->0.rcx == context.rcx
            &&& final(info)->0.context->0.rdx == context.rdx
            &&& final(info)->0.context->0.rsi == context.rsi
            &&& final(info)->0.context->0.rdi == context.rdi
            &&& final(info)->0.context->0.r8 == context.r8
            &&& final(info)->0.context->0.r9 == context.r9
            &&& final(info)->0.context->0.r10 == context.r10
            &&& final(info)->0.context->0.r11 == context.r11
            &&& final(info)->0.context->0.r12 == context.r12
            &&& final(info)->0.context->0.r13 == context.r13
            &&& final(info)->0.context->0.r14 == context.r14
            &&& final(info)->0.context->0.r15 == context.r15
            &&& final(state).captured
            &&& final(state).installed == old(state).installed
            &&& final(state).worker_tid == old(state).worker_tid
            &&& final(state).dump.code == record.code
            &&& final(state).dump.flags == record.flags
            &&& final(state).dump.thread_id == current_tid
            &&& final(state).dump.rip == context.rip
            &&& final(state).dump.rsp == context.rsp
            &&& final(state).dump.rbp == context.rbp
            &&& final(state).dump.rax == context.rax
            &&& final(state).dump.rbx == context.rbx
            &&& final(state).dump.rcx == context.rcx
            &&& final(state).dump.rdx == context.rdx
            &&& final(state).dump.rsi == context.rsi
            &&& final(state).dump.rdi == context.rdi
            &&& final(state).dump.r8 == context.r8
            &&& final(state).dump.r9 == context.r9
            &&& final(state).dump.r10 == context.r10
            &&& final(state).dump.r11 == context.r11
            &&& final(state).dump.r12 == context.r12
            &&& final(state).dump.r13 == context.r13
            &&& final(state).dump.r14 == context.r14
            &&& final(state).dump.r15 == context.r15
            &&& record.code == 0xC000_0005u32 && record.number_parameters >= 2 ==> final(state).dump.access_kind
                == record.information[0] % 0x1_0000_0000 && final(state).dump.access_addr == record.information[1]
            &&& record.code != 0xC000_0005u32 || record.number_parameters < 2 ==> final(state).dump.access_kind == 0
                && final(state).dump.access_addr == 0
        },
        (answer == -1) <==> {
            &&& *old(info) matches Some(ep)
            &&& ep.context is Some
            &&& ep.record matches Some(record)
            &&& (record.code == 0xC000_0005u32 || record.code == 0xC000_001Du32 || record.code
                == 0xC000_0094u32 || record.code == 0xC000_0096u32)
            &&& current_tid == old(state).worker_tid
            &&& current_tid != 0
        },
        old(state).wf() ==> final(state).wf(),
{
    if !should_intercept(state.worker_tid, info, current_tid) {
        return seh::continue_search();
    }
    if let Some(ExceptionPointers { record: Some(record), context: Some(context) }) = info {
        let read = read_stack(context.rsp);
        capture(state, record, context, current_tid, &read);
        context.rip = thunk;
    }
    seh::continue_execution()
}

} // verus!
