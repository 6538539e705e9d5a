//! What holds across several operations.
//!
//! A history is a run of the handler from process start: the states it went through, and the event
//! that led from each to the next.

use vstd::arithmetic::power::*;
use vstd::prelude::*;

use crate::dump::CapturedDump;
use crate::handler;
use crate::handler::{CrashState, ExceptionPointers};
use crate::seh;
use crate::stack;
use crate::stack::StackRead;

verus! {

/// Something that happens to the handler.
pub enum Event {
    /// A call of [`handler::install`].
    Install,
    /// A call of [`handler::register_worker_thread`] on thread `tid`.
    Register { tid: u32 },
    /// A call of [`handler::unregister_worker_thread`].
    Unregister,
    /// A call of [`handler::take_dump`].
    Take,
    /// A call of [`handler::veh_callback`] on thread `tid`; `read` is what the stack delivers.
    Exception { info: Option<ExceptionPointers>, tid: u32, read: StackRead },
}

/// The event leads from `pre` to `post`.
pub open spec fn step(pre: CrashState, event: Event, post: CrashState) -> bool {
    match event {
        Event::Install => exists|add: Option<u32>| handler::installs(pre, post, add),
        Event::Register { tid } => handler::registers(pre, post, tid),
        Event::Unregister => handler::registers(pre, post, 0),
        Event::Take => exists|taken: Option<CapturedDump>| handler::takes(pre, post, taken),
        Event::Exception { info, tid, read } => if handler::intercepted(pre.worker_tid, info, tid) {
            handler::captures(pre, post, info->0.record->0, info->0.context->0, tid, read)
        } else {
            post == pre
        },
    }
}

/// A run from process start.
pub open spec fn history(states: Seq<CrashState>, events: Seq<Event>) -> bool {
    &&& states.len() == events.len() + 1
    &&& states[0].is_initial()
    &&& forall|i: int|
        0 <= i < events.len() ==> step(states[i], #[trigger] events[i], states[i + 1])
}

/// The `i`-th event is an exception that was intercepted.
pub open spec fn crash_at(states: Seq<CrashState>, events: Seq<Event>, i: int) -> bool {
    events[i] matches Event::Exception { info, tid, .. } && handler::intercepted(
        states[i].worker_tid,
        info,
        tid,
    )
}

/// The state is well formed at all times, so every dump that is handed out is of a recoverable
/// exception on a real thread.
pub proof fn law_always_well_formed(states: Seq<CrashState>, events: Seq<Event>, n: int)
    requires
        history(states, events),
        0 <= n < states.len(),
    ensures
        states[n].wf(),
        states[n].dump.code != 0xC000_0005u32 ==> states[n].dump.access_kind == 0
            && states[n].dump.access_addr == 0,
        forall|post: CrashState, taken: Option<CapturedDump>|
            handler::takes(states[n], post, taken) && taken is Some ==> seh::recoverable(
                taken->0.code,
            ) && taken->0.thread_id != 0,
    decreases n,
{
    if n > 0 {
        law_always_well_formed(states, events, n - 1);
        assert(step(states[n - 1], events[n - 1], states[n]));
    }
}

/// A crash waits in the buffer until it is taken or overwritten by the next: whoever takes it gets
/// what was recorded.
pub proof fn law_crash_waits(states: Seq<CrashState>, events: Seq<Event>, i: int, n: int)
    requires
        history(states, events),
        0 <= i < n < states.len(),
        crash_at(states, events, i),
        forall|j: int|
            i < j < n ==> !(#[trigger] events[j] is Take) && !crash_at(states, events, j),
    ensures
        states[n].captured,
        states[n].dump == states[i + 1].dump,
        events[i] matches Event::Exception { info, tid, read } && handler::records(
            states[i].dump,
            states[n].dump,
            info->0.record->0,
            info->0.context->0,
            tid,
            read,
        ),
        forall|post: CrashState, taken: Option<CapturedDump>|
            handler::takes(states[n], post, taken) ==> taken == Some(states[i + 1].dump),
        events[i] matches Event::Exception { info, tid, .. } && {
            let record = info->0.record->0;
            let context = info->0.context->0;
            &&& states[n].dump.code == record.code
            &&& states[n].dump.flags == record.flags
            &&& states[n].dump.thread_id == tid
            &&& states[n].dump.rip == context.rip
            &&& states[n].dump.rsp == context.rsp
            &&& states[n].dump.rbp == context.rbp
            &&& states[n].dump.rax == context.rax
            &&& states[n].dump.rbx == context.rbx
            &&& states[n].dump.rcx == context.rcx
            &&& states[n].dump.rdx == context.rdx
            &&& states[n].dump.rsi == context.rsi
            &&& states[n].dump.rdi == context.rdi
            &&& states[n].dump.r8 == context.r8
            &&& states[n].dump.r9 == context.r9
            &&& states[n].dump.r10 == context.r10
            &&& states[n].dump.r11 == context.r11
            &&& states[n].dump.r12 == context.r12
            &&& states[n].dump.r13 == context.r13
            &&& states[n].dump.r14 == context.r14
            &&& states[n].dump.r15 == context.r15
            &&& record.code == 0xC000_0005u32 && record.number_parameters >= 2 ==> states[n].dump.access_kind
                == record.information[0] % 0x1_0000_0000 && states[n].dump.access_addr == record.information[1]
            &&& record.code != 0xC000_0005u32 || record.number_parameters < 2 ==> states[n].dump.access_kind == 0
                && states[n].dump.access_addr == 0
        },
    decreases n,
{
    assert(step(states[n - 1], events[n - 1], states[n]));
    if n - 1 > i {
        law_crash_waits(states, events, i, n - 1);
    }
}

/// The buffer is full exactly when there was a crash and nobody has taken a dump since, and then,
/// and only then, taking gives a dump.
pub proof fn law_full_iff_untaken_crash(states: Seq<CrashState>, events: Seq<Event>, n: int)
    requires
        history(states, events),
        0 <= n < states.len(),
    ensures
        states[n].captured <==> exists|i: int|
            0 <= i < n && #[trigger] crash_at(states, events, i) && (forall|j: int|
                i < j < n ==> !(#[trigger] events[j] is Take)),
        forall|post: CrashState, taken: Option<CapturedDump>|
            handler::takes(states[n], post, taken) ==> (taken is Some <==> states[n].captured),
    decreases n,
{
    if n > 0 {
        law_full_iff_untaken_crash(states, events, n - 1);
        assert(step(states[n - 1], events[n - 1], states[n]));
        if crash_at(states, events, n - 1) {
            assert(states[n].captured);
        } else if events[n - 1] is Take {
            assert(!states[n].captured);
        } else {
            assert(states[n].captured == states[n - 1].captured);
            if states[n].captured {
                let i: int = choose|i: int|
                    0 <= i < n - 1 && #[trigger] crash_at(states, events, i) && (forall|j: int|
                        i < j < n - 1 ==> !(#[trigger] events[j] is Take));
                assert(crash_at(states, events, i));
            }
        }
    }
}

/// A dump is handed out once: taking again gives nothing and changes nothing.
pub proof fn law_taken_once(
    a: CrashState,
    b: CrashState,
    c: CrashState,
    first: Option<CapturedDump>,
    second: Option<CapturedDump>,
)
    requires
        handler::takes(a, b, first),
        handler::takes(b, c, second),
    ensures
        second is None,
        c == b,
{
}

/// Taking right after a capture gives the crash that was captured.
pub proof fn law_take_gives_capture(
    pre: CrashState,
    full: CrashState,
    post: CrashState,
    record: handler::ExceptionRecord,
    context: handler::Context,
    tid: u32,
    read: StackRead,
    taken: Option<CapturedDump>,
)
    requires
        handler::captures(pre, full, record, context, tid, read),
        handler::takes(full, post, taken),
    ensures
        taken is Some,
        handler::records(pre.dump, taken->0, record, context, tid, read),
        taken->0.code == record.code,
        taken->0.flags == record.flags,
        taken->0.thread_id == tid,
        taken->0.rip == context.rip,
        taken->0.rsp == context.rsp,
        taken->0.rbp == context.rbp,
        taken->0.rax == context.rax,
        taken->0.rbx == context.rbx,
        taken->0.rcx == context.rcx,
        taken->0.rdx == context.rdx,
        taken->0.rsi == context.rsi,
        taken->0.rdi == context.rdi,
        taken->0.r8 == context.r8,
        taken->0.r9 == context.r9,
        taken->0.r10 == context.r10,
        taken->0.r11 == context.r11,
        taken->0.r12 == context.r12,
        taken->0.r13 == context.r13,
        taken->0.r14 == context.r14,
        taken->0.r15 == context.r15,
        record.code == 0xC000_0005u32 && record.number_parameters >= 2 ==> taken->0.access_kind
            == record.information[0] % 0x1_0000_0000 && taken->0.access_addr == record.information[1],
        record.code != 0xC000_0005u32 || record.number_parameters < 2 ==> taken->0.access_kind == 0
            && taken->0.access_addr == 0,
{
}

/// Installing is idempotent: the handler is added on the first call only, and another call changes
/// nothing.
pub proof fn law_install_idempotent(
    a: CrashState,
    b: CrashState,
    c: CrashState,
    first: Option<u32>,
    second: Option<u32>,
)
    requires
        handler::installs(a, b, first),
        handler::installs(b, c, second),
    ensures
        second is None,
        c == b,
{
}

/// In a whole run the handler is added at most once.
pub proof fn law_added_once(states: Seq<CrashState>, events: Seq<Event>, i: int, n: int)
    requires
        history(states, events),
        0 <= i < n < states.len(),
        events[i] is Install,
    ensures
        states[n].installed,
        forall|post: CrashState, add: Option<u32>|
            handler::installs(states[n], post, add) ==> add is None,
    decreases n,
{
    assert(step(states[n - 1], events[n - 1], states[n]));
    if n - 1 > i {
        law_added_once(states, events, i, n - 1);
    }
}

/// Exceptions on any thread but the registered worker are left alone, and so are all exceptions
/// while no worker is registered.
pub proof fn law_only_the_worker(state: CrashState, info: Option<ExceptionPointers>, tid: u32)
    ensures
        tid != state.worker_tid ==> !handler::intercepted(state.worker_tid, info, tid),
        state.worker_tid == 0 ==> !handler::intercepted(state.worker_tid, info, tid),
{
}

/// Unregistering, or registering thread zero, clears the registration: nothing is intercepted until
/// a thread registers again.
pub proof fn law_unregistered_is_left_alone(
    states: Seq<CrashState>,
    events: Seq<Event>,
    i: int,
    n: int,
)
    requires
        history(states, events),
        0 <= i < n < events.len(),
        events[i] is Unregister || events[i] == (Event::Register { tid: 0 }),
        forall|j: int| i < j < n ==> !(#[trigger] events[j] is Register),
    ensures
        states[n].worker_tid == 0,
        !crash_at(states, events, n),
        events[n] is Exception ==> states[n + 1] == states[n],
    decreases n,
{
    assert(step(states[n - 1], events[n - 1], states[n]));
    assert(step(states[n], events[n], states[n + 1]));
    if n - 1 > i {
        law_unregistered_is_left_alone(states, events, i, n - 1);
    }
}

/// Every recoverable exception has a name of its own, and only codes without a name share one.
pub proof fn law_names_tell_codes_apart(a: u32, b: u32)
    ensures
        seh::recoverable(a) ==> seh::name_of(a) != "unknown SEH code"@,
        seh::name_of(a) == seh::name_of(b) && seh::name_of(a) != "unknown SEH code"@ ==> a == b,
{
    reveal_strlit("ACCESS_VIOLATION");
    reveal_strlit("ILLEGAL_INSTRUCTION");
    reveal_strlit("INT_DIVIDE_BY_ZERO");
    reveal_strlit("PRIV_INSTRUCTION");
    reveal_strlit("STACK_OVERFLOW");
    reveal_strlit("unknown SEH code");
    let na: Seq<char> = seh::name_of(a);
    let nb: Seq<char> = seh::name_of(b);
    let nu: Seq<char> = "unknown SEH code"@;
    assert(na == nb ==> na.len() == nb.len() && na[0] == nb[0]);
    assert(na == nu ==> na[0] == nu[0]);
}

/// Exactly four exceptions are recoverable: access violation, illegal instruction, integer division
/// by zero and privileged instruction.
pub proof fn law_recoverable_codes(code: u32)
    ensures
        seh::recoverable(code) <==> code == 0xC000_0005u32 || code == 0xC000_001Du32 || code
            == 0xC000_0094u32 || code == 0xC000_0096u32,
{
}

/// Each name belongs to one status code, and all other codes are unknown.
pub proof fn law_name_of_each_code(code: u32)
    ensures
        seh::name_of(code) == "ACCESS_VIOLATION"@ <==> code == 0xC000_0005u32,
        seh::name_of(code) == "ILLEGAL_INSTRUCTION"@ <==> code == 0xC000_001Du32,
        seh::name_of(code) == "INT_DIVIDE_BY_ZERO"@ <==> code == 0xC000_0094u32,
        seh::name_of(code) == "PRIV_INSTRUCTION"@ <==> code == 0xC000_0096u32,
        seh::name_of(code) == "STACK_OVERFLOW"@ <==> code == 0xC000_00FDu32,
        seh::name_of(code) == "unknown SEH code"@ <==> code != 0xC000_0005u32 && code
            != 0xC000_001Du32 && code != 0xC000_0094u32 && code != 0xC000_0096u32 && code
            != 0xC000_00FDu32,
{
    reveal_strlit("ACCESS_VIOLATION");
    reveal_strlit("ILLEGAL_INSTRUCTION");
    reveal_strlit("INT_DIVIDE_BY_ZERO");
    reveal_strlit("PRIV_INSTRUCTION");
    reveal_strlit("STACK_OVERFLOW");
    reveal_strlit("unknown SEH code");
    assert("ACCESS_VIOLATION"@.len() == 16 && "ACCESS_VIOLATION"@[0] == 'A');
    assert("ILLEGAL_INSTRUCTION"@.len() == 19);
    assert("INT_DIVIDE_BY_ZERO"@.len() == 18);
    assert("PRIV_INSTRUCTION"@.len() == 16 && "PRIV_INSTRUCTION"@[0] == 'P');
    assert("STACK_OVERFLOW"@.len() == 14);
    assert("unknown SEH code"@.len() == 16 && "unknown SEH code"@[0] == 'u');
}

/// The exit code of a crashed worker tells it from one that returned and from one that panicked.
pub proof fn law_crash_exit_code_is_its_own()
    ensures
        handler::CRASH_EXIT_CODE == 2,
        handler::CRASH_EXIT_CODE != 0,
        handler::CRASH_EXIT_CODE != 1,
{
}

/// A blank dump is zero in every field.
pub proof fn law_blank_dump(d: CapturedDump)
    ensures
        d.is_zero() <==> {
            &&& d.code == 0 && d.flags == 0 && d.thread_id == 0
            &&& d.rip == 0
            &&& d.rsp == 0
            &&& d.rbp == 0
            &&& d.rax == 0
            &&& d.rbx == 0
            &&& d.rcx == 0
            &&& d.rdx == 0
            &&& d.rsi == 0
            &&& d.rdi == 0
            &&& d.r8 == 0
            &&& d.r9 == 0
            &&& d.r10 == 0
            &&& d.r11 == 0
            &&& d.r12 == 0
            &&& d.r13 == 0
            &&& d.r14 == 0
            &&& d.r15 == 0
            &&& d.access_addr == 0 && d.access_kind == 0
            &&& forall|i: int| 0 <= i < 16 ==> #[trigger] d.stack[i] == 0
        },
{
}

/// At process start the handler is not installed, no worker is registered and nothing waits.
pub proof fn law_process_start(state: CrashState)
    requires
        state.is_initial(),
    ensures
        !state.installed,
        state.worker_tid == 0,
        !state.captured,
        state.dump.code == 0,
        forall|post: CrashState, taken: Option<CapturedDump>|
            handler::takes(state, post, taken) ==> taken is None,
        forall|info: Option<ExceptionPointers>, tid: u32| !handler::intercepted(
            state.worker_tid,
            info,
            tid,
        ),
        forall|post: CrashState, add: Option<u32>|
            handler::installs(state, post, add) ==> add == Some(1u32),
{
}

/// Installing touches only the mark that it was done. The handler goes in front of all others, and
/// is added if and only if it was not there.
pub proof fn law_install_effect(pre: CrashState, post: CrashState, add: Option<u32>)
    requires
        handler::installs(pre, post, add),
    ensures
        post.installed,
        post.worker_tid == pre.worker_tid,
        post.captured == pre.captured,
        post.dump == pre.dump,
        pre.installed ==> add is None,
        !pre.installed ==> add == Some(1u32),
{
}

/// Registering stores the whole thread ID, and nothing else changes. Two registrations give the
/// same worker only for the same thread.
pub proof fn law_register_effect(
    pre: CrashState,
    post: CrashState,
    tid: u32,
    other_post: CrashState,
    other_tid: u32,
)
    requires
        handler::registers(pre, post, tid),
        handler::registers(pre, other_post, other_tid),
    ensures
        post.worker_tid == tid,
        post.installed == pre.installed,
        post.captured == pre.captured,
        post.dump == pre.dump,
        post == other_post <==> tid == other_tid,
{
}

/// From its registration until the next call that registers or unregisters, `tid` is the worker: a
/// complete report of a recoverable exception on it is intercepted, and on no other thread.
pub proof fn law_registered_until_changed(
    states: Seq<CrashState>,
    events: Seq<Event>,
    i: int,
    n: int,
    tid: u32,
)
    requires
        history(states, events),
        0 <= i < n < states.len(),
        events[i] == (Event::Register { tid }),
        forall|j: int|
            i < j < n ==> !(#[trigger] events[j] is Register) && !(events[j] is Unregister),
    ensures
        states[n].worker_tid == tid,
        forall|record: handler::ExceptionRecord, context: handler::Context, t: u32|
            handler::intercepted(
                states[n].worker_tid,
                Some(ExceptionPointers { record: Some(record), context: Some(context) }),
                t,
            ) <==> {
                &&& record.code == 0xC000_0005u32 || record.code == 0xC000_001Du32 || record.code
                    == 0xC000_0094u32 || record.code == 0xC000_0096u32
                &&& t == tid
                &&& t != 0
            },
    decreases n,
{
    assert(step(states[n - 1], events[n - 1], states[n]));
    if n - 1 > i {
        law_registered_until_changed(states, events, i, n - 1, tid);
    }
}

/// The registration changes by registering and unregistering only.
pub proof fn law_registration_changes(pre: CrashState, event: Event, post: CrashState)
    requires
        step(pre, event, post),
    ensures
        event matches Event::Register { tid } ==> post.worker_tid == tid,
        event is Unregister ==> post.worker_tid == 0,
        !(event is Register) && !(event is Unregister) ==> post.worker_tid == pre.worker_tid,
{
}

/// Taking changes nothing but that the dump waits no more; it gives the dump as it stands in the
/// buffer, if and only if that waited.
pub proof fn law_take_effect(pre: CrashState, post: CrashState, taken: Option<CapturedDump>)
    requires
        handler::takes(pre, post, taken),
    ensures
        !post.captured,
        post.installed == pre.installed,
        post.worker_tid == pre.worker_tid,
        post.dump == pre.dump,
        pre.captured ==> taken == Some(pre.dump),
        !pre.captured ==> taken is None,
{
}

/// An exception is intercepted if and only if it is one of the four recoverable ones, on the
/// registered worker. The flags, the parameters and the registers have no say.
pub proof fn law_interception_decided_by_code_and_thread(
    worker_tid: u32,
    record: handler::ExceptionRecord,
    context: handler::Context,
    tid: u32,
)
    ensures
        handler::intercepted(
            worker_tid,
            Some(ExceptionPointers { record: Some(record), context: Some(context) }),
            tid,
        ) <==> {
            &&& record.code == 0xC000_0005u32 || record.code == 0xC000_001Du32 || record.code
                == 0xC000_0094u32 || record.code == 0xC000_0096u32
            &&& tid == worker_tid
            &&& tid != 0
        },
{
}

/// Two complete reports with the same code are treated alike, whatever else they say.
pub proof fn law_same_code_same_decision(
    worker_tid: u32,
    a: ExceptionPointers,
    b: ExceptionPointers,
    tid: u32,
)
    requires
        a.record is Some,
        b.record is Some,
        a.context is Some,
        b.context is Some,
        a.record->0.code == b.record->0.code,
    ensures
        handler::intercepted(worker_tid, Some(a), tid) == handler::intercepted(
            worker_tid,
            Some(b),
            tid,
        ),
{
}

/// An exception without a complete report is left alone.
pub proof fn law_incomplete_report_is_left_alone(
    worker_tid: u32,
    info: Option<ExceptionPointers>,
    tid: u32,
)
    requires
        info is None || info->0.record is None || info->0.context is None,
    ensures
        !handler::intercepted(worker_tid, info, tid),
{
}

/// Whatever the code and whatever the buffer held, a capture holds the report, the thread and every
/// register of the faulting context. The access details are those of the report for an access
/// violation with two parameters or more, and zero otherwise.
pub proof fn law_capture_effect(
    pre: CrashState,
    post: CrashState,
    record: handler::ExceptionRecord,
    context: handler::Context,
    tid: u32,
    read: StackRead,
)
    requires
        handler::captures(pre, post, record, context, tid, read),
    ensures
        post.captured,
        post.installed == pre.installed,
        post.worker_tid == pre.worker_tid,
        post.dump.code == record.code,
        post.dump.flags == record.flags,
        post.dump.thread_id == tid,
        post.dump.rip == context.rip,
        post.dump.rsp == context.rsp,
        post.dump.rbp == context.rbp,
        post.dump.rax == context.rax,
        post.dump.rbx == context.rbx,
        post.dump.rcx == context.rcx,
        post.dump.rdx == context.rdx,
        post.dump.rsi == context.rsi,
        post.dump.rdi == context.rdi,
        post.dump.r8 == context.r8,
        post.dump.r9 == context.r9,
        post.dump.r10 == context.r10,
        post.dump.r11 == context.r11,
        post.dump.r12 == context.r12,
        post.dump.r13 == context.r13,
        post.dump.r14 == context.r14,
        post.dump.r15 == context.r15,
        record.code == 0xC000_0005u32 && record.number_parameters >= 2 ==> post.dump.access_kind
            == record.information[0] % 0x1_0000_0000 && post.dump.access_addr == record.information[1],
        record.code != 0xC000_0005u32 || record.number_parameters < 2 ==> post.dump.access_kind == 0
            && post.dump.access_addr == 0,
{
}

/// What a capture shows of the stack: the bytes that were read, and elsewhere the bytes that the
/// buffer held.
pub proof fn law_capture_of_stack(
    pre: CrashState,
    post: CrashState,
    record: handler::ExceptionRecord,
    context: handler::Context,
    tid: u32,
    read: StackRead,
    k: int,
)
    requires
        handler::captures(pre, post, record, context, tid, read),
        0 <= k < 128,
    ensures
        k < read.count ==> (post.dump.stack[k / 8] as int / pow(256, (k % 8) as nat)) % 256
            == read.bytes[k],
        k >= read.count ==> (post.dump.stack[k / 8] as int / pow(256, (k % 8) as nat)) % 256 == (
        pre.dump.stack[k / 8] as int / pow(256, (k % 8) as nat)) % 256,
{
    stack::law_stack_holds_what_was_read(pre.dump.stack, read, post.dump.stack, k);
}

/// After a full read the capture does not depend on what the state was before.
pub proof fn law_capture_forgets_the_past(
    pre: CrashState,
    post: CrashState,
    other_pre: CrashState,
    other_post: CrashState,
    record: handler::ExceptionRecord,
    context: handler::Context,
    tid: u32,
    read: StackRead,
)
    requires
        handler::captures(pre, post, record, context, tid, read),
        handler::captures(other_pre, other_post, record, context, tid, read),
        read.count >= 128,
    ensures
        post.dump == other_post.dump,
{
    assert(post.dump.stack =~= other_post.dump.stack);
}

/// Redirection sets the instruction pointer, whatever the exception was, and nothing else.
pub proof fn law_redirection(info: Option<ExceptionPointers>, rip: u64)
    requires
        info is Some,
        info->0.context is Some,
    ensures
        handler::redirected(info, rip) is Some,
        handler::redirected(info, rip)->0.record == info->0.record,
        handler::redirected(info, rip)->0.context is Some,
        handler::redirected(info, rip)->0.context->0.rip == rip,
        handler::redirected(info, rip)->0.context->0.rsp == info->0.context->0.rsp,
        handler::redirected(info, rip)->0.context->0.rbp == info->0.context->0.rbp,
        handler::redirected(info, rip)->0.context->0.rax == info->0.context->0.rax,
        handler::redirected(info, rip)->0.context->0.rbx == info->0.context->0.rbx,
        handler::redirected(info, rip)->0.context->0.rcx == info->0.context->0.rcx,
        handler::redirected(info, rip)->0.context->0.rdx == info->0.context->0.rdx,
        handler::redirected(info, rip)->0.context->0.rsi == info->0.context->0.rsi,
        handler::redirected(info, rip)->0.context->0.rdi == info->0.context->0.rdi,
        handler::redirected(info, rip)->0.context->0.r8 == info->0.context->0.r8,
        handler::redirected(info, rip)->0.context->0.r9 == info->0.context->0.r9,
        handler::redirected(info, rip)->0.context->0.r10 == info->0.context->0.r10,
        handler::redirected(info, rip)->0.context->0.r11 == info->0.context->0.r11,
        handler::redirected(info, rip)->0.context->0.r12 == info->0.context->0.r12,
        handler::redirected(info, rip)->0.context->0.r13 == info->0.context->0.r13,
        handler::redirected(info, rip)->0.context->0.r14 == info->0.context->0.r14,
        handler::redirected(info, rip)->0.context->0.r15 == info->0.context->0.r15,
{
}

} // verus!
