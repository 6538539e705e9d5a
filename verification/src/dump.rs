//! The machine state captured at a crash, and its text.

use vstd::prelude::*;
use vstd::string::*;

use crate::seh;
use crate::text;

verus! {

/// The state of the faulting thread at the moment of the exception. `stack` holds the sixteen
/// quadwords from `rsp` upwards; `access_kind` and `access_addr` tell what an access violation
/// tried to do, and are zero for every other exception.
#[derive(Clone, Copy, Debug, PartialEq, Eq)]
pub struct CapturedDump {
    pub code: u32,
    pub flags: u32,
    pub rip: u64,
    pub rsp: u64,
    pub rbp: u64,
    pub rax: u64,
    pub rbx: u64,
    pub rcx: u64,
    pub rdx: u64,
    pub rsi: u64,
    pub rdi: u64,
    pub r8: u64,
    pub r9: u64,
    pub r10: u64,
    pub r11: u64,
    pub r12: u64,
    pub r13: u64,
    pub r14: u64,
    pub r15: u64,
    pub stack: [u64; 16],
    pub access_addr: u64,
    pub access_kind: u32,
    pub thread_id: u32,
}

impl CapturedDump {
    /// Every field is zero.
    pub open spec fn is_zero(self) -> bool {
        &&& self.code == 0
        &&& self.flags == 0
        &&& self.rip == 0
        &&& self.rsp == 0
        &&& self.rbp == 0
        &&& self.rax == 0
        &&& self.rbx == 0
        &&& self.rcx == 0
        &&& self.rdx == 0
        &&& self.rsi == 0
        &&& self.rdi == 0
        &&& self.r8 == 0
        &&& self.r9 == 0
        &&& self.r10 == 0
        &&& self.r11 == 0
        &&& self.r12 == 0
        &&& self.r13 == 0
        &&& self.r14 == 0
        &&& self.r15 == 0
        &&& forall|i: int| 0 <= i < 16 ==> #[trigger] self.stack[i] == 0
        &&& self.access_addr == 0
        &&& self.access_kind == 0
        &&& self.thread_id == 0
    }

    /// The blank dump that the buffer holds before the first crash.
    pub fn zero() -> (d: Self)
        ensures
            d.is_zero(),
            d.code == 0 && d.flags == 0 && d.thread_id == 0,
            d.rip == 0,
            d.rsp == 0,
            d.rbp == 0,
            d.rax == 0,
            d.rbx == 0,
            d.rcx == 0,
            d.rdx == 0,
            d.rsi == 0,
            d.rdi == 0,
            d.r8 == 0,
            d.r9 == 0,
            d.r10 == 0,
            d.r11 == 0,
            d.r12 == 0,
            d.r13 == 0,
            d.r14 == 0,
            d.r15 == 0,
            d.access_addr == 0 && d.access_kind == 0,
            forall|i: int| 0 <= i < 16 ==> #[trigger] d.stack[i] == 0,
    {
        CapturedDump {
            code: 0,
            flags: 0,
            rip: 0,
            rsp: 0,
            rbp: 0,
            rax: 0,
            rbx: 0,
            rcx: 0,
            rdx: 0,
            rsi: 0,
            rdi: 0,
            r8: 0,
            r9: 0,
            r10: 0,
            r11: 0,
            r12: 0,
            r13: 0,
            r14: 0,
            r15: 0,
            stack: [0u64; 16],
            access_addr: 0,
            access_kind: 0,
            thread_id: 0,
        }
    }
}

/// A status code as text: `0x` and eight digits.
pub open spec fn code_text(c: u32) -> Seq<char> {
    text::hex_text(c as nat, 8)
}

/// The word for what an access violation tried to do.
pub open spec fn access_word(kind: u32) -> Seq<char> {
    if kind == 0 {
        "read"@
    } else if kind == 1 {
        "write"@
    } else if kind == 8 {
        "execute"@
    } else {
        "?"@
    }
}

/// The line that names the exception.
pub open spec fn code_line(d: CapturedDump) -> Seq<char> {
    "exception code: "@ + code_text(d.code) + "  ("@ + seh::name_of(d.code) + ")\n"@
}

/// The line that tells what was accessed; only an access violation has it.
pub open spec fn access_line(d: CapturedDump) -> Seq<char> {
    if d.code == seh::ACCESS_VIOLATION {
        "access:         "@ + access_word(d.access_kind) + " at "@ + text::hex_text(
            d.access_addr as nat,
            16,
        ) + "\n"@
    } else {
        Seq::empty()
    }
}

/// The line that names the thread.
pub open spec fn thread_line(d: CapturedDump) -> Seq<char> {
    "thread id:      "@ + text::dec_text(d.thread_id as nat) + "\n"@
}

/// A line with two values, each after its label and with the given number of digits.
pub open spec fn pair_line(
    left: Seq<char>,
    l: nat,
    right: Seq<char>,
    r: nat,
    right_width: nat,
) -> Seq<char> {
    left + text::hex_text(l, 16) + right + text::hex_text(r, right_width) + "\n"@
}

/// The lines that show the registers, two to a line.
pub open spec fn register_lines(d: CapturedDump) -> Seq<char> {
    pair_line("rip = "@, d.rip as nat, "   flags = "@, d.flags as nat, 8)
        + pair_line("rax = "@, d.rax as nat, "   rbx = "@, d.rbx as nat, 16)
        + pair_line("rcx = "@, d.rcx as nat, "   rdx = "@, d.rdx as nat, 16)
        + pair_line("rsi = "@, d.rsi as nat, "   rdi = "@, d.rdi as nat, 16)
        + pair_line("rbp = "@, d.rbp as nat, "   rsp = "@, d.rsp as nat, 16)
        + pair_line("r8  = "@, d.r8 as nat, "   r9  = "@, d.r9 as nat, 16)
        + pair_line("r10 = "@, d.r10 as nat, "   r11 = "@, d.r11 as nat, 16)
        + pair_line("r12 = "@, d.r12 as nat, "   r13 = "@, d.r13 as nat, 16)
        + pair_line("r14 = "@, d.r14 as nat, "   r15 = "@, d.r15 as nat, 16)
}

/// The line that shows the quadword `q` at byte offset `8 * i` from `rsp`.
pub open spec fn stack_line(i: nat, q: u64) -> Seq<char> {
    "  [rsp+"@ + text::right_aligned(text::dec_text(8 * i), 3) + "] "@ + text::hex_text(
        q as nat,
        16,
    ) + "\n"@
}

/// The lines that show the first `n` quadwords of the stack.
pub open spec fn stack_lines(stack: Seq<u64>, n: nat) -> Seq<char>
    decreases n,
{
    if n == 0 {
        Seq::empty()
    } else {
        stack_lines(stack, (n - 1) as nat) + stack_line((n - 1) as nat, stack[n - 1])
    }
}

/// The closing notice.
pub open spec fn notice() -> Seq<char> {
    "Worker thread has been terminated and a fresh session\n"@
        + "booted below.  Any user definitions from before the\n"@ + "crash are gone.\n"@
}

/// The whole text of a dump.
pub open spec fn dump_text(d: CapturedDump) -> Seq<char> {
    "kind:           SEH exception (worker thread)\n"@ + code_line(d) + access_line(d)
        + thread_line(d) + "\n"@ + register_lines(d) + "\n"@
        + "stack (16 qwords from rsp):\n"@ + stack_lines(d.stack@, 16) + "\n"@ + notice()
}

/// A status code as text: `0x` and eight digits.
pub fn format_code(c: u32) -> (s: String)
    ensures
        s@ == code_text(c),
{
    let mut s = String::new();
    text::push_hex(&mut s, c as u64, 8);
    assert(s@ =~= code_text(c));
    s
}

fn access_kind_word(kind: u32) -> (word: &'static str)
    ensures
        word@ == access_word(kind),
{
    match kind {
        0 => "read",
        1 => "write",
        8 => "execute",
        _ => "?",
    }
}

fn push_code_line(s: &mut String, d: &CapturedDump)
    ensures
        final(s)@ == old(s)@ + code_line(*d),
{
    s.append("exception code: ");
    s.append(format_code(d.code).as_str());
    s.append("  (");
    s.append(seh::exception_name(d.code));
    s.append(")\n");
    assert(s@ =~= old(s)@ + code_line(*d));
}

fn push_access_line(s: &mut String, d: &CapturedDump)
    ensures
        final(s)@ == old(s)@ + access_line(*d),
{
    if seh::is_access_violation(d.code) {
        s.append("access:         ");
        s.append(access_kind_word(d.access_kind));
        s.append(" at ");
        text::push_hex(s, d.access_addr, 16);
        s.append("\n");
    }
    assert(s@ =~= old(s)@ + access_line(*d));
}

fn push_thread_line(s: &mut String, d: &CapturedDump)
    ensures
        final(s)@ == old(s)@ + thread_line(*d),
{
    s.append("thread id:      ");
    text::push_dec(s, d.thread_id as u64);
    s.append("\n");
    assert(s@ =~= old(s)@ + thread_line(*d));
}

fn push_pair_line(s: &mut String, left: &str, l: u64, right: &str, r: u64, right_width: usize)
    ensures
        final(s)@ == old(s)@ + pair_line(left@, l as nat, right@, r as nat, right_width as nat),
{
    s.append(left);
    text::push_hex(s, l, 16);
    s.append(right);
    text::push_hex(s, r, right_width);
    s.append("\n");
    assert(s@ =~= old(s)@ + pair_line(left@, l as nat, right@, r as nat, right_width as nat));
}

fn push_register_lines(s: &mut String, d: &CapturedDump)
    ensures
        final(s)@ == old(s)@ + register_lines(*d),
{
    push_pair_line(s, "rip = ", d.rip, "   flags = ", d.flags as u64, 8);
    push_pair_line(s, "rax = ", d.rax, "   rbx = ", d.rbx, 16);
    push_pair_line(s, "rcx = ", d.rcx, "   rdx = ", d.rdx, 16);
    push_pair_line(s, "rsi = ", d.rsi, "   rdi = ", d.rdi, 16);
    push_pair_line(s, "rbp = ", d.rbp, "   rsp = ", d.rsp, 16);
    push_pair_line(s, "r8  = ", d.r8, "   r9  = ", d.r9, 16);
    push_pair_line(s, "r10 = ", d.r10, "   r11 = ", d.r11, 16);
    push_pair_line(s, "r12 = ", d.r12, "   r13 = ", d.r13, 16);
    push_pair_line(s, "r14 = ", d.r14, "   r15 = ", d.r15, 16);
    assert(s@ =~= old(s)@ + register_lines(*d));
}

fn push_stack_lines(s: &mut String, stack: &[u64; 16])
    ensures
        final(s)@ == old(s)@ + stack_lines(stack@, 16),
{
    let mut i: usize = 0;
    while i < 16
        invariant
            i <= 16,
            s@ == old(s)@ + stack_lines(stack@, i as nat),
        decreases 16 - i,
    {
        s.append("  [rsp+");
        text::push_dec_aligned(s, i as u64 * 8, 3);
        s.append("] ");
        text::push_hex(s, stack[i], 16);
        s.append("\n");
        i = i + 1;
        assert(s@ =~= old(s)@ + stack_lines(stack@, i as nat));
    }
}

/// The dump as a block of lines, for display.
pub fn format_dump(d: &CapturedDump) -> (s: String)
    ensures
        s@ == dump_text(*d),
{
    let mut s = String::new();
    s.append("kind:           SEH exception (worker thread)\n");
    push_code_line(&mut s, d);
    push_access_line(&mut s, d);
    push_thread_line(&mut s, d);
    s.append("\n");
    push_register_lines(&mut s, d);
    s.append("\n");
    s.append("stack (16 qwords from rsp):\n");
    push_stack_lines(&mut s, &d.stack);
    s.append("\n");
    s.append("Worker thread has been terminated and a fresh session\n");
    s.append("booted below.  Any user definitions from before the\n");
    s.append("crash are gone.\n");
    assert(s@ =~= dump_text(*d));
    s
}

} // verus!
