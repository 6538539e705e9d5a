use crash_handler::seh::{
    is_access_violation, is_recoverable, ACCESS_VIOLATION, CONTINUE_EXECUTION, CONTINUE_SEARCH,
    ILLEGAL_INSTRUCTION, INT_DIVIDE_BY_ZERO, PRIV_INSTRUCTION, STACK_OVERFLOW,
};
use crash_handler::text::{push_dec, push_dec_aligned, push_hex};
use crash_handler::{exception_name, format_code, format_dump, CapturedDump};
use windows::Win32::Foundation as foundation;
use windows::Win32::System::Diagnostics::Debug as debug;

fn sample() -> CapturedDump {
    let mut d = CapturedDump::zero();
    d.code = 0xC000_0005;
    d.flags = 0;
    d.rip = 0x7ff6_1234_5678;
    d.rsp = 0x12_f000;
    d.rbp = 0xdead_beef;
    d.rax = u64::MAX;
    d.rbx = 1;
    d.rcx = 2;
    d.rdx = 3;
    d.rsi = 4;
    d.rdi = 5;
    d.r8 = 8;
    d.r9 = 9;
    d.r10 = 10;
    d.r11 = 11;
    d.r12 = 12;
    d.r13 = 13;
    d.r14 = 14;
    d.r15 = 0xfedc_ba98_7654_3210;
    for i in 0..16 {
        d.stack[i] = 0x100 * i as u64;
    }
    d.access_addr = 0x10;
    d.access_kind = 1;
    d.thread_id = 4242;
    d
}

/// The dump written with the standard formatter.
fn formatter_text(d: &CapturedDump) -> String {
    let mut s = String::new();
    s.push_str("kind:           SEH exception (worker thread)\n");
    s.push_str(&format!("exception code: 0x{:08x}  ({})\n", d.code, exception_name(d.code)));
    if d.code == ACCESS_VIOLATION {
        let kind = match d.access_kind {
            0 => "read",
            1 => "write",
            8 => "execute",
            _ => "?",
        };
        s.push_str(&format!("access:         {kind} at {:#018x}\n", d.access_addr));
    }
    s.push_str(&format!("thread id:      {}\n\n", d.thread_id));
    s.push_str(&format!("rip = {:#018x}   flags = {:#010x}\n", d.rip, d.flags));
    s.push_str(&format!("rax = {:#018x}   rbx = {:#018x}\n", d.rax, d.rbx));
    s.push_str(&format!("rcx = {:#018x}   rdx = {:#018x}\n", d.rcx, d.rdx));
    s.push_str(&format!("rsi = {:#018x}   rdi = {:#018x}\n", d.rsi, d.rdi));
    s.push_str(&format!("rbp = {:#018x}   rsp = {:#018x}\n", d.rbp, d.rsp));
    s.push_str(&format!("r8  = {:#018x}   r9  = {:#018x}\n", d.r8, d.r9));
    s.push_str(&format!("r10 = {:#018x}   r11 = {:#018x}\n", d.r10, d.r11));
    s.push_str(&format!("r12 = {:#018x}   r13 = {:#018x}\n", d.r12, d.r13));
    s.push_str(&format!("r14 = {:#018x}   r15 = {:#018x}\n", d.r14, d.r15));
    s.push_str("\nstack (16 qwords from rsp):\n");
    for (i, qw) in d.stack.iter().enumerate() {
        s.push_str(&format!("  [rsp+{:>3}] {:#018x}\n", i * 8, qw));
    }
    s.push_str("\nWorker thread has been terminated and a fresh session\n");
    s.push_str("booted below.  Any user definitions from before the\n");
    s.push_str("crash are gone.\n");
    s
}

#[test]
fn dump_of_an_access_violation() {
    let expected = "kind:           SEH exception (worker thread)
exception code: 0xc0000005  (ACCESS_VIOLATION)
access:         write at 0x0000000000000010
thread id:      4242

rip = 0x00007ff612345678   flags = 0x00000000
rax = 0xffffffffffffffff   rbx = 0x0000000000000001
rcx = 0x0000000000000002   rdx = 0x0000000000000003
rsi = 0x0000000000000004   rdi = 0x0000000000000005
rbp = 0x00000000deadbeef   rsp = 0x000000000012f000
r8  = 0x0000000000000008   r9  = 0x0000000000000009
r10 = 0x000000000000000a   r11 = 0x000000000000000b
r12 = 0x000000000000000c   r13 = 0x000000000000000d
r14 = 0x000000000000000e   r15 = 0xfedcba9876543210

stack (16 qwords from rsp):
  [rsp+  0] 0x0000000000000000
  [rsp+  8] 0x0000000000000100
  [rsp+ 16] 0x0000000000000200
  [rsp+ 24] 0x0000000000000300
  [rsp+ 32] 0x0000000000000400
  [rsp+ 40] 0x0000000000000500
  [rsp+ 48] 0x0000000000000600
  [rsp+ 56] 0x0000000000000700
  [rsp+ 64] 0x0000000000000800
  [rsp+ 72] 0x0000000000000900
  [rsp+ 80] 0x0000000000000a00
  [rsp+ 88] 0x0000000000000b00
  [rsp+ 96] 0x0000000000000c00
  [rsp+104] 0x0000000000000d00
  [rsp+112] 0x0000000000000e00
  [rsp+120] 0x0000000000000f00

Worker thread has been terminated and a fresh session
booted below.  Any user definitions from before the
crash are gone.
";
    assert_eq!(format_dump(&sample()), expected);
}

#[test]
fn text_agrees_with_the_standard_formatter() {
    for code in [
        ACCESS_VIOLATION,
        ILLEGAL_INSTRUCTION,
        INT_DIVIDE_BY_ZERO,
        PRIV_INSTRUCTION,
        STACK_OVERFLOW,
        0,
        u32::MAX,
    ] {
        for kind in [0, 1, 2, 8, u32::MAX] {
            for tid in [0, 9, 10, 99, 100, u32::MAX] {
                let mut d = sample();
                d.code = code;
                d.access_kind = kind;
                d.thread_id = tid;
                d.flags = tid;
                d.access_addr = u64::MAX - tid as u64;
                assert_eq!(format_dump(&d), formatter_text(&d));
            }
        }
    }
    assert_eq!(format_dump(&CapturedDump::zero()), formatter_text(&CapturedDump::zero()));
}

#[test]
fn only_an_access_violation_has_an_access_line() {
    let mut d = sample();
    assert!(format_dump(&d).contains("\naccess:         write at 0x0000000000000010\n"));
    d.access_kind = 0;
    assert!(format_dump(&d).contains("\naccess:         read at "));
    d.access_kind = 8;
    assert!(format_dump(&d).contains("\naccess:         execute at "));
    d.access_kind = 7;
    assert!(format_dump(&d).contains("\naccess:         ? at "));
    d.code = ILLEGAL_INSTRUCTION;
    assert!(!format_dump(&d).contains("access:"));
}

#[test]
fn text_tells_dumps_apart() {
    let a = sample();
    let mut b = a;
    assert_eq!(format_dump(&a), format_dump(&b));
    b.stack[15] = 1;
    assert_ne!(format_dump(&a), format_dump(&b));
    b = a;
    b.thread_id = 42;
    assert_ne!(format_dump(&a), format_dump(&b));
    b = a;
    b.flags = 1;
    assert_ne!(format_dump(&a), format_dump(&b));
}

#[test]
fn codes_as_text() {
    assert_eq!(format_code(0xC000_0005), "0xc0000005");
    assert_eq!(format_code(0), "0x00000000");
    assert_eq!(format_code(u32::MAX), "0xffffffff");
}

#[test]
fn names_of_codes() {
    assert_eq!(exception_name(0xC000_0005), "ACCESS_VIOLATION");
    assert_eq!(exception_name(0xC000_001D), "ILLEGAL_INSTRUCTION");
    assert_eq!(exception_name(0xC000_0094), "INT_DIVIDE_BY_ZERO");
    assert_eq!(exception_name(0xC000_0096), "PRIV_INSTRUCTION");
    assert_eq!(exception_name(0xC000_00FD), "STACK_OVERFLOW");
    assert_eq!(exception_name(0xC000_0006), "unknown SEH code");
    assert_eq!(exception_name(0), "unknown SEH code");
}

#[test]
fn recoverable_codes() {
    assert!(is_recoverable(0xC000_0005));
    assert!(is_recoverable(0xC000_001D));
    assert!(is_recoverable(0xC000_0094));
    assert!(is_recoverable(0xC000_0096));
    assert!(!is_recoverable(0xC000_00FD));
    assert!(is_access_violation(0xC000_0005));
    assert!(!is_access_violation(0xC000_001D));
}

/// Thread naming and debug output raise exceptions that are none of the handler's business.
#[test]
fn debugger_notices_are_not_recovered() {
    assert!(!is_recoverable(0x406D_1388));
    assert!(!is_recoverable(0x4001_0006));
}

#[test]
fn codes_agree_with_the_system_headers() {
    assert_eq!(foundation::EXCEPTION_ACCESS_VIOLATION.0 as u32, ACCESS_VIOLATION);
    assert_eq!(foundation::EXCEPTION_ILLEGAL_INSTRUCTION.0 as u32, ILLEGAL_INSTRUCTION);
    assert_eq!(foundation::EXCEPTION_INT_DIVIDE_BY_ZERO.0 as u32, INT_DIVIDE_BY_ZERO);
    assert_eq!(foundation::EXCEPTION_PRIV_INSTRUCTION.0 as u32, PRIV_INSTRUCTION);
    assert_eq!(foundation::EXCEPTION_STACK_OVERFLOW.0 as u32, STACK_OVERFLOW);
    assert_eq!(debug::EXCEPTION_CONTINUE_EXECUTION, CONTINUE_EXECUTION);
    assert_eq!(debug::EXCEPTION_CONTINUE_SEARCH, CONTINUE_SEARCH);
}

#[test]
fn numbers_as_text() {
    let mut s = String::from("<");
    push_hex(&mut s, 0xabc, 4);
    s.push(' ');
    push_dec(&mut s, u64::MAX);
    s.push(' ');
    push_dec_aligned(&mut s, 8, 3);
    s.push(' ');
    push_dec_aligned(&mut s, 1234, 3);
    s.push(' ');
    push_dec(&mut s, 0);
    assert_eq!(s, "<0x0abc 18446744073709551615   8 1234 0");
}

#[test]
fn hex_reads_back() {
    for v in [0u64, 1, 0xf, 0x10, 0x0123_4567_89ab_cdef, u64::MAX] {
        let mut s = String::new();
        push_hex(&mut s, v, 16);
        assert_eq!(u64::from_str_radix(&s[2..], 16).unwrap(), v);
        assert_eq!(s.len(), 18);
    }
}

#[test]
fn decimal_reads_back() {
    for v in [0u64, 9, 10, 4242, u64::MAX] {
        let mut s = String::new();
        push_dec(&mut s, v);
        assert_eq!(s.parse::<u64>().unwrap(), v);
    }
}
