//! The text of a dump loses nothing of what it shows.

use vstd::arithmetic::power::*;
use vstd::prelude::*;

use crate::dump;
use crate::dump::CapturedDump;
use crate::seh;
use crate::text;

verus! {

/// Two dumps that agree in everything that is shown: all fields, but of the access details only the
/// address and the word for the kind, and these only for an access violation.
pub open spec fn same_shown(a: CapturedDump, b: CapturedDump) -> bool {
    &&& a.code == b.code
    &&& a.flags == b.flags
    &&& a.rip == b.rip
    &&& a.rsp == b.rsp
    &&& a.rbp == b.rbp
    &&& a.rax == b.rax
    &&& a.rbx == b.rbx
    &&& a.rcx == b.rcx
    &&& a.rdx == b.rdx
    &&& a.rsi == b.rsi
    &&& a.rdi == b.rdi
    &&& a.r8 == b.r8
    &&& a.r9 == b.r9
    &&& a.r10 == b.r10
    &&& a.r11 == b.r11
    &&& a.r12 == b.r12
    &&& a.r13 == b.r13
    &&& a.r14 == b.r14
    &&& a.r15 == b.r15
    &&& a.stack@ == b.stack@
    &&& a.thread_id == b.thread_id
    &&& a.code == seh::ACCESS_VIOLATION ==> a.access_addr == b.access_addr && dump::access_word(
        a.access_kind,
    ) == dump::access_word(b.access_kind)
}

/// Equal texts that are cut at the same place have equal parts.
proof fn lemma_cut(a: Seq<char>, x: Seq<char>, b: Seq<char>, y: Seq<char>)
    requires
        a + x == b + y,
        a.len() == b.len() || x.len() == y.len(),
    ensures
        a == b,
        x == y,
{
    let s: Seq<char> = a + x;
    assert((b + y).len() == s.len());
    assert(a.len() == b.len());
    assert(a =~= s.subrange(0, a.len() as int));
    assert(b =~= s.subrange(0, a.len() as int));
    assert(x =~= s.subrange(a.len() as int, s.len() as int));
    assert(y =~= s.subrange(a.len() as int, s.len() as int));
}

proof fn lemma_width_limits()
    ensures
        pow(16, 8) == 0x1_0000_0000,
        pow(16, 16) == 0x1_0000_0000_0000_0000,
{
    reveal_with_fuel(pow, 9);
    assert(pow(16, 8) == 0x1_0000_0000);
    lemma_pow_adds(16, 8, 8);
}

proof fn lemma_hex_len(v: nat, width: nat)
    ensures
        text::hex_text(v, width).len() == "0x"@.len() + width,
{
    text::law_hex_reads_back(v, width);
}

proof fn lemma_hex_injective(v: nat, w: nat, width: nat)
    requires
        text::hex_text(v, width) == text::hex_text(w, width),
        v < pow(16, width),
        w < pow(16, width),
    ensures
        v == w,
{
    text::law_hex_reads_back(v, width);
    text::law_hex_reads_back(w, width);
    lemma_cut("0x"@, text::hex_digits(v, width), "0x"@, text::hex_digits(w, width));
}

proof fn lemma_pair_len(
    left: Seq<char>,
    right: Seq<char>,
    width: nat,
    l1: u64,
    r1: u64,
    l2: u64,
    r2: u64,
)
    ensures
        dump::pair_line(left, l1 as nat, right, r1 as nat, width).len() == dump::pair_line(
            left,
            l2 as nat,
            right,
            r2 as nat,
            width,
        ).len(),
{
    lemma_hex_len(l1 as nat, 16);
    lemma_hex_len(l2 as nat, 16);
    lemma_hex_len(r1 as nat, width);
    lemma_hex_len(r2 as nat, width);
}

proof fn lemma_pair_injective(
    left: Seq<char>,
    right: Seq<char>,
    width: nat,
    l1: u64,
    r1: u64,
    l2: u64,
    r2: u64,
)
    requires
        dump::pair_line(left, l1 as nat, right, r1 as nat, width) == dump::pair_line(
            left,
            l2 as nat,
            right,
            r2 as nat,
            width,
        ),
        r1 < pow(16, width),
        r2 < pow(16, width),
    ensures
        l1 == l2,
        r1 == r2,
{
    lemma_width_limits();
    lemma_hex_len(l1 as nat, 16);
    lemma_hex_len(l2 as nat, 16);
    lemma_hex_len(r1 as nat, width);
    lemma_hex_len(r2 as nat, width);
    let hl1: Seq<char> = text::hex_text(l1 as nat, 16);
    let hl2: Seq<char> = text::hex_text(l2 as nat, 16);
    let hr1: Seq<char> = text::hex_text(r1 as nat, width);
    let hr2: Seq<char> = text::hex_text(r2 as nat, width);
    lemma_cut(left + hl1 + right + hr1, "\n"@, left + hl2 + right + hr2, "\n"@);
    lemma_cut(left + hl1 + right, hr1, left + hl2 + right, hr2);
    lemma_cut(left + hl1, right, left + hl2, right);
    lemma_cut(left, hl1, left, hl2);
    lemma_hex_injective(l1 as nat, l2 as nat, 16);
    lemma_hex_injective(r1 as nat, r2 as nat, width);
}

proof fn lemma_registers_len(a: CapturedDump, b: CapturedDump)
    ensures
        dump::register_lines(a).len() == dump::register_lines(b).len(),
{
    lemma_pair_len("rip = "@, "   flags = "@, 8, a.rip, a.flags as u64, b.rip, b.flags as u64);
    lemma_pair_len("rax = "@, "   rbx = "@, 16, a.rax, a.rbx, b.rax, b.rbx);
    lemma_pair_len("rcx = "@, "   rdx = "@, 16, a.rcx, a.rdx, b.rcx, b.rdx);
    lemma_pair_len("rsi = "@, "   rdi = "@, 16, a.rsi, a.rdi, b.rsi, b.rdi);
    lemma_pair_len("rbp = "@, "   rsp = "@, 16, a.rbp, a.rsp, b.rbp, b.rsp);
    lemma_pair_len("r8  = "@, "   r9  = "@, 16, a.r8, a.r9, b.r8, b.r9);
    lemma_pair_len("r10 = "@, "   r11 = "@, 16, a.r10, a.r11, b.r10, b.r11);
    lemma_pair_len("r12 = "@, "   r13 = "@, 16, a.r12, a.r13, b.r12, b.r13);
    lemma_pair_len("r14 = "@, "   r15 = "@, 16, a.r14, a.r15, b.r14, b.r15);
}

/// Strips the last line of two equal texts, when that line shows two registers.
proof fn lemma_strip_pair(
    x: Seq<char>,
    y: Seq<char>,
    left: Seq<char>,
    right: Seq<char>,
    l1: u64,
    r1: u64,
    l2: u64,
    r2: u64,
)
    requires
        x + dump::pair_line(left, l1 as nat, right, r1 as nat, 16) == y + dump::pair_line(
            left,
            l2 as nat,
            right,
            r2 as nat,
            16,
        ),
    ensures
        x == y,
        l1 == l2,
        r1 == r2,
{
    lemma_width_limits();
    lemma_pair_len(left, right, 16, l1, r1, l2, r2);
    lemma_cut(
        x,
        dump::pair_line(left, l1 as nat, right, r1 as nat, 16),
        y,
        dump::pair_line(left, l2 as nat, right, r2 as nat, 16),
    );
    lemma_pair_injective(left, right, 16, l1, r1, l2, r2);
}

/// The register lines up to `r8` and `r9`.
spec fn early_registers(d: CapturedDump) -> Seq<char> {
    dump::pair_line("rip = "@, d.rip as nat, "   flags = "@, d.flags as nat, 8)
        + dump::pair_line("rax = "@, d.rax as nat, "   rbx = "@, d.rbx as nat, 16)
        + dump::pair_line("rcx = "@, d.rcx as nat, "   rdx = "@, d.rdx as nat, 16)
        + dump::pair_line("rsi = "@, d.rsi as nat, "   rdi = "@, d.rdi as nat, 16)
        + dump::pair_line("rbp = "@, d.rbp as nat, "   rsp = "@, d.rsp as nat, 16)
}

proof fn lemma_early_registers_injective(a: CapturedDump, b: CapturedDump)
    requires
        early_registers(a) == early_registers(b),
    ensures
        a.rip == b.rip,
        a.flags == b.flags,
        a.rax == b.rax,
        a.rbx == b.rbx,
        a.rcx == b.rcx,
        a.rdx == b.rdx,
        a.rsi == b.rsi,
        a.rdi == b.rdi,
        a.rbp == b.rbp,
        a.rsp == b.rsp,
{
    let a1: Seq<char> = dump::pair_line(
        "rip = "@,
        a.rip as nat,
        "   flags = "@,
        a.flags as nat,
        8,
    );
    let b1: Seq<char> = dump::pair_line(
        "rip = "@,
        b.rip as nat,
        "   flags = "@,
        b.flags as nat,
        8,
    );
    let a2: Seq<char> = a1 + dump::pair_line(
        "rax = "@,
        a.rax as nat,
        "   rbx = "@,
        a.rbx as nat,
        16,
    );
    let b2: Seq<char> = b1 + dump::pair_line(
        "rax = "@,
        b.rax as nat,
        "   rbx = "@,
        b.rbx as nat,
        16,
    );
    let a3: Seq<char> = a2 + dump::pair_line(
        "rcx = "@,
        a.rcx as nat,
        "   rdx = "@,
        a.rdx as nat,
        16,
    );
    let b3: Seq<char> = b2 + dump::pair_line(
        "rcx = "@,
        b.rcx as nat,
        "   rdx = "@,
        b.rdx as nat,
        16,
    );
    let a4: Seq<char> = a3 + dump::pair_line(
        "rsi = "@,
        a.rsi as nat,
        "   rdi = "@,
        a.rdi as nat,
        16,
    );
    let b4: Seq<char> = b3 + dump::pair_line(
        "rsi = "@,
        b.rsi as nat,
        "   rdi = "@,
        b.rdi as nat,
        16,
    );
    lemma_strip_pair(a4, b4, "rbp = "@, "   rsp = "@, a.rbp, a.rsp, b.rbp, b.rsp);
    lemma_strip_pair(a3, b3, "rsi = "@, "   rdi = "@, a.rsi, a.rdi, b.rsi, b.rdi);
    lemma_strip_pair(a2, b2, "rcx = "@, "   rdx = "@, a.rcx, a.rdx, b.rcx, b.rdx);
    lemma_strip_pair(a1, b1, "rax = "@, "   rbx = "@, a.rax, a.rbx, b.rax, b.rbx);
    lemma_width_limits();
    lemma_pair_injective(
        "rip = "@,
        "   flags = "@,
        8,
        a.rip,
        a.flags as u64,
        b.rip,
        b.flags as u64,
    );
}

proof fn lemma_registers_injective(a: CapturedDump, b: CapturedDump)
    requires
        dump::register_lines(a) == dump::register_lines(b),
    ensures
        early_registers(a) == early_registers(b),
        a.r8 == b.r8,
        a.r9 == b.r9,
        a.r10 == b.r10,
        a.r11 == b.r11,
        a.r12 == b.r12,
        a.r13 == b.r13,
        a.r14 == b.r14,
        a.r15 == b.r15,
{
    let a1: Seq<char> = early_registers(a);
    let b1: Seq<char> = early_registers(b);
    let a2: Seq<char> = a1 + dump::pair_line("r8  = "@, a.r8 as nat, "   r9  = "@, a.r9 as nat, 16);
    let b2: Seq<char> = b1 + dump::pair_line("r8  = "@, b.r8 as nat, "   r9  = "@, b.r9 as nat, 16);
    let a3: Seq<char> = a2 + dump::pair_line(
        "r10 = "@,
        a.r10 as nat,
        "   r11 = "@,
        a.r11 as nat,
        16,
    );
    let b3: Seq<char> = b2 + dump::pair_line(
        "r10 = "@,
        b.r10 as nat,
        "   r11 = "@,
        b.r11 as nat,
        16,
    );
    let a4: Seq<char> = a3 + dump::pair_line(
        "r12 = "@,
        a.r12 as nat,
        "   r13 = "@,
        a.r13 as nat,
        16,
    );
    let b4: Seq<char> = b3 + dump::pair_line(
        "r12 = "@,
        b.r12 as nat,
        "   r13 = "@,
        b.r13 as nat,
        16,
    );
    lemma_strip_pair(a4, b4, "r14 = "@, "   r15 = "@, a.r14, a.r15, b.r14, b.r15);
    lemma_strip_pair(a3, b3, "r12 = "@, "   r13 = "@, a.r12, a.r13, b.r12, b.r13);
    lemma_strip_pair(a2, b2, "r10 = "@, "   r11 = "@, a.r10, a.r11, b.r10, b.r11);
    lemma_strip_pair(a1, b1, "r8  = "@, "   r9  = "@, a.r8, a.r9, b.r8, b.r9);
}

proof fn lemma_stack_line_len(i: nat, p: u64, q: u64)
    ensures
        dump::stack_line(i, p).len() == dump::stack_line(i, q).len(),
{
    lemma_hex_len(p as nat, 16);
    lemma_hex_len(q as nat, 16);
}

proof fn lemma_stack_len(a: Seq<u64>, b: Seq<u64>, n: nat)
    ensures
        dump::stack_lines(a, n).len() == dump::stack_lines(b, n).len(),
    decreases n,
{
    if n > 0 {
        lemma_stack_len(a, b, (n - 1) as nat);
        lemma_stack_line_len((n - 1) as nat, a[n - 1], b[n - 1]);
    }
}

proof fn lemma_stack_injective(a: Seq<u64>, b: Seq<u64>, n: nat)
    requires
        dump::stack_lines(a, n) == dump::stack_lines(b, n),
    ensures
        forall|i: int| 0 <= i < n ==> #[trigger] a[i] == b[i],
    decreases n,
{
    if n > 0 {
        let m: nat = (n - 1) as nat;
        let p: u64 = a[m as int];
        let q: u64 = b[m as int];
        lemma_stack_line_len(m, p, q);
        lemma_cut(
            dump::stack_lines(a, m),
            dump::stack_line(m, p),
            dump::stack_lines(b, m),
            dump::stack_line(m, q),
        );
        lemma_stack_injective(a, b, m);
        let label: Seq<char> = "  [rsp+"@ + text::right_aligned(text::dec_text(8 * m), 3) + "] "@;
        let hp: Seq<char> = text::hex_text(p as nat, 16);
        let hq: Seq<char> = text::hex_text(q as nat, 16);
        lemma_cut(label + hp, "\n"@, label + hq, "\n"@);
        lemma_cut(label, hp, label, hq);
        lemma_width_limits();
        lemma_hex_injective(p as nat, q as nat, 16);
    }
}

proof fn lemma_thread_injective(a: CapturedDump, b: CapturedDump)
    requires
        dump::thread_line(a) == dump::thread_line(b),
    ensures
        a.thread_id == b.thread_id,
{
    let label: Seq<char> = "thread id:      "@;
    let ta: Seq<char> = text::dec_text(a.thread_id as nat);
    let tb: Seq<char> = text::dec_text(b.thread_id as nat);
    lemma_cut(label + ta, "\n"@, label + tb, "\n"@);
    lemma_cut(label, ta, label, tb);
    text::law_dec_reads_back(a.thread_id as nat);
    text::law_dec_reads_back(b.thread_id as nat);
}

/// The words for the kind of access differ in their first letters.
proof fn lemma_words(k1: u32, x1: Seq<char>, k2: u32, x2: Seq<char>)
    requires
        dump::access_word(k1) + x1 == dump::access_word(k2) + x2,
    ensures
        dump::access_word(k1) == dump::access_word(k2),
        x1 == x2,
{
    reveal_strlit("read");
    reveal_strlit("write");
    reveal_strlit("execute");
    reveal_strlit("?");
    let w1: Seq<char> = dump::access_word(k1);
    let w2: Seq<char> = dump::access_word(k2);
    assert((w1 + x1)[0] == w1[0]);
    assert((w2 + x2)[0] == w2[0]);
    assert(w1 == w2);
    lemma_cut(w1, x1, w2, x2);
}

proof fn lemma_access_injective(a: CapturedDump, b: CapturedDump)
    requires
        a.code == b.code,
        dump::access_line(a) + dump::thread_line(a) == dump::access_line(b) + dump::thread_line(b),
    ensures
        dump::thread_line(a) == dump::thread_line(b),
        a.code == seh::ACCESS_VIOLATION ==> a.access_addr == b.access_addr && dump::access_word(
            a.access_kind,
        ) == dump::access_word(b.access_kind),
{
    let ta: Seq<char> = dump::thread_line(a);
    let tb: Seq<char> = dump::thread_line(b);
    if a.code == seh::ACCESS_VIOLATION {
        let label: Seq<char> = "access:         "@;
        let wa: Seq<char> = dump::access_word(a.access_kind);
        let wb: Seq<char> = dump::access_word(b.access_kind);
        let ha: Seq<char> = text::hex_text(a.access_addr as nat, 16);
        let hb: Seq<char> = text::hex_text(b.access_addr as nat, 16);
        let ra: Seq<char> = " at "@ + (ha + ("\n"@ + ta));
        let rb: Seq<char> = " at "@ + (hb + ("\n"@ + tb));
        assert(dump::access_line(a) + ta =~= label + (wa + ra));
        assert(dump::access_line(b) + tb =~= label + (wb + rb));
        lemma_cut(label, wa + ra, label, wb + rb);
        lemma_words(a.access_kind, ra, b.access_kind, rb);
        lemma_cut(" at "@, ha + ("\n"@ + ta), " at "@, hb + ("\n"@ + tb));
        lemma_hex_len(a.access_addr as nat, 16);
        lemma_hex_len(b.access_addr as nat, 16);
        lemma_cut(ha, "\n"@ + ta, hb, "\n"@ + tb);
        lemma_cut("\n"@, ta, "\n"@, tb);
        lemma_width_limits();
        lemma_hex_injective(a.access_addr as nat, b.access_addr as nat, 16);
    } else {
        assert(dump::access_line(a) + ta =~= ta);
        assert(dump::access_line(b) + tb =~= tb);
    }
}

/// The lines above the registers.
spec fn head(d: CapturedDump) -> Seq<char> {
    "kind:           SEH exception (worker thread)\n"@ + dump::code_line(d) + dump::access_line(d)
        + dump::thread_line(d)
}

proof fn lemma_regroup(a: Seq<char>, b: Seq<char>, c: Seq<char>)
    ensures
        (a + b) + c == a + (b + c),
{
    assert((a + b) + c =~= a + (b + c));
}

/// The lines above the registers, grouped around the status code.
proof fn lemma_head_shape(d: CapturedDump)
    ensures
        head(d) == ("kind:           SEH exception (worker thread)\n"@ + "exception code: "@) + (
        dump::code_text(d.code) + ("  ("@ + seh::name_of(d.code) + ")\n"@ + (dump::access_line(d)
            + dump::thread_line(d)))),
{
    let kind: Seq<char> = "kind:           SEH exception (worker thread)\n"@;
    let label: Seq<char> = "exception code: "@;
    let code: Seq<char> = dump::code_text(d.code);
    let name: Seq<char> = "  ("@ + seh::name_of(d.code) + ")\n"@;
    let access: Seq<char> = dump::access_line(d);
    let thread: Seq<char> = dump::thread_line(d);
    lemma_regroup(label + code, "  ("@, seh::name_of(d.code));
    lemma_regroup(label + code, "  ("@ + seh::name_of(d.code), ")\n"@);
    lemma_regroup(label, code, name);
    assert(dump::code_line(d) == label + (code + name));
    lemma_regroup(kind, label, code + name);
    lemma_regroup(kind + dump::code_line(d), access, thread);
    lemma_regroup(kind + label, code + name, access + thread);
    lemma_regroup(code, name, access + thread);
}

proof fn lemma_head_injective(a: CapturedDump, b: CapturedDump)
    requires
        head(a) == head(b),
    ensures
        a.code == b.code,
        a.thread_id == b.thread_id,
        a.code == seh::ACCESS_VIOLATION ==> a.access_addr == b.access_addr && dump::access_word(
            a.access_kind,
        ) == dump::access_word(b.access_kind),
{
    let kind: Seq<char> = "kind:           SEH exception (worker thread)\n"@;
    let label: Seq<char> = kind + "exception code: "@;
    let ca: Seq<char> = dump::code_text(a.code);
    let cb: Seq<char> = dump::code_text(b.code);
    let xa: Seq<char> = dump::access_line(a) + dump::thread_line(a);
    let xb: Seq<char> = dump::access_line(b) + dump::thread_line(b);
    let ra: Seq<char> = "  ("@ + seh::name_of(a.code) + ")\n"@ + xa;
    let rb: Seq<char> = "  ("@ + seh::name_of(b.code) + ")\n"@ + xb;
    lemma_head_shape(a);
    lemma_head_shape(b);
    lemma_cut(label, ca + ra, label, cb + rb);
    lemma_hex_len(a.code as nat, 8);
    lemma_hex_len(b.code as nat, 8);
    lemma_cut(ca, ra, cb, rb);
    lemma_width_limits();
    lemma_hex_injective(a.code as nat, b.code as nat, 8);
    lemma_cut(
        "  ("@ + seh::name_of(a.code) + ")\n"@,
        xa,
        "  ("@ + seh::name_of(b.code) + ")\n"@,
        xb,
    );
    lemma_access_injective(a, b);
    lemma_thread_injective(a, b);
}

/// Two dumps have the same text exactly when they agree in everything that is shown: each shown
/// value can be told from the text.
pub proof fn law_text_tells_all(a: CapturedDump, b: CapturedDump)
    ensures
        dump::dump_text(a) == dump::dump_text(b) <==> same_shown(a, b),
{
    if dump::dump_text(a) == dump::dump_text(b) {
        let title: Seq<char> = "stack (16 qwords from rsp):\n"@;
        let nl: Seq<char> = "\n"@;
        let ga: Seq<char> = dump::register_lines(a);
        let gb: Seq<char> = dump::register_lines(b);
        let sa: Seq<char> = dump::stack_lines(a.stack@, 16);
        let sb: Seq<char> = dump::stack_lines(b.stack@, 16);
        let pa: Seq<char> = head(a) + nl + ga + nl + title;
        let pb: Seq<char> = head(b) + nl + gb + nl + title;
        lemma_stack_len(a.stack@, b.stack@, 16);
        lemma_registers_len(a, b);
        lemma_cut(pa + sa + nl, dump::notice(), pb + sb + nl, dump::notice());
        lemma_cut(pa + sa, nl, pb + sb, nl);
        lemma_cut(pa, sa, pb, sb);
        lemma_cut(head(a) + nl + ga + nl, title, head(b) + nl + gb + nl, title);
        lemma_cut(head(a) + nl + ga, nl, head(b) + nl + gb, nl);
        lemma_cut(head(a) + nl, ga, head(b) + nl, gb);
        lemma_cut(head(a), nl, head(b), nl);
        lemma_head_injective(a, b);
        lemma_registers_injective(a, b);
        lemma_early_registers_injective(a, b);
        lemma_stack_injective(a.stack@, b.stack@, 16);
        assert(a.stack@ =~= b.stack@);
    }
}

/// A status code shows as `0x` and eight digits; the digit at distance `k` from the end is the
/// coefficient of sixteen to the power `k`.
pub proof fn law_code_text(c: u32, k: int)
    requires
        0 <= k < 8,
    ensures
        dump::code_text(c).len() == 10,
        dump::code_text(c)[0] == '0',
        dump::code_text(c)[1] == 'x',
        dump::code_text(c)[9 - k] == "0123456789abcdef"@[(c as int / pow(16, k as nat)) % 16],
{
    text::law_hex_text_at(c as nat, 8, k);
}

/// Codes have equal texts only if they are equal.
pub proof fn law_code_text_tells_codes_apart(a: u32, b: u32)
    ensures
        dump::code_text(a) == dump::code_text(b) <==> a == b,
{
    lemma_width_limits();
    if dump::code_text(a) == dump::code_text(b) {
        lemma_hex_injective(a as nat, b as nat, 8);
    }
}

/// Each word for an access belongs to one kind, and all other kinds are unknown.
pub proof fn law_access_words(kind: u32)
    ensures
        dump::access_word(kind) == "read"@ <==> kind == 0,
        dump::access_word(kind) == "write"@ <==> kind == 1,
        dump::access_word(kind) == "execute"@ <==> kind == 8,
        dump::access_word(kind) == "?"@ <==> kind != 0 && kind != 1 && kind != 8,
{
    reveal_strlit("read");
    reveal_strlit("write");
    reveal_strlit("execute");
    reveal_strlit("?");
    assert("read"@.len() == 4);
    assert("write"@.len() == 5);
    assert("execute"@.len() == 7);
    assert("?"@.len() == 1);
}

/// The text made of the given lines, each with a line feed at its end.
pub open spec fn of_lines(lines: Seq<Seq<char>>) -> Seq<char>
    decreases lines.len(),
{
    if lines.len() == 0 {
        Seq::empty()
    } else {
        of_lines(lines.drop_last()) + lines.last() + seq!['\n']
    }
}

/// One more line appends itself and a line feed.
proof fn lemma_add_line(lines: Seq<Seq<char>>, line: Seq<char>)
    ensures
        of_lines(lines.push(line)) == of_lines(lines) + (line + "\n"@),
{
    reveal_strlit("\n");
    assert("\n"@ =~= seq!['\n']);
    assert(lines.push(line).drop_last() =~= lines);
    assert(of_lines(lines) + line + seq!['\n'] =~= of_lines(lines) + (line + seq!['\n']));
}

proof fn lemma_add_stack_lines(lines: Seq<Seq<char>>, stack: Seq<u64>, n: nat) -> (more: Seq<
    Seq<char>,
>)
    ensures
        more.len() == lines.len() + n,
        forall|k: int| 0 <= k < lines.len() ==> #[trigger] more[k] == lines[k],
        forall|i: int|
            0 <= i < n ==> #[trigger] more[lines.len() + i] == "  [rsp+"@ + text::right_aligned(
                text::dec_text((8 * i) as nat),
                3,
            ) + "] "@ + text::hex_text(stack[i] as nat, 16),
        of_lines(more) == of_lines(lines) + dump::stack_lines(stack, n),
    decreases n,
{
    if n == 0 {
        assert(of_lines(lines) + dump::stack_lines(stack, 0) =~= of_lines(lines));
        lines
    } else {
        let m: nat = (n - 1) as nat;
        let fewer: Seq<Seq<char>> = lemma_add_stack_lines(lines, stack, m);
        let line: Seq<char> = "  [rsp+"@ + text::right_aligned(text::dec_text(8 * m), 3) + "] "@
            + text::hex_text(stack[m as int] as nat, 16);
        lemma_add_line(fewer, line);
        assert(dump::stack_line(m, stack[m as int]) == line + "\n"@);
        let more: Seq<Seq<char>> = fewer.push(line);
        assert(of_lines(more) =~= of_lines(lines) + dump::stack_lines(stack, n));
        assert forall|i: int| 0 <= i < n implies #[trigger] more[lines.len() + i] == "  [rsp+"@
            + text::right_aligned(text::dec_text((8 * i) as nat), 3) + "] "@ + text::hex_text(
            stack[i] as nat,
            16,
        ) by {
            if i < m {
                assert(more[lines.len() + i] == fewer[lines.len() + i]);
            }
        }
        more
    }
}

/// The text of a dump, line by line: the kind of event; the code and its name; for an access
/// violation, the access; the thread; the registers, two to a line; the sixteen quadwords, each
/// with its byte offset; and the closing notice.
pub proof fn law_text_line_by_line(d: CapturedDump) -> (lines: Seq<Seq<char>>)
    ensures
        dump::dump_text(d) == of_lines(lines),
        ({
            let h: int = if d.code == 0xC000_0005u32 {
                1
            } else {
                0
            };
            &&& lines.len() == 35 + h
            &&& lines[0] == "kind:           SEH exception (worker thread)"@
            &&& lines[1] == "exception code: "@ + text::hex_text(d.code as nat, 8) + "  ("@
                + seh::name_of(d.code) + ")"@
            &&& d.code == 0xC000_0005u32 ==> lines[2] == "access:         "@ + dump::access_word(
                d.access_kind,
            ) + " at "@ + text::hex_text(d.access_addr as nat, 16)
            &&& lines[2 + h] == "thread id:      "@ + text::dec_text(d.thread_id as nat)
            &&& lines[3 + h] == Seq::<char>::empty()
            &&& lines[4 + h] == "rip = "@ + text::hex_text(d.rip as nat, 16) + "   flags = "@
                + text::hex_text(d.flags as nat, 8)
            &&& lines[5 + h] == "rax = "@ + text::hex_text(d.rax as nat, 16) + "   rbx = "@
                + text::hex_text(d.rbx as nat, 16)
            &&& lines[6 + h] == "rcx = "@ + text::hex_text(d.rcx as nat, 16) + "   rdx = "@
                + text::hex_text(d.rdx as nat, 16)
            &&& lines[7 + h] == "rsi = "@ + text::hex_text(d.rsi as nat, 16) + "   rdi = "@
                + text::hex_text(d.rdi as nat, 16)
            &&& lines[8 + h] == "rbp = "@ + text::hex_text(d.rbp as nat, 16) + "   rsp = "@
                + text::hex_text(d.rsp as nat, 16)
            &&& lines[9 + h] == "r8  = "@ + text::hex_text(d.r8 as nat, 16) + "   r9  = "@
                + text::hex_text(d.r9 as nat, 16)
            &&& lines[10 + h] == "r10 = "@ + text::hex_text(d.r10 as nat, 16) + "   r11 = "@
                + text::hex_text(d.r11 as nat, 16)
            &&& lines[11 + h] == "r12 = "@ + text::hex_text(d.r12 as nat, 16) + "   r13 = "@
                + text::hex_text(d.r13 as nat, 16)
            &&& lines[12 + h] == "r14 = "@ + text::hex_text(d.r14 as nat, 16) + "   r15 = "@
                + text::hex_text(d.r15 as nat, 16)
            &&& lines[13 + h] == Seq::<char>::empty()
            &&& lines[14 + h] == "stack (16 qwords from rsp):"@
            &&& forall|i: int|
                0 <= i < 16 ==> #[trigger] lines[15 + h + i] == "  [rsp+"@ + text::right_aligned(
                    text::dec_text((8 * i) as nat),
                    3,
                ) + "] "@ + text::hex_text(d.stack[i] as nat, 16)
            &&& lines[31 + h] == Seq::<char>::empty()
            &&& lines[32 + h] == "Worker thread has been terminated and a fresh session"@
            &&& lines[33 + h] == "booted below.  Any user definitions from before the"@
            &&& lines[34 + h] == "crash are gone."@
        }),
{
    let h: int = if d.code == 0xC000_0005u32 {
        1
    } else {
        0
    };
    let upper: Seq<Seq<char>> = lemma_upper_lines(d);
    let middle: Seq<Seq<char>> = lemma_add_register_lines(upper, d);
    let lines: Seq<Seq<char>> = lemma_add_lower_lines(middle, d);
    let m: nat = middle.len();
    assert(m == 13 + h);
    assert forall|k: int| 0 <= k < 4 + h implies #[trigger] lines[k] == upper[k] by {
        assert(lines[k] == middle[k]);
        assert(middle[k] == upper[k]);
    }
    assert forall|i: int| 0 <= i < 16 implies #[trigger] lines[15 + h + i] == "  [rsp+"@
        + text::right_aligned(text::dec_text((8 * i) as nat), 3) + "] "@ + text::hex_text(
        d.stack[i] as nat,
        16,
    ) by {
        assert(lines[m + 2 + i] == lines[15 + h + i]);
    }
    lines
}

/// The lines above the registers.
proof fn lemma_upper_lines(d: CapturedDump) -> (lines: Seq<Seq<char>>)
    ensures
        of_lines(lines) == head(d) + "\n"@,
        ({
            let h: int = if d.code == 0xC000_0005u32 {
                1
            } else {
                0
            };
            &&& lines.len() == 4 + h
            &&& lines[0] == "kind:           SEH exception (worker thread)"@
            &&& lines[1] == "exception code: "@ + text::hex_text(d.code as nat, 8) + "  ("@
                + seh::name_of(d.code) + ")"@
            &&& d.code == 0xC000_0005u32 ==> lines[2] == "access:         "@ + dump::access_word(
                d.access_kind,
            ) + " at "@ + text::hex_text(d.access_addr as nat, 16)
            &&& lines[2 + h] == "thread id:      "@ + text::dec_text(d.thread_id as nat)
            &&& lines[3 + h] == Seq::<char>::empty()
        }),
{
    lemma_literal_lines();
    let none: Seq<char> = Seq::empty();
    let nothing: Seq<Seq<char>> = Seq::empty();
    let kind: Seq<char> = "kind:           SEH exception (worker thread)"@;
    let code: Seq<char> = "exception code: "@ + text::hex_text(d.code as nat, 8) + "  ("@
        + seh::name_of(d.code) + ")"@;
    let access: Seq<char> = "access:         "@ + dump::access_word(d.access_kind) + " at "@
        + text::hex_text(d.access_addr as nat, 16);
    let thread: Seq<char> = "thread id:      "@ + text::dec_text(d.thread_id as nat);
    lemma_add_line(nothing, kind);
    let s1: Seq<Seq<char>> = nothing.push(kind);
    assert(of_lines(s1) =~= kind + "\n"@);
    lemma_add_line(s1, code);
    let s2: Seq<Seq<char>> = s1.push(code);
    assert(code + "\n"@ =~= dump::code_line(d));
    lemma_add_line(s2, access);
    let s3: Seq<Seq<char>> = if d.code == seh::ACCESS_VIOLATION {
        s2.push(access)
    } else {
        s2
    };
    assert(of_lines(s3) =~= of_lines(s2) + dump::access_line(d));
    lemma_add_line(s3, thread);
    let s4: Seq<Seq<char>> = s3.push(thread);
    lemma_add_line(s4, none);
    assert(none + "\n"@ =~= "\n"@);
    s4.push(none)
}

/// The lines below the registers.
proof fn lemma_add_lower_lines(lines: Seq<Seq<char>>, d: CapturedDump) -> (more: Seq<Seq<char>>)
    requires
        of_lines(lines) == head(d) + "\n"@ + dump::register_lines(d),
    ensures
        of_lines(more) == dump::dump_text(d),
        more.len() == lines.len() + 22,
        forall|k: int| 0 <= k < lines.len() ==> #[trigger] more[k] == lines[k],
        more[lines.len() as int] == Seq::<char>::empty(),
        more[lines.len() as int + 1] == "stack (16 qwords from rsp):"@,
        forall|i: int|
            0 <= i < 16 ==> #[trigger] more[lines.len() + 2 + i] == "  [rsp+"@
                + text::right_aligned(text::dec_text((8 * i) as nat), 3) + "] "@ + text::hex_text(
                d.stack[i] as nat,
                16,
            ),
        more[lines.len() as int + 18] == Seq::<char>::empty(),
        more[lines.len() as int + 19] == "Worker thread has been terminated and a fresh session"@,
        more[lines.len() as int + 20] == "booted below.  Any user definitions from before the"@,
        more[lines.len() as int + 21] == "crash are gone."@,
{
    lemma_literal_lines();
    let none: Seq<char> = Seq::empty();
    assert(none + "\n"@ =~= "\n"@);
    let title: Seq<char> = "stack (16 qwords from rsp):"@;
    let end1: Seq<char> = "Worker thread has been terminated and a fresh session"@;
    let end2: Seq<char> = "booted below.  Any user definitions from before the"@;
    let end3: Seq<char> = "crash are gone."@;
    lemma_add_line(lines, none);
    lemma_add_line(lines.push(none), title);
    let s1: Seq<Seq<char>> = lines.push(none).push(title);
    let s2: Seq<Seq<char>> = lemma_add_stack_lines(s1, d.stack@, 16);
    lemma_add_line(s2, none);
    let s3: Seq<Seq<char>> = s2.push(none);
    let base: Seq<char> = of_lines(s3);
    lemma_add_line(s3, end1);
    let s4: Seq<Seq<char>> = s3.push(end1);
    let e1: Seq<char> = end1 + "\n"@;
    let e2: Seq<char> = end2 + "\n"@;
    let e3: Seq<char> = end3 + "\n"@;
    lemma_add_line_after(s4, base, e1, end2, e2);
    let s5: Seq<Seq<char>> = s4.push(end2);
    lemma_add_line_after(s5, base, e1 + e2, end3, e3);
    let s6: Seq<Seq<char>> = s5.push(end3);
    assert(e1 + e2 + e3 == dump::notice());
    assert(of_lines(s6) == dump::dump_text(d));
    assert forall|k: int| 0 <= k < lines.len() implies #[trigger] s6[k] == lines[k] by {
        assert(s2[k] == s1[k]);
    }
    assert(s2[lines.len() as int] == s1[lines.len() as int]);
    assert(s2[lines.len() as int + 1] == s1[lines.len() as int + 1]);
    assert forall|i: int| 0 <= i < 16 implies #[trigger] s6[lines.len() + 2 + i] == "  [rsp+"@
        + text::right_aligned(text::dec_text((8 * i) as nat), 3) + "] "@ + text::hex_text(
        d.stack[i] as nat,
        16,
    ) by {
        assert(s6[lines.len() + 2 + i] == s2[s1.len() + i]);
    }
    s6
}

/// The fixed lines, with and without their line feed.
proof fn lemma_literal_lines()
    ensures
        "kind:           SEH exception (worker thread)"@ + "\n"@ == "kind:           SEH exception (worker thread)\n"@,
        "stack (16 qwords from rsp):"@ + "\n"@ == "stack (16 qwords from rsp):\n"@,
        "Worker thread has been terminated and a fresh session"@ + "\n"@ == "Worker thread has been terminated and a fresh session\n"@,
        "booted below.  Any user definitions from before the"@ + "\n"@ == "booted below.  Any user definitions from before the\n"@,
        "crash are gone."@ + "\n"@ == "crash are gone.\n"@,
        ")"@ + "\n"@ == ")\n"@,
{
    reveal_strlit("\n");
    reveal_strlit("kind:           SEH exception (worker thread)");
    reveal_strlit("kind:           SEH exception (worker thread)\n");
    assert("kind:           SEH exception (worker thread)"@ + "\n"@ =~= "kind:           SEH exception (worker thread)\n"@);
    reveal_strlit("stack (16 qwords from rsp):");
    reveal_strlit("stack (16 qwords from rsp):\n");
    assert("stack (16 qwords from rsp):"@ + "\n"@ =~= "stack (16 qwords from rsp):\n"@);
    reveal_strlit("Worker thread has been terminated and a fresh session");
    reveal_strlit("Worker thread has been terminated and a fresh session\n");
    assert("Worker thread has been terminated and a fresh session"@ + "\n"@ =~= "Worker thread has been terminated and a fresh session\n"@);
    reveal_strlit("booted below.  Any user definitions from before the");
    reveal_strlit("booted below.  Any user definitions from before the\n");
    assert("booted below.  Any user definitions from before the"@ + "\n"@ =~= "booted below.  Any user definitions from before the\n"@);
    reveal_strlit("crash are gone.");
    reveal_strlit("crash are gone.\n");
    assert("crash are gone."@ + "\n"@ =~= "crash are gone.\n"@);
    reveal_strlit(")");
    reveal_strlit(")\n");
    assert(")"@ + "\n"@ =~= ")\n"@);
}

proof fn lemma_add_register_lines(lines: Seq<Seq<char>>, d: CapturedDump) -> (more: Seq<Seq<char>>)
    ensures
        more.len() == lines.len() + 9,
        forall|k: int| 0 <= k < lines.len() ==> #[trigger] more[k] == lines[k],
        more[lines.len() as int + 0] == "rip = "@ + text::hex_text(d.rip as nat, 16) + "   flags = "@
            + text::hex_text(d.flags as nat, 8),
        more[lines.len() as int + 1] == "rax = "@ + text::hex_text(d.rax as nat, 16) + "   rbx = "@
            + text::hex_text(d.rbx as nat, 16),
        more[lines.len() as int + 2] == "rcx = "@ + text::hex_text(d.rcx as nat, 16) + "   rdx = "@
            + text::hex_text(d.rdx as nat, 16),
        more[lines.len() as int + 3] == "rsi = "@ + text::hex_text(d.rsi as nat, 16) + "   rdi = "@
            + text::hex_text(d.rdi as nat, 16),
        more[lines.len() as int + 4] == "rbp = "@ + text::hex_text(d.rbp as nat, 16) + "   rsp = "@
            + text::hex_text(d.rsp as nat, 16),
        more[lines.len() as int + 5] == "r8  = "@ + text::hex_text(d.r8 as nat, 16) + "   r9  = "@
            + text::hex_text(d.r9 as nat, 16),
        more[lines.len() as int + 6] == "r10 = "@ + text::hex_text(d.r10 as nat, 16) + "   r11 = "@
            + text::hex_text(d.r11 as nat, 16),
        more[lines.len() as int + 7] == "r12 = "@ + text::hex_text(d.r12 as nat, 16) + "   r13 = "@
            + text::hex_text(d.r13 as nat, 16),
        more[lines.len() as int + 8] == "r14 = "@ + text::hex_text(d.r14 as nat, 16) + "   r15 = "@
            + text::hex_text(d.r15 as nat, 16),
        of_lines(more) == of_lines(lines) + dump::register_lines(d),
{
    let base: Seq<char> = of_lines(lines);
    let l0: Seq<char> = "rip = "@ + text::hex_text(d.rip as nat, 16) + "   flags = "@ + text::hex_text(
        d.flags as nat,
        8,
    );
    let p0: Seq<char> = dump::pair_line("rip = "@, d.rip as nat, "   flags = "@, d.flags as nat, 8);
    lemma_add_line(lines, l0);
    let r0: Seq<Seq<char>> = lines.push(l0);
    let t0: Seq<char> = p0;
    let l1: Seq<char> = "rax = "@ + text::hex_text(d.rax as nat, 16) + "   rbx = "@ + text::hex_text(
        d.rbx as nat,
        16,
    );
    let p1: Seq<char> = dump::pair_line("rax = "@, d.rax as nat, "   rbx = "@, d.rbx as nat, 16);
    lemma_add_line_after(r0, base, t0, l1, p1);
    let r1: Seq<Seq<char>> = r0.push(l1);
    let t1: Seq<char> = t0 + p1;
    let l2: Seq<char> = "rcx = "@ + text::hex_text(d.rcx as nat, 16) + "   rdx = "@ + text::hex_text(
        d.rdx as nat,
        16,
    );
    let p2: Seq<char> = dump::pair_line("rcx = "@, d.rcx as nat, "   rdx = "@, d.rdx as nat, 16);
    lemma_add_line_after(r1, base, t1, l2, p2);
    let r2: Seq<Seq<char>> = r1.push(l2);
    let t2: Seq<char> = t1 + p2;
    let l3: Seq<char> = "rsi = "@ + text::hex_text(d.rsi as nat, 16) + "   rdi = "@ + text::hex_text(
        d.rdi as nat,
        16,
    );
    let p3: Seq<char> = dump::pair_line("rsi = "@, d.rsi as nat, "   rdi = "@, d.rdi as nat, 16);
    lemma_add_line_after(r2, base, t2, l3, p3);
    let r3: Seq<Seq<char>> = r2.push(l3);
    let t3: Seq<char> = t2 + p3;
    let l4: Seq<char> = "rbp = "@ + text::hex_text(d.rbp as nat, 16) + "   rsp = "@ + text::hex_text(
        d.rsp as nat,
        16,
    );
    let p4: Seq<char> = dump::pair_line("rbp = "@, d.rbp as nat, "   rsp = "@, d.rsp as nat, 16);
    lemma_add_line_after(r3, base, t3, l4, p4);
    let r4: Seq<Seq<char>> = r3.push(l4);
    let t4: Seq<char> = t3 + p4;
    let l5: Seq<char> = "r8  = "@ + text::hex_text(d.r8 as nat, 16) + "   r9  = "@ + text::hex_text(
        d.r9 as nat,
        16,
    );
    let p5: Seq<char> = dump::pair_line("r8  = "@, d.r8 as nat, "   r9  = "@, d.r9 as nat, 16);
    lemma_add_line_after(r4, base, t4, l5, p5);
    let r5: Seq<Seq<char>> = r4.push(l5);
    let t5: Seq<char> = t4 + p5;
    let l6: Seq<char> = "r10 = "@ + text::hex_text(d.r10 as nat, 16) + "   r11 = "@ + text::hex_text(
        d.r11 as nat,
        16,
    );
    let p6: Seq<char> = dump::pair_line("r10 = "@, d.r10 as nat, "   r11 = "@, d.r11 as nat, 16);
    lemma_add_line_after(r5, base, t5, l6, p6);
    let r6: Seq<Seq<char>> = r5.push(l6);
    let t6: Seq<char> = t5 + p6;
    let l7: Seq<char> = "r12 = "@ + text::hex_text(d.r12 as nat, 16) + "   r13 = "@ + text::hex_text(
        d.r13 as nat,
        16,
    );
    let p7: Seq<char> = dump::pair_line("r12 = "@, d.r12 as nat, "   r13 = "@, d.r13 as nat, 16);
    lemma_add_line_after(r6, base, t6, l7, p7);
    let r7: Seq<Seq<char>> = r6.push(l7);
    let t7: Seq<char> = t6 + p7;
    let l8: Seq<char> = "r14 = "@ + text::hex_text(d.r14 as nat, 16) + "   r15 = "@ + text::hex_text(
        d.r15 as nat,
        16,
    );
    let p8: Seq<char> = dump::pair_line("r14 = "@, d.r14 as nat, "   r15 = "@, d.r15 as nat, 16);
    lemma_add_line_after(r7, base, t7, l8, p8);
    let r8: Seq<Seq<char>> = r7.push(l8);
    let t8: Seq<char> = t7 + p8;
    assert(t8 == dump::register_lines(d));
    r8
}

/// Appends a line to lines whose text is `base` and then `tail`.
proof fn lemma_add_line_after(
    lines: Seq<Seq<char>>,
    base: Seq<char>,
    tail: Seq<char>,
    line: Seq<char>,
    ended: Seq<char>,
)
    requires
        of_lines(lines) == base + tail,
        ended == line + "\n"@,
    ensures
        of_lines(lines.push(line)) == base + (tail + ended),
{
    lemma_add_line(lines, line);
    assert(base + tail + ended =~= base + (tail + ended));
}

} // verus!
