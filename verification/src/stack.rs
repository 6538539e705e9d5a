//! The top of the faulting stack, as far as it could be read.

use vstd::arithmetic::power::*;
use vstd::prelude::*;

verus! {

/// What a guarded read of the stack delivered: the first `count` of the bytes were read,
/// the others mean nothing.
#[derive(Clone, Copy, Debug, PartialEq, Eq)]
pub struct StackRead {
    pub bytes: [u8; 128],
    pub count: usize,
}

/// The byte of `q` at address offset `j`, for `j` below eight: least significant first.
pub open spec fn byte_of(q: u64, j: int) -> u8 {
    ((q >> ((8 * j) as u64)) & 0xff) as u8
}

/// The byte at offset `j` of the `i`-th quadword after a read: the byte that was read, or, where
/// the read did not reach, the byte that was there before.
pub open spec fn merged_byte(before: u64, read: StackRead, i: int, j: int) -> u8 {
    if 8 * i + j < read.count {
        read.bytes[8 * i + j]
    } else {
        byte_of(before, j)
    }
}

/// The number whose bytes, least significant first, are the given ones.
pub open spec fn little_endian(
    b0: u8,
    b1: u8,
    b2: u8,
    b3: u8,
    b4: u8,
    b5: u8,
    b6: u8,
    b7: u8,
) -> int {
    b0 + b1 * 0x100 + b2 * 0x1_0000 + b3 * 0x100_0000 + b4 * 0x1_0000_0000 + b5
        * 0x100_0000_0000 + b6 * 0x1_0000_0000_0000 + b7 * 0x100_0000_0000_0000
}

/// The `i`-th quadword after a read.
pub open spec fn merged_qword(before: u64, read: StackRead, i: int) -> int {
    little_endian(
        merged_byte(before, read, i, 0),
        merged_byte(before, read, i, 1),
        merged_byte(before, read, i, 2),
        merged_byte(before, read, i, 3),
        merged_byte(before, read, i, 4),
        merged_byte(before, read, i, 5),
        merged_byte(before, read, i, 6),
        merged_byte(before, read, i, 7),
    )
}

/// `after` is `before` with the bytes that were read laid over it.
pub open spec fn merged(before: Seq<u64>, read: StackRead, after: Seq<u64>) -> bool {
    &&& after.len() == before.len()
    &&& forall|i: int| 0 <= i < after.len() ==> #[trigger] after[i] == merged_qword(before[i], read, i)
}

fn pick_byte(before: u64, read: &StackRead, i: usize, j: usize) -> (b: u8)
    requires
        i < 16,
        j < 8,
    ensures
        b == merged_byte(before, *read, i as int, j as int),
{
    let at: usize = 8 * i + j;
    if at < read.count {
        read.bytes[at]
    } else {
        let shift: u64 = 8 * j as u64;
        ((before >> shift) & 0xff) as u8
    }
}

/// Lays the bytes that were read over the quadwords. What was not read stays as it was.
pub fn copy_stack_safely(dst: &mut [u64; 16], read: &StackRead)
    ensures
        merged(old(dst)@, *read, final(dst)@),
{
    let mut i: usize = 0;
    while i < 16
        invariant
            i <= 16,
            forall|k: int| 0 <= k < i ==> #[trigger] dst[k] == merged_qword(old(dst)[k], *read, k),
            forall|k: int| i <= k < 16 ==> #[trigger] dst[k] == old(dst)[k],
        decreases 16 - i,
    {
        let q: u64 = dst[i];
        let low: u64 = pick_byte(q, read, i, 0) as u64 + pick_byte(q, read, i, 1) as u64 * 0x100
            + pick_byte(q, read, i, 2) as u64 * 0x1_0000 + pick_byte(q, read, i, 3) as u64
            * 0x100_0000;
        let high: u64 = pick_byte(q, read, i, 4) as u64 * 0x1_0000_0000 + pick_byte(q, read, i, 5)
            as u64 * 0x100_0000_0000 + pick_byte(q, read, i, 6) as u64 * 0x1_0000_0000_0000
            + pick_byte(q, read, i, 7) as u64 * 0x100_0000_0000_0000;
        dst[i] = low + high;
        i = i + 1;
    }
}

/// A quadword is the number that its own bytes spell.
proof fn lemma_bytes_spell(q: u64)
    ensures
        little_endian(
            byte_of(q, 0),
            byte_of(q, 1),
            byte_of(q, 2),
            byte_of(q, 3),
            byte_of(q, 4),
            byte_of(q, 5),
            byte_of(q, 6),
            byte_of(q, 7),
        ) == q,
{
    assert(((q >> 0) & 0xff) as u8 + ((q >> 8) & 0xff) as u8 * 0x100 + ((q >> 16) & 0xff) as u8
        * 0x1_0000 + ((q >> 24) & 0xff) as u8 * 0x100_0000 + ((q >> 32) & 0xff) as u8
        * 0x1_0000_0000 + ((q >> 40) & 0xff) as u8 * 0x100_0000_0000 + ((q >> 48) & 0xff) as u8
        * 0x1_0000_0000_0000 + ((q >> 56) & 0xff) as u8 * 0x100_0000_0000_0000 == q)
        by (bit_vector);
}

/// The bytes of a number are the ones that spell it.
proof fn lemma_spelled_bytes(
    q: u64,
    b0: u8,
    b1: u8,
    b2: u8,
    b3: u8,
    b4: u8,
    b5: u8,
    b6: u8,
    b7: u8,
)
    requires
        q == little_endian(b0, b1, b2, b3, b4, b5, b6, b7),
    ensures
        byte_of(q, 0) == b0,
        byte_of(q, 1) == b1,
        byte_of(q, 2) == b2,
        byte_of(q, 3) == b3,
        byte_of(q, 4) == b4,
        byte_of(q, 5) == b5,
        byte_of(q, 6) == b6,
        byte_of(q, 7) == b7,
{
    assert(((q >> 0) & 0xff) as u8 == b0 && ((q >> 8) & 0xff) as u8 == b1 && ((q >> 16) & 0xff)
        as u8 == b2 && ((q >> 24) & 0xff) as u8 == b3 && ((q >> 32) & 0xff) as u8 == b4 && ((q
        >> 40) & 0xff) as u8 == b5 && ((q >> 48) & 0xff) as u8 == b6 && ((q >> 56) & 0xff) as u8
        == b7) by (bit_vector)
        requires
            q == b0 + b1 * 0x100 + b2 * 0x1_0000 + b3 * 0x100_0000 + b4 * 0x1_0000_0000 + b5
                * 0x100_0000_0000 + b6 * 0x1_0000_0000_0000 + b7 * 0x100_0000_0000_0000,
    ;
}

/// Byte for byte: what was read is there, and what was not read is what was there before.
pub proof fn law_read_bytes_replace(before: [u64; 16], read: StackRead, after: [u64; 16], k: int)
    requires
        merged(before@, read, after@),
        0 <= k < 128,
    ensures
        byte_of(after[k / 8], k % 8) == if k < read.count {
            read.bytes[k]
        } else {
            byte_of(before[k / 8], k % 8)
        },
{
    let i: int = k / 8;
    let q: u64 = before[i];
    lemma_spelled_bytes(
        after[i],
        merged_byte(q, read, i, 0),
        merged_byte(q, read, i, 1),
        merged_byte(q, read, i, 2),
        merged_byte(q, read, i, 3),
        merged_byte(q, read, i, 4),
        merged_byte(q, read, i, 5),
        merged_byte(q, read, i, 6),
        merged_byte(q, read, i, 7),
    );
}

/// A quadword that the read did not reach keeps its value.
pub proof fn law_unread_stays(before: [u64; 16], read: StackRead, after: [u64; 16], i: int)
    requires
        merged(before@, read, after@),
        0 <= i < 16,
        read.count <= 8 * i,
    ensures
        after[i] == before[i],
{
    lemma_bytes_spell(before[i]);
}

/// A quadword that was read whole has the value of its eight bytes, whatever was there before.
pub proof fn law_read_replaces(before: [u64; 16], read: StackRead, after: [u64; 16], i: int)
    requires
        merged(before@, read, after@),
        0 <= i < 16,
        8 * i + 8 <= read.count,
    ensures
        after[i] == little_endian(
            read.bytes[8 * i],
            read.bytes[8 * i + 1],
            read.bytes[8 * i + 2],
            read.bytes[8 * i + 3],
            read.bytes[8 * i + 4],
            read.bytes[8 * i + 5],
            read.bytes[8 * i + 6],
            read.bytes[8 * i + 7],
        ),
{
}

/// A byte of a quadword is the coefficient of the power of 256 of its offset.
proof fn lemma_byte_is_coefficient(q: u64, j: int)
    requires
        0 <= j < 8,
    ensures
        byte_of(q, j) == (q as int / pow(256, j as nat)) % 256,
{
    reveal_with_fuel(pow, 9);
    assert(((q >> 0) & 0xff) as u8 == q % 256 && ((q >> 8) & 0xff) as u8 == (q / 0x100) % 256 && ((q
        >> 16) & 0xff) as u8 == (q / 0x1_0000) % 256 && ((q >> 24) & 0xff) as u8 == (q
        / 0x100_0000) % 256 && ((q >> 32) & 0xff) as u8 == (q / 0x1_0000_0000) % 256 && ((q >> 40)
        & 0xff) as u8 == (q / 0x100_0000_0000) % 256 && ((q >> 48) & 0xff) as u8 == (q
        / 0x1_0000_0000_0000) % 256 && ((q >> 56) & 0xff) as u8 == (q / 0x100_0000_0000_0000) % 256)
        by (bit_vector);
    assert(pow(256, 0) == 1);
    assert(pow(256, 1) == 0x100);
    assert(pow(256, 2) == 0x1_0000);
    assert(pow(256, 3) == 0x100_0000);
    assert(pow(256, 4) == 0x1_0000_0000);
    assert(pow(256, 5) == 0x100_0000_0000);
    assert(pow(256, 6) == 0x1_0000_0000_0000);
    assert(pow(256, 7) == 0x100_0000_0000_0000);
    assert(j == 0 || j == 1 || j == 2 || j == 3 || j == 4 || j == 5 || j == 6 || j == 7);
}

/// In numbers: the byte at address offset `k` of the stack is the coefficient of 256 to the power
/// `k % 8` in the quadword `k / 8`. After a read it is the byte that was read there, and where
/// nothing was read it is what it was before.
pub proof fn law_stack_holds_what_was_read(
    before: [u64; 16],
    read: StackRead,
    after: [u64; 16],
    k: int,
)
    requires
        merged(before@, read, after@),
        0 <= k < 128,
    ensures
        k < read.count ==> (after[k / 8] as int / pow(256, (k % 8) as nat)) % 256 == read.bytes[k],
        k >= read.count ==> (after[k / 8] as int / pow(256, (k % 8) as nat)) % 256 == (
        before[k / 8] as int / pow(256, (k % 8) as nat)) % 256,
{
    law_read_bytes_replace(before, read, after, k);
    lemma_byte_is_coefficient(after[k / 8], k % 8);
    lemma_byte_is_coefficient(before[k / 8], k % 8);
}

} // verus!
