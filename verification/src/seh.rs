//! Status codes of structured exceptions, and the answers that a vectored handler can give.

use vstd::prelude::*;

verus! {

/// Invalid memory access.
pub const ACCESS_VIOLATION: u32 = 0xC000_0005;

/// Undefined opcode.
pub const ILLEGAL_INSTRUCTION: u32 = 0xC000_001D;

/// Integer division by zero.
pub const INT_DIVIDE_BY_ZERO: u32 = 0xC000_0094;

/// Instruction reserved for kernel mode.
pub const PRIV_INSTRUCTION: u32 = 0xC000_0096;

/// Exhausted thread stack.
pub const STACK_OVERFLOW: u32 = 0xC000_00FD;

/// Handler's answer: resume the thread with the (possibly changed) context.
pub const CONTINUE_EXECUTION: i32 = -1;

/// Handler's answer: ask the next handler.
pub const CONTINUE_SEARCH: i32 = 0;

/// Reads the constant `windows::Win32::Foundation::EXCEPTION_ACCESS_VIOLATION`;
/// trusted to have the bits of [`ACCESS_VIOLATION`].
#[verifier::external_body]
fn access_violation() -> (code: u32)
    ensures
        code == ACCESS_VIOLATION,
{
    windows::Win32::Foundation::EXCEPTION_ACCESS_VIOLATION.0 as u32
}

/// Reads the constant `windows::Win32::Foundation::EXCEPTION_ILLEGAL_INSTRUCTION`;
/// trusted to have the bits of [`ILLEGAL_INSTRUCTION`].
#[verifier::external_body]
fn illegal_instruction() -> (code: u32)
    ensures
        code == ILLEGAL_INSTRUCTION,
{
    windows::Win32::Foundation::EXCEPTION_ILLEGAL_INSTRUCTION.0 as u32
}

/// Reads the constant `windows::Win32::Foundation::EXCEPTION_INT_DIVIDE_BY_ZERO`;
/// trusted to have the bits of [`INT_DIVIDE_BY_ZERO`].
#[verifier::external_body]
fn int_divide_by_zero() -> (code: u32)
    ensures
        code == INT_DIVIDE_BY_ZERO,
{
    windows::Win32::Foundation::EXCEPTION_INT_DIVIDE_BY_ZERO.0 as u32
}

/// Reads the constant `windows::Win32::Foundation::EXCEPTION_PRIV_INSTRUCTION`;
/// trusted to have the bits of [`PRIV_INSTRUCTION`].
#[verifier::external_body]
fn priv_instruction() -> (code: u32)
    ensures
        code == PRIV_INSTRUCTION,
{
    windows::Win32::Foundation::EXCEPTION_PRIV_INSTRUCTION.0 as u32
}

/// Reads the constant `windows::Win32::Foundation::EXCEPTION_STACK_OVERFLOW`;
/// trusted to have the bits of [`STACK_OVERFLOW`].
#[verifier::external_body]
fn stack_overflow() -> (code: u32)
    ensures
        code == STACK_OVERFLOW,
{
    windows::Win32::Foundation::EXCEPTION_STACK_OVERFLOW.0 as u32
}

/// Reads the constant `windows::Win32::System::Diagnostics::Debug::EXCEPTION_CONTINUE_EXECUTION`;
/// trusted to be [`CONTINUE_EXECUTION`].
#[verifier::external_body]
pub(crate) fn continue_execution() -> (answer: i32)
    ensures
        answer == CONTINUE_EXECUTION,
{
    windows::Win32::System::Diagnostics::Debug::EXCEPTION_CONTINUE_EXECUTION
}

/// Reads the constant `windows::Win32::System::Diagnostics::Debug::EXCEPTION_CONTINUE_SEARCH`;
/// trusted to be [`CONTINUE_SEARCH`].
#[verifier::external_body]
pub(crate) fn continue_search() -> (answer: i32)
    ensures
        answer == CONTINUE_SEARCH,
{
    windows::Win32::System::Diagnostics::Debug::EXCEPTION_CONTINUE_SEARCH
}

/// The exceptions that a worker can be recovered from. A stack overflow is not among them, nor are
/// the informational codes that debuggers listen to.
pub open spec fn recoverable(code: u32) -> bool {
    ||| code == ACCESS_VIOLATION
    ||| code == ILLEGAL_INSTRUCTION
    ||| code == INT_DIVIDE_BY_ZERO
    ||| code == PRIV_INSTRUCTION
}

/// The name under which a status code is shown.
pub open spec fn name_of(code: u32) -> Seq<char> {
    if code == ACCESS_VIOLATION {
        "ACCESS_VIOLATION"@
    } else if code == ILLEGAL_INSTRUCTION {
        "ILLEGAL_INSTRUCTION"@
    } else if code == INT_DIVIDE_BY_ZERO {
        "INT_DIVIDE_BY_ZERO"@
    } else if code == PRIV_INSTRUCTION {
        "PRIV_INSTRUCTION"@
    } else if code == STACK_OVERFLOW {
        "STACK_OVERFLOW"@
    } else {
        "unknown SEH code"@
    }
}

/// Whether `code` is an access violation.
pub fn is_access_violation(code: u32) -> (yes: bool)
    ensures
        yes == (code == ACCESS_VIOLATION),
{
    code == access_violation()
}

/// Whether a worker can be recovered from an exception with this code.
pub fn is_recoverable(code: u32) -> (yes: bool)
    ensures
        yes == recoverable(code),
{
    code == access_violation() || code == illegal_instruction() || code == int_divide_by_zero()
        || code == priv_instruction()
}

/// The name under which a status code is shown.
pub fn exception_name(c: u32) -> (name: &'static str)
    ensures
        name@ == name_of(c),
{
    if c == access_violation() {
        "ACCESS_VIOLATION"
    } else if c == illegal_instruction() {
        "ILLEGAL_INSTRUCTION"
    } else if c == int_divide_by_zero() {
        "INT_DIVIDE_BY_ZERO"
    } else if c == priv_instruction() {
        "PRIV_INSTRUCTION"
    } else if c == stack_overflow() {
        "STACK_OVERFLOW"
    } else {
        "unknown SEH code"
    }
}

} // verus!
