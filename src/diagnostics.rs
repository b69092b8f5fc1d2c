//! The messages that the shell writes to its error stream.
use vstd::prelude::*;
use crate::text::{push_chars, string_of};
use crate::tokenizer::ParseError;

verus! {

/// The decimal digit for `d`, where `0 <= d < 10`.
pub open spec fn digit_char(d: nat) -> char {
    ((48 + d) as u8) as char
}

/// The decimal digits of `n`, most significant first, without leading zeros
/// (zero is one digit).
pub open spec fn digits(n: nat) -> Seq<char>
    decreases n,
{
    if n < 10 {
        seq![digit_char(n)]
    } else {
        digits(n / 10).push(digit_char(n % 10))
    }
}

/// `n` in decimal, with a minus sign when it is negative.
pub open spec fn decimal(n: int) -> Seq<char> {
    if n < 0 {
        seq!['-'] + digits((-n) as nat)
    } else {
        digits(n as nat)
    }
}

/// The line reported for a command that exited with status `code`.
pub open spec fn exit_code_line(code: int) -> Seq<char> {
    "error: command exited with error code "@ + decimal(code) + "\n"@
}

/// The line reported for a command that ended without an exit status.
pub open spec fn no_status_line() -> Seq<char> {
    "error: command ended without an exit code\n"@
}

/// The line reported when `cd` fails.
pub open spec fn cd_failure_line() -> Seq<char> {
    "error: cd failed\n"@
}

/// The line reported when a line is longer than the shell accepts.
pub open spec fn too_long_line() -> Seq<char> {
    "error: command too long\n"@
}

/// The line reported for a refused line.
pub fn parse_error_message(e: ParseError) -> (r: String)
    ensures
        e == ParseError::CommandTooLong ==> r@ == too_long_line(),
{
    let mut out: Vec<char> = Vec::new();
    match e {
        ParseError::CommandTooLong => {
            push_chars(&mut out, "error: command too long\n");
        },
    }
    assert(out@ =~= too_long_line());
    string_of(out)
}

fn push_digits(out: &mut Vec<char>, n: u64)
    ensures
        final(out)@ == old(out)@ + digits(n as nat),
    decreases n,
{
    if n >= 10 {
        push_digits(out, n / 10);
    }
    let d = (n % 10) as u8;
    out.push((48u8 + d) as char);
    assert(out@ =~= old(out)@ + digits(n as nat));
}

/// `code` in decimal, with a minus sign when it is negative.
pub fn decimal_string(code: i32) -> (r: String)
    ensures
        r@ == decimal(code as int),
{
    let mut out: Vec<char> = Vec::new();
    if code < 0 {
        out.push('-');
        push_digits(&mut out, (-(code as i64)) as u64);
    } else {
        push_digits(&mut out, code as u64);
    }
    assert(out@ =~= decimal(code as int));
    string_of(out)
}

/// What to report once a command has ended: nothing for exit status zero, a
/// line with the status for any other, and a line saying so when the command
/// ended without a status.
pub fn exit_status_message(code: Option<i32>) -> (r: Option<String>)
    ensures
        code == Some(0i32) ==> r is None,
        code is Some && code->0 != 0 ==> r is Some && r->0@ == exit_code_line(code->0 as int),
        code is None ==> r is Some && r->0@ == no_status_line(),
{
    match code {
        Some(c) => {
            if c == 0 {
                None
            } else {
                let mut out: Vec<char> = Vec::new();
                push_chars(&mut out, "error: command exited with error code ");
                let number = decimal_string(c);
                push_chars(&mut out, number.as_str());
                push_chars(&mut out, "\n");
                assert(out@ =~= exit_code_line(c as int));
                Some(string_of(out))
            }
        },
        None => {
            let mut out: Vec<char> = Vec::new();
            push_chars(&mut out, "error: command ended without an exit code\n");
            assert(out@ =~= no_status_line());
            Some(string_of(out))
        },
    }
}

} // verus!
