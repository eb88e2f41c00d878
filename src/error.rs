//! The failures that the library reports, and their messages.
use vstd::prelude::*;
use vstd::string::StringExecFns;

verus! {

/// Why a variable could not be made permanent.
#[derive(Debug, Clone)]
pub enum EnvPermError {
    /// No home directory could be determined, so there is no profile.
    NoHomeDirectory,
    /// The variable's current value is not valid Unicode; `rendered` is a
    /// printable rendering of its bytes.
    NonUnicodeValue { var: String, rendered: String },
    /// `setx` ran and failed. `code` is its exit code, where one was
    /// reported; `stderr` what it wrote to standard error, where that was
    /// valid UTF-8.
    SetxFailed { code: Option<i32>, stderr: Option<String> },
}

/// The character of a decimal digit.
pub open spec fn digit_char(d: nat) -> char {
    if d == 0 { '0' }
    else if d == 1 { '1' }
    else if d == 2 { '2' }
    else if d == 3 { '3' }
    else if d == 4 { '4' }
    else if d == 5 { '5' }
    else if d == 6 { '6' }
    else if d == 7 { '7' }
    else if d == 8 { '8' }
    else { '9' }
}

/// The decimal digits of `n`, most significant first, without leading zeros.
pub open spec fn digits(n: nat) -> Seq<char>
    decreases n,
{
    if n < 10 {
        seq![digit_char(n)]
    } else {
        digits(n / 10) + seq![digit_char(n % 10)]
    }
}

/// `n` in decimal, with a leading `-` where it is negative.
pub open spec fn decimal(n: int) -> Seq<char> {
    if n < 0 {
        "-"@ + digits((-n) as nat)
    } else {
        digits(n as nat)
    }
}

/// The part of a `setx` failure message that gives the exit code.
pub open spec fn exit_code_text(code: Option<i32>) -> Seq<char> {
    match code {
        Some(c) => "setx exitted with status code "@ + decimal(c as int),
        None => "The exit code for setx could not be determined."@,
    }
}

/// The part of a `setx` failure message that gives its standard error.
pub open spec fn stderr_text(stderr: Option<Seq<char>>) -> Seq<char> {
    match stderr {
        Some(s) => "setx wrote the following to stderr:\n"@ + s,
        None => "stderr content cannot be displayed because is not utf-8."@,
    }
}

/// The message that describes `e`.
pub open spec fn error_text(e: EnvPermError) -> Seq<char> {
    match e {
        EnvPermError::NoHomeDirectory => "No home directory"@,
        EnvPermError::NonUnicodeValue { var, rendered } =>
            "Could not environment variable "@ + var@ + ". Reason: Non unicode value "@
                + rendered@,
        EnvPermError::SetxFailed { code, stderr } =>
            exit_code_text(code) + stderr_text(
                match stderr {
                    Some(s) => Some(s@),
                    None => None,
                },
            ),
    }
}

/// The one-character text of the digit `d`.
fn digit_str(d: u32) -> (r: &'static str)
    requires
        d < 10,
    ensures
        r@ == seq![digit_char(d as nat)],
{
    proof {
        reveal_strlit("0");
        reveal_strlit("1");
        reveal_strlit("2");
        reveal_strlit("3");
        reveal_strlit("4");
        reveal_strlit("5");
        reveal_strlit("6");
        reveal_strlit("7");
        reveal_strlit("8");
        reveal_strlit("9");
    }
    if d == 0 { "0" }
    else if d == 1 { "1" }
    else if d == 2 { "2" }
    else if d == 3 { "3" }
    else if d == 4 { "4" }
    else if d == 5 { "5" }
    else if d == 6 { "6" }
    else if d == 7 { "7" }
    else if d == 8 { "8" }
    else { "9" }
}

/// Adds the decimal digits of `n` to `out`.
fn push_digits(out: &mut String, n: u32)
    ensures
        final(out)@ == old(out)@ + digits(n as nat),
    decreases n,
{
    if n >= 10 {
        push_digits(out, n / 10);
        out.append(digit_str(n % 10));
        assert(final(out)@ =~= old(out)@ + digits(n as nat));
    } else {
        out.append(digit_str(n));
    }
}

/// Adds `n` in decimal to `out`.
pub fn push_decimal(out: &mut String, n: i32)
    ensures
        final(out)@ == old(out)@ + decimal(n as int),
{
    if n < 0 {
        out.append("-");
        let magnitude: u32 = (-(n as i64)) as u32;
        push_digits(out, magnitude);
        assert(final(out)@ =~= old(out)@ + decimal(n as int));
    } else {
        push_digits(out, n as u32);
    }
}

impl EnvPermError {
    /// The message that describes this failure.
    pub fn message(&self) -> (r: String)
        ensures
            r@ == error_text(*self),
    {
        match self {
            EnvPermError::NoHomeDirectory => String::from_str("No home directory"),
            EnvPermError::NonUnicodeValue { var, rendered } => {
                let mut r = String::from_str("Could not environment variable ");
                r.append(var.as_str());
                r.append(". Reason: Non unicode value ");
                r.append(rendered.as_str());
                r
            },
            EnvPermError::SetxFailed { code, stderr } => {
                let mut r = String::new();
                match code {
                    Some(c) => {
                        r.append("setx exitted with status code ");
                        push_decimal(&mut r, *c);
                    },
                    None => {
                        r.append("The exit code for setx could not be determined.");
                    },
                }
                match stderr {
                    Some(s) => {
                        r.append("setx wrote the following to stderr:\n");
                        r.append(s.as_str());
                    },
                    None => {
                        r.append("stderr content cannot be displayed because is not utf-8.");
                    },
                }
                r
            },
        }
    }
}

} // verus!
