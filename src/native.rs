//! Windows: the values handed to `setx`, which stores a variable for
//! future sessions, and the reading of its outcome.
use vstd::prelude::*;
use vstd::string::StringExecFns;
use crate::error::EnvPermError;

verus! {

/// What the process environment held for a variable when it was read.
#[derive(Debug, Clone)]
pub enum CurrentValue {
    /// The variable is set, to this text.
    Present(String),
    /// The variable is not set.
    NotPresent,
    /// The variable is set to bytes that are not valid Unicode; the field
    /// is a printable rendering of them.
    NotUnicode(String),
}

/// The value argument of `setx`: the value in double quotes.
pub open spec fn quoted(value: Seq<char>) -> Seq<char> {
    "\""@ + value + "\""@
}

/// The value that an append stores: the new value, `; `, then the current
/// one. A variable that is not set counts as empty.
pub open spec fn appended_value(value: Seq<char>, current: Seq<char>) -> Seq<char> {
    value + "; "@ + current
}

/// The value argument that `setx` is given to set a variable to `value`.
pub fn setx_value(value: &str) -> (r: String)
    ensures
        r@ == quoted(value@),
{
    let mut r = String::from_str("\"");
    r.append(value);
    r.append("\"");
    r
}

/// The value that appending `value` to `var` stores, given what the
/// environment holds for `var` now. Fails only where that is not Unicode.
pub fn native_append_value(var: &str, value: &str, current: &CurrentValue) -> (r: Result<
    String,
    EnvPermError,
>)
    ensures
        match current {
            CurrentValue::Present(c) => r is Ok && r->Ok_0@ == appended_value(value@, c@),
            CurrentValue::NotPresent => r is Ok && r->Ok_0@ == appended_value(value@, seq![]),
            CurrentValue::NotUnicode(rendered) => r is Err && (match r->Err_0 {
                EnvPermError::NonUnicodeValue { var: v, rendered: x } => v@ == var@ && x@
                    == rendered@,
                _ => false,
            }),
        },
{
    match current {
        CurrentValue::Present(c) => {
            let mut r = String::from_str(value);
            r.append("; ");
            r.append(c.as_str());
            Ok(r)
        },
        CurrentValue::NotPresent => {
            let mut r = String::from_str(value);
            r.append("; ");
            assert(r@ =~= appended_value(value@, seq![]));
            Ok(r)
        },
        CurrentValue::NotUnicode(rendered) => Err(
            EnvPermError::NonUnicodeValue {
                var: String::from_str(var),
                rendered: rendered.clone(),
            },
        ),
    }
}

/// Appending to a variable that is not set stores the new value followed
/// by `; ` and nothing else: `setx` is given `"VALUE; "`.
pub proof fn append_to_absent_is_against_empty(value: Seq<char>)
    ensures
        appended_value(value, seq![]) == value + "; "@,
        quoted(appended_value(value, seq![])) == "\""@ + value + "; \""@,
{
    reveal_strlit("; ");
    reveal_strlit("\"");
    reveal_strlit("; \"");
    assert(appended_value(value, seq![]) =~= value + "; "@);
    assert(quoted(appended_value(value, seq![])) =~= "\""@ + value + "; \""@);
}

/// Reads how `setx` ended: `Ok` where it exited successfully, else the
/// failure with its exit code and its standard error.
pub fn setx_outcome(success: bool, code: Option<i32>, stderr: Option<String>) -> (r: Result<
    (),
    EnvPermError,
>)
    ensures
        success ==> r is Ok,
        !success ==> r is Err && (match r->Err_0 {
            EnvPermError::SetxFailed { code: c, stderr: s } => c == code && s == stderr,
            _ => false,
        }),
{
    if success {
        Ok(())
    } else {
        Err(EnvPermError::SetxFailed { code, stderr })
    }
}

} // verus!
