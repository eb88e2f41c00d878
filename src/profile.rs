//! POSIX: which shell profile receives the export line.
//!
//! The candidates are tried in order: `.bash_profile`, `.bash_login` and
//! `.profile` under the home directory, each opened for appending only if
//! it exists; where none opens, `.bash_profile` is created. The caller
//! opens the files and reports each outcome to `lookup_next`.
use vstd::prelude::*;
use crate::error::EnvPermError;

verus! {

#[verifier::external_type_specification]
#[verifier::external_body]
pub struct ExPathBuf(std::path::PathBuf);

/// Relies on dirs::home_dir: the current user's home directory, where one
/// can be determined (from `$HOME`, else the user database).
#[verifier::external_body]
fn home_dir() -> (r: Option<std::path::PathBuf>) {
    dirs::home_dir()
}

/// The home directory, under which the profile candidates lie.
pub fn profile_home() -> (r: Result<std::path::PathBuf, EnvPermError>)
    ensures
        r is Err ==> r->Err_0 is NoHomeDirectory,
{
    home_or_error(home_dir())
}

/// The home directory where one was found, else `NoHomeDirectory`.
pub fn home_or_error(home: Option<std::path::PathBuf>) -> (r: Result<
    std::path::PathBuf,
    EnvPermError,
>)
    ensures
        home is None <==> r is Err,
        r is Err ==> r->Err_0 is NoHomeDirectory,
        r is Ok ==> home == Some(r->Ok_0),
{
    match home {
        Some(h) => Ok(h),
        None => Err(EnvPermError::NoHomeDirectory),
    }
}

/// How many profile candidates there are.
pub const CANDIDATE_COUNT: usize = 4;

/// A file to try: its name under the home directory, and whether it is
/// created where it does not exist.
pub struct ProfileCandidate {
    pub file_name: &'static str,
    pub create: bool,
}

/// The name of the candidate at `index`.
pub open spec fn candidate_name(index: int) -> Seq<char> {
    if index == 1 {
        ".bash_login"@
    } else if index == 2 {
        ".profile"@
    } else {
        ".bash_profile"@
    }
}

/// Whether the candidate at `index` is created where it is missing: only
/// the last one is.
pub open spec fn candidate_creates(index: int) -> bool {
    index == CANDIDATE_COUNT - 1
}

/// The candidate at `index`.
pub fn profile_candidate(index: usize) -> (r: ProfileCandidate)
    requires
        index < CANDIDATE_COUNT,
    ensures
        r.file_name@ == candidate_name(index as int),
        r.create == candidate_creates(index as int),
{
    if index == 1 {
        ProfileCandidate { file_name: ".bash_login", create: false }
    } else if index == 2 {
        ProfileCandidate { file_name: ".profile", create: false }
    } else {
        ProfileCandidate { file_name: ".bash_profile", create: index == CANDIDATE_COUNT - 1 }
    }
}

/// Where the lookup stands.
#[derive(Debug, Clone, Copy, PartialEq, Eq, Structural)]
pub enum LookupStep {
    /// Try to open the candidate at this index.
    Open(usize),
    /// The candidate at this index opened: append to it.
    Found(usize),
    /// No candidate opened, not even by creating it.
    Exhausted,
}

/// The step that follows an attempt to open the candidate at `current`.
pub open spec fn next_step(current: int, opened: bool) -> LookupStep {
    if opened {
        LookupStep::Found(current as usize)
    } else if current + 1 < CANDIDATE_COUNT {
        LookupStep::Open((current + 1) as usize)
    } else {
        LookupStep::Exhausted
    }
}

/// The first step: try the first candidate.
pub fn lookup_start() -> (r: LookupStep)
    ensures
        r == LookupStep::Open(0),
{
    LookupStep::Open(0)
}

/// The step after trying the candidate at `current`, which `opened` or not.
pub fn lookup_next(current: usize, opened: bool) -> (r: LookupStep)
    requires
        current < CANDIDATE_COUNT,
    ensures
        r == next_step(current as int, opened),
{
    if opened {
        LookupStep::Found(current)
    } else if current + 1 < CANDIDATE_COUNT {
        LookupStep::Open(current + 1)
    } else {
        LookupStep::Exhausted
    }
}

/// The index at which a lookup that has reached the candidate at `current`
/// ends, where `opens[i]` says whether the candidate at `i` opens; `None`
/// where none does.
pub open spec fn lookup_result(opens: Seq<bool>, current: int) -> Option<int>
    decreases CANDIDATE_COUNT - current,
{
    if current < 0 || current >= CANDIDATE_COUNT || current >= opens.len() {
        None
    } else {
        match next_step(current, opens[current]) {
            LookupStep::Found(i) => Some(i as int),
            LookupStep::Open(i) => lookup_result(opens, i as int),
            LookupStep::Exhausted => None,
        }
    }
}

/// The profile that receives the line, given which of `.bash_profile`,
/// `.bash_login` and `.profile` exist and with a creating open that
/// succeeds: the first of those three that exists, else a new
/// `.bash_profile`. A file is created only where none of the three exists.
pub proof fn lookup_prefers_in_order(bash_profile: bool, bash_login: bool, profile: bool)
    ensures
        ({
            let found = lookup_result(seq![bash_profile, bash_login, profile, true], 0);
            &&& found is Some
            &&& candidate_name(found->0) == (if bash_profile {
                ".bash_profile"@
            } else if bash_login {
                ".bash_login"@
            } else if profile {
                ".profile"@
            } else {
                ".bash_profile"@
            })
            &&& candidate_creates(found->0) == (!bash_profile && !bash_login && !profile)
        }),
{
    let opens = seq![bash_profile, bash_login, profile, true];
    reveal_with_fuel(lookup_result, 5);
    assert(opens[0] == bash_profile && opens[1] == bash_login && opens[2] == profile && opens[3]);
}

} // verus!
