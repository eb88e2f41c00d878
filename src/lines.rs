//! The export lines that are appended to a shell profile.
use vstd::prelude::*;
use vstd::string::StringExecFns;

verus! {

/// The text that `set` appends: `\nexport NAME=VALUE\n`, with `VALUE`
/// written as given, without added quoting.
pub open spec fn set_line(var: Seq<char>, value: Seq<char>) -> Seq<char> {
    "\nexport "@ + var + "="@ + value + "\n"@
}

/// The text that `append` appends: `\nexport NAME="VALUE:$NAME"\n`. The
/// `$NAME` stays literal, so the shell expands it when the profile is read.
pub open spec fn append_line(var: Seq<char>, value: Seq<char>) -> Seq<char> {
    "\nexport "@ + var + "=\""@ + value + ":$"@ + var + "\"\n"@
}

/// Adds to `profile`, the text bound for the profile file, the line that
/// sets `var` to `value`. Nothing already in `profile` is looked at: a
/// second call with the same name adds a second line.
pub fn set(profile: &mut String, var: &str, value: &str)
    ensures
        final(profile)@ == old(profile)@ + set_line(var@, value@),
{
    profile.append("\nexport ");
    profile.append(var);
    profile.append("=");
    profile.append(value);
    profile.append("\n");
}

/// Adds to `profile` the line that puts `value` in front of the value
/// that `var` has when the shell reads the profile (useful for `PATH`).
pub fn append(profile: &mut String, var: &str, value: &str)
    ensures
        final(profile)@ == old(profile)@ + append_line(var@, value@),
{
    profile.append("\nexport ");
    profile.append(var);
    profile.append("=\"");
    profile.append(value);
    profile.append(":$");
    profile.append(var);
    profile.append("\"\n");
}

/// Adds the line of `set` only where the variable is not `present` in the
/// environment; where it is, `profile` is left as it was.
pub fn check_or_set(present: bool, profile: &mut String, var: &str, value: &str)
    ensures
        present ==> *final(profile) == *old(profile),
        !present ==> final(profile)@ == old(profile)@ + set_line(var@, value@),
{
    if !present {
        set(profile, var, value);
    }
}

/// Setting a variable twice keeps both lines, in the order of the calls,
/// each one whole: no earlier assignment is removed or merged.
pub proof fn set_twice_keeps_both_lines(
    profile: Seq<char>,
    var: Seq<char>,
    first: Seq<char>,
    second: Seq<char>,
)
    ensures
        ({
            let once = profile + set_line(var, first);
            let twice = once + set_line(var, second);
            &&& twice.len() == profile.len() + set_line(var, first).len() + set_line(
                var,
                second,
            ).len()
            &&& twice.subrange(0, profile.len() as int) == profile
            &&& twice.subrange(profile.len() as int, once.len() as int) == set_line(var, first)
            &&& twice.subrange(once.len() as int, twice.len() as int) == set_line(var, second)
        }),
{
    let once = profile + set_line(var, first);
    let twice = once + set_line(var, second);
    assert(twice.subrange(0, profile.len() as int) =~= profile);
    assert(twice.subrange(profile.len() as int, once.len() as int) =~= set_line(var, first));
    assert(twice.subrange(once.len() as int, twice.len() as int) =~= set_line(var, second));
}

} // verus!
