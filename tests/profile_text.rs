use env_perm::error::{push_decimal, EnvPermError};
use env_perm::lines;
use env_perm::lines::{append, check_or_set};
use env_perm::native::{native_append_value, setx_outcome, setx_value, CurrentValue};
use env_perm::profile::{
    home_or_error, lookup_next, lookup_start, profile_candidate, LookupStep, CANDIDATE_COUNT,
};

/// Runs the lookup against a home holding the files marked in `exists`
/// (`.bash_profile`, `.bash_login`, `.profile`); a creating open succeeds
/// only where `creating_works`.
/// Returns the chosen file's name, whether it was created, and every file
/// that an open was attempted on.
fn run_lookup(exists: [bool; 3], creating_works: bool) -> (Option<(String, bool)>, Vec<String>) {
    let mut tried = Vec::new();
    let mut step = lookup_start();
    loop {
        match step {
            LookupStep::Open(i) => {
                let c = profile_candidate(i);
                tried.push(c.file_name.to_string());
                let present = match c.file_name {
                    ".bash_profile" => exists[0],
                    ".bash_login" => exists[1],
                    _ => exists[2],
                };
                let opened = present || (c.create && creating_works);
                step = lookup_next(i, opened);
            }
            LookupStep::Found(i) => {
                let c = profile_candidate(i);
                return (Some((c.file_name.to_string(), c.create)), tried);
            }
            LookupStep::Exhausted => return (None, tried),
        }
    }
}

#[test]
fn set_writes_export_line() {
    let mut p = String::new();
    lines::set(&mut p, "FOO", "1");
    assert_eq!(p, "\nexport FOO=1\n");
}

#[test]
fn set_adds_no_quoting() {
    let mut p = String::new();
    lines::set(&mut p, "DUMMY", "\"/something\"");
    assert_eq!(p, "\nexport DUMMY=\"/something\"\n");
    let mut q = String::new();
    lines::set(&mut q, "A", "b c");
    assert_eq!(q, "\nexport A=b c\n");
}

#[test]
fn set_keeps_existing_text() {
    let mut p = String::from("# profile\n");
    lines::set(&mut p, "FOO", "1");
    assert_eq!(p, "# profile\n\nexport FOO=1\n");
}

#[test]
fn append_keeps_name_literal() {
    let mut p = String::new();
    append(&mut p, "PATH", "$HOME/some/cool/bin");
    assert_eq!(p, "\nexport PATH=\"$HOME/some/cool/bin:$PATH\"\n");
}

#[test]
fn check_or_set_present_writes_nothing() {
    let mut p = String::from("existing");
    check_or_set(true, &mut p, "FOO", "1");
    assert_eq!(p, "existing");
}

#[test]
fn check_or_set_absent_writes_set_line() {
    let mut p = String::new();
    check_or_set(false, &mut p, "FOO", "1");
    let mut q = String::new();
    lines::set(&mut q, "FOO", "1");
    assert_eq!(p, q);
    assert_eq!(p, "\nexport FOO=1\n");
}

#[test]
fn set_twice_gives_two_lines() {
    let mut p = String::new();
    lines::set(&mut p, "FOO", "1");
    lines::set(&mut p, "FOO", "1");
    assert_eq!(p, "\nexport FOO=1\n\nexport FOO=1\n");
    assert_eq!(p.matches("export FOO=1").count(), 2);
}

#[test]
fn candidates_in_order() {
    assert_eq!(CANDIDATE_COUNT, 4);
    let names: Vec<(&str, bool)> = (0..CANDIDATE_COUNT)
        .map(|i| {
            let c = profile_candidate(i);
            (c.file_name, c.create)
        })
        .collect();
    assert_eq!(
        names,
        vec![
            (".bash_profile", false),
            (".bash_login", false),
            (".profile", false),
            (".bash_profile", true),
        ]
    );
}

#[test]
fn lookup_steps() {
    assert_eq!(lookup_start(), LookupStep::Open(0));
    assert_eq!(lookup_next(0, true), LookupStep::Found(0));
    assert_eq!(lookup_next(0, false), LookupStep::Open(1));
    assert_eq!(lookup_next(2, false), LookupStep::Open(3));
    assert_eq!(lookup_next(3, true), LookupStep::Found(3));
    assert_eq!(lookup_next(3, false), LookupStep::Exhausted);
}

#[test]
fn lookup_prefers_bash_profile() {
    let (found, _) = run_lookup([true, true, true], true);
    assert_eq!(found, Some((".bash_profile".to_string(), false)));
}

#[test]
fn lookup_prefers_bash_login_over_profile() {
    let (found, _) = run_lookup([false, true, true], true);
    assert_eq!(found, Some((".bash_login".to_string(), false)));
}

#[test]
fn lookup_only_profile() {
    let (found, tried) = run_lookup([false, false, true], true);
    assert_eq!(found, Some((".profile".to_string(), false)));
    assert_eq!(tried, vec![".bash_profile", ".bash_login", ".profile"]);
    let mut p = String::new();
    lines::set(&mut p, "FOO", "1");
    assert_eq!(p, "\nexport FOO=1\n");
}

#[test]
fn lookup_empty_home_creates_bash_profile() {
    let (found, tried) = run_lookup([false, false, false], true);
    assert_eq!(found, Some((".bash_profile".to_string(), true)));
    assert_eq!(tried.len(), 4);
}

#[test]
fn lookup_exhausted_when_creating_fails() {
    let (found, tried) = run_lookup([false, false, false], false);
    assert_eq!(found, None);
    assert_eq!(tried.len(), 4);
}

#[test]
fn setx_value_is_quoted() {
    assert_eq!(setx_value("/something"), "\"/something\"");
    assert_eq!(setx_value(""), "\"\"");
}

#[test]
fn native_append_present() {
    let r = native_append_value("PATH", "C:\\bin", &CurrentValue::Present("C:\\old".to_string()));
    assert_eq!(r.unwrap(), "C:\\bin; C:\\old");
}

#[test]
fn native_append_not_present_is_empty() {
    let r = native_append_value("DUMMY", "C:\\bin", &CurrentValue::NotPresent);
    assert_eq!(r.unwrap(), "C:\\bin; ");
}

#[test]
fn native_append_not_unicode_fails() {
    let r = native_append_value("DUMMY", "v", &CurrentValue::NotUnicode("\"\\xFF\"".to_string()));
    let e = r.unwrap_err();
    assert!(matches!(e, EnvPermError::NonUnicodeValue { .. }));
    assert_eq!(
        e.message(),
        "Could not environment variable DUMMY. Reason: Non unicode value \"\\xFF\""
    );
}

#[test]
fn setx_success_is_ok() {
    assert!(setx_outcome(true, Some(0), Some(String::new())).is_ok());
}

#[test]
fn setx_failure_message_with_stderr() {
    let e = setx_outcome(false, Some(1), Some("ERROR: Invalid syntax.".to_string())).unwrap_err();
    assert_eq!(
        e.message(),
        "setx exitted with status code 1setx wrote the following to stderr:\nERROR: Invalid syntax."
    );
}

#[test]
fn setx_failure_message_without_code_or_text() {
    let e = setx_outcome(false, None, None).unwrap_err();
    assert_eq!(
        e.message(),
        "The exit code for setx could not be determined.stderr content cannot be displayed because is not utf-8."
    );
}

#[test]
fn no_home_message() {
    assert_eq!(EnvPermError::NoHomeDirectory.message(), "No home directory");
}

#[test]
fn decimal_rendering() {
    for n in [0i32, 7, 10, 42, 1000, -1, -120, i32::MAX, i32::MIN] {
        let mut s = String::from("x");
        push_decimal(&mut s, n);
        assert_eq!(s, format!("x{}", n));
    }
}

#[test]
fn missing_home_is_an_error() {
    let r = home_or_error(None);
    assert!(matches!(r, Err(EnvPermError::NoHomeDirectory)));
    assert_eq!(r.unwrap_err().message(), "No home directory");
}

#[test]
fn found_home_is_handed_on() {
    let home = std::path::PathBuf::from("/home/someone");
    assert_eq!(home_or_error(Some(home.clone())).unwrap(), home);
}

#[test]
fn native_append_not_present_setx_argument() {
    let combined = native_append_value("DUMMY", "C:\\bin", &CurrentValue::NotPresent).unwrap();
    assert_eq!(setx_value(&combined), "\"C:\\bin; \"");
}
