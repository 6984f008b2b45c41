use actions_toolkit::exec::{ExecError, ExecOutput};
use actions_toolkit::policy::{evaluate_policy, resolve_outcome, Verdict};

#[test]
fn verdict_table_for_every_combination() {
    for code in [0isize, 1, 2, -1, 255] {
        for seen in [false, true] {
            for fail in [false, true] {
                for ignore in [false, true] {
                    let expected = if fail && seen {
                        Verdict::StdErrProduced
                    } else if code != 0 && !ignore {
                        Verdict::NonZeroExit
                    } else {
                        Verdict::Success
                    };
                    assert_eq!(evaluate_policy(code, seen, fail, ignore), expected);
                }
            }
        }
    }
}

#[test]
fn stderr_failure_wins_over_nonzero_exit() {
    assert_eq!(evaluate_policy(1, true, true, false), Verdict::StdErrProduced);
    let r = resolve_outcome(1, "out".to_string(), "err".to_string(), true, true, false);
    assert_eq!(r, Err(ExecError::StdErrProduced { stderr: "err".to_string() }));
}

#[test]
fn nonzero_exit_carries_code_and_stderr() {
    let r = resolve_outcome(1, String::new(), "boom".to_string(), true, false, false);
    assert_eq!(r, Err(ExecError::NonZeroExit { exit_code: 1, stderr: "boom".to_string() }));
}

#[test]
fn ignore_flag_never_gives_nonzero_exit() {
    for code in [0isize, 1, 2, 127, -9, isize::MAX, isize::MIN] {
        assert_ne!(evaluate_policy(code, false, false, true), Verdict::NonZeroExit);
        assert_ne!(evaluate_policy(code, true, false, true), Verdict::NonZeroExit);
        let r = resolve_outcome(code, "o".to_string(), "e".to_string(), true, false, true);
        assert_eq!(
            r,
            Ok(ExecOutput { exitCode: code, stdout: "o".to_string(), stderr: "e".to_string() })
        );
    }
}

#[test]
fn stderr_output_without_fail_flag_succeeds() {
    let r = resolve_outcome(0, String::new(), "warn".to_string(), true, false, false);
    assert_eq!(
        r,
        Ok(ExecOutput { exitCode: 0, stdout: String::new(), stderr: "warn".to_string() })
    );
}
