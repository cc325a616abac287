use mcp_ssh_manager::diagnose::{diagnose_failure, report_failure, report_success};
use mcp_ssh_manager::knowledge::{first_flagged, match_error_pattern, Pattern, Suggestion};

fn acl_pattern() -> Pattern {
    Pattern {
        id: "WIN_SSH_ACL_DENIED".to_string(),
        pattern: "Permission denied .*publickey.*".to_string(),
        description: "Windows ACL Error".to_string(),
        suggestion: Suggestion {
            message: "ACL Error detected".to_string(),
            action_type: "run_script".to_string(),
            command_hint: None,
            script_path: Some("scripts/fix_acl.py".to_string()),
        },
    }
}

fn simple_pattern(id: &str, re: &str, message: &str) -> Pattern {
    Pattern {
        id: id.to_string(),
        pattern: re.to_string(),
        description: id.to_string(),
        suggestion: Suggestion {
            message: message.to_string(),
            action_type: "manual".to_string(),
            command_hint: Some("ssh-keygen -R host".to_string()),
            script_path: None,
        },
    }
}

#[test]
fn test_windows_acl_error_matching() {
    let patterns = vec![acl_pattern()];
    let stderr_input = "user@host: Permission denied (publickey,keyboard-interactive).";
    let suggestion = match_error_pattern(stderr_input, &patterns);
    assert!(suggestion.is_some());
    assert_eq!(suggestion.unwrap().message, "ACL Error detected");
}

#[test]
fn first_matching_pattern_wins() {
    let patterns = vec![
        simple_pattern("A", "timed out", "first"),
        simple_pattern("B", "Connection", "second"),
        simple_pattern("C", "Connection timed", "third"),
    ];
    let s = match_error_pattern("ssh: Connection timed out", &patterns).unwrap();
    assert_eq!(s.message, "first");
    let s = match_error_pattern("Connection refused", &patterns).unwrap();
    assert_eq!(s.message, "second");
}

#[test]
fn invalid_pattern_is_passed_over() {
    let patterns = vec![simple_pattern("BAD", "(unclosed", "bad"), simple_pattern("OK", "refused", "good")];
    let s = match_error_pattern("Connection refused (unclosed", &patterns).unwrap();
    assert_eq!(s.message, "good");
}

#[test]
fn no_pattern_matches_gives_none() {
    let patterns = vec![acl_pattern()];
    assert!(match_error_pattern("Host key verification failed.", &patterns).is_none());
    assert!(match_error_pattern("anything", &Vec::new()).is_none());
}

#[test]
fn first_flagged_picks_first_set_flag() {
    let patterns = vec![
        simple_pattern("A", "a", "one"),
        simple_pattern("B", "b", "two"),
        simple_pattern("C", "c", "three"),
    ];
    assert_eq!(first_flagged(&patterns, &vec![false, true, true]).unwrap().message, "two");
    assert!(first_flagged(&patterns, &vec![false, false, false]).is_none());
}

#[test]
fn diagnosis_without_hint_says_so() {
    let patterns = vec![acl_pattern()];
    let d = diagnose_failure("ssh: connect to host 10.0.0.9 port 22: No route to host", &patterns);
    assert!(d.hint.is_none());
    assert!(d.text.ends_with("No specific troubleshooting hint found."));
    assert_eq!(
        d.text,
        "SSH Connection Failed.\n\nSTDERR:\nssh: connect to host 10.0.0.9 port 22: No route to host\n\nNo specific troubleshooting hint found."
    );
}

#[test]
fn diagnosis_with_hint_lists_it() {
    let patterns = vec![acl_pattern()];
    let d = diagnose_failure("Permission denied (publickey).", &patterns);
    assert_eq!(d.hint.as_ref().unwrap().message, "ACL Error detected");
    assert_eq!(
        d.text,
        "SSH Connection Failed.\n\nSTDERR:\nPermission denied (publickey).\n\n--- AGENT HINT ---\nACL Error detected\nSuggested Script: `scripts/fix_acl.py`\n"
    );
    let with_cmd = report_failure("e", Some(simple_pattern("X", "x", "msg").suggestion));
    assert_eq!(
        with_cmd.text,
        "SSH Connection Failed.\n\nSTDERR:\ne\n\n--- AGENT HINT ---\nmsg\nSuggested Command: `ssh-keygen -R host`\n"
    );
}

#[test]
fn successful_probe_report() {
    let d = report_success();
    assert_eq!(d.text, "Connection successful. No issues detected.");
    assert!(d.hint.is_none());
}
