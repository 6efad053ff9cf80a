use symposium_cargo::assemble_result;
use symposium_cargo::diagnostics::DiagnosticRecord;
use symposium_cargo::should_report;
use symposium_cargo::BuildInvocation;

#[test]
fn rendered_command_with_args_and_no_format_flag() {
    let inv = BuildInvocation {
        command: "help".to_string(),
        args: vec!["build".to_string()],
        cwd: None,
        skip_json_format: true,
    };
    let rendered = inv.rendered_command();
    assert!(rendered.contains("cargo help build"));
    assert_eq!(rendered, "cargo help build");
}

#[test]
fn rendered_command_appends_format_flag() {
    let inv = BuildInvocation::check(None);
    assert_eq!(inv.rendered_command(), "cargo check  --message-format json");
}

#[test]
fn check_invocation_shape() {
    let inv = BuildInvocation::check(Some("/w".to_string()));
    assert_eq!(inv.command, "check");
    assert!(inv.args.is_empty());
    assert_eq!(inv.cwd, Some("/w".to_string()));
    assert!(!inv.skip_json_format);
}

#[test]
fn build_invocation_shape() {
    let inv = BuildInvocation::build(None);
    assert_eq!(inv.command, "build");
    assert!(inv.args.is_empty());
    assert!(!inv.skip_json_format);
}

#[test]
fn test_invocation_carries_filter_argument() {
    let inv = BuildInvocation::test(None, Some("my_case".to_string()));
    assert_eq!(inv.command, "test");
    assert_eq!(inv.args, vec!["my_case".to_string()]);
    let inv = BuildInvocation::test(None, None);
    assert!(inv.args.is_empty());
}

#[test]
fn full_args_appends_format_flag() {
    let inv = BuildInvocation::test(None, Some("my_case".to_string()));
    assert_eq!(
        inv.full_args(),
        vec![
            "my_case".to_string(),
            "--message-format".to_string(),
            "json".to_string(),
        ]
    );
}

#[test]
fn full_args_respects_suppression() {
    let inv = BuildInvocation {
        command: "version".to_string(),
        args: vec![],
        cwd: None,
        skip_json_format: true,
    };
    assert_eq!(inv.full_args(), Vec::<String>::new());
}

#[test]
fn assemble_result_success_on_exit_zero() {
    let inv = BuildInvocation::check(None);
    let r = assemble_result(&inv, Some(0), "", "");
    assert!(r.success);
    assert_eq!(r.exit_code, Some(0));
    assert!(r.messages.is_empty());
    assert_eq!(r.stderr, "");
    assert_eq!(r.command, "cargo check  --message-format json");
    assert!(!should_report(&r));
}

#[test]
fn assemble_result_failure_on_nonzero_exit() {
    let inv = BuildInvocation::check(None);
    let stdout = "{\"reason\":\"compiler-message\",\"message\":{\"rendered\":\"error: x\\n\"}}";
    let stderr = "Blocking waiting for file lock on package cache\nerror: could not compile";
    let r = assemble_result(&inv, Some(101), stdout, stderr);
    assert!(!r.success);
    assert_eq!(r.exit_code, Some(101));
    assert_eq!(
        r.messages,
        vec![DiagnosticRecord::CompilerMessage {
            rendered: Some("error: x\n".to_string()),
            package_id: None,
        }]
    );
    assert_eq!(r.stderr, "error: could not compile");
    assert!(should_report(&r));
}

#[test]
fn assemble_result_missing_exit_code_is_failure() {
    let inv = BuildInvocation::check(None);
    let r = assemble_result(&inv, None, "", "");
    assert!(!r.success);
    assert_eq!(r.exit_code, None);
    assert!(should_report(&r));
}
