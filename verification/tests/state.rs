use symposium_cargo::CargoProxy;
use symposium_cargo::DirtyFlag;
use symposium_cargo::StopReason;
use symposium_cargo::ToolCallStatus;
use symposium_cargo::ToolCallUpdate;
use symposium_cargo::WorkingDirRegistry;

#[test]
fn take_and_clear_twice_returns_true_then_false() {
    let mut flag = DirtyFlag::new();
    flag.mark_dirty();
    assert!(flag.take_and_clear());
    assert!(!flag.take_and_clear());
}

#[test]
fn take_and_clear_on_fresh_flag_is_false() {
    let mut flag = DirtyFlag::new();
    assert!(!flag.take_and_clear());
}

#[test]
fn repeated_mark_dirty_equals_one() {
    let mut many = DirtyFlag::new();
    many.mark_dirty();
    many.mark_dirty();
    many.mark_dirty();
    let mut once = DirtyFlag::new();
    once.mark_dirty();
    assert_eq!(many.take_and_clear(), once.take_and_clear());
    assert_eq!(many.take_and_clear(), once.take_and_clear());
}

#[test]
fn registry_returns_most_recent_value() {
    let mut reg = WorkingDirRegistry::new();
    assert_eq!(reg.get(), None);
    let cur = reg.set(Some("/work/a".to_string()));
    assert_eq!(cur, Some("/work/a".to_string()));
    assert_eq!(reg.get(), Some("/work/a".to_string()));
    let cur = reg.set(Some("/work/b".to_string()));
    assert_eq!(cur, Some("/work/b".to_string()));
    assert_eq!(reg.get(), Some("/work/b".to_string()));
}

#[test]
fn registry_set_empty_clears() {
    let mut reg = WorkingDirRegistry::new();
    reg.set(Some("/work/a".to_string()));
    let cur = reg.set(None);
    assert_eq!(cur, None);
    assert_eq!(reg.get(), None);
}

fn completed_update(paths: &[&str]) -> ToolCallUpdate {
    ToolCallUpdate {
        status: ToolCallStatus::Completed,
        locations: paths.iter().map(|p| p.to_string()).collect(),
    }
}

#[test]
fn source_edit_then_end_of_turn_triggers_one_check() {
    let mut proxy = CargoProxy::new();
    proxy.observe_tool_update(&completed_update(&["src/main.rs"]));
    let inv = proxy.on_turn_result(StopReason::EndOfTurn);
    let inv = inv.expect("a check invocation is due");
    assert_eq!(inv.command, "check");
    assert!(inv.args.is_empty());
    assert_eq!(inv.cwd, None);
    assert!(!inv.skip_json_format);
    assert!(proxy.on_turn_result(StopReason::EndOfTurn).is_none());
}

#[test]
fn end_of_turn_without_edit_triggers_nothing() {
    let mut proxy = CargoProxy::new();
    assert!(proxy.on_turn_result(StopReason::EndOfTurn).is_none());
}

#[test]
fn non_source_edit_triggers_nothing() {
    let mut proxy = CargoProxy::new();
    proxy.observe_tool_update(&completed_update(&["README.md", "notes.txt"]));
    assert!(proxy.on_turn_result(StopReason::EndOfTurn).is_none());
}

#[test]
fn incomplete_tool_call_does_not_mark_dirty() {
    let mut proxy = CargoProxy::new();
    let update = ToolCallUpdate {
        status: ToolCallStatus::InProgress,
        locations: vec!["src/lib.rs".to_string()],
    };
    proxy.observe_tool_update(&update);
    assert!(proxy.on_turn_result(StopReason::EndOfTurn).is_none());
}

#[test]
fn extension_match_is_case_insensitive() {
    let mut proxy = CargoProxy::new();
    proxy.observe_tool_update(&completed_update(&["SRC/MAIN.RS"]));
    assert!(proxy.on_turn_result(StopReason::EndOfTurn).is_some());
}

#[test]
fn non_end_of_turn_stop_leaves_tracker_untouched() {
    let mut proxy = CargoProxy::new();
    proxy.observe_tool_update(&completed_update(&["src/lib.rs"]));
    assert!(proxy.on_turn_result(StopReason::Cancelled).is_none());
    assert!(proxy.on_turn_result(StopReason::MaxTokens).is_none());
    assert!(proxy.on_turn_result(StopReason::EndOfTurn).is_some());
}

#[test]
fn check_invocation_uses_registry_directory() {
    let mut proxy = CargoProxy::new();
    let cur = proxy.set_working_dir(Some("/work/project".to_string()));
    assert_eq!(cur, Some("/work/project".to_string()));
    proxy.observe_tool_update(&completed_update(&["src/lib.rs"]));
    let inv = proxy.on_turn_result(StopReason::EndOfTurn).expect("check due");
    assert_eq!(inv.cwd, Some("/work/project".to_string()));
}
