use temp_test::command::{OUTPUT_DIR, PROFILE_DIR};
use temp_test::{Project, TestCommand};

#[test]
fn new_command_starts_with_the_subcommand() {
    let inv = TestCommand::new("/tmp/p", "build").build_command_under("/work", "tool");
    assert_eq!(inv.args, vec!["build".to_string()]);
    assert_eq!(inv.cwd, "/tmp/p");
    assert!(inv.env_vars.is_empty());
}

#[test]
fn output_directory_names() {
    assert_eq!(OUTPUT_DIR, "target");
    assert_eq!(PROFILE_DIR, "debug");
}

#[test]
fn arg_appends_in_order() {
    let inv = TestCommand::new("/p", "test").arg("debug").arg("-v").build_command_under("/w", "t");
    assert_eq!(inv.args, vec!["test".to_string(), "debug".to_string(), "-v".to_string()]);
}

#[test]
fn args_passes_exactly_the_given_tokens_after_the_subcommand() {
    let inv = TestCommand::new("/p", "run").args(&["test", "debug"]).build_command_under("/w", "t");
    assert_eq!(inv.args, vec!["run".to_string(), "test".to_string(), "debug".to_string()]);
}

#[test]
fn args_with_nothing_changes_nothing() {
    let inv = TestCommand::new("/p", "run").arg("a").args(&[]).build_command_under("/w", "t");
    assert_eq!(inv.args, vec!["run".to_string(), "a".to_string()]);
}

#[test]
fn args_and_arg_mix_in_call_order() {
    let inv = TestCommand::new("/p", "s")
        .args(&["a", "b"])
        .arg("c")
        .args(&["d"])
        .build_command_under("/w", "t");
    assert_eq!(inv.args, ["s", "a", "b", "c", "d"].map(String::from).to_vec());
}

#[test]
fn env_adds_the_assignment() {
    let inv = TestCommand::new("/p", "s").env("FOO", "bar").build_command_under("/w", "t");
    assert_eq!(inv.env_vars, vec![("FOO".to_string(), "bar".to_string())]);
}

#[test]
fn env_keeps_repeated_keys_in_order() {
    let inv = TestCommand::new("/p", "s")
        .env("FOO", "one")
        .env("BAR", "x")
        .env("FOO", "two")
        .build_command_under("/w", "t");
    assert_eq!(
        inv.env_vars,
        vec![
            ("FOO".to_string(), "one".to_string()),
            ("BAR".to_string(), "x".to_string()),
            ("FOO".to_string(), "two".to_string()),
        ]
    );
}

#[test]
fn cd_descends_below_the_project_root() {
    let command = TestCommand::new("/tmp/proj", "s").cd("sub/dir");
    assert_eq!(command.cwd(), "/tmp/proj/sub/dir");
}

#[test]
fn cd_twice_descends_further() {
    let command = TestCommand::new("/tmp/proj", "s").cd("sub").cd("dir");
    assert_eq!(command.cwd(), "/tmp/proj/sub/dir");
}

#[test]
fn cd_leaves_arguments_and_environment_alone() {
    let command = TestCommand::new("/p", "s").arg("a").env("K", "V").cd("x");
    let inv = command.build_command_under("/w", "t");
    assert_eq!(inv.args, vec!["s".to_string(), "a".to_string()]);
    assert_eq!(inv.env_vars, vec![("K".to_string(), "V".to_string())]);
    assert_eq!(inv.cwd, "/p/x");
}

#[test]
fn binary_lies_in_the_debug_output_next_to_the_harness() {
    let inv = TestCommand::new("/p", "s").build_command("/work/harness", None, "tool").unwrap();
    assert_eq!(inv.program, "/work/target/debug/tool");
}

#[test]
fn package_override_takes_priority_over_the_default() {
    let inv = TestCommand::new("/p", "s")
        .build_command("/work/harness", Some("other"), "tool")
        .unwrap();
    assert_eq!(inv.program, "/work/target/debug/other");
}

#[test]
fn build_command_hands_on_what_was_configured() {
    let inv = TestCommand::new("/p", "s")
        .arg("a")
        .env("K", "V")
        .cd("d")
        .build_command("/work/harness", None, "tool")
        .unwrap();
    assert_eq!(inv.args, vec!["s".to_string(), "a".to_string()]);
    assert_eq!(inv.env_vars, vec![("K".to_string(), "V".to_string())]);
    assert_eq!(inv.cwd, "/p/d");
}

#[test]
fn harness_without_a_parent_resolves_to_nothing() {
    assert!(TestCommand::new("/p", "s").build_command("/", None, "tool").is_none());
    assert!(TestCommand::new("/p", "s").build_command("", None, "tool").is_none());
}

#[test]
fn build_command_under_joins_output_profile_and_name() {
    let inv = TestCommand::new("/p", "s").build_command_under("/above", "bin");
    assert_eq!(inv.program, "/above/target/debug/bin");
}

#[test]
fn project_command_is_rooted_at_the_project() {
    let project = Project { root: "/tmp/proj.1".to_string(), name: "proj".to_string() };
    let inv = project.command("test").arg("debug").build_command_under("/w", "t");
    assert_eq!(inv.cwd, "/tmp/proj.1");
    assert_eq!(inv.args, vec!["test".to_string(), "debug".to_string()]);
    assert!(inv.env_vars.is_empty());
}

#[test]
fn project_path_lies_below_the_root() {
    let project = Project { root: "/tmp/proj.1".to_string(), name: "proj".to_string() };
    assert_eq!(project.path("Cargo.toml"), "/tmp/proj.1/Cargo.toml");
    assert_eq!(project.path("a/b.txt"), "/tmp/proj.1/a/b.txt");
    assert_eq!(project.root, "/tmp/proj.1");
    assert_eq!(project.name, "proj");
}
