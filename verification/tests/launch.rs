use launcher::launch::{GroupLaunch, collect_errors, invocation};
use launcher::model::AppCommand;

fn entry(name: &str, command: &str, args: &[&str], use_shell: bool) -> AppCommand {
    AppCommand {
        name: name.to_string(),
        command: command.to_string(),
        args: args.iter().map(|s| s.to_string()).collect(),
        use_shell,
    }
}

#[test]
fn direct_invocation_keeps_command_and_args() {
    let c = entry("term", "alacritty", &["--class", "scratch"], false);
    let inv = invocation(&c);
    assert_eq!(inv.program, "alacritty");
    assert_eq!(inv.args, vec!["--class".to_string(), "scratch".to_string()]);
}

#[test]
fn shell_invocation_runs_sh_dash_c() {
    let c = entry("docker", "", &["docker start $(docker ps -aq)"], true);
    let inv = invocation(&c);
    assert_eq!(inv.program, "sh");
    assert_eq!(
        inv.args,
        vec!["-c".to_string(), "docker start $(docker ps -aq)".to_string()]
    );
}

#[test]
fn second_of_three_failing_yields_one_error_and_all_are_attempted() {
    let apps = vec![
        entry("first", "bin-one", &[], false),
        entry("second", "bin-two", &[], false),
        entry("third", "bin-three", &[], false),
    ];
    let outcomes = vec![None, Some("spawn failed".to_string()), None];
    let errs = collect_errors(&apps, &outcomes);
    assert_eq!(errs.len(), 1);
    assert_eq!(errs[0].name, "second");
    assert_eq!(errs[0].cause, "spawn failed");
}

#[test]
fn all_successes_collect_no_errors() {
    let apps = vec![
        entry("first", "bin-one", &[], false),
        entry("second", "bin-two", &[], false),
    ];
    let outcomes = vec![None, None];
    let errs = collect_errors(&apps, &outcomes);
    assert!(errs.is_empty());
}

#[test]
fn all_failures_collect_every_error_in_order() {
    let apps = vec![
        entry("first", "bin-one", &[], false),
        entry("second", "bin-two", &[], false),
    ];
    let outcomes = vec![Some("not found".to_string()), Some("denied".to_string())];
    let errs = collect_errors(&apps, &outcomes);
    assert_eq!(errs.len(), 2);
    assert_eq!(errs[0].name, "first");
    assert_eq!(errs[0].cause, "not found");
    assert_eq!(errs[1].name, "second");
    assert_eq!(errs[1].cause, "denied");
}

#[test]
fn empty_group_launches_nothing() {
    let apps: Vec<AppCommand> = Vec::new();
    let outcomes: Vec<Option<String>> = Vec::new();
    let errs = collect_errors(&apps, &outcomes);
    assert!(errs.is_empty());
    let s = GroupLaunch::start(&apps);
    assert!(s.done());
}

#[test]
fn session_walks_the_group_in_order() {
    let apps = vec![
        entry("first", "bin-one", &[], false),
        entry("second", "bin-two", &[], false),
        entry("third", "bin-three", &[], false),
    ];
    let mut s = GroupLaunch::start(&apps);
    assert!(!s.done());
    assert_eq!(s.current().name, "first");
    s.record(None);
    assert_eq!(s.current().name, "second");
    s.record(Some("exec format error".to_string()));
    assert_eq!(s.current().name, "third");
    s.record(None);
    assert!(s.done());
    assert_eq!(s.pos, 3);
    assert_eq!(s.errors.len(), 1);
    assert_eq!(s.errors[0].name, "second");
    assert_eq!(s.errors[0].cause, "exec format error");
}
