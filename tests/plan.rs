use xtask::exec::{ExecMode, Invocation};
use xtask::plan::{
    build_args, clean_args, clippy_args, dev_args, fmt_args, plan, run_args, run_script, test_args, Commands,
    Step, SCRIPT_DEBUG, SCRIPT_RELEASE, SCRIPT_WATCH_DEBUG, SCRIPT_WATCH_RELEASE,
};

fn strs(v: &[String]) -> Vec<&str> {
    v.iter().map(|s| s.as_str()).collect()
}

fn calls(steps: &[Step]) -> Vec<&Invocation> {
    steps
        .iter()
        .filter_map(|s| match s {
            Step::Run(inv) => Some(inv),
            Step::Say(_) => None,
        })
        .collect()
}

#[test]
fn dev_args_follow_flags() {
    assert_eq!(strs(&dev_args(false, false)), vec!["compose", "-f", "docker-compose.dev.yml", "up", "-d"]);
    assert_eq!(
        strs(&dev_args(true, true)),
        vec!["compose", "-f", "docker-compose.dev.yml", "--profile", "test", "up", "--build", "-d"]
    );
    assert_eq!(
        strs(&dev_args(false, true)),
        vec!["compose", "-f", "docker-compose.dev.yml", "--profile", "test", "up", "-d"]
    );
    assert_eq!(strs(&dev_args(true, false)), vec!["compose", "-f", "docker-compose.dev.yml", "up", "--build", "-d"]);
}

#[test]
fn run_script_matrix() {
    assert_eq!(
        run_script(false, false),
        "cargo build && ./target/debug/harborshield --data-dir /data --debug"
    );
    assert_eq!(
        run_script(true, false),
        "cargo build --release && ./target/release/harborshield --data-dir /data --debug"
    );
    assert_eq!(
        run_script(false, true),
        "cargo watch -x 'build' -s './target/debug/harborshield --data-dir /data --debug'"
    );
    assert_eq!(
        run_script(true, true),
        "cargo watch -x 'build --release' -s './target/release/harborshield --data-dir /data --debug'"
    );
    let all = [SCRIPT_DEBUG, SCRIPT_RELEASE, SCRIPT_WATCH_DEBUG, SCRIPT_WATCH_RELEASE];
    for (i, a) in all.iter().enumerate() {
        for b in all.iter().skip(i + 1) {
            assert_ne!(a, b);
        }
    }
}

#[test]
fn run_args_wrap_script() {
    assert_eq!(
        strs(&run_args(true, false)),
        vec!["exec", "-it", "harborshield-dev", "bash", "-c", SCRIPT_RELEASE]
    );
}

#[test]
fn unit_flag_wins_over_ignored() {
    assert_eq!(strs(&test_args(true, true)), vec!["test", "--lib"]);
    assert_eq!(strs(&test_args(false, true)), vec!["test", "--lib"]);
    assert_eq!(strs(&test_args(true, false)), vec!["test", "--", "--ignored"]);
    assert_eq!(strs(&test_args(false, false)), vec!["test"]);
}

#[test]
fn check_args_follow_fix() {
    assert_eq!(strs(&fmt_args(false)), vec!["fmt", "--check"]);
    assert_eq!(strs(&fmt_args(true)), vec!["fmt"]);
    assert_eq!(
        strs(&clippy_args(false)),
        vec!["clippy", "--all-targets", "--all-features", "--", "-D", "warnings"]
    );
    assert_eq!(
        strs(&clippy_args(true)),
        vec!["clippy", "--all-targets", "--all-features", "--fix", "--allow-dirty", "--", "-D", "warnings"]
    );
}

#[test]
fn build_args_follow_linux() {
    assert_eq!(strs(&build_args(false)), vec!["build", "--release"]);
    assert_eq!(
        strs(&build_args(true)),
        vec!["build", "--release", "--target", "x86_64-unknown-linux-gnu"]
    );
}

#[test]
fn clean_without_volumes() {
    assert_eq!(strs(&clean_args(false)), vec!["compose", "-f", "docker-compose.dev.yml", "down"]);
    let steps = plan(Commands::Clean { volumes: false }, "/proj").unwrap();
    let c = calls(&steps);
    assert_eq!(c.len(), 2);
    assert_eq!(c[0].program, "docker");
    assert_eq!(strs(&c[0].args), vec!["compose", "-f", "docker-compose.dev.yml", "down"]);
    assert_eq!(c[0].mode, ExecMode::Captured);
    assert_eq!(c[1].program, "docker");
    assert_eq!(strs(&c[1].args), vec!["rm", "-f", "harborshield-dev", "test-nginx"]);
    assert_eq!(c[1].mode, ExecMode::Silent);
}

#[test]
fn clean_with_volumes() {
    assert_eq!(strs(&clean_args(true)), vec!["compose", "-f", "docker-compose.dev.yml", "down", "-v"]);
    let steps = plan(Commands::Clean { volumes: true }, "/proj").unwrap();
    let c = calls(&steps);
    assert_eq!(strs(&c[0].args), vec!["compose", "-f", "docker-compose.dev.yml", "down", "-v"]);
    assert_eq!(c[1].mode, ExecMode::Silent);
}

#[test]
fn check_plan_runs_fmt_clippy_test_in_order() {
    let steps = plan(Commands::Check { fix: false }, "/proj").unwrap();
    let c = calls(&steps);
    assert_eq!(c.len(), 3);
    assert_eq!(strs(&c[0].args), vec!["fmt", "--check"]);
    assert_eq!(c[1].args[0], "clippy");
    assert_eq!(strs(&c[2].args), vec!["test"]);
    assert!(c.iter().all(|i| i.program == "cargo" && i.mode == ExecMode::Captured));
}

#[test]
fn restart_tears_down_silently_first() {
    let steps = plan(Commands::Restart, "/proj").unwrap();
    let c = calls(&steps);
    assert_eq!(c.len(), 2);
    assert_eq!(strs(&c[0].args), vec!["compose", "-f", "docker-compose.dev.yml", "down"]);
    assert_eq!(c[0].mode, ExecMode::Silent);
    assert_eq!(
        strs(&c[1].args),
        vec!["compose", "-f", "docker-compose.dev.yml", "up", "--build", "-d"]
    );
    assert_eq!(c[1].mode, ExecMode::Captured);
}

#[test]
fn shell_and_run_are_interactive() {
    for cmd in [Commands::Shell, Commands::Run { release: false, watch: true }] {
        let steps = plan(cmd, "/proj").unwrap();
        let c = calls(&steps);
        assert_eq!(c.len(), 1);
        assert_eq!(c[0].mode, ExecMode::Interactive);
    }
}

#[test]
fn fixed_build_tool_calls() {
    let m = plan(Commands::Migrate, "/proj").unwrap();
    assert_eq!(strs(&calls(&m)[0].args), vec!["sqlx", "migrate", "run"]);
    let p = plan(Commands::SqlxPrepare, "/proj").unwrap();
    assert_eq!(strs(&calls(&p)[0].args), vec!["sqlx", "prepare"]);
}

#[test]
fn every_call_runs_in_project_root() {
    let all = [
        Commands::Dev { build: true, test: false },
        Commands::Shell,
        Commands::Run { release: true, watch: true },
        Commands::Test { ignored: true, unit: false },
        Commands::Check { fix: true },
        Commands::Build { linux: true },
        Commands::Stop,
        Commands::Restart,
        Commands::Clean { volumes: true },
        Commands::Migrate,
        Commands::SqlxPrepare,
    ];
    for cmd in all {
        let steps = plan(cmd, "/home/dev/harborshield").unwrap();
        for inv in calls(&steps) {
            assert_eq!(inv.dir, "/home/dev/harborshield");
        }
    }
}

#[test]
fn setup_has_no_plan() {
    assert!(plan(Commands::SetupZed, "/proj").is_none());
}

#[test]
fn dev_plan_messages() {
    let steps = plan(Commands::Dev { build: false, test: false }, "/proj").unwrap();
    match &steps[0] {
        Step::Say(m) => assert_eq!(m, "Starting development environment..."),
        Step::Run(_) => panic!("expected a message first"),
    }
    assert_eq!(steps.len(), 6);
}
