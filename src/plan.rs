use vstd::prelude::*;

use crate::exec::{texts, ExecMode, Invocation, InvocationView};

verus! {

/// The compose file that describes the development containers.
pub const COMPOSE_FILE: &'static str = "docker-compose.dev.yml";

/// The name of the development container.
pub const DEV_CONTAINER: &'static str = "harborshield-dev";

/// The character sequences of a list of string slices.
pub open spec fn strs(ws: Seq<&str>) -> Seq<Seq<char>> {
    ws.map_values(|w: &str| w@)
}

/// Appends one owned copy of `w`.
fn push_word(v: &mut Vec<String>, w: &str)
    ensures
        texts(final(v)@) == texts(old(v)@).push(w@),
{
    v.push(String::from_str(w));
    assert(texts(final(v)@) =~= texts(old(v)@).push(w@));
}

/// Owned copies of the given words, in order.
fn words(ws: &[&str]) -> (r: Vec<String>)
    ensures
        texts(r@) == strs(ws@),
{
    let mut r: Vec<String> = Vec::new();
    let mut i: usize = 0;
    while i < ws.len()
        invariant
            i <= ws@.len(),
            texts(r@) == strs(ws@).take(i as int),
        decreases ws@.len() - i,
    {
        push_word(&mut r, ws[i]);
        i = i + 1;
        assert(texts(r@) =~= strs(ws@).take(i as int));
    }
    assert(strs(ws@).take(i as int) =~= strs(ws@));
    r
}

/// Arguments that start the development environment.
pub open spec fn dev_args_spec(build: bool, test: bool) -> Seq<Seq<char>> {
    seq!["compose"@, "-f"@, COMPOSE_FILE@]
        + (if test { seq!["--profile"@, "test"@] } else { Seq::empty() })
        + seq!["up"@]
        + (if build { seq!["--build"@] } else { Seq::empty() })
        + seq!["-d"@]
}

/// The container runtime's arguments for bringing the development
/// environment up: the test profile selected before `up` when `test` is set, an
/// image rebuild when `build` is set, and always detached.
pub fn dev_args(build: bool, test: bool) -> (r: Vec<String>)
    ensures
        texts(r@) == dev_args_spec(build, test),
{
    let mut args = words(&["compose", "-f", COMPOSE_FILE]);
    assert(strs(seq!["compose", "-f", COMPOSE_FILE]) =~= seq!["compose"@, "-f"@, COMPOSE_FILE@]);
    if test {
        push_word(&mut args, "--profile");
        push_word(&mut args, "test");
    }
    push_word(&mut args, "up");
    if build {
        push_word(&mut args, "--build");
    }
    push_word(&mut args, "-d");
    assert(texts(args@) =~= dev_args_spec(build, test));
    args
}


/// Arguments that run the test suite.
pub open spec fn test_args_spec(ignored: bool, unit: bool) -> Seq<Seq<char>> {
    if unit {
        seq!["test"@, "--lib"@]
    } else if ignored {
        seq!["test"@, "--"@, "--ignored"@]
    } else {
        seq!["test"@]
    }
}

/// The build tool's arguments for running tests: unit tests only when `unit`
/// is set, whatever `ignored` says; otherwise the ignored tests when `ignored`
/// is set; otherwise the whole suite.
pub fn test_args(ignored: bool, unit: bool) -> (r: Vec<String>)
    ensures
        texts(r@) == test_args_spec(ignored, unit),
        unit ==> texts(r@) == seq!["test"@, "--lib"@],
{
    let mut args = words(&["test"]);
    assert(strs(seq!["test"]) =~= seq!["test"@]);
    if unit {
        push_word(&mut args, "--lib");
    } else if ignored {
        push_word(&mut args, "--");
        push_word(&mut args, "--ignored");
    }
    assert(texts(args@) =~= test_args_spec(ignored, unit));
    args
}

/// Arguments of the formatting step of the quality check.
pub open spec fn fmt_args_spec(fix: bool) -> Seq<Seq<char>> {
    if fix {
        seq!["fmt"@]
    } else {
        seq!["fmt"@, "--check"@]
    }
}

/// The formatter's arguments: rewrite the sources when `fix` is set, only
/// check them otherwise.
pub fn fmt_args(fix: bool) -> (r: Vec<String>)
    ensures
        texts(r@) == fmt_args_spec(fix),
{
    let mut args = words(&["fmt"]);
    assert(strs(seq!["fmt"]) =~= seq!["fmt"@]);
    if !fix {
        push_word(&mut args, "--check");
    }
    assert(texts(args@) =~= fmt_args_spec(fix));
    args
}

/// Arguments of the lint step of the quality check.
pub open spec fn clippy_args_spec(fix: bool) -> Seq<Seq<char>> {
    seq!["clippy"@, "--all-targets"@, "--all-features"@]
        + (if fix { seq!["--fix"@, "--allow-dirty"@] } else { Seq::empty() })
        + seq!["--"@, "-D"@, "warnings"@]
}

/// The linter's arguments: all targets and features, warnings denied, and
/// automatic fixes when `fix` is set.
pub fn clippy_args(fix: bool) -> (r: Vec<String>)
    ensures
        texts(r@) == clippy_args_spec(fix),
{
    let mut args = words(&["clippy", "--all-targets", "--all-features"]);
    assert(strs(seq!["clippy", "--all-targets", "--all-features"]) =~= seq![
        "clippy"@,
        "--all-targets"@,
        "--all-features"@,
    ]);
    if fix {
        push_word(&mut args, "--fix");
        push_word(&mut args, "--allow-dirty");
    }
    push_word(&mut args, "--");
    push_word(&mut args, "-D");
    push_word(&mut args, "warnings");
    assert(texts(args@) =~= clippy_args_spec(fix));
    args
}

/// Arguments of the release build.
pub open spec fn build_args_spec(linux: bool) -> Seq<Seq<char>> {
    if linux {
        seq!["build"@, "--release"@, "--target"@, "x86_64-unknown-linux-gnu"@]
    } else {
        seq!["build"@, "--release"@]
    }
}

/// The build tool's arguments for a release build, for the Linux target
/// triple when `linux` is set.
pub fn build_args(linux: bool) -> (r: Vec<String>)
    ensures
        texts(r@) == build_args_spec(linux),
{
    let mut args = words(&["build", "--release"]);
    assert(strs(seq!["build", "--release"]) =~= seq!["build"@, "--release"@]);
    if linux {
        push_word(&mut args, "--target");
        push_word(&mut args, "x86_64-unknown-linux-gnu");
    }
    assert(texts(args@) =~= build_args_spec(linux));
    args
}

/// Arguments that take the development environment down.
pub open spec fn down_args_spec() -> Seq<Seq<char>> {
    seq!["compose"@, "-f"@, COMPOSE_FILE@, "down"@]
}

/// The container runtime's arguments for taking the environment down.
pub fn down_args() -> (r: Vec<String>)
    ensures
        texts(r@) == down_args_spec(),
{
    let args = words(&["compose", "-f", COMPOSE_FILE, "down"]);
    assert(strs(seq!["compose", "-f", COMPOSE_FILE, "down"]) =~= down_args_spec());
    args
}

/// Arguments that take the environment down, and its volumes with it when
/// `volumes` is set.
pub open spec fn clean_args_spec(volumes: bool) -> Seq<Seq<char>> {
    if volumes {
        down_args_spec().push("-v"@)
    } else {
        down_args_spec()
    }
}

/// The container runtime's arguments for the cleanup: down, with `-v` at the
/// end when `volumes` is set.
pub fn clean_args(volumes: bool) -> (r: Vec<String>)
    ensures
        texts(r@) == clean_args_spec(volumes),
{
    let mut args = down_args();
    if volumes {
        push_word(&mut args, "-v");
    }
    args
}

/// Arguments that force the removal of the two known containers.
pub open spec fn remove_args_spec() -> Seq<Seq<char>> {
    seq!["rm"@, "-f"@, DEV_CONTAINER@, "test-nginx"@]
}

/// The container runtime's arguments for removing the two known containers.
pub fn remove_args() -> (r: Vec<String>)
    ensures
        texts(r@) == remove_args_spec(),
{
    let args = words(&["rm", "-f", DEV_CONTAINER, "test-nginx"]);
    assert(strs(seq!["rm", "-f", DEV_CONTAINER, "test-nginx"]) =~= remove_args_spec());
    args
}

/// Arguments that rebuild the image and bring the environment up detached.
pub open spec fn rebuild_args_spec() -> Seq<Seq<char>> {
    seq!["compose"@, "-f"@, COMPOSE_FILE@, "up"@, "--build"@, "-d"@]
}

/// The container runtime's arguments for rebuilding and starting.
pub fn rebuild_args() -> (r: Vec<String>)
    ensures
        texts(r@) == rebuild_args_spec(),
{
    let args = words(&["compose", "-f", COMPOSE_FILE, "up", "--build", "-d"]);
    assert(strs(seq!["compose", "-f", COMPOSE_FILE, "up", "--build", "-d"]) =~= rebuild_args_spec());
    args
}

/// Arguments that open a shell in the development container.
pub open spec fn shell_args_spec() -> Seq<Seq<char>> {
    seq!["exec"@, "-it"@, DEV_CONTAINER@, "bash"@]
}

/// The container runtime's arguments for an interactive shell.
pub fn shell_args() -> (r: Vec<String>)
    ensures
        texts(r@) == shell_args_spec(),
{
    let args = words(&["exec", "-it", DEV_CONTAINER, "bash"]);
    assert(strs(seq!["exec", "-it", DEV_CONTAINER, "bash"]) =~= shell_args_spec());
    args
}

/// Builds the debug binary, then runs it.
pub const SCRIPT_DEBUG: &'static str = "cargo build && ./target/debug/harborshield --data-dir /data --debug";

/// Builds the release binary, then runs it.
pub const SCRIPT_RELEASE: &'static str = "cargo build --release && ./target/release/harborshield --data-dir /data --debug";

/// Rebuilds the debug binary on every change and runs it.
pub const SCRIPT_WATCH_DEBUG: &'static str = "cargo watch -x 'build' -s './target/debug/harborshield --data-dir /data --debug'";

/// Rebuilds the release binary on every change and runs it.
pub const SCRIPT_WATCH_RELEASE: &'static str = "cargo watch -x 'build --release' -s './target/release/harborshield --data-dir /data --debug'";

/// The shell command that builds and runs the application, one of four.
pub open spec fn run_script_spec(release: bool, watch: bool) -> Seq<char> {
    if watch {
        if release {
            SCRIPT_WATCH_RELEASE@
        } else {
            SCRIPT_WATCH_DEBUG@
        }
    } else {
        if release {
            SCRIPT_RELEASE@
        } else {
            SCRIPT_DEBUG@
        }
    }
}

/// Picks the build-and-run shell command from the `release` and `watch` flags.
pub fn run_script(release: bool, watch: bool) -> (r: &'static str)
    ensures
        r@ == run_script_spec(release, watch),
        !watch && !release ==> r@ == SCRIPT_DEBUG@,
        !watch && release ==> r@ == SCRIPT_RELEASE@,
        watch && !release ==> r@ == SCRIPT_WATCH_DEBUG@,
        watch && release ==> r@ == SCRIPT_WATCH_RELEASE@,
{
    if watch {
        if release {
            SCRIPT_WATCH_RELEASE
        } else {
            SCRIPT_WATCH_DEBUG
        }
    } else {
        if release {
            SCRIPT_RELEASE
        } else {
            SCRIPT_DEBUG
        }
    }
}

/// Each pair of `release` and `watch` flags selects its own shell command:
/// the four commands differ from one another.
pub proof fn lemma_run_scripts_distinct(r1: bool, w1: bool, r2: bool, w2: bool)
    ensures
        run_script_spec(r1, w1) == run_script_spec(r2, w2) <==> (r1 == r2 && w1 == w2),
{
    reveal_strlit("cargo build && ./target/debug/harborshield --data-dir /data --debug");
    reveal_strlit("cargo build --release && ./target/release/harborshield --data-dir /data --debug");
    reveal_strlit("cargo watch -x 'build' -s './target/debug/harborshield --data-dir /data --debug'");
    reveal_strlit("cargo watch -x 'build --release' -s './target/release/harborshield --data-dir /data --debug'");
    assert(SCRIPT_DEBUG@.len() == 67);
    assert(SCRIPT_RELEASE@.len() == 79);
    assert(SCRIPT_WATCH_DEBUG@.len() == 80);
    assert(SCRIPT_WATCH_RELEASE@.len() == 92);
}

/// Arguments that build and run the application in the development container.
pub open spec fn run_args_spec(release: bool, watch: bool) -> Seq<Seq<char>> {
    shell_args_spec() + seq!["-c"@, run_script_spec(release, watch)]
}

/// The container runtime's arguments for building and running inside the
/// development container.
pub fn run_args(release: bool, watch: bool) -> (r: Vec<String>)
    ensures
        texts(r@) == run_args_spec(release, watch),
{
    let mut args = shell_args();
    push_word(&mut args, "-c");
    push_word(&mut args, run_script(release, watch));
    assert(texts(args@) =~= run_args_spec(release, watch));
    args
}

/// Arguments that apply the database migrations.
pub open spec fn migrate_args_spec() -> Seq<Seq<char>> {
    seq!["sqlx"@, "migrate"@, "run"@]
}

/// The build tool's arguments for the database migrations.
pub fn migrate_args() -> (r: Vec<String>)
    ensures
        texts(r@) == migrate_args_spec(),
{
    let args = words(&["sqlx", "migrate", "run"]);
    assert(strs(seq!["sqlx", "migrate", "run"]) =~= migrate_args_spec());
    args
}

/// Arguments that regenerate the offline query cache.
pub open spec fn prepare_args_spec() -> Seq<Seq<char>> {
    seq!["sqlx"@, "prepare"@]
}

/// The build tool's arguments for the offline query cache.
pub fn prepare_args() -> (r: Vec<String>)
    ensures
        texts(r@) == prepare_args_spec(),
{
    let args = words(&["sqlx", "prepare"]);
    assert(strs(seq!["sqlx", "prepare"]) =~= prepare_args_spec());
    args
}


/// The subcommands, each with its own switches.
#[derive(Clone, Copy, Debug, PartialEq, Eq, Structural)]
pub enum Commands {
    /// Start the development containers.
    Dev { build: bool, test: bool },
    /// Open a shell in the development container.
    Shell,
    /// Build and run the application inside the development container.
    Run { release: bool, watch: bool },
    /// Run the test suite.
    Test { ignored: bool, unit: bool },
    /// Format check, lint and tests, in that order.
    Check { fix: bool },
    /// Build the release binary.
    Build { linux: bool },
    /// Stop the development containers.
    Stop,
    /// Tear the containers down and bring them up with a rebuilt image.
    Restart,
    /// Take the containers down and remove leftovers.
    Clean { volumes: bool },
    /// Apply the database migrations.
    Migrate,
    /// Regenerate the offline query cache.
    SqlxPrepare,
    /// Add the remote-development host entry to the SSH configuration.
    SetupZed,
}

/// One step of a plan: a line to show the user, or an external call.
pub enum Step {
    Say(String),
    Run(Invocation),
}

/// The mathematical model of a [`Step`].
pub ghost enum StepView {
    Say(Seq<char>),
    Run(InvocationView),
}

impl View for Step {
    type V = StepView;

    open spec fn view(&self) -> StepView {
        match self {
            Step::Say(m) => StepView::Say(m@),
            Step::Run(inv) => StepView::Run(inv@),
        }
    }
}

/// The models of a list of steps.
pub open spec fn steps_view(v: Seq<Step>) -> Seq<StepView> {
    v.map_values(|s: Step| s@)
}

/// A line shown to the user.
pub open spec fn say(m: &str) -> StepView {
    StepView::Say(m@)
}

/// A call of `program` with `args`, rooted at `root`, in `mode`.
pub open spec fn call(program: &str, args: Seq<Seq<char>>, root: Seq<char>, mode: ExecMode) -> StepView {
    StepView::Run(InvocationView { program: program@, args, dir: root, mode })
}

/// The steps that carry out a subcommand with the project rooted at `root`;
/// none for the SSH setup, which edits a file instead of running programs.
pub open spec fn plan_spec(cmd: Commands, root: Seq<char>) -> Option<Seq<StepView>> {
    match cmd {
        Commands::Dev { build, test } => Some(seq![
            say("Starting development environment..."),
            call("docker", dev_args_spec(build, test), root, ExecMode::Captured),
            say("\nDev container started!"),
            say("  - Open a shell:  cargo xtask shell"),
            say("  - Build and run: cargo xtask run"),
            say("  - Stop:          cargo xtask stop"),
        ]),
        Commands::Shell => Some(seq![
            say("Opening shell in dev container..."),
            call("docker", shell_args_spec(), root, ExecMode::Interactive),
        ]),
        Commands::Run { release, watch } => Some(seq![
            if watch {
                say("Starting harborshield with auto-reload...")
            } else {
                say("Building and running harborshield...")
            },
            call("docker", run_args_spec(release, watch), root, ExecMode::Interactive),
        ]),
        Commands::Test { ignored, unit } => Some(seq![
            if unit {
                say("Running unit tests...")
            } else if ignored {
                say("Running integration tests...")
            } else {
                say("Running all tests...")
            },
            call("cargo", test_args_spec(ignored, unit), root, ExecMode::Captured),
        ]),
        Commands::Check { fix } => Some(seq![
            say("Checking code quality...\n"),
            say("==> Checking formatting..."),
            call("cargo", fmt_args_spec(fix), root, ExecMode::Captured),
            say("\n==> Running clippy..."),
            call("cargo", clippy_args_spec(fix), root, ExecMode::Captured),
            say("\n==> Running tests..."),
            call("cargo", test_args_spec(false, false), root, ExecMode::Captured),
            say("\nAll checks passed!"),
        ]),
        Commands::Build { linux } => if linux {
            Some(seq![
                say("Building for Linux (x86_64)..."),
                say("Note: Requires `rustup target add x86_64-unknown-linux-gnu`"),
                call("cargo", build_args_spec(true), root, ExecMode::Captured),
                say("\nBinary at: target/x86_64-unknown-linux-gnu/release/harborshield"),
            ])
        } else {
            Some(seq![
                say("Building release binary..."),
                call("cargo", build_args_spec(false), root, ExecMode::Captured),
                say("\nBinary at: target/release/harborshield"),
            ])
        },
        Commands::Stop => Some(seq![
            say("Stopping dev containers..."),
            call("docker", down_args_spec(), root, ExecMode::Captured),
        ]),
        Commands::Restart => Some(seq![
            say("Restarting dev container...\n"),
            say("==> Stopping..."),
            call("docker", down_args_spec(), root, ExecMode::Silent),
            say("==> Rebuilding and starting..."),
            call("docker", rebuild_args_spec(), root, ExecMode::Captured),
            say("\nDev container restarted!"),
            say("Reconnect in Zed: Cmd+Shift+P -> 'Connect to Remote Server via SSH' -> harborshield-dev"),
        ]),
        Commands::Clean { volumes } => Some(seq![
            say("Cleaning up Docker resources..."),
            call("docker", clean_args_spec(volumes), root, ExecMode::Captured),
            call("docker", remove_args_spec(), root, ExecMode::Silent),
            say("Cleanup complete."),
        ]),
        Commands::Migrate => Some(seq![
            say("Running database migrations..."),
            call("cargo", migrate_args_spec(), root, ExecMode::Captured),
        ]),
        Commands::SqlxPrepare => Some(seq![
            say("Generating SQLx query cache..."),
            call("cargo", prepare_args_spec(), root, ExecMode::Captured),
            say("\nSQLx cache generated in .sqlx/"),
        ]),
        Commands::SetupZed => None,
    }
}

/// Every call among `steps` runs in `root`.
pub open spec fn rooted_at(steps: Seq<StepView>, root: Seq<char>) -> bool {
    forall|i: int| 0 <= i < steps.len() ==> (#[trigger] steps[i] matches StepView::Run(inv) ==> inv.dir == root)
}

/// Appends a line to show.
fn push_say(v: &mut Vec<Step>, m: &str)
    ensures
        steps_view(final(v)@) == steps_view(old(v)@).push(say(m)),
{
    v.push(Step::Say(String::from_str(m)));
    assert(steps_view(final(v)@) =~= steps_view(old(v)@).push(say(m)));
}

/// Appends a call rooted at `root`.
fn push_call(v: &mut Vec<Step>, program: &str, args: Vec<String>, root: &str, mode: ExecMode)
    ensures
        steps_view(final(v)@) == steps_view(old(v)@).push(call(program, texts(args@), root@, mode)),
{
    let inv = Invocation { program: String::from_str(program), args, dir: String::from_str(root), mode };
    v.push(Step::Run(inv));
    assert(steps_view(final(v)@) =~= steps_view(old(v)@).push(call(program, texts(args@), root@, mode)));
}

/// The steps that carry out `cmd` with every call rooted at `root`, or `None`
/// for the SSH setup.
#[verifier::rlimit(40)]
pub fn plan(cmd: Commands, root: &str) -> (r: Option<Vec<Step>>)
    ensures
        r matches Some(v) ==> plan_spec(cmd, root@) == Some(steps_view(v@)),
        r is None ==> plan_spec(cmd, root@) is None,
        r matches Some(v) ==> rooted_at(steps_view(v@), root@),
        r is None <==> cmd is SetupZed,
{
    let mut v: Vec<Step> = Vec::new();
    assert(steps_view(v@) =~= Seq::empty());
    match cmd {
        Commands::Dev { build, test } => {
            push_say(&mut v, "Starting development environment...");
            push_call(&mut v, "docker", dev_args(build, test), root, ExecMode::Captured);
            push_say(&mut v, "\nDev container started!");
            push_say(&mut v, "  - Open a shell:  cargo xtask shell");
            push_say(&mut v, "  - Build and run: cargo xtask run");
            push_say(&mut v, "  - Stop:          cargo xtask stop");
            assert(steps_view(v@) == plan_spec(cmd, root@)->Some_0);
        },
        Commands::Shell => {
            push_say(&mut v, "Opening shell in dev container...");
            push_call(&mut v, "docker", shell_args(), root, ExecMode::Interactive);
            assert(steps_view(v@) == plan_spec(cmd, root@)->Some_0);
        },
        Commands::Run { release, watch } => {
            if watch {
                push_say(&mut v, "Starting harborshield with auto-reload...");
            } else {
                push_say(&mut v, "Building and running harborshield...");
            }
            push_call(&mut v, "docker", run_args(release, watch), root, ExecMode::Interactive);
            assert(steps_view(v@) == plan_spec(cmd, root@)->Some_0);
        },
        Commands::Test { ignored, unit } => {
            if unit {
                push_say(&mut v, "Running unit tests...");
            } else if ignored {
                push_say(&mut v, "Running integration tests...");
            } else {
                push_say(&mut v, "Running all tests...");
            }
            push_call(&mut v, "cargo", test_args(ignored, unit), root, ExecMode::Captured);
            assert(steps_view(v@) == plan_spec(cmd, root@)->Some_0);
        },
        Commands::Check { fix } => {
            push_say(&mut v, "Checking code quality...\n");
            push_say(&mut v, "==> Checking formatting...");
            push_call(&mut v, "cargo", fmt_args(fix), root, ExecMode::Captured);
            push_say(&mut v, "\n==> Running clippy...");
            push_call(&mut v, "cargo", clippy_args(fix), root, ExecMode::Captured);
            push_say(&mut v, "\n==> Running tests...");
            push_call(&mut v, "cargo", test_args(false, false), root, ExecMode::Captured);
            push_say(&mut v, "\nAll checks passed!");
            assert(steps_view(v@) == plan_spec(cmd, root@)->Some_0);
        },
        Commands::Build { linux } => {
            if linux {
                push_say(&mut v, "Building for Linux (x86_64)...");
                push_say(&mut v, "Note: Requires `rustup target add x86_64-unknown-linux-gnu`");
                push_call(&mut v, "cargo", build_args(true), root, ExecMode::Captured);
                push_say(&mut v, "\nBinary at: target/x86_64-unknown-linux-gnu/release/harborshield");
            } else {
                push_say(&mut v, "Building release binary...");
                push_call(&mut v, "cargo", build_args(false), root, ExecMode::Captured);
                push_say(&mut v, "\nBinary at: target/release/harborshield");
            }
            assert(steps_view(v@) == plan_spec(cmd, root@)->Some_0);
        },
        Commands::Stop => {
            push_say(&mut v, "Stopping dev containers...");
            push_call(&mut v, "docker", down_args(), root, ExecMode::Captured);
            assert(steps_view(v@) == plan_spec(cmd, root@)->Some_0);
        },
        Commands::Restart => {
            push_say(&mut v, "Restarting dev container...\n");
            push_say(&mut v, "==> Stopping...");
            push_call(&mut v, "docker", down_args(), root, ExecMode::Silent);
            push_say(&mut v, "==> Rebuilding and starting...");
            push_call(&mut v, "docker", rebuild_args(), root, ExecMode::Captured);
            push_say(&mut v, "\nDev container restarted!");
            push_say(
                &mut v,
                "Reconnect in Zed: Cmd+Shift+P -> 'Connect to Remote Server via SSH' -> harborshield-dev",
            );
            assert(steps_view(v@) == plan_spec(cmd, root@)->Some_0);
        },
        Commands::Clean { volumes } => {
            push_say(&mut v, "Cleaning up Docker resources...");
            push_call(&mut v, "docker", clean_args(volumes), root, ExecMode::Captured);
            push_call(&mut v, "docker", remove_args(), root, ExecMode::Silent);
            push_say(&mut v, "Cleanup complete.");
            assert(steps_view(v@) == plan_spec(cmd, root@)->Some_0);
        },
        Commands::Migrate => {
            push_say(&mut v, "Running database migrations...");
            push_call(&mut v, "cargo", migrate_args(), root, ExecMode::Captured);
            assert(steps_view(v@) == plan_spec(cmd, root@)->Some_0);
        },
        Commands::SqlxPrepare => {
            push_say(&mut v, "Generating SQLx query cache...");
            push_call(&mut v, "cargo", prepare_args(), root, ExecMode::Captured);
            push_say(&mut v, "\nSQLx cache generated in .sqlx/");
            assert(steps_view(v@) == plan_spec(cmd, root@)->Some_0);
        },
        Commands::SetupZed => {
            return None;
        },
    }
    Some(v)
}

} // verus!
