//! What to spawn: the program, its arguments and its environment.

use vstd::prelude::*;
use crate::mode::RunMode;
use crate::paths::{
    dev_cli_choice, find_dev_cli_path, join_path, joined_path, ENTRY_SCRIPT_NAME, MODULES_DIR_NAME,
};

verus! {

/// The program that runs the server's entry script.
#[derive(Clone, Debug, PartialEq, Eq)]
pub enum Program {
    /// An executable bundled alongside the application, by its bundle name.
    Sidecar(String),
    /// A command resolved by the system, by its name.
    Command(String),
}

/// The mathematical value of a [`Program`].
pub enum ProgramView {
    Sidecar(Seq<char>),
    Command(Seq<char>),
}

impl View for Program {
    type V = ProgramView;

    open spec fn view(&self) -> ProgramView {
        match self {
            Program::Sidecar(name) => ProgramView::Sidecar(name@),
            Program::Command(name) => ProgramView::Command(name@),
        }
    }
}

/// Everything needed to spawn the server process.
#[derive(Clone, Debug, PartialEq, Eq)]
pub struct LaunchPlan {
    /// The program to execute.
    pub program: Program,
    /// Its arguments, in order.
    pub args: Vec<String>,
    /// The environment variables to set for it, as name and value.
    pub env: Vec<(String, String)>,
}

/// The mathematical value of a [`LaunchPlan`].
pub struct LaunchPlanView {
    pub program: ProgramView,
    pub args: Seq<Seq<char>>,
    pub env: Seq<(Seq<char>, Seq<char>)>,
}

impl View for LaunchPlan {
    type V = LaunchPlanView;

    open spec fn view(&self) -> LaunchPlanView {
        LaunchPlanView {
            program: self.program@,
            args: self.args.deep_view(),
            env: self.env.deep_view(),
        }
    }
}

/// The argument list handed to the server: the entry script, then the fixed
/// flags that start the user interface in the foreground on port 3333.
pub open spec fn server_args(entry_script: Seq<char>) -> Seq<Seq<char>> {
    seq![entry_script, "ui"@, "--foreground"@, "--port"@, "3333"@]
}

/// The plan for a packaged bundle: the bundled interpreter runs the bundled
/// entry script, with `NODE_PATH` pointing at the bundled modules.
pub open spec fn production_plan_of(entry_script: Seq<char>, modules_dir: Seq<char>) -> LaunchPlanView {
    LaunchPlanView {
        program: ProgramView::Sidecar("node-server"@),
        args: server_args(entry_script),
        env: seq![("NODE_PATH"@, modules_dir)],
    }
}

/// The plan for a development checkout: the system's interpreter runs the
/// entry script, with no change to the environment.
pub open spec fn development_plan_of(entry_script: Seq<char>) -> LaunchPlanView {
    LaunchPlanView {
        program: ProgramView::Command("node"@),
        args: server_args(entry_script),
        env: Seq::empty(),
    }
}

/// Builds the server's argument list around the entry script.
pub fn build_server_args(entry_script: String) -> (args: Vec<String>)
    ensures
        args.deep_view() == server_args(entry_script@),
{
    let mut args: Vec<String> = Vec::new();
    args.push(entry_script);
    args.push("ui".to_owned());
    args.push("--foreground".to_owned());
    args.push("--port".to_owned());
    args.push("3333".to_owned());
    assert(args.deep_view() =~= server_args(entry_script@));
    args
}

/// The plan for a packaged bundle, given the bundled entry script and the
/// bundled modules directory.
pub fn production_plan(entry_script: String, modules_dir: String) -> (plan: LaunchPlan)
    ensures
        plan@ == production_plan_of(entry_script@, modules_dir@),
{
    let args = build_server_args(entry_script);
    let mut env: Vec<(String, String)> = Vec::new();
    env.push(("NODE_PATH".to_owned(), modules_dir));
    assert(env.deep_view() =~= seq![("NODE_PATH"@, modules_dir@)]);
    LaunchPlan { program: Program::Sidecar("node-server".to_owned()), args, env }
}

/// The plan for a development checkout, given the entry script.
pub fn development_plan(entry_script: String) -> (plan: LaunchPlan)
    ensures
        plan@ == development_plan_of(entry_script@),
{
    let args = build_server_args(entry_script);
    let env: Vec<(String, String)> = Vec::new();
    assert(env.deep_view() =~= Seq::<(Seq<char>, Seq<char>)>::empty());
    LaunchPlan { program: Program::Command("node".to_owned()), args, env }
}

/// The bundled entry script below `server_dir`.
pub open spec fn bundled_entry_script(server_dir: Seq<char>) -> Seq<char> {
    joined_path(server_dir, ENTRY_SCRIPT_NAME@)
}

/// The bundled modules directory below `server_dir`.
pub open spec fn bundled_modules_dir(server_dir: Seq<char>) -> Seq<char> {
    joined_path(server_dir, MODULES_DIR_NAME@)
}

/// Plans the launch from a packaged bundle whose server files are in
/// `server_dir`: the bundled interpreter runs the entry script found there
/// and resolves its modules there.
pub fn start_production_server(server_dir: &str) -> (plan: LaunchPlan)
    ensures
        plan@ == production_plan_of(
            bundled_entry_script(server_dir@),
            bundled_modules_dir(server_dir@),
        ),
{
    let entry_script = join_path(server_dir, ENTRY_SCRIPT_NAME);
    let modules_dir = join_path(server_dir, MODULES_DIR_NAME);
    production_plan(entry_script, modules_dir)
}

/// Plans the launch from a development checkout. `cli_exists[i]` tells
/// whether the `i`-th probed entry script path exists.
pub fn start_development_server(cli_exists: &[bool; 3]) -> (plan: LaunchPlan)
    ensures
        plan@ == development_plan_of(dev_cli_choice(cli_exists@)),
{
    development_plan(find_dev_cli_path(cli_exists))
}

/// The entry script that the server is started with.
pub open spec fn entry_script_of(mode: RunMode, server_dir: Seq<char>, cli_exists: Seq<bool>) -> Seq<char> {
    match mode {
        RunMode::Production => bundled_entry_script(server_dir),
        RunMode::Development => dev_cli_choice(cli_exists),
    }
}

/// The plan that the server is started with.
pub open spec fn launch_plan_of(mode: RunMode, server_dir: Seq<char>, cli_exists: Seq<bool>) -> LaunchPlanView {
    match mode {
        RunMode::Production => production_plan_of(
            bundled_entry_script(server_dir),
            bundled_modules_dir(server_dir),
        ),
        RunMode::Development => development_plan_of(dev_cli_choice(cli_exists)),
    }
}

/// Plans the launch of the server for the given run mode. In production
/// mode the server files are taken from `server_dir`; in development mode
/// `cli_exists[i]` tells whether the `i`-th probed entry script path exists.
/// In either mode the arguments are the entry script followed by the fixed
/// flags.
pub fn start_server(mode: RunMode, server_dir: &str, cli_exists: &[bool; 3]) -> (plan: LaunchPlan)
    ensures
        plan@ == launch_plan_of(mode, server_dir@, cli_exists@),
        plan@.args == server_args(entry_script_of(mode, server_dir@, cli_exists@)),
{
    match mode {
        RunMode::Production => start_production_server(server_dir),
        RunMode::Development => start_development_server(cli_exists),
    }
}

/// Whatever the run mode, the arguments are exactly the entry script followed
/// by `ui`, `--foreground`, `--port` and `3333`, in that order.
pub proof fn lemma_args_fixed_in_every_mode(mode: RunMode, server_dir: Seq<char>, cli_exists: Seq<bool>)
    ensures
        launch_plan_of(mode, server_dir, cli_exists).args == server_args(
            entry_script_of(mode, server_dir, cli_exists),
        ),
        launch_plan_of(mode, server_dir, cli_exists).args.len() == 5,
        launch_plan_of(mode, server_dir, cli_exists).args[0] == entry_script_of(
            mode,
            server_dir,
            cli_exists,
        ),
        launch_plan_of(mode, server_dir, cli_exists).args.subrange(1, 5) == seq![
            "ui"@,
            "--foreground"@,
            "--port"@,
            "3333"@,
        ],
{
    let args = launch_plan_of(mode, server_dir, cli_exists).args;
    assert(args.subrange(1, 5) =~= seq!["ui"@, "--foreground"@, "--port"@, "3333"@]);
}

} // verus!
