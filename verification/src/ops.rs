//! The operator console: the allowlist of commands an operator may run
//! against an agent, what each runs, and the results it reports.
use vstd::prelude::*;
use crate::compose::{compose_action_args, lemma_lifecycle_args, ComposeAction};
use crate::mission::mission_ops_allowed;
use crate::text::{
    chars_eq_str, lower_chars, lower_seq, push_char, push_str, trim, trim_end, trim_start,
    trimmed_chars,
};

verus! {

/// A command on the operator allowlist.
#[derive(Debug, Clone, Copy, PartialEq, Eq, Structural)]
pub enum AllowedOpsCommand {
    DockerPs,
    ComposeUp,
    ComposeDown,
    ComposeLogs,
    ShowConfig,
    OpenFolder,
}

/// The error of `parse_ops_command`: the command is not on the allowlist.
#[derive(Debug, Clone, Copy, PartialEq, Eq, Structural)]
pub struct OpsNotAllowed;

impl OpsNotAllowed {
    /// The message the error carries.
    pub fn message(&self) -> (res: &'static str)
        ensures
            res@ == "Command not allowed"@,
    {
        "Command not allowed"
    }
}

/// The allowlisted command that a trimmed, lower-cased text names.
pub open spec fn ops_command_of(s: Seq<char>) -> Option<AllowedOpsCommand> {
    if s == "docker ps"@ {
        Some(AllowedOpsCommand::DockerPs)
    } else if s == "compose up"@ {
        Some(AllowedOpsCommand::ComposeUp)
    } else if s == "compose down"@ {
        Some(AllowedOpsCommand::ComposeDown)
    } else if s == "compose logs"@ {
        Some(AllowedOpsCommand::ComposeLogs)
    } else if s == "show config"@ {
        Some(AllowedOpsCommand::ShowConfig)
    } else if s == "open folder"@ {
        Some(AllowedOpsCommand::OpenFolder)
    } else {
        None
    }
}

/// Reads an operator command: surrounding white space and ASCII letter
/// case do not matter, and only the six allowlisted commands are
/// accepted.
pub fn parse_ops_command(cmd: &str) -> (res: Result<AllowedOpsCommand, OpsNotAllowed>)
    ensures
        match ops_command_of(lower_seq(trim(cmd@))) {
            Some(c) => res == Ok::<AllowedOpsCommand, OpsNotAllowed>(c),
            None => res is Err,
        },
{
    let s = lower_chars(&trimmed_chars(cmd));
    if chars_eq_str(&s, "docker ps") {
        Ok(AllowedOpsCommand::DockerPs)
    } else if chars_eq_str(&s, "compose up") {
        Ok(AllowedOpsCommand::ComposeUp)
    } else if chars_eq_str(&s, "compose down") {
        Ok(AllowedOpsCommand::ComposeDown)
    } else if chars_eq_str(&s, "compose logs") {
        Ok(AllowedOpsCommand::ComposeLogs)
    } else if chars_eq_str(&s, "show config") {
        Ok(AllowedOpsCommand::ShowConfig)
    } else if chars_eq_str(&s, "open folder") {
        Ok(AllowedOpsCommand::OpenFolder)
    } else {
        Err(OpsNotAllowed)
    }
}

/// What an allowlisted command does.
#[derive(Debug, Clone, Copy, PartialEq, Eq, Structural)]
pub enum OpsStep {
    /// Run `docker ps`.
    DockerPs,
    /// Run Compose for the agent with this action.
    Compose(ComposeAction),
    /// Report the agent's configuration files.
    ShowConfig,
    /// Open the agent's folder in the file manager.
    OpenFolder,
}

/// What each allowlisted command does.
pub open spec fn ops_step_of(cmd: AllowedOpsCommand) -> OpsStep {
    match cmd {
        AllowedOpsCommand::DockerPs => OpsStep::DockerPs,
        AllowedOpsCommand::ComposeUp => OpsStep::Compose(ComposeAction::Up),
        AllowedOpsCommand::ComposeDown => OpsStep::Compose(ComposeAction::Down),
        AllowedOpsCommand::ComposeLogs => OpsStep::Compose(ComposeAction::Logs),
        AllowedOpsCommand::ShowConfig => OpsStep::ShowConfig,
        AllowedOpsCommand::OpenFolder => OpsStep::OpenFolder,
    }
}

/// What an allowlisted command does: `docker ps`; Compose `up -d`,
/// `down` or the last 200 log lines; the configuration report; or opening
/// the folder.
pub fn ops_step(cmd: AllowedOpsCommand) -> (res: OpsStep)
    ensures
        res == ops_step_of(cmd),
{
    match cmd {
        AllowedOpsCommand::DockerPs => OpsStep::DockerPs,
        AllowedOpsCommand::ComposeUp => OpsStep::Compose(ComposeAction::Up),
        AllowedOpsCommand::ComposeDown => OpsStep::Compose(ComposeAction::Down),
        AllowedOpsCommand::ComposeLogs => OpsStep::Compose(ComposeAction::Logs),
        AllowedOpsCommand::ShowConfig => OpsStep::ShowConfig,
        AllowedOpsCommand::OpenFolder => OpsStep::OpenFolder,
    }
}

/// The output of an operator command.
#[derive(Debug)]
pub struct OpsResult {
    pub stdout: String,
    pub stderr: String,
    pub code: i32,
}

/// The configuration files of an agent, as text.
#[derive(Debug)]
pub struct AgentConfigResponse {
    pub env: String,
    pub compose: String,
    pub metadata: String,
}

/// The configuration report: metadata, `.env` and compose file, one after
/// the other, separated by line ends, with exit code 0.
pub fn show_config_output(cfg: &AgentConfigResponse) -> (res: OpsResult)
    ensures
        res.stdout@ == cfg.metadata@ + seq!['\n'] + cfg.env@ + seq!['\n'] + cfg.compose@,
        res.stderr@ == Seq::<char>::empty(),
        res.code == 0,
{
    let mut out = String::new();
    push_str(&mut out, cfg.metadata.as_str());
    push_char(&mut out, '\n');
    push_str(&mut out, cfg.env.as_str());
    push_char(&mut out, '\n');
    push_str(&mut out, cfg.compose.as_str());
    OpsResult { stdout: out, stderr: String::new(), code: 0 }
}

/// The report after opening an agent's folder.
pub fn opened_folder_output() -> (res: OpsResult)
    ensures
        res.stdout@ == "Opened agent folder"@,
        res.stderr@ == Seq::<char>::empty(),
        res.code == 0,
{
    OpsResult { stdout: "Opened agent folder".to_owned(), stderr: String::new(), code: 0 }
}

/// The report of a command that ran: its output, and its exit code, or 1
/// when it has none (it was ended by a signal).
pub fn ops_output(stdout: String, stderr: String, code: Option<i32>) -> (res: OpsResult)
    ensures
        res.stdout@ == stdout@,
        res.stderr@ == stderr@,
        res.code == match code {
            Some(c) => c,
            None => 1,
        },
{
    let code = match code {
        Some(c) => c,
        None => 1,
    };
    OpsResult { stdout, stderr, code }
}

proof fn lemma_plain_text_is_normal(s: Seq<char>)
    requires
        s.len() > 0,
        !crate::text::is_whitespace(s[0]),
        !crate::text::is_whitespace(s.last()),
        forall|i: int| 0 <= i < s.len() ==> !('A' <= #[trigger] s[i] && s[i] <= 'Z'),
    ensures
        lower_seq(trim(s)) == s,
{
    assert(trim_start(s) == s);
    assert(trim_end(s) == s);
    assert(lower_seq(s) =~= s);
}

/// Every command that a mission may run is accepted by the operator
/// console, as the same command.
pub proof fn lemma_mission_ops_accepted(cmd: Seq<char>)
    requires
        mission_ops_allowed(cmd),
    ensures
        ops_command_of(lower_seq(trim(cmd))) is Some,
        ops_command_of(lower_seq(trim(cmd))) == ops_command_of(cmd),
{
    reveal_strlit("docker ps");
    reveal_strlit("compose up");
    reveal_strlit("compose down");
    reveal_strlit("compose logs");
    reveal_strlit("show config");
    reveal_strlit("open folder");
    lemma_plain_text_is_normal(cmd);
}

/// The console command `compose down`, in any letter case and with any
/// surrounding white space, runs Compose with exactly `down`: it stops
/// and removes the containers but never passes `-v`, so the agent's
/// volumes are kept. No console command passes `-v`.
pub proof fn lemma_console_down_keeps_volumes(text: Seq<char>, cmd: AllowedOpsCommand)
    requires
        lower_seq(trim(text)) == "compose down"@,
    ensures
        ops_command_of(lower_seq(trim(text))) == Some(AllowedOpsCommand::ComposeDown),
        ops_step_of(AllowedOpsCommand::ComposeDown) matches OpsStep::Compose(a)
            && compose_action_args(a) == seq!["down"@],
        ops_step_of(cmd) matches OpsStep::Compose(a) ==> !compose_action_args(a).contains("-v"@),
{
    reveal_strlit("docker ps");
    reveal_strlit("compose up");
    reveal_strlit("compose down");
    assert("compose down"@[9] != "compose up"@[9]);
    assert("compose down"@[0] != "docker ps"@[0]);
    lemma_lifecycle_args(ComposeAction::Down);
    if let OpsStep::Compose(a) = ops_step_of(cmd) {
        lemma_lifecycle_args(a);
    }
}

/// The console commands that run Compose run exactly: `compose up` starts
/// detached (`up -d`), `compose logs` shows the last 200 lines without
/// following, and `compose down` is `down`; `docker ps` runs `docker ps`,
/// and the other two run no process.
pub proof fn lemma_console_steps(cmd: AllowedOpsCommand)
    ensures
        cmd == AllowedOpsCommand::ComposeUp ==> (ops_step_of(cmd) matches OpsStep::Compose(a)
            && compose_action_args(a) == seq!["up"@, "-d"@]),
        cmd == AllowedOpsCommand::ComposeLogs ==> (ops_step_of(cmd) matches OpsStep::Compose(a)
            && compose_action_args(a) == seq!["logs"@, "--tail=200"@]),
        cmd == AllowedOpsCommand::ComposeDown ==> (ops_step_of(cmd) matches OpsStep::Compose(a)
            && compose_action_args(a) == seq!["down"@]),
        cmd == AllowedOpsCommand::DockerPs ==> ops_step_of(cmd) == OpsStep::DockerPs,
        cmd == AllowedOpsCommand::ShowConfig ==> ops_step_of(cmd) == OpsStep::ShowConfig,
        cmd == AllowedOpsCommand::OpenFolder ==> ops_step_of(cmd) == OpsStep::OpenFolder,
{
}

} // verus!
