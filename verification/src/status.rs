//! What the supervisor concludes from Docker's answers: the status of an
//! agent's container, the health of the Docker installation, and whether a
//! command succeeded.
use vstd::prelude::*;
use crate::text::{
    chars_of, find_char_from, find_from, lemma_find_from, lemma_find_from_is,
    lines_of, parse_i64, parse_i64_str, string_of, string_of_range, str_eq, strip_cr, trim,
    trimmed_chars,
};

verus! {

/// The agent status for a container state and exit code.
pub open spec fn container_status(state: Seq<char>, exit_code: Option<i64>) -> Seq<char> {
    if state == "running"@ {
        "RUNNING"@
    } else if state == "created"@ {
        "CREATED"@
    } else if state == "restarting"@ {
        "STARTING"@
    } else if state == "exited"@ && match exit_code {
        Some(c) => c == 0,
        None => true,
    } {
        "STOPPED"@
    } else {
        "ERROR"@
    }
}

/// Maps a Docker container state to an agent status: running, created and
/// restarting map to `RUNNING`, `CREATED` and `STARTING`; an exited
/// container is `STOPPED` when it exited with code 0 or no code and
/// `ERROR` otherwise; any other state is `ERROR`.
pub fn map_container_state(state: &str, exit_code: Option<i64>) -> (res: &'static str)
    ensures
        res@ == container_status(state@, exit_code),
{
    if str_eq(state, "running") {
        "RUNNING"
    } else if str_eq(state, "created") {
        "CREATED"
    } else if str_eq(state, "restarting") {
        "STARTING"
    } else if str_eq(state, "exited") && match exit_code {
        Some(c) => c == 0,
        None => true,
    } {
        "STOPPED"
    } else {
        "ERROR"
    }
}

/// The pieces of `s` between occurrences of `c` (`str::split`): one more
/// piece than there are `c`s.
pub open spec fn split_on(s: Seq<char>, c: char) -> Seq<Seq<char>>
    decreases s.len(),
{
    let k = find_from(s, c, 0);
    if k >= s.len() {
        seq![s]
    } else {
        seq![s.subrange(0, k as int)] + split_on(s.subrange(k as int + 1, s.len() as int), c)
    }
}

/// The status update that a `docker ps` listing gives, as `(status, error,
/// container id, exit code)`. A failed listing is an `ERROR` with its
/// error text; an empty listing means the container is gone: `STOPPED`
/// with exit code 0; otherwise the first line is read as
/// `id|state|exit code|...`, a missing state counting as `exited` and an
/// unreadable exit code as none.
pub open spec fn ps_update(success: bool, stdout: Seq<char>, stderr: Seq<char>) -> (
    Seq<char>,
    Option<Seq<char>>,
    Option<Seq<char>>,
    Option<i64>,
) {
    if !success {
        ("ERROR"@, Some(stderr), None, None)
    } else if lines_of(stdout).len() == 0 {
        ("STOPPED"@, None, None, Some(0))
    } else {
        let parts = split_on(lines_of(stdout)[0], '|');
        let state = if parts.len() > 1 {
            parts[1]
        } else {
            "exited"@
        };
        let exit_code = if parts.len() > 2 {
            parse_i64(parts[2])
        } else {
            None
        };
        (container_status(state, exit_code), None, Some(parts[0]), exit_code)
    }
}

/// A status update for an agent. A container id or exit code of `None`
/// keeps the one stored before.
#[derive(Debug)]
pub struct StatusUpdate {
    pub status: &'static str,
    pub error: Option<String>,
    pub container_id: Option<String>,
    pub exit_code: Option<i64>,
}

/// The view of an optional string.
pub open spec fn opt_view(o: Option<String>) -> Option<Seq<char>> {
    match o {
        Some(s) => Some(s@),
        None => None,
    }
}

proof fn lemma_find_from_shift(s: Seq<char>, c: char, a: int)
    requires
        0 <= a <= s.len(),
    ensures
        find_from(s.subrange(a, s.len() as int), c, 0) + a == find_from(s, c, a as nat),
{
    let t = s.subrange(a, s.len() as int);
    lemma_find_from(s, c, a as nat);
    let k = find_from(s, c, a as nat);
    assert forall|j: int| 0 <= j < k - a implies t[j] != c by {
        assert(t[j] == s[j + a]);
    }
    if k < s.len() {
        assert(t[k - a] == s[k as int]);
    }
    lemma_find_from_is(t, c, 0, (k - a) as nat);
}

/// The first line of `v` (as `str::lines` gives it), as the range of `v`
/// it covers.
fn first_line(v: &Vec<char>) -> (res: Option<(usize, usize)>)
    ensures
        match res {
            None => lines_of(v@).len() == 0,
            Some((a, b)) => a == 0 && b <= v@.len() && lines_of(v@).len() > 0 && lines_of(v@)[0]
                == v@.subrange(0, b as int),
        },
{
    if v.len() == 0 {
        return None;
    }
    let k = find_char_from(v, '\n', 0);
    proof {
        lemma_find_from(v@, '\n', 0);
    }
    if k < v.len() {
        let mut end = k;
        if end > 0 && v[end - 1] == '\r' {
            end = end - 1;
        }
        assert(v@.subrange(0, end as int) =~= strip_cr(v@.subrange(0, k as int)));
        Some((0, end))
    } else {
        Some((0, k))
    }
}

/// Reads a status update out of a `docker ps` listing; `success` tells
/// whether the listing ran without error.
pub fn status_from_ps(success: bool, stdout: &str, stderr: &str) -> (res: StatusUpdate)
    ensures
        ({
            let (status, error, cid, exit_code) = ps_update(success, stdout@, stderr@);
            &&& res.status@ == status
            &&& opt_view(res.error) == error
            &&& opt_view(res.container_id) == cid
            &&& res.exit_code == exit_code
        }),
{
    if !success {
        return StatusUpdate {
            status: "ERROR",
            error: Some(stderr.to_owned()),
            container_id: None,
            exit_code: None,
        };
    }
    let v = chars_of(stdout);
    match first_line(&v) {
        None => StatusUpdate {
            status: "STOPPED",
            error: None,
            container_id: None,
            exit_code: Some(0),
        },
        Some((_, end)) => {
            let ghost line = v@.subrange(0, end as int);
            let line_v = chars_of(string_of_range(&v, 0, end).as_str());
            assert(line_v@ == line);
            let n = line_v.len();
            // first field
            let k0 = find_char_from(&line_v, '|', 0);
            proof {
                lemma_find_from(line, '|', 0);
            }
            let cid = string_of_range(&line_v, 0, k0);
            let ghost parts = split_on(line, '|');
            assert(parts[0] == line.subrange(0, k0 as int));
            if k0 >= n {
                assert(parts.len() == 1);
                let exit_code: Option<i64> = None;
                let status = map_container_state("exited", exit_code);
                return StatusUpdate {
                    status,
                    error: None,
                    container_id: Some(cid),
                    exit_code,
                };
            }
            // second field
            let ghost rest1 = line.subrange(k0 + 1, n as int);
            assert(parts == seq![line.subrange(0, k0 as int)] + split_on(rest1, '|'));
            let k1 = find_char_from(&line_v, '|', k0 + 1);
            proof {
                lemma_find_from(line, '|', (k0 + 1) as nat);
                lemma_find_from_shift(line, '|', k0 + 1);
            }
            let state = string_of_range(&line_v, k0 + 1, k1);
            assert(rest1.subrange(0, k1 - k0 - 1) =~= line.subrange(k0 + 1, k1 as int));
            assert(parts[1] == split_on(rest1, '|')[0]);
            if k1 >= n {
                assert(split_on(rest1, '|').len() == 1);
                assert(parts.len() == 2);
                let exit_code: Option<i64> = None;
                let status = map_container_state(state.as_str(), exit_code);
                return StatusUpdate {
                    status,
                    error: None,
                    container_id: Some(cid),
                    exit_code,
                };
            }
            // third field
            let ghost rest2 = line.subrange(k1 + 1, n as int);
            assert(rest1.subrange(k1 - k0, rest1.len() as int) =~= rest2);
            assert(split_on(rest1, '|') == seq![rest1.subrange(0, k1 - k0 - 1)] + split_on(
                rest2,
                '|',
            ));
            let k2 = find_char_from(&line_v, '|', k1 + 1);
            proof {
                lemma_find_from(line, '|', (k1 + 1) as nat);
                lemma_find_from_shift(line, '|', k1 + 1);
            }
            let code_text = string_of_range(&line_v, k1 + 1, k2);
            assert(rest2.subrange(0, k2 - k1 - 1) =~= line.subrange(k1 + 1, k2 as int));
            assert(split_on(rest2, '|')[0] == rest2.subrange(0, k2 - k1 - 1));
            assert(parts.len() > 2);
            assert(parts[2] == split_on(rest2, '|')[0]);
            let exit_code = parse_i64_str(code_text.as_str());
            let status = map_container_state(state.as_str(), exit_code);
            StatusUpdate { status, error: None, container_id: Some(cid), exit_code }
        },
    }
}

/// How a probe command went.
#[derive(Debug)]
pub enum ProbeOutcome {
    /// It ran and exited with success.
    Succeeded,
    /// It ran and failed, printing `stderr`.
    Failed { stderr: String },
    /// It could not be started; `message` says why.
    NotRun { message: String },
}

/// What the supervisor reports about the Docker installation.
#[derive(Debug)]
pub struct DockerStatus {
    pub installed: bool,
    pub daemon_running: bool,
    pub compose_available: bool,
    pub version: Option<String>,
    pub error: Option<String>,
    pub fix_hint: Option<String>,
}

/// The report when `docker` cannot be run at all.
pub open spec fn docker_missing_error() -> Seq<char> {
    "docker executable not found"@
}

/// The hint when `docker` cannot be run at all.
pub open spec fn docker_missing_hint() -> Seq<char> {
    "Install Docker Desktop (or Docker Engine) and ensure `docker` is on PATH."@
}

/// The hint when the Docker daemon does not answer.
pub open spec fn daemon_hint() -> Seq<char> {
    "Start Docker Desktop/daemon and ensure your user has permission to access Docker socket."@
}

/// The report when no Compose binary answers.
pub open spec fn compose_missing_error() -> Seq<char> {
    "docker compose / docker-compose not available"@
}

/// The hint when no Compose binary answers.
pub open spec fn compose_missing_hint() -> Seq<char> {
    "Install Docker Compose plugin or docker-compose binary."@
}

/// The Docker report, as `(installed, daemon running, compose available,
/// version, error, hint)`. `version_output` is what `docker --version`
/// printed, or `None` when `docker` could not be run; `info` is how
/// `docker info` went; the two flags tell whether `docker compose
/// version` and `docker-compose version` succeeded.
pub open spec fn docker_report(
    version_output: Option<Seq<char>>,
    info: ProbeOutcome,
    plugin_ok: bool,
    standalone_ok: bool,
) -> (bool, bool, bool, Option<Seq<char>>, Option<Seq<char>>, Option<Seq<char>>) {
    match version_output {
        None => (false, false, false, None, Some(docker_missing_error()), Some(docker_missing_hint())),
        Some(out) => {
            let daemon = info is Succeeded;
            let info_err = match info {
                ProbeOutcome::Succeeded => None,
                ProbeOutcome::Failed { stderr } => Some(trim(stderr@)),
                ProbeOutcome::NotRun { message } => Some(message@),
            };
            let compose = plugin_ok || standalone_ok;
            let (error, hint) = if !daemon {
                (info_err, Some(daemon_hint()))
            } else if !compose {
                (Some(compose_missing_error()), Some(compose_missing_hint()))
            } else {
                (None, None)
            };
            (true, daemon, compose, Some(trim(out)), error, hint)
        },
    }
}

/// Sums up the Docker probes into a report: whether Docker is installed,
/// whether its daemon runs, whether Compose is available, the trimmed
/// version line, and an error with a hint for the first thing missing.
pub fn docker_status(
    version_output: Option<&str>,
    info: ProbeOutcome,
    plugin_ok: bool,
    standalone_ok: bool,
) -> (res: DockerStatus)
    ensures
        ({
            let (installed, daemon, compose, version, error, hint) = docker_report(
                match version_output {
                    Some(s) => Some(s@),
                    None => None,
                },
                info,
                plugin_ok,
                standalone_ok,
            );
            &&& res.installed == installed
            &&& res.daemon_running == daemon
            &&& res.compose_available == compose
            &&& opt_view(res.version) == version
            &&& opt_view(res.error) == error
            &&& opt_view(res.fix_hint) == hint
        }),
{
    let out = match version_output {
        None => {
            return DockerStatus {
                installed: false,
                daemon_running: false,
                compose_available: false,
                version: None,
                error: Some("docker executable not found".to_owned()),
                fix_hint: Some(
                    "Install Docker Desktop (or Docker Engine) and ensure `docker` is on PATH.".to_owned(),
                ),
            };
        },
        Some(out) => out,
    };
    let version = string_of(&trimmed_chars(out));
    let (daemon_running, info_err) = match info {
        ProbeOutcome::Succeeded => (true, None),
        ProbeOutcome::Failed { stderr } => (false, Some(string_of(&trimmed_chars(stderr.as_str())))),
        ProbeOutcome::NotRun { message } => (false, Some(message)),
    };
    let compose_available = plugin_ok || standalone_ok;
    let (error, fix_hint) = if !daemon_running {
        (
            info_err,
            Some(
                "Start Docker Desktop/daemon and ensure your user has permission to access Docker socket.".to_owned(),
            ),
        )
    } else if !compose_available {
        (
            Some("docker compose / docker-compose not available".to_owned()),
            Some("Install Docker Compose plugin or docker-compose binary.".to_owned()),
        )
    } else {
        (None, None)
    };
    DockerStatus {
        installed: true,
        daemon_running,
        compose_available,
        version: Some(version),
        error,
        fix_hint,
    }
}

/// The result of a finished command: success, or a failure carrying what
/// it printed on standard error.
pub fn command_outcome(success: bool, stderr: String) -> (res: Result<(), String>)
    ensures
        success ==> res is Ok,
        !success ==> (res matches Err(e) && e@ == stderr@),
{
    if !success {
        return Err(stderr);
    }
    Ok(())
}

proof fn lemma_state_words_differ()
    ensures
        "exited"@ != "running"@,
        "exited"@ != "created"@,
        "exited"@ != "restarting"@,
        "running"@ != "created"@,
        "running"@ != "restarting"@,
        "created"@ != "restarting"@,
        "STOPPED"@ != "ERROR"@,
{
    reveal_strlit("exited");
    reveal_strlit("running");
    reveal_strlit("created");
    reveal_strlit("restarting");
    reveal_strlit("STOPPED");
    reveal_strlit("ERROR");
    assert("exited"@[0] != "running"@[0]);
    assert("exited"@[0] != "created"@[0]);
    assert("exited"@[0] != "restarting"@[0]);
    assert("running"@[0] != "created"@[0]);
    assert("running"@[1] != "restarting"@[1]);
    assert("created"@[0] != "restarting"@[0]);
    assert("STOPPED"@[0] != "ERROR"@[0]);
}

/// An exited container is `STOPPED` only when it exited with code 0 or
/// its code is unknown; with any other exit code it is `ERROR`. A running
/// container is `RUNNING`, a created one `CREATED` and a restarting one
/// `STARTING`, whatever the exit code.
pub proof fn lemma_exit_code_decides(exit_code: Option<i64>)
    ensures
        (exit_code matches Some(c) && c != 0) ==> container_status("exited"@, exit_code)
            == "ERROR"@,
        !(exit_code matches Some(c) && c != 0) ==> container_status("exited"@, exit_code)
            == "STOPPED"@,
        container_status("running"@, exit_code) == "RUNNING"@,
        container_status("created"@, exit_code) == "CREATED"@,
        container_status("restarting"@, exit_code) == "STARTING"@,
{
    lemma_state_words_differ();
}

/// A `docker ps` line that reports an exited container with a readable
/// non-zero exit code makes the agent `ERROR`, and the code is kept; with
/// exit code 0 the agent is `STOPPED`.
pub proof fn lemma_ps_exited_with_code(stdout: Seq<char>, stderr: Seq<char>, c: i64)
    requires
        lines_of(stdout).len() > 0,
        split_on(lines_of(stdout)[0], '|').len() > 2,
        split_on(lines_of(stdout)[0], '|')[1] == "exited"@,
        parse_i64(split_on(lines_of(stdout)[0], '|')[2]) == Some(c),
    ensures
        ps_update(true, stdout, stderr).3 == Some(c),
        c != 0 ==> ps_update(true, stdout, stderr).0 == "ERROR"@,
        c == 0 ==> ps_update(true, stdout, stderr).0 == "STOPPED"@,
        ps_update(true, stdout, stderr).1 is None,
{
    lemma_exit_code_decides(Some(c));
}

} // verus!
