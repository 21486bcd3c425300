//! Docker Compose for one agent: the project name, the container name, the
//! generated compose file, and the command line that runs Compose.
use vstd::prelude::*;
use vstd::string::StringSliceAdditionalSpecFns;
use vstd::utf8::{decode_utf8, encode_utf8_decode_utf8, is_char_boundary};
use crate::text::{chars_of, lower_chars, lower_seq, push_char, push_str, str_eq, string_of};

verus! {

/// The Compose project name of an agent: `openshell-` and the first eight
/// characters of its id.
pub open spec fn project_name_of(agent_id: Seq<char>) -> Seq<char> {
    let n = if agent_id.len() < 8 {
        agent_id.len()
    } else {
        8
    };
    "openshell-"@ + agent_id.subrange(0, n as int)
}

/// The Compose project name of an agent.
pub fn project_name(agent_id: &str) -> (res: String)
    ensures
        res@ == project_name_of(agent_id@),
{
    let v = chars_of(agent_id);
    let n: usize = if v.len() < 8 {
        v.len()
    } else {
        8
    };
    let mut res = String::new();
    push_str(&mut res, "openshell-");
    let mut i: usize = 0;
    while i < n
        invariant
            i <= n <= v@.len(),
            v@ == agent_id@,
            n == (if v@.len() < 8 {
                v@.len()
            } else {
                8
            }),
            res@ == "openshell-"@ + v@.subrange(0, i as int),
        decreases n - i,
    {
        push_char(&mut res, v[i]);
        assert(v@.subrange(0, i + 1) =~= v@.subrange(0, i as int).push(v@[i as int]));
        i = i + 1;
    }
    res
}

/// Whether `c` is an ASCII letter or digit.
pub open spec fn is_ascii_alnum(c: char) -> bool {
    ('0' <= c && c <= '9') || ('a' <= c && c <= 'z') || ('A' <= c && c <= 'Z')
}

/// The ASCII letters and digits of `s`, in order.
pub open spec fn alnum_only(s: Seq<char>) -> Seq<char>
    decreases s.len(),
{
    if s.len() == 0 {
        seq![]
    } else if is_ascii_alnum(s.last()) {
        alnum_only(s.drop_last()).push(s.last())
    } else {
        alnum_only(s.drop_last())
    }
}

/// A container-name fragment: the ASCII letters and digits of `id`,
/// lower-cased.
pub open spec fn sanitized(id: Seq<char>) -> Seq<char> {
    lower_seq(alnum_only(id))
}

proof fn lemma_sanitized_shape(s: Seq<char>)
    ensures
        forall|i: int| 0 <= i < alnum_only(s).len() ==> is_ascii_alnum(#[trigger] alnum_only(s)[i]),
    decreases s.len(),
{
    if s.len() > 0 {
        lemma_sanitized_shape(s.drop_last());
        let p = alnum_only(s.drop_last());
        let a = alnum_only(s);
        assert forall|i: int| 0 <= i < a.len() implies is_ascii_alnum(#[trigger] a[i]) by {
            if i < p.len() {
                assert(a[i] == p[i]);
            }
        }
    }
}

/// A container-name fragment holds only lower-case ASCII letters and
/// digits.
pub proof fn lemma_sanitized_is_lower_alnum(id: Seq<char>)
    ensures
        forall|i: int|
            0 <= i < sanitized(id).len() ==> {
                let c = #[trigger] sanitized(id)[i];
                ('0' <= c && c <= '9') || ('a' <= c && c <= 'z')
            },
{
    lemma_sanitized_shape(id);
}

proof fn lemma_alnum_only_len(s: Seq<char>)
    ensures
        alnum_only(s).len() <= s.len(),
    decreases s.len(),
{
    if s.len() > 0 {
        lemma_alnum_only_len(s.drop_last());
    }
}

proof fn lemma_alnum_only_keeps_alnum(s: Seq<char>)
    requires
        forall|i: int| 0 <= i < s.len() ==> is_ascii_alnum(#[trigger] s[i]),
    ensures
        alnum_only(s) == s,
    decreases s.len(),
{
    if s.len() > 0 {
        lemma_alnum_only_keeps_alnum(s.drop_last());
        assert(s.drop_last().push(s.last()) =~= s);
    }
}

/// A container-name fragment is no longer than the id, and sanitizing it
/// again changes nothing.
pub proof fn lemma_sanitized_len_and_idempotent(id: Seq<char>)
    ensures
        sanitized(id).len() <= id.len(),
        sanitized(sanitized(id)) == sanitized(id),
{
    lemma_alnum_only_len(id);
    lemma_sanitized_is_lower_alnum(id);
    let t = sanitized(id);
    assert forall|i: int| 0 <= i < t.len() implies is_ascii_alnum(#[trigger] t[i]) by {}
    lemma_alnum_only_keeps_alnum(t);
    assert(lower_seq(t) =~= t);
}

/// Keeps the ASCII letters and digits of `id` and lower-cases them.
pub fn sanitize_for_container(id: &str) -> (res: String)
    ensures
        res@ == sanitized(id@),
{
    let v = chars_of(id);
    let mut kept: Vec<char> = Vec::new();
    let mut i: usize = 0;
    while i < v.len()
        invariant
            i <= v@.len(),
            kept@ == alnum_only(v@.subrange(0, i as int)),
        decreases v@.len() - i,
    {
        let c = v[i];
        assert(v@.subrange(0, i + 1).drop_last() =~= v@.subrange(0, i as int));
        if ('0' <= c && c <= '9') || ('a' <= c && c <= 'z') || ('A' <= c && c <= 'Z') {
            kept.push(c);
        }
        i = i + 1;
    }
    assert(v@.subrange(0, v@.len() as int) =~= v@);
    string_of(&lower_chars(&kept))
}

/// The compose file of a new agent, given the container-name suffix.
pub open spec fn compose_text(
    agent_id: Seq<char>,
    agent_name: Seq<char>,
    image: Seq<char>,
    suffix: Seq<char>,
) -> Seq<char> {
    "services:\n  openclaw-agent:\n    image: "@ + image + "\n    container_name: openshell-"@
        + suffix + "\n    restart: unless-stopped\n    env_file:\n      - .env\n    command: [\"agent\", \"run\"]\n    labels:\n      openshell.agent_id: \""@
        + agent_id + "\"\n      openshell.agent_name: \""@ + agent_name + "\"\n"@
}

/// The byte length of an id's container-name prefix: its first eight
/// bytes, or all of it when shorter.
pub open spec fn id_prefix_len(agent_id: &str) -> int {
    if agent_id.spec_bytes().len() < 8 {
        agent_id.spec_bytes().len() as int
    } else {
        8
    }
}

/// The compose file of a new agent: its image, a container named after
/// the sanitized first eight bytes of its id, a restart policy, the `.env`
/// file, the agent command, and labels carrying its id and name. The
/// first eight bytes must end on a character boundary (slicing there
/// would panic otherwise).
pub fn default_compose(agent_id: &str, agent_name: &str, image: &str) -> (res: String)
    requires
        agent_id.spec_bytes().len() <= usize::MAX,
        is_char_boundary(agent_id.spec_bytes(), id_prefix_len(agent_id)),
    ensures
        res@ == compose_text(
            agent_id@,
            agent_name@,
            image@,
            sanitized(decode_utf8(agent_id.spec_bytes().subrange(0, id_prefix_len(agent_id)))),
        ),
{
    let len = agent_id.len();
    let k: usize = if len < 8 {
        len
    } else {
        8
    };
    assert(k as int == id_prefix_len(agent_id));
    let (head, _) = agent_id.split_at(k);
    proof {
        encode_utf8_decode_utf8(head@);
        assert(head@ == decode_utf8(agent_id.spec_bytes().subrange(0, id_prefix_len(agent_id))));
    }
    let suffix = sanitize_for_container(head);
    let mut res = String::new();
    push_str(&mut res, "services:\n  openclaw-agent:\n    image: ");
    push_str(&mut res, image);
    push_str(&mut res, "\n    container_name: openshell-");
    push_str(&mut res, suffix.as_str());
    push_str(
        &mut res,
        "\n    restart: unless-stopped\n    env_file:\n      - .env\n    command: [\"agent\", \"run\"]\n    labels:\n      openshell.agent_id: \"",
    );
    push_str(&mut res, agent_id);
    push_str(&mut res, "\"\n      openshell.agent_name: \"");
    push_str(&mut res, agent_name);
    push_str(&mut res, "\"\n");
    res
}

/// A program and its arguments, ready to run.
#[derive(Debug)]
pub struct ComposeInvocation {
    pub program: String,
    pub args: Vec<String>,
}

/// The views of a list of strings.
pub open spec fn views_of_strings(v: Seq<String>) -> Seq<Seq<char>> {
    v.map_values(|s: String| s@)
}

/// The views of a list of string slices.
pub open spec fn views_of_strs(v: Seq<&str>) -> Seq<Seq<char>> {
    v.map_values(|s: &str| s@)
}

/// The error of `compose_command_builder`: no Compose binary was found.
#[derive(Debug, Clone, Copy, PartialEq, Eq, Structural)]
pub struct ComposeUnavailable;

impl ComposeUnavailable {
    /// The message the error carries.
    pub fn message(&self) -> (res: &'static str)
        ensures
            res@ == "No docker compose available"@,
    {
        "No docker compose available"
    }
}

/// The Compose command line for a binary choice, as `(program, arguments)`:
/// the `docker compose` plugin takes `--project-name`, the standalone
/// `docker-compose` takes `-p`; any other choice has no command line.
pub open spec fn compose_command_of(
    compose_bin: Option<Seq<char>>,
    compose_file: Seq<char>,
    project: Seq<char>,
    args: Seq<Seq<char>>,
) -> Option<(Seq<char>, Seq<Seq<char>>)> {
    match compose_bin {
        Some(b) => if b == "docker compose"@ {
            Some(
                (
                    "docker"@,
                    seq!["compose"@, "-f"@, compose_file, "--project-name"@, project] + args,
                ),
            )
        } else if b == "docker-compose"@ {
            Some(("docker-compose"@, seq!["-f"@, compose_file, "-p"@, project] + args))
        } else {
            None
        },
        None => None,
    }
}

fn push_all(out: &mut Vec<String>, args: &[&str])
    ensures
        views_of_strings(final(out)@) == views_of_strings(old(out)@) + views_of_strs(args@),
{
    let ghost start = views_of_strings(out@);
    let mut i: usize = 0;
    while i < args.len()
        invariant
            i <= args@.len(),
            views_of_strings(out@) == start + views_of_strs(args@.subrange(0, i as int)),
        decreases args@.len() - i,
    {
        let ghost before = out@;
        out.push(args[i].to_owned());
        assert(views_of_strings(out@) =~= views_of_strings(before).push(args@[i as int]@));
        assert(views_of_strs(args@.subrange(0, i + 1)) =~= views_of_strs(
            args@.subrange(0, i as int),
        ).push(args@[i as int]@));
        assert(views_of_strings(out@) =~= start + views_of_strs(args@.subrange(0, i + 1)));
        i = i + 1;
    }
    assert(args@.subrange(0, args@.len() as int) =~= args@);
}

/// Builds the Compose command for one agent: the compose file, the
/// project name, then `args`.
pub fn compose_command_builder(
    compose_bin: Option<&str>,
    compose_file: &str,
    project_name: &str,
    args: &[&str],
) -> (res: Result<ComposeInvocation, ComposeUnavailable>)
    ensures
        match compose_command_of(
            match compose_bin {
                Some(b) => Some(b@),
                None => None,
            },
            compose_file@,
            project_name@,
            views_of_strs(args@),
        ) {
            Some((program, argv)) => res matches Ok(inv) && inv.program@ == program
                && views_of_strings(inv.args@) == argv,
            None => res is Err,
        },
{
    match compose_bin {
        Some(b) => if str_eq(b, "docker compose") {
            let mut argv: Vec<String> = Vec::new();
            argv.push("compose".to_owned());
            argv.push("-f".to_owned());
            argv.push(compose_file.to_owned());
            argv.push("--project-name".to_owned());
            argv.push(project_name.to_owned());
            let ghost head = views_of_strings(argv@);
            assert(head =~= seq!["compose"@, "-f"@, compose_file@, "--project-name"@, project_name@]);
            push_all(&mut argv, args);
            Ok(ComposeInvocation { program: "docker".to_owned(), args: argv })
        } else if str_eq(b, "docker-compose") {
            let mut argv: Vec<String> = Vec::new();
            argv.push("-f".to_owned());
            argv.push(compose_file.to_owned());
            argv.push("-p".to_owned());
            argv.push(project_name.to_owned());
            let ghost head = views_of_strings(argv@);
            assert(head =~= seq!["-f"@, compose_file@, "-p"@, project_name@]);
            push_all(&mut argv, args);
            Ok(ComposeInvocation { program: "docker-compose".to_owned(), args: argv })
        } else {
            Err(ComposeUnavailable)
        },
        None => Err(ComposeUnavailable),
    }
}

/// Which Compose binary to use: the `docker compose` plugin when it
/// answers, otherwise the standalone `docker-compose`, otherwise none.
pub fn select_compose_binary(plugin_ok: bool, standalone_ok: bool) -> (res: Option<&'static str>)
    ensures
        plugin_ok ==> (res matches Some(b) && b@ == "docker compose"@),
        !plugin_ok && standalone_ok ==> (res matches Some(b) && b@ == "docker-compose"@),
        !plugin_ok && !standalone_ok ==> res is None,
{
    if plugin_ok {
        Some("docker compose")
    } else if standalone_ok {
        Some("docker-compose")
    } else {
        None
    }
}

/// What the supervisor asks Compose to do for an agent.
#[derive(Debug, Clone, Copy, PartialEq, Eq, Structural)]
pub enum ComposeAction {
    Up,
    Stop,
    Restart,
    Down,
    DownWithVolumes,
    Logs,
    FollowLogs,
}

/// The Compose arguments of each action.
pub open spec fn compose_action_args(action: ComposeAction) -> Seq<Seq<char>> {
    match action {
        ComposeAction::Up => seq!["up"@, "-d"@],
        ComposeAction::Stop => seq!["stop"@],
        ComposeAction::Restart => seq!["restart"@],
        ComposeAction::Down => seq!["down"@],
        ComposeAction::DownWithVolumes => seq!["down"@, "-v"@],
        ComposeAction::Logs => seq!["logs"@, "--tail=200"@],
        ComposeAction::FollowLogs => seq!["logs"@, "-f"@, "--tail=200"@],
    }
}

/// The Compose arguments of an action: `up -d` to start, `stop`,
/// `restart`, `down` (with `-v` to drop volumes), the last 200 log lines,
/// or the last 200 lines and then follow.
pub fn compose_args(action: ComposeAction) -> (res: Vec<&'static str>)
    ensures
        views_of_strs(res@) == compose_action_args(action),
{
    let res = match action {
        ComposeAction::Up => vec!["up", "-d"],
        ComposeAction::Stop => vec!["stop"],
        ComposeAction::Restart => vec!["restart"],
        ComposeAction::Down => vec!["down"],
        ComposeAction::DownWithVolumes => vec!["down", "-v"],
        ComposeAction::Logs => vec!["logs", "--tail=200"],
        ComposeAction::FollowLogs => vec!["logs", "-f", "--tail=200"],
    };
    assert(views_of_strs(res@) =~= compose_action_args(action));
    res
}

proof fn lemma_action_words_differ()
    ensures
        "-v"@ != "up"@,
        "-v"@ != "-d"@,
        "-v"@ != "-f"@,
        "-v"@ != "stop"@,
        "-v"@ != "restart"@,
        "-v"@ != "down"@,
        "-v"@ != "logs"@,
        "-v"@ != "--tail=200"@,
        "down"@ != "up"@,
        "down"@ != "stop"@,
        "down"@ != "restart"@,
        "down"@ != "logs"@,
{
    reveal_strlit("-v");
    reveal_strlit("up");
    reveal_strlit("-d");
    reveal_strlit("-f");
    reveal_strlit("stop");
    reveal_strlit("restart");
    reveal_strlit("down");
    reveal_strlit("logs");
    reveal_strlit("--tail=200");
    assert("-v"@[0] != "up"@[0]);
    assert("-v"@[1] != "-d"@[1]);
    assert("-v"@[1] != "-f"@[1]);
    assert("down"@[0] != "up"@[0]);
    assert("down"@[0] != "stop"@[0]);
    assert("down"@[0] != "restart"@[0]);
    assert("down"@[0] != "logs"@[0]);
}

/// What each lifecycle action runs: start is `up -d`; stop is exactly
/// `stop` and restart exactly `restart`, which keep the containers; only
/// the two down actions begin with `down` and remove the containers; and
/// only removing an agent with its volumes passes `-v`.
pub proof fn lemma_lifecycle_args(action: ComposeAction)
    ensures
        action == ComposeAction::Up ==> compose_action_args(action) == seq!["up"@, "-d"@],
        action == ComposeAction::Stop ==> compose_action_args(action) == seq!["stop"@],
        action == ComposeAction::Restart ==> compose_action_args(action) == seq!["restart"@],
        action == ComposeAction::Down ==> compose_action_args(action) == seq!["down"@],
        compose_action_args(action).len() > 0,
        (compose_action_args(action)[0] == "down"@) <==> (action == ComposeAction::Down || action
            == ComposeAction::DownWithVolumes),
        compose_action_args(action).contains("-v"@) <==> action == ComposeAction::DownWithVolumes,
{
    lemma_action_words_differ();
    let a = compose_action_args(action);
    if a.contains("-v"@) {
        let i = choose|i: int| 0 <= i < a.len() && a[i] == "-v"@;
        assert(a[i] == "-v"@);
    }
    if action == ComposeAction::DownWithVolumes {
        assert(a[1] == "-v"@);
    }
}

} // verus!
