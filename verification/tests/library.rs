use supervisor_core::access::{
    authenticate, authorize, bearer_token, required_permission, role_allows, role_from_str, AuthError,
    HttpMethod, Permission, Role,
};
use supervisor_core::agent::{
    agent_metadata, compose_file_in, duplicate_payload, duplicate_payload_with_image,
    plan_agent_files, plan_import, plan_import_new, plan_new_agent, server_agent_workdir,
    server_compose, AgentPlanError, CreateAgentPayload, ImportAgentPayload,
};
use supervisor_core::compose::{
    sanitize_for_container, compose_args, compose_command_builder, default_compose, project_name, select_compose_binary,
    ComposeAction,
};
use supervisor_core::env::{parse_env_string, render_env, EnvMap};
use supervisor_core::mission::{validate_mission_steps, MissionError, MissionStep};
use supervisor_core::ops::{
    ops_output, ops_step, opened_folder_output, parse_ops_command, show_config_output,
    AgentConfigResponse, AllowedOpsCommand, OpsStep,
};
use supervisor_core::status::{
    command_outcome, docker_status, map_container_state, status_from_ps, ProbeOutcome,
};
use supervisor_core::text::parse_i64_str;
use supervisor_core::token::{hash_token, new_token, token_from_uuid};

fn env_of(pairs: &[(&str, &str)]) -> EnvMap {
    let mut e = EnvMap::new();
    for (k, v) in pairs {
        e.insert(k.to_string(), v.to_string());
    }
    e
}

fn is_uuid_v4(s: &str) -> bool {
    let b = s.as_bytes();
    b.len() == 36
        && b.iter().enumerate().all(|(i, c)| {
            if [8, 13, 18, 23].contains(&i) {
                *c == b'-'
            } else {
                c.is_ascii_digit() || (b'a'..=b'f').contains(c)
            }
        })
        && b[14] == b'4'
        && [b'8', b'9', b'a', b'b'].contains(&b[19])
}

#[test]
fn role_names_parse_exactly() {
    assert_eq!(role_from_str("owner"), Ok(Role::Owner));
    assert_eq!(role_from_str("admin"), Ok(Role::Admin));
    assert_eq!(role_from_str("operator"), Ok(Role::Operator));
    assert_eq!(role_from_str("viewer"), Ok(Role::Viewer));
    assert!(role_from_str("Owner").is_err());
    assert!(role_from_str(" admin").is_err());
    assert!(role_from_str("").is_err());
    assert_eq!(role_from_str("root").unwrap_err().message(), "invalid role");
}

#[test]
fn roles_form_a_ladder() {
    let roles = [Role::Viewer, Role::Operator, Role::Admin, Role::Owner];
    let perms = [Permission::Read, Permission::Operate, Permission::Admin, Permission::Owner];
    for (ri, r) in roles.iter().enumerate() {
        for (pi, p) in perms.iter().enumerate() {
            assert_eq!(role_allows(*r, *p), pi <= ri);
        }
    }
}

#[test]
fn permission_follows_method() {
    assert_eq!(required_permission(HttpMethod::Get, true), Permission::Read);
    assert_eq!(required_permission(HttpMethod::Post, false), Permission::Operate);
    assert_eq!(required_permission(HttpMethod::Post, true), Permission::Owner);
    assert_eq!(required_permission(HttpMethod::Delete, false), Permission::Admin);
    assert_eq!(required_permission(HttpMethod::Other, false), Permission::Admin);
}

#[test]
fn bearer_header_is_read() {
    assert_eq!(bearer_token(Some("Bearer abc")), Ok("abc".to_string()));
    assert_eq!(bearer_token(Some("Bearer ")), Ok(String::new()));
    assert_eq!(bearer_token(None), Err(AuthError::MissingToken));
    assert_eq!(bearer_token(Some("bearer abc")), Err(AuthError::MalformedToken));
    assert_eq!(bearer_token(Some("Bear")), Err(AuthError::MalformedToken));
    assert_eq!(AuthError::MissingToken.status_code(), 401);
    assert_eq!(AuthError::MissingToken.message(), "missing bearer token");
    assert_eq!(AuthError::MalformedToken.message(), "invalid bearer token");
    assert_eq!(AuthError::UnknownToken.message(), "token not found");
    assert_eq!(AuthError::UnknownToken.status_code(), 401);
}

#[test]
fn authorize_checks_role_and_permission() {
    assert_eq!(authorize("admin", Permission::Admin), Ok(Role::Admin));
    assert_eq!(authorize("viewer", Permission::Operate), Err(AuthError::InsufficientPermissions));
    assert_eq!(authorize("superuser", Permission::Read), Err(AuthError::InvalidRole));
    assert_eq!(AuthError::InvalidRole.status_code(), 403);
    assert_eq!(AuthError::InsufficientPermissions.status_code(), 403);
    assert_eq!(AuthError::InsufficientPermissions.message(), "insufficient permissions");
}

#[test]
fn mission_errors_come_from_first_faulty_step() {
    assert_eq!(validate_mission_steps(&[]), Err(MissionError::EmptySteps));
    let steps = vec![
        MissionStep::StartAgents { ids: vec!["a".into()] },
        MissionStep::WaitForStatus { agent_id: "a".into(), status: "RUNNING".into(), timeout_seconds: 0 },
        MissionStep::StopAgents { ids: vec![] },
    ];
    assert_eq!(validate_mission_steps(&steps), Err(MissionError::ZeroTimeout));
    let steps = vec![MissionStep::StopAgents { ids: vec![] }];
    assert_eq!(validate_mission_steps(&steps), Err(MissionError::EmptyAgentIds));
    let steps = vec![MissionStep::TailLogsUntil { agent_id: "a".into(), contains: "x".into(), timeout_seconds: 5 }];
    assert_eq!(validate_mission_steps(&steps), Ok(()));
    let steps = vec![MissionStep::HttpNotify { url: "u".into(), method: "pAtCh".into(), body: None }];
    assert_eq!(validate_mission_steps(&steps), Ok(()));
    let steps = vec![MissionStep::HttpNotify {
        url: "u".into(),
        method: "GET".into(),
        body: Some(serde_json::Value::Bool(true)),
    }];
    assert_eq!(validate_mission_steps(&steps), Err(MissionError::MethodUnsupported));
    let steps = vec![MissionStep::RunOps { agent_id: "a".into(), cmd: " docker ps".into() }];
    assert_eq!(validate_mission_steps(&steps), Err(MissionError::OpsNotAllowlisted));
    assert_eq!(MissionError::OpsNotAllowlisted.message(), "run_ops command not allowlisted");
    assert_eq!(MissionError::EmptySteps.message(), "mission steps cannot be empty");
    assert_eq!(MissionError::ZeroTimeout.message(), "timeout_seconds must be > 0");
    assert_eq!(MissionError::EmptyAgentIds.message(), "agent id list cannot be empty");
    assert_eq!(MissionError::MethodUnsupported.message(), "http_notify method unsupported");
}

#[test]
fn mission_commands_are_console_commands() {
    for cmd in ["docker ps", "compose up", "compose down", "compose logs", "show config", "open folder"] {
        let steps = vec![MissionStep::RunOps { agent_id: "a".into(), cmd: cmd.into() }];
        assert_eq!(validate_mission_steps(&steps), Ok(()));
        assert!(parse_ops_command(cmd).is_ok());
    }
}

#[test]
fn token_hash_is_sha256_hex() {
    assert_eq!(
        hash_token("abc"),
        "ba7816bf8f01cfea414140de5dae2223b00361a396177a9cb410ff61f20015ad"
    );
    assert_eq!(
        hash_token(""),
        "e3b0c44298fc1c149afbf4c8996fb92427ae41e4649b934ca495991b7852b855"
    );
}

#[test]
fn issued_token_authenticates() {
    let (raw, hash) = new_token();
    assert!(raw.starts_with("oclw_"));
    assert_eq!(raw.len(), 41);
    assert!(is_uuid_v4(&raw[5..]));
    assert_eq!(hash_token(&raw), hash);
    let (raw2, _) = new_token();
    assert_ne!(raw, raw2);
    let (t, h) = token_from_uuid("x");
    assert_eq!(t, "oclw_x");
    assert_eq!(h, hash_token("oclw_x"));
}

#[test]
fn env_renders_in_insertion_order() {
    let mut e = env_of(&[("A", "1"), ("B", "two"), ("A", "3")]);
    assert_eq!(e.len(), 2);
    assert_eq!(render_env(&e), "A=3\nB=two\n");
    e.insert("C".into(), "".into());
    assert_eq!(render_env(&e), "A=3\nB=two\nC=\n");
    assert_eq!(e.get("B"), Some(&"two".to_string()));
    assert_eq!(e.get("Z"), None);
    assert_eq!(render_env(&EnvMap::new()), "");
}

#[test]
fn env_text_is_read_line_by_line() {
    let e = parse_env_string("A=1\r\nno equals\nB=x=y\n\nA=2\nC=");
    assert_eq!(e.len(), 3);
    assert_eq!(e.get("A"), Some(&"2".to_string()));
    assert_eq!(e.get("B"), Some(&"x=y".to_string()));
    assert_eq!(e.get("C"), Some(&"".to_string()));
    assert_eq!(e.get("no equals"), None);
    let e = parse_env_string("K=v\r");
    assert_eq!(e.get("K"), Some(&"v\r".to_string()));
    assert_eq!(parse_env_string("").len(), 0);
}

#[test]
fn env_round_trips() {
    let e = env_of(&[("PATH_X", "/a b"), ("EMPTY", ""), ("WITH_EQ", "a=b"), ("UNI", "ü")]);
    let back = parse_env_string(&render_env(&e));
    assert_eq!(back.len(), e.len());
    for k in ["PATH_X", "EMPTY", "WITH_EQ", "UNI"] {
        assert_eq!(back.get(k), e.get(k));
    }
    assert_eq!(render_env(&back), render_env(&e));
}

#[test]
fn project_name_takes_eight_chars() {
    assert_eq!(project_name("abcd1234-5678"), "openshell-abcd1234");
    assert_eq!(project_name("abc"), "openshell-abc");
    assert_eq!(project_name("ééééééééé"), "openshell-éééééééé");
}

#[test]
fn compose_file_is_generated() {
    let text = default_compose("ABCD-1234-zz", "bot", "img:1");
    assert_eq!(
        text,
        "services:\n  openclaw-agent:\n    image: img:1\n    container_name: openshell-abcd123\n    restart: unless-stopped\n    env_file:\n      - .env\n    command: [\"agent\", \"run\"]\n    labels:\n      openshell.agent_id: \"ABCD-1234-zz\"\n      openshell.agent_name: \"bot\"\n"
    );
    let short = default_compose("a_b", "n", "i");
    assert!(short.contains("container_name: openshell-ab\n"));
}

#[test]
fn compose_command_lines() {
    let inv = compose_command_builder(Some("docker compose"), "f.yml", "p", &["up", "-d"]).unwrap();
    assert_eq!(inv.program, "docker");
    assert_eq!(inv.args, vec!["compose", "-f", "f.yml", "--project-name", "p", "up", "-d"]);
    let inv = compose_command_builder(Some("docker-compose"), "f.yml", "p", &[]).unwrap();
    assert_eq!(inv.program, "docker-compose");
    assert_eq!(inv.args, vec!["-f", "f.yml", "-p", "p"]);
    let err = compose_command_builder(None, "f.yml", "p", &["down"]).unwrap_err();
    assert_eq!(err.message(), "No docker compose available");
    assert!(compose_command_builder(Some("podman"), "f.yml", "p", &[]).is_err());
    assert_eq!(select_compose_binary(true, true), Some("docker compose"));
    assert_eq!(select_compose_binary(false, true), Some("docker-compose"));
    assert_eq!(select_compose_binary(false, false), None);
    assert_eq!(compose_args(ComposeAction::Up), vec!["up", "-d"]);
    assert_eq!(compose_args(ComposeAction::DownWithVolumes), vec!["down", "-v"]);
    assert_eq!(compose_args(ComposeAction::FollowLogs), vec!["logs", "-f", "--tail=200"]);
    assert_eq!(compose_args(ComposeAction::Logs), vec!["logs", "--tail=200"]);
}

#[test]
fn container_states_map_to_statuses() {
    assert_eq!(map_container_state("running", None), "RUNNING");
    assert_eq!(map_container_state("created", Some(3)), "CREATED");
    assert_eq!(map_container_state("restarting", None), "STARTING");
    assert_eq!(map_container_state("exited", Some(0)), "STOPPED");
    assert_eq!(map_container_state("exited", None), "STOPPED");
    assert_eq!(map_container_state("exited", Some(137)), "ERROR");
    assert_eq!(map_container_state("paused", None), "ERROR");
}

#[test]
fn ps_listing_gives_status() {
    let u = status_from_ps(true, "abc|running|0|id1\nother|exited|1|id2\n", "");
    assert_eq!(u.status, "RUNNING");
    assert_eq!(u.container_id.as_deref(), Some("abc"));
    assert_eq!(u.exit_code, Some(0));
    assert_eq!(u.error, None);
    let u = status_from_ps(true, "abc|exited|2", "");
    assert_eq!((u.status, u.exit_code), ("ERROR", Some(2)));
    let u = status_from_ps(true, "abc|exited|x\r\n", "");
    assert_eq!((u.status, u.exit_code), ("STOPPED", None));
    let u = status_from_ps(true, "abc\n", "");
    assert_eq!((u.status, u.container_id.as_deref()), ("STOPPED", Some("abc")));
    let u = status_from_ps(true, "", "");
    assert_eq!((u.status, u.exit_code, u.container_id), ("STOPPED", Some(0), None));
    let u = status_from_ps(false, "x", "boom");
    assert_eq!((u.status, u.error.as_deref()), ("ERROR", Some("boom")));
}

#[test]
fn i64_text_parses_like_std() {
    for s in ["0", "-0", "+7", "-9223372036854775808", "9223372036854775807", "", "-", "+", "9223372036854775808", "1 ", "0x1", "--1", "00012"] {
        assert_eq!(parse_i64_str(s), s.parse::<i64>().ok(), "{s}");
    }
}

#[test]
fn docker_report_names_first_problem() {
    let s = docker_status(None, ProbeOutcome::Succeeded, true, true);
    assert!(!s.installed && !s.daemon_running && !s.compose_available);
    assert_eq!(s.error.as_deref(), Some("docker executable not found"));
    let s = docker_status(Some(" Docker 24\n"), ProbeOutcome::Failed { stderr: " down \n".into() }, true, false);
    assert!(s.installed && !s.daemon_running && s.compose_available);
    assert_eq!(s.version.as_deref(), Some("Docker 24"));
    assert_eq!(s.error.as_deref(), Some("down"));
    assert!(s.fix_hint.unwrap().starts_with("Start Docker Desktop/daemon"));
    let s = docker_status(Some("v"), ProbeOutcome::NotRun { message: "no such file".into() }, false, false);
    assert_eq!(s.error.as_deref(), Some("no such file"));
    let s = docker_status(Some("v"), ProbeOutcome::Succeeded, false, false);
    assert_eq!(s.error.as_deref(), Some("docker compose / docker-compose not available"));
    assert_eq!(s.fix_hint.as_deref(), Some("Install Docker Compose plugin or docker-compose binary."));
    let s = docker_status(Some("v"), ProbeOutcome::Succeeded, false, true);
    assert!(s.compose_available && s.error.is_none() && s.fix_hint.is_none());
    assert_eq!(command_outcome(true, "x".into()), Ok(()));
    assert_eq!(command_outcome(false, "bad".into()), Err("bad".to_string()));
}

#[test]
fn ops_console_commands() {
    assert_eq!(parse_ops_command("  Compose Logs \n"), Ok(AllowedOpsCommand::ComposeLogs));
    assert_eq!(parse_ops_command("SHOW CONFIG"), Ok(AllowedOpsCommand::ShowConfig));
    assert_eq!(parse_ops_command("open folder"), Ok(AllowedOpsCommand::OpenFolder));
    assert_eq!(parse_ops_command("compose down"), Ok(AllowedOpsCommand::ComposeDown));
    assert_eq!(parse_ops_command("compose  up").unwrap_err().message(), "Command not allowed");
    assert_eq!(ops_step(AllowedOpsCommand::ComposeUp), OpsStep::Compose(ComposeAction::Up));
    assert_eq!(ops_step(AllowedOpsCommand::ComposeLogs), OpsStep::Compose(ComposeAction::Logs));
    assert_eq!(ops_step(AllowedOpsCommand::DockerPs), OpsStep::DockerPs);
    let cfg = AgentConfigResponse { env: "E".into(), compose: "C".into(), metadata: "M".into() };
    let r = show_config_output(&cfg);
    assert_eq!((r.stdout.as_str(), r.stderr.as_str(), r.code), ("M\nE\nC", "", 0));
    let r = opened_folder_output();
    assert_eq!(r.stdout, "Opened agent folder");
    assert_eq!(ops_output("o".into(), "e".into(), None).code, 1);
    assert_eq!(ops_output("o".into(), "e".into(), Some(3)).code, 3);
}

fn metadata_json(bytes: &[u8]) -> serde_json::Value {
    serde_json::from_slice(bytes).unwrap()
}

#[test]
fn new_agent_files() {
    let payload = CreateAgentPayload {
        name: "bot".into(),
        template: "tpl".into(),
        image_override: None,
        env: env_of(&[("K", "V")]),
    };
    let f = plan_agent_files("abcdef12-3456", &payload);
    assert_eq!(f.image, "ghcr.io/openclaw/openclaw:latest");
    assert_eq!(f.env_file, "K=V\n");
    assert_eq!(f.compose, default_compose("abcdef12-3456", "bot", "ghcr.io/openclaw/openclaw:latest"));
    let m = metadata_json(&f.metadata);
    assert_eq!(m["id"], "abcdef12-3456");
    assert_eq!(m["name"], "bot");
    assert_eq!(m["template"], "tpl");
    assert_eq!(m["image"], "ghcr.io/openclaw/openclaw:latest");
    let payload = CreateAgentPayload { image_override: Some("me/img".into()), ..payload };
    let f = plan_new_agent(&payload);
    assert!(is_uuid_v4(&f.id));
    assert_eq!(f.image, "me/img");
    assert!(f.compose.contains(&format!("container_name: openshell-{}\n", &f.id[..8])));
    assert_eq!(metadata_json(&f.metadata)["id"], f.id.as_str());
    let b = agent_metadata("i", "n", "t", "im");
    let m = metadata_json(&b);
    assert_eq!(m.as_object().unwrap().len(), 4);
    assert_eq!((m["id"].as_str(), m["name"].as_str()), (Some("i"), Some("n")));
    assert_eq!((m["template"].as_str(), m["image"].as_str()), (Some("t"), Some("im")));
}

#[test]
fn import_plans() {
    let p = ImportAgentPayload { folder_path: "/x".into(), name: None, template: None };
    assert_eq!(plan_import("abcdefgh-1", &p, true, false).unwrap_err(), AgentPlanError::MissingImportFiles);
    assert_eq!(AgentPlanError::MissingImportFiles.message(), "folder must contain docker-compose.yml and .env");
    let a = plan_import("abcdefgh-1", &p, true, true).unwrap();
    assert_eq!(a.name, "Imported-abcdefgh");
    assert_eq!(a.template, "openclaw-default");
    assert_eq!(metadata_json(&a.metadata)["image"], "imported");
    let p2 = ImportAgentPayload { folder_path: "/x".into(), name: Some("mine".into()), template: Some("t".into()) };
    let a = plan_import("id", &p2, true, true).unwrap();
    assert_eq!((a.name.as_str(), a.template.as_str()), ("mine", "t"));
    let a = plan_import_new(&p, true, true).unwrap();
    assert!(is_uuid_v4(&a.id));
    assert_eq!(a.name, format!("Imported-{}", &a.id[..8]));
    assert!(plan_import_new(&p, false, true).is_err());
}

#[test]
fn duplicate_copies_created_agent() {
    let payload = CreateAgentPayload {
        name: "bot".into(),
        template: "tpl".into(),
        image_override: Some("img:9".into()),
        env: env_of(&[("A", "1"), ("B", "x=y")]),
    };
    let f = plan_new_agent(&payload);
    let metadata = String::from_utf8(f.metadata.clone()).unwrap();
    let d = duplicate_payload("copy".into(), f.template.clone(), &f.env_file, &metadata);
    assert_eq!(d.image_override.as_deref(), Some("img:9"));
    assert_eq!(render_env(&d.env), render_env(&payload.env));
}

#[test]
fn duplicate_reads_stored_files() {
    let d = duplicate_payload("copy".into(), "tpl".into(), "A=1\nB=2\n", "{\"id\":\"x\",\"image\":\"img:2\"}");
    assert_eq!(d.name, "copy");
    assert_eq!(d.template, "tpl");
    assert_eq!(d.image_override.as_deref(), Some("img:2"));
    assert_eq!(render_env(&d.env), "A=1\nB=2\n");
    let d = duplicate_payload("c".into(), "t".into(), "", "not json");
    assert_eq!(d.image_override, None);
    let d = duplicate_payload("c".into(), "t".into(), "", "{\"image\":3}");
    assert_eq!(d.image_override, None);
    let d = duplicate_payload_with_image("c".into(), "t".into(), Some("i".into()), "X=y");
    assert_eq!(d.env.get("X"), Some(&"y".to_string()));
}

#[test]
fn server_agent_files() {
    assert_eq!(server_agent_workdir("42"), "/data/agents/42");
    assert_eq!(compose_file_in("/data/agents/42"), "/data/agents/42/docker-compose.yml");
    assert_eq!(
        server_compose("42", "bob"),
        "services:\n  openclaw-agent:\n    image: ghcr.io/openclaw/openclaw:latest\n    labels:\n      openshell.agent_id: \"42\"\n      openshell.agent_name: \"bob\"\n"
    );
}

#[test]
fn fresh_ids_are_v4_uuids() {
    let a = supervisor_core::token::new_id();
    let b = supervisor_core::token::new_id();
    assert!(is_uuid_v4(&a) && is_uuid_v4(&b));
    assert_ne!(a, b);
}

#[test]
fn access_decision_in_order() {
    let ok = authenticate(Some("Bearer t"), Some("operator"), HttpMethod::Post, false);
    assert_eq!(ok, Ok(Role::Operator));
    assert_eq!(authenticate(None, Some("owner"), HttpMethod::Get, false), Err(AuthError::MissingToken));
    assert_eq!(authenticate(Some("Token t"), Some("owner"), HttpMethod::Get, false), Err(AuthError::MalformedToken));
    assert_eq!(authenticate(Some("Bearer t"), None, HttpMethod::Get, false), Err(AuthError::UnknownToken));
    assert_eq!(authenticate(Some("Bearer t"), Some("boss"), HttpMethod::Get, false), Err(AuthError::InvalidRole));
    assert_eq!(
        authenticate(Some("Bearer t"), Some("admin"), HttpMethod::Post, true),
        Err(AuthError::InsufficientPermissions)
    );
    assert_eq!(authenticate(Some("Bearer t"), Some("owner"), HttpMethod::Post, true), Ok(Role::Owner));
}

#[test]
fn mission_parts_concatenate() {
    let good = MissionStep::StartAgents { ids: vec!["a".into()] };
    let zero = MissionStep::WaitForStatus { agent_id: "a".into(), status: "s".into(), timeout_seconds: 0 };
    let bad_ops = MissionStep::RunOps { agent_id: "a".into(), cmd: "ls".into() };
    let steps = vec![MissionStep::StartAgents { ids: vec!["a".into()] }, bad_ops, zero];
    assert_eq!(validate_mission_steps(&steps), Err(MissionError::OpsNotAllowlisted));
    let steps = vec![good, MissionStep::StopAgents { ids: vec![] }];
    assert_eq!(validate_mission_steps(&steps), Err(MissionError::EmptyAgentIds));
}

#[test]
fn sanitize_is_idempotent() {
    for id in ["Abc-12_XX", "", "ÄbC9", "----"] {
        let once = sanitize_for_container(id);
        assert!(once.chars().count() <= id.chars().count());
        assert_eq!(sanitize_for_container(&once), once);
    }
}
