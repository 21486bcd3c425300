use supervisor_core::access::{role_allows, Permission, Role};
use supervisor_core::compose::{compose_command_builder, sanitize_for_container};
use supervisor_core::mission::{validate_mission_steps, MissionStep};
use supervisor_core::ops::{parse_ops_command, AllowedOpsCommand};

#[test]
fn allowlist_accepts_expected_commands() {
    assert_eq!(
        parse_ops_command("docker ps").expect("docker ps should be accepted"),
        AllowedOpsCommand::DockerPs
    );
    assert_eq!(
        parse_ops_command("compose up").expect("compose up should be accepted"),
        AllowedOpsCommand::ComposeUp
    );
    assert!(parse_ops_command("rm -rf /").is_err());
}

#[test]
fn compose_builder_prefers_subcommand_style() {
    let cmd = compose_command_builder(
        Some("docker compose"),
        "compose.yml",
        "openshell-abcd1234",
        &["up", "-d"],
    )
    .expect("docker compose command should build");
    let debug = format!("{cmd:?}");
    assert!(debug.contains("--project-name"));
    assert!(debug.contains("openshell-abcd1234"));
}

#[test]
fn compose_builder_supports_legacy_binary() {
    let cmd = compose_command_builder(
        Some("docker-compose"),
        "compose.yml",
        "openshell-abcd1234",
        &["down"],
    )
    .expect("docker-compose command should build");
    let debug = format!("{cmd:?}");
    assert!(debug.contains("docker-compose"));
    assert!(debug.contains("-p"));
}

#[test]
fn sanitize_container_name_is_alnum() {
    assert_eq!(sanitize_for_container("Abc-12_XX"), "abc12xx");
}

#[test]
fn rbac_guard_works() {
    assert!(role_allows(Role::Viewer, Permission::Read));
    assert!(!role_allows(Role::Viewer, Permission::Operate));
    assert!(role_allows(Role::Operator, Permission::Operate));
    assert!(!role_allows(Role::Operator, Permission::Admin));
    assert!(role_allows(Role::Admin, Permission::Admin));
    assert!(!role_allows(Role::Admin, Permission::Owner));
    assert!(role_allows(Role::Owner, Permission::Owner));
}

#[test]
fn mission_validation_works() {
    let ok = vec![MissionStep::RunOps {
        agent_id: "a".into(),
        cmd: "compose up".into(),
    }];
    assert!(validate_mission_steps(&ok).is_ok());

    let bad = vec![MissionStep::RunOps {
        agent_id: "a".into(),
        cmd: "rm -rf /".into(),
    }];
    assert!(validate_mission_steps(&bad).is_err());
}
