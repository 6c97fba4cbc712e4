use kybe_backend::db::traces::{CommandStatus, CommandTrace, CommandTraceRow};
use kybe_backend::db::users::{User, UserRole};
use kybe_backend::db::website_traces::{RequestStatus, WebsiteTrace};
use kybe_backend::db::trace_ids::{parse_uuid, uuid_text};

#[test]
fn command_status_names() {
    assert_eq!(CommandStatus::Success.as_str(), "success");
    assert_eq!(CommandStatus::Error.as_str(), "error");
    assert_eq!(CommandStatus::Disabled.as_str(), "disabled");
    assert_eq!(CommandStatus::Unauthorized.as_str(), "unauthorized");
}

#[test]
fn command_status_round_trip_in_any_case() {
    for s in [CommandStatus::Success, CommandStatus::Error, CommandStatus::Disabled, CommandStatus::Unauthorized] {
        assert_eq!(CommandStatus::try_from(s.as_str()), Ok(s));
        assert_eq!(CommandStatus::try_from(s.as_str().to_uppercase().as_str()), Ok(s));
    }
    assert_eq!(CommandStatus::try_from("SuCcEsS"), Ok(CommandStatus::Success));
}

#[test]
fn command_status_rejects_unknown_names() {
    assert_eq!(CommandStatus::try_from("bogus"), Err("Invalid command status: bogus".to_string()));
    assert_eq!(CommandStatus::try_from("ÜBER"), Err("Invalid command status: über".to_string()));
    assert_eq!(CommandStatus::try_from(""), Err("Invalid command status: ".to_string()));
}

#[test]
fn user_roles() {
    assert_eq!(UserRole::try_from("ADMIN"), Ok(UserRole::Admin));
    assert_eq!(UserRole::try_from("user"), Ok(UserRole::User));
    assert_eq!(UserRole::try_from("root"), Err("Invalid user role: root".to_string()));
    assert_eq!(UserRole::default(), UserRole::User);
    assert_eq!(UserRole::Admin.as_str(), "admin");
    assert_eq!(UserRole::try_from(UserRole::User.as_str()), Ok(UserRole::User));
}

#[test]
fn request_status_names() {
    assert_eq!(RequestStatus::Success.as_str(), "success");
    assert_eq!(RequestStatus::Redirect.as_str(), "redirect");
    assert_eq!(RequestStatus::ClientError.as_str(), "clienterror");
    assert_eq!(RequestStatus::ServerError.as_str(), "servererror");
    assert_eq!(RequestStatus::Unauthorized.as_str(), "unauthorized");
}

#[test]
fn default_user_is_new_and_unverified() {
    let u = User::default();
    assert_eq!(u.username, "");
    assert_eq!(u.email, "");
    assert!(!u.email_verified);
    assert_eq!(u.role, UserRole::User);
    assert!(u.last_login_ms.is_none());
    assert!(u.created_at_ms > 1_600_000_000_000);
}

#[test]
fn command_trace_start_and_finish() {
    let mut t = CommandTrace::start("cat".to_string(), u64::MAX, "kybe".to_string(), Some(5), 7);
    assert_eq!(t.command, "cat");
    assert_eq!(t.user_id, -1);
    assert_eq!(t.guild_id, Some(5));
    assert_eq!(t.channel_id, 7);
    assert_eq!(t.status, CommandStatus::Success);
    assert!(t.output.is_none() && t.error.is_none());
    let start = t.started_at_ms;
    assert!(!t.finish(start + 250));
    assert_eq!(t.duration_ms, 250);
    t.status = CommandStatus::Error;
    assert!(t.finish(start + 300));
    assert_eq!(t.duration_ms, 300);
}

fn row(status: &str) -> CommandTraceRow {
    CommandTraceRow {
        trace_id: 1,
        command: "get_trace".to_string(),
        user_id: 2,
        username: "u".to_string(),
        guild_id: None,
        channel_id: 3,
        started_at_ms: 4,
        duration_ms: 5,
        status: status.to_string(),
        output: Some("o".to_string()),
        error: None,
    }
}

#[test]
fn trace_from_row_reads_the_status_or_falls_back_to_error() {
    assert_eq!(CommandTrace::from(row("disabled")).status, CommandStatus::Disabled);
    assert_eq!(CommandTrace::from(row("Unauthorized")).status, CommandStatus::Unauthorized);
    let t = CommandTrace::from(row("nonsense"));
    assert_eq!(t.status, CommandStatus::Error);
    assert_eq!(t.trace_id, 1);
    assert_eq!(t.duration_ms, 5);
    assert_eq!(t.output.as_deref(), Some("o"));
}

#[test]
fn website_trace_start_and_complete() {
    let mut t = WebsiteTrace::start("get", "/".to_string(), Some("a=1".to_string()), None, Some("1.2.3.4".to_string()));
    assert_eq!(t.method, "GET");
    assert_eq!(t.path, "/");
    assert_eq!(t.status_code, 0);
    assert_eq!(t.request_status, RequestStatus::Success);
    let id = t.trace_id;
    t.complete(12, 404, Some(9));
    assert_eq!(t.duration_ms, 12);
    assert_eq!(t.status_code, 404);
    assert_eq!(t.user_id, Some(9));
    assert_eq!(t.trace_id, id);
    assert_eq!(t.query.as_deref(), Some("a=1"));
}

#[test]
fn uuid_parse_and_text() {
    let v = parse_uuid("67E55044-10B1-426F-9247-BB680E5FE0C8").unwrap();
    assert_eq!(v, 0x67e5504410b1426f9247bb680e5fe0c8);
    assert_eq!(uuid_text(v), "67e55044-10b1-426f-9247-bb680e5fe0c8");
    assert_eq!(uuid_text(0), "00000000-0000-0000-0000-000000000000");
    let e = uuid::Uuid::parse_str("not a uuid").unwrap_err();
    assert_eq!(parse_uuid("not a uuid"), Err((format!("{:?}", e), e.to_string())));
}
