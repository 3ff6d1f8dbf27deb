use windmill_oss::audit::{
    audit_or_not_found, audit_record, get_audit_sql, list_audit_sql, truncate, ActionKind,
    AuditAuthor, AuditAuthorable, DbWithOptAuthed, ListAuditLogQuery, AUDIT_COLS,
};
use windmill_oss::error::ServiceError;

fn empty_query() -> ListAuditLogQuery {
    ListAuditLogQuery {
        username: None,
        operation: None,
        operations: None,
        exclude_operations: None,
        resource: None,
        action_kind: None,
        before: None,
        after: None,
        all_workspaces: None,
    }
}

fn author(name: &str, over: Option<&str>) -> AuditAuthor {
    AuditAuthor {
        email: "ruben@windmill.dev".to_string(),
        username: name.to_string(),
        username_override: over.map(|s| s.to_string()),
        token_prefix: Some("abc".to_string()),
    }
}

const FROM: &str = "(SELECT workspace_id, id, timestamp, username, operation, action_kind, resource, parameters, span FROM audit UNION ALL SELECT workspace_id, id, timestamp, username, operation, action_kind, resource, parameters, span FROM audit_partitioned) AS t";

#[test]
fn truncate_keeps_short_text() {
    assert_eq!(truncate("hello", 10), "hello");
    assert_eq!(truncate("hello", 5), "hello");
    assert_eq!(truncate("", 0), "");
}

#[test]
fn truncate_cuts_by_characters() {
    assert_eq!(truncate("hello", 3), "hel");
    assert_eq!(truncate("héllo wörld", 7), "héllo w");
    assert_eq!(truncate("日本語テキスト", 2), "日本");
    assert_eq!(truncate("abc", 0), "");
}

#[test]
fn record_prefers_username_override() {
    let a = author("alice", Some("bob"));
    let r = audit_record(&a, "jobs.run", ActionKind::Execute, "ws1", Some("f/x"));
    assert_eq!(r.username, "bob");
    assert_eq!(r.workspace_id, "ws1");
    assert_eq!(r.operation, "jobs.run");
    assert_eq!(r.action_kind, ActionKind::Execute);
    assert_eq!(r.resource.as_deref(), Some("f/x"));
    assert_eq!(r.email, "ruben@windmill.dev");
}

#[test]
fn record_cuts_columns_to_their_limits() {
    let long_name = "n".repeat(300);
    let long_op = "o".repeat(60);
    let a = author(&long_name, None);
    let r = audit_record(&a, &long_op, ActionKind::Create, "ws", None);
    assert_eq!(r.username.chars().count(), 255);
    assert_eq!(r.operation.chars().count(), 50);
    assert!(r.resource.is_none());
}

#[test]
fn author_through_db_kinds() {
    let a = author("alice", Some("bob"));
    let as_user: DbWithOptAuthed<AuditAuthor> = DbWithOptAuthed::UserDB { authed: &a };
    assert_eq!(as_user.username(), "alice");
    assert_eq!(as_user.username_override(), Some("bob"));
    assert_eq!(as_user.email(), "ruben@windmill.dev");
    assert_eq!(as_user.token_prefix(), None);
    let as_service: DbWithOptAuthed<AuditAuthor> =
        DbWithOptAuthed::DB { audit_author: author("svc", Some("other")) };
    assert_eq!(as_service.username(), "svc");
    assert_eq!(as_service.username_override(), None);
    assert_eq!(a.token_prefix(), Some("abc"));
}

#[test]
fn listing_scoped_to_workspace() {
    let sql = list_audit_sql("ws1", &empty_query(), 100, 0).ok().unwrap();
    let expected = format!(
        "SELECT {AUDIT_COLS} FROM {FROM} WHERE workspace_id = 'ws1' ORDER BY timestamp DESC, id DESC LIMIT 100 OFFSET 0;"
    );
    assert_eq!(sql, expected);
}

#[test]
fn listing_all_workspaces_only_from_admins() {
    let mut q = empty_query();
    q.all_workspaces = Some(true);
    let sql = list_audit_sql("admins", &q, 10, 20).ok().unwrap();
    let expected = format!(
        "SELECT {AUDIT_COLS} FROM {FROM} ORDER BY timestamp DESC, id DESC LIMIT 10 OFFSET 20;"
    );
    assert_eq!(sql, expected);
    let sql = list_audit_sql("ws1", &q, 10, 20).ok().unwrap();
    assert!(sql.contains("WHERE workspace_id = 'ws1'"));
}

#[test]
fn listing_with_every_filter() {
    let q = ListAuditLogQuery {
        username: Some("o'brien".to_string()),
        operation: Some("jobs.run".to_string()),
        operations: Some(" a , ,b,".to_string()),
        exclude_operations: Some("c".to_string()),
        resource: Some("f/x".to_string()),
        action_kind: Some("execute".to_string()),
        before: Some("2024-01-02T00:00:00+00:00".to_string()),
        after: Some("2024-01-01T00:00:00+00:00".to_string()),
        all_workspaces: None,
    };
    let sql = list_audit_sql("ws", &q, 5, 0).ok().unwrap();
    let expected = format!(
        "SELECT {AUDIT_COLS} FROM {FROM} WHERE (workspace_id = 'ws') AND (username = 'o''brien') AND (operation = 'jobs.run') AND (operation IN ('a', 'b')) AND (operation NOT IN ('c')) AND (action_kind::text = 'execute') AND (resource = 'f/x') AND (timestamp <= '2024-01-02T00:00:00+00:00') AND (timestamp >= '2024-01-01T00:00:00+00:00') ORDER BY timestamp DESC, id DESC LIMIT 5 OFFSET 0;"
    );
    assert_eq!(sql, expected);
}

#[test]
fn listing_ignores_empty_operation_lists() {
    let mut q = empty_query();
    q.operations = Some(" , ".to_string());
    q.exclude_operations = Some(String::new());
    let sql = list_audit_sql("ws", &q, 1, 0).ok().unwrap();
    assert!(!sql.contains("operation IN"));
    assert!(!sql.contains("NOT IN"));
}

#[test]
fn get_audit_text() {
    let expected = format!(
        "SELECT {AUDIT_COLS} FROM (SELECT {AUDIT_COLS} FROM audit WHERE id = $1 AND workspace_id = $2 UNION ALL SELECT {AUDIT_COLS} FROM audit_partitioned WHERE id = $1 AND workspace_id = $2) AS t LIMIT 1"
    );
    assert_eq!(get_audit_sql(), expected);
}

#[test]
fn missing_audit_entry_is_not_found() {
    match audit_or_not_found::<u8>(None, -42, "ws1") {
        Err(ServiceError::NotFound(m)) => assert_eq!(m, "Audit log -42 not found in workspace ws1"),
        _ => panic!("expected NotFound"),
    }
    match audit_or_not_found::<u8>(None, 2147483647, "w") {
        Err(ServiceError::NotFound(m)) => assert_eq!(m, "Audit log 2147483647 not found in workspace w"),
        _ => panic!("expected NotFound"),
    }
    assert!(matches!(audit_or_not_found(Some(7u8), 1, "ws1"), Ok(7)));
}

#[test]
fn error_messages() {
    assert_eq!(ServiceError::NotFound("x".to_string()).message(), "Not found: x");
    assert_eq!(ServiceError::BadRequest("y".to_string()).message(), "Bad request: y");
    assert_eq!(ServiceError::InternalErr("z".to_string()).message(), "Internal: z");
}
