use windmill_oss::aws_sm::{
    aws_client_plan, aws_sm_marker, connection_test_result, delete_secret_result,
    get_secret_result, is_external_marker, migration_report, set_secret_after_create,
    set_secret_after_put, AwsSecretsManagerBackend, AwsSecretsManagerSettings, CreateSecretReply,
    DeleteSecretReply, GetSecretReply, MigrationOutcome, SetSecretStep,
};
use windmill_oss::error::ServiceError;

fn settings(prefix: Option<&str>) -> AwsSecretsManagerSettings {
    AwsSecretsManagerSettings {
        region: "eu-west-1".to_string(),
        access_key_id: Some("AKIA".to_string()),
        secret_access_key: Some("SECRET-REDACTED".to_string()),
        endpoint_url: Some(String::new()),
        prefix: prefix.map(|p| p.to_string()),
    }
}

fn client() -> aws_sdk_secretsmanager::Client {
    let conf = aws_sdk_secretsmanager::Config::builder()
        .behavior_version(aws_sdk_secretsmanager::config::BehaviorVersion::latest())
        .region(aws_sdk_secretsmanager::config::Region::new("eu-west-1"))
        .build();
    aws_sdk_secretsmanager::Client::from_conf(conf)
}

#[test]
fn client_plan() {
    let p = aws_client_plan(&settings(None));
    assert_eq!(p.region, "eu-west-1");
    assert_eq!(p.credentials, Some(("AKIA".to_string(), "SECRET-REDACTED".to_string())));
    assert!(p.endpoint_url.is_none());
    let mut s = settings(None);
    s.secret_access_key = Some(String::new());
    s.endpoint_url = Some("http://localhost:4566".to_string());
    let p = aws_client_plan(&s);
    assert!(p.credentials.is_none());
    assert_eq!(p.endpoint_url.as_deref(), Some("http://localhost:4566"));
}

#[test]
fn secret_names() {
    let b = AwsSecretsManagerBackend::with_client(client(), settings(Some("windmill/")));
    assert_eq!(b.secret_name("ws1", "u/admin/db"), "windmill/ws1/u/admin/db");
    assert_eq!(b.backend_name(), "aws_secrets_manager");
    let b = AwsSecretsManagerBackend::with_client(client(), settings(None));
    assert_eq!(b.secret_name("ws1", "p"), "ws1/p");
}

#[test]
fn read_replies() {
    assert_eq!(get_secret_result("n", GetSecretReply::Found(Some("v".to_string()))).ok(), Some("v".to_string()));
    assert!(matches!(get_secret_result("n", GetSecretReply::Found(None)),
        Err(ServiceError::InternalErr(m)) if m == "AWS secret n has no string value"));
    assert!(matches!(get_secret_result("n", GetSecretReply::NotFound),
        Err(ServiceError::NotFound(m)) if m == "secret n not found"));
    assert!(matches!(get_secret_result("n", GetSecretReply::Failed("denied".to_string())),
        Err(ServiceError::InternalErr(m)) if m == "AWS Secrets Manager get failed for n: denied"));
}

#[test]
fn write_replies() {
    assert!(matches!(set_secret_after_create("n", CreateSecretReply::Created), SetSecretStep::Done(Ok(()))));
    assert!(matches!(set_secret_after_create("n", CreateSecretReply::AlreadyExists), SetSecretStep::PutValue));
    assert!(matches!(set_secret_after_create("n", CreateSecretReply::Failed("e".to_string())),
        SetSecretStep::Done(Err(ServiceError::InternalErr(m))) if m == "AWS Secrets Manager create failed for n: e"));
    assert!(set_secret_after_put("n", Ok(())).is_ok());
    assert!(matches!(set_secret_after_put("n", Err("e".to_string())),
        Err(ServiceError::InternalErr(m)) if m == "AWS Secrets Manager update failed for n: e"));
}

#[test]
fn delete_replies() {
    assert!(delete_secret_result("n", DeleteSecretReply::Deleted).is_ok());
    assert!(delete_secret_result("n", DeleteSecretReply::NotFound).is_ok());
    assert!(matches!(delete_secret_result("n", DeleteSecretReply::Failed("e".to_string())),
        Err(ServiceError::InternalErr(m)) if m == "AWS Secrets Manager delete failed for n: e"));
    assert!(connection_test_result(Ok(())).is_ok());
    assert!(matches!(connection_test_result(Err("timeout".to_string())),
        Err(ServiceError::InternalErr(m)) if m == "AWS Secrets Manager connection test failed: timeout"));
}

#[test]
fn external_markers() {
    assert!(is_external_marker("$vault:x"));
    assert!(is_external_marker("$azure_kv:"));
    assert!(is_external_marker("$aws_sm:f/secret"));
    assert!(!is_external_marker("encrypted-blob"));
    assert!(!is_external_marker("$aws_s"));
    assert!(!is_external_marker(""));
    let m = aws_sm_marker("f/secret");
    assert_eq!(m, "$aws_sm:f/secret");
    assert!(is_external_marker(&m));
}

#[test]
fn migration_counts() {
    let rows = vec![
        ("w1".to_string(), "a".to_string()),
        ("w1".to_string(), "b".to_string()),
        ("w2".to_string(), "c".to_string()),
        ("w2".to_string(), "d".to_string()),
    ];
    let outcomes = vec![
        MigrationOutcome::Migrated,
        MigrationOutcome::Skipped,
        MigrationOutcome::Failed("boom".to_string()),
        MigrationOutcome::Migrated,
    ];
    let r = migration_report(&rows, &outcomes);
    assert_eq!(r.total_secrets, 4);
    assert_eq!(r.migrated_count, 2);
    assert_eq!(r.failed_count, 1);
    assert_eq!(r.failures.len(), 1);
    assert_eq!(r.failures[0].workspace_id, "w2");
    assert_eq!(r.failures[0].path, "c");
    assert_eq!(r.failures[0].error, "boom");
    let empty = migration_report(&vec![], &vec![]);
    assert_eq!(empty.total_secrets, 0);
    assert!(empty.failures.is_empty());
}
