use windmill_oss::error::ServiceError;
use windmill_oss::git_sync::{app_jwt_result, create_app_jwt, GithubAppConfig};

fn config(key: &str) -> GithubAppConfig {
    GithubAppConfig { app_id: "4242".to_string(), private_key: key.to_string(), base_url: None }
}

#[test]
fn app_jwt_with_bad_key() {
    assert!(matches!(create_app_jwt(&config("not a key"), 0), Err(ServiceError::Anyhow(_))));
    assert!(matches!(app_jwt_result(Err("e".to_string())), Err(ServiceError::Anyhow(m)) if m == "e"));
    assert_eq!(app_jwt_result(Ok("t".to_string())).ok(), Some("t".to_string()));
    assert_eq!(ServiceError::Anyhow("boom".to_string()).message(), "boom");
}
