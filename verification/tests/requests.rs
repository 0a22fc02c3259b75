use gh_env_sync::cli::split_repository;
use gh_env_sync::client::{GithubEnvClient, RepositoryIdentity, repository_lookup_request};
use gh_env_sync::err::SyncError;
use gh_env_sync::http::Method;

fn client() -> GithubEnvClient {
    GithubEnvClient {
        username: "octo".to_string(),
        token: "SECRET-REDACTED".to_string(),
        repository: RepositoryIdentity {
            owner: "rust-lang".to_string(),
            name: "rust".to_string(),
            id: 724712,
        },
    }
}

#[test]
fn lookup_request_url() {
    let r = repository_lookup_request("rust-lang", "rust");
    assert_eq!(r.method, Method::Get);
    assert_eq!(r.url, "https://api.github.com/repos/rust-lang/rust");
    assert!(r.body.is_none());
}

#[test]
fn list_environments_request_url() {
    let r = client().list_environments_request();
    assert_eq!(r.method, Method::Get);
    assert_eq!(r.url, "https://api.github.com/repos/rust-lang/rust/environments");
    assert!(r.body.is_none());
}

#[test]
fn upsert_environment_request_is_put() {
    let r = client().upsert_environment_request("prod");
    assert_eq!(r.method, Method::Put);
    assert_eq!(r.url, "https://api.github.com/repos/rust-lang/rust/environments/prod");
    assert!(r.body.is_none());
}

#[test]
fn upsert_environment_request_twice_same() {
    let a = client().upsert_environment_request("prod");
    let b = client().upsert_environment_request("prod");
    assert_eq!(a.method, b.method);
    assert_eq!(a.url, b.url);
    assert_eq!(a.body, b.body);
}

#[test]
fn delete_environment_request_is_delete() {
    let r = client().delete_environment_request("prod");
    assert_eq!(r.method, Method::Delete);
    assert_eq!(r.url, "https://api.github.com/repos/rust-lang/rust/environments/prod");
}

#[test]
fn create_variable_request_addresses_by_id() {
    let r = client().create_environment_variable_request("prod", "A", "1");
    assert_eq!(r.method, Method::Post);
    assert_eq!(r.url, "https://api.github.com/repositories/724712/environments/prod/variables");
    assert_eq!(r.body.as_deref(), Some("{\"name\":\"A\",\"value\":\"1\"}"));
}

#[test]
fn create_variable_request_escapes_value() {
    let r = client().create_environment_variable_request("prod", "A", "say \"hi\"");
    assert_eq!(r.body.as_deref(), Some("{\"name\":\"A\",\"value\":\"say \\\"hi\\\"\"}"));
}

#[test]
fn get_variable_request_url() {
    let r = client().get_environment_variable_request("prod", "A");
    assert_eq!(r.method, Method::Get);
    assert_eq!(r.url, "https://api.github.com/repositories/724712/environments/prod/variables/A");
    assert!(r.body.is_none());
}

#[test]
fn update_variable_request_body_has_no_name() {
    let r = client().update_environment_variable_request("prod", "A", "2");
    assert_eq!(r.method, Method::Patch);
    assert_eq!(r.url, "https://api.github.com/repositories/724712/environments/prod/variables/A");
    assert_eq!(r.body.as_deref(), Some("{\"value\":\"2\"}"));
}

#[test]
fn delete_variable_request_url() {
    let r = client().delete_environment_variable_request("prod", "A");
    assert_eq!(r.method, Method::Delete);
    assert_eq!(r.url, "https://api.github.com/repositories/724712/environments/prod/variables/A");
}

#[test]
fn upsert_variable_request_absent_creates() {
    let r = client().upsert_environment_variable_request("prod", "A", "1", &None);
    assert_eq!(r.method, Method::Post);
    assert_eq!(r.url, "https://api.github.com/repositories/724712/environments/prod/variables");
    assert_eq!(r.body.as_deref(), Some("{\"name\":\"A\",\"value\":\"1\"}"));
}

#[test]
fn upsert_variable_request_present_updates() {
    let r = client().upsert_environment_variable_request(
        "prod",
        "A",
        "1",
        &Some("old".to_string()),
    );
    assert_eq!(r.method, Method::Patch);
    assert_eq!(r.url, "https://api.github.com/repositories/724712/environments/prod/variables/A");
    assert_eq!(r.body.as_deref(), Some("{\"value\":\"1\"}"));
}

#[test]
fn variable_url_renders_id_zero() {
    let mut c = client();
    c.repository.id = 0;
    let r = c.get_environment_variable_request("e", "K");
    assert_eq!(r.url, "https://api.github.com/repositories/0/environments/e/variables/K");
}

#[test]
fn variable_url_renders_largest_id() {
    let mut c = client();
    c.repository.id = u64::MAX;
    let r = c.get_environment_variable_request("e", "K");
    assert_eq!(
        r.url,
        "https://api.github.com/repositories/18446744073709551615/environments/e/variables/K"
    );
}

#[test]
fn effective_username_defaults_to_owner() {
    let owner = "rust-lang".to_string();
    assert_eq!(gh_env_sync::cli::effective_username(None, &owner), "rust-lang");
    assert_eq!(
        gh_env_sync::cli::effective_username(Some("me".to_string()), &owner),
        "me"
    );
}

#[test]
fn split_repository_accepts_one_slash() {
    let r = split_repository("rust-lang/rust").unwrap();
    assert_eq!(r.0, "rust-lang");
    assert_eq!(r.1, "rust");
}

#[test]
fn split_repository_rejects_no_slash() {
    match split_repository("rust") {
        Err(SyncError::MalformedRepository { input }) => assert_eq!(input, "rust"),
        _ => panic!("expected a malformed-repository error"),
    }
}

#[test]
fn split_repository_rejects_two_slashes() {
    match split_repository("a/b/c") {
        Err(SyncError::MalformedRepository { input }) => assert_eq!(input, "a/b/c"),
        _ => panic!("expected a malformed-repository error"),
    }
}
