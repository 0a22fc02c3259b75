use gh_env_sync::client::{
    GithubEnvClient, get_environment_variable_response, list_environments_response,
    operation_response, repository_lookup_response,
};
use gh_env_sync::err::SyncError;
use gh_env_sync::http::HttpResponse;

fn resp(status: u16, body: &str) -> HttpResponse {
    HttpResponse { status, body: body.to_string() }
}

#[test]
fn lookup_response_decodes_identity() {
    let body = "{\"id\":724712,\"name\":\"rust\",\"owner\":{\"login\":\"rust-lang\"}}";
    let id = repository_lookup_response(&resp(200, body)).unwrap();
    assert_eq!(id.id, 724712);
    assert_eq!(id.name, "rust");
    assert_eq!(id.owner, "rust-lang");
}

#[test]
fn lookup_response_failure_is_fatal() {
    match repository_lookup_response(&resp(404, "missing")) {
        Err(SyncError::RepositoryLookup { status, body }) => {
            assert_eq!(status, 404);
            assert_eq!(body, "missing");
        },
        _ => panic!("expected a repository-lookup error"),
    }
}

#[test]
fn lookup_response_bad_body_is_error() {
    match repository_lookup_response(&resp(200, "{\"id\":\"not a number\"}")) {
        Err(SyncError::MalformedResponse { body }) => {
            assert_eq!(body, "{\"id\":\"not a number\"}");
        },
        _ => panic!("expected a malformed-response error"),
    }
}

#[test]
fn init_builds_client_from_lookup() {
    let body = "{\"id\":7,\"name\":\"rust\",\"owner\":{\"login\":\"rust-lang\"}}";
    let c = GithubEnvClient::init(
        "octo".to_string(),
        "SECRET-REDACTED".to_string(),
        &resp(201, body),
    )
    .unwrap();
    assert_eq!(c.username, "octo");
    assert_eq!(c.repository.id, 7);
    assert_eq!(c.repository.owner, "rust-lang");
    assert_eq!(c.repository.name, "rust");
}

#[test]
fn get_variable_found() {
    let r = get_environment_variable_response(&resp(200, "{\"name\":\"A\",\"value\":\"1\"}"));
    assert_eq!(r.unwrap(), Some("1".to_string()));
}

#[test]
fn get_variable_404_is_absent_not_error() {
    let r = get_environment_variable_response(&resp(404, "{\"message\":\"Not Found\"}"));
    assert_eq!(r.unwrap(), None);
}

#[test]
fn get_variable_500_is_error() {
    match get_environment_variable_response(&resp(500, "boom")) {
        Err(SyncError::Operation { status, body }) => {
            assert_eq!(status, 500);
            assert_eq!(body, "boom");
        },
        _ => panic!("expected an operation error"),
    }
}

#[test]
fn get_variable_401_is_error() {
    assert!(matches!(
        get_environment_variable_response(&resp(401, "no")),
        Err(SyncError::Operation { status: 401, .. })
    ));
}

#[test]
fn operation_response_2xx_ok() {
    assert!(operation_response(&resp(204, "")).is_ok());
    assert!(operation_response(&resp(200, "{}")).is_ok());
}

#[test]
fn operation_response_422_is_error() {
    match operation_response(&resp(422, "invalid")) {
        Err(SyncError::Operation { status, body }) => {
            assert_eq!(status, 422);
            assert_eq!(body, "invalid");
        },
        _ => panic!("expected an operation error"),
    }
}

#[test]
fn list_environments_decodes_names_in_order() {
    let body = "{\"total_count\":2,\"environments\":[{\"name\":\"prod\"},{\"name\":\"staging\"}]}";
    let names = list_environments_response(&resp(200, body)).unwrap();
    assert_eq!(names, vec!["prod".to_string(), "staging".to_string()]);
}

#[test]
fn list_environments_failure_is_error() {
    assert!(matches!(
        list_environments_response(&resp(500, "boom")),
        Err(SyncError::Operation { status: 500, .. })
    ));
}
