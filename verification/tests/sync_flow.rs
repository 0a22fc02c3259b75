use std::collections::HashMap;

use gh_env_sync::client::{GithubEnvClient, RepositoryIdentity};
use gh_env_sync::config::{ConfigDocument, EnvEntry, Selector, VarEntry};
use gh_env_sync::err::SyncError;
use gh_env_sync::http::{HttpRequest, HttpResponse, Method};
use gh_env_sync::sync::SyncSession;

fn client() -> GithubEnvClient {
    GithubEnvClient {
        username: "octo".to_string(),
        token: "SECRET-REDACTED".to_string(),
        repository: RepositoryIdentity {
            owner: "octo".to_string(),
            name: "repo".to_string(),
            id: 42,
        },
    }
}

fn entry(name: &str, vars: &[(&str, &str)]) -> EnvEntry {
    EnvEntry {
        name: name.to_string(),
        vars: vars
            .iter()
            .map(|(k, v)| VarEntry { key: k.to_string(), value: v.to_string() })
            .collect(),
    }
}

fn doc() -> ConfigDocument {
    ConfigDocument {
        environments: vec![entry("prod", &[("A", "1")]), entry("staging", &[("B", "2")])],
    }
}

/// A remote that applies each request to an in-memory state, so a whole
/// run's effect can be observed.
struct FakeRemote {
    envs: HashMap<String, HashMap<String, String>>,
    log: Vec<String>,
    fail_writes: bool,
}

impl FakeRemote {
    fn new() -> FakeRemote {
        FakeRemote { envs: HashMap::new(), log: Vec::new(), fail_writes: false }
    }

    fn respond(&mut self, req: &HttpRequest) -> HttpResponse {
        self.log.push(format!("{:?} {}", req.method, req.url));
        let segs: Vec<&str> = req.url.split('/').collect();
        match req.method {
            Method::Put => {
                let env = segs[segs.len() - 1].to_string();
                self.envs.entry(env).or_insert_with(HashMap::new);
                HttpResponse { status: 200, body: "{}".to_string() }
            },
            Method::Get => {
                let key = segs[segs.len() - 1];
                let env = segs[segs.len() - 3];
                match self.envs.get(env).and_then(|m| m.get(key)) {
                    Some(v) => HttpResponse {
                        status: 200,
                        body: format!("{{\"name\":\"{}\",\"value\":\"{}\"}}", key, v),
                    },
                    None => HttpResponse { status: 404, body: "{}".to_string() },
                }
            },
            Method::Post => {
                if self.fail_writes {
                    return HttpResponse { status: 500, body: "boom".to_string() };
                }
                let env = segs[segs.len() - 2].to_string();
                let v: serde_json::Value =
                    serde_json::from_str(req.body.as_deref().unwrap()).unwrap();
                let key = v.get("name").unwrap().as_str().unwrap().to_string();
                let value = v.get("value").unwrap().as_str().unwrap().to_string();
                self.envs.entry(env).or_insert_with(HashMap::new).insert(key, value);
                HttpResponse { status: 201, body: "{}".to_string() }
            },
            Method::Patch => {
                if self.fail_writes {
                    return HttpResponse { status: 500, body: "boom".to_string() };
                }
                let key = segs[segs.len() - 1].to_string();
                let env = segs[segs.len() - 3].to_string();
                let v: serde_json::Value =
                    serde_json::from_str(req.body.as_deref().unwrap()).unwrap();
                let value = v.get("value").unwrap().as_str().unwrap().to_string();
                self.envs.entry(env).or_insert_with(HashMap::new).insert(key, value);
                HttpResponse { status: 204, body: String::new() }
            },
            Method::Delete => HttpResponse { status: 204, body: String::new() },
        }
    }
}

fn run(remote: &mut FakeRemote, sel: &Selector) -> Result<(), SyncError> {
    let mut session = SyncSession::new(client(), doc(), sel)?;
    while let Some(req) = session.next_request() {
        let resp = remote.respond(&req);
        session.apply_response(&resp)?;
    }
    Ok(())
}

#[test]
fn full_document_sync_touches_both_environments() {
    let mut remote = FakeRemote::new();
    run(&mut remote, &Selector::All).unwrap();
    let puts = remote.log.iter().filter(|l| l.starts_with("Put ")).count();
    let posts = remote.log.iter().filter(|l| l.starts_with("Post ")).count();
    assert_eq!(puts, 2);
    assert_eq!(posts, 2);
    assert_eq!(remote.envs["prod"]["A"], "1");
    assert_eq!(remote.envs["staging"]["B"], "2");
    assert_eq!(remote.envs.len(), 2);
}

#[test]
fn single_environment_sync_leaves_others_untouched() {
    let mut remote = FakeRemote::new();
    run(&mut remote, &Selector::One("staging".to_string())).unwrap();
    assert!(remote.log.iter().all(|l| !l.contains("prod")));
    assert!(!remote.envs.contains_key("prod"));
    assert_eq!(remote.envs["staging"]["B"], "2");
    assert_eq!(remote.envs.len(), 1);
}

#[test]
fn absent_selector_fails_before_any_request() {
    let mut remote = FakeRemote::new();
    match run(&mut remote, &Selector::One("absent".to_string())) {
        Err(SyncError::EnvironmentNotInConfig { name }) => assert_eq!(name, "absent"),
        _ => panic!("expected the selector configuration error"),
    }
    assert!(remote.log.is_empty());
    assert!(remote.envs.is_empty());
}

#[test]
fn absent_variable_gets_one_create_and_no_update() {
    let mut remote = FakeRemote::new();
    run(&mut remote, &Selector::One("prod".to_string())).unwrap();
    let posts = remote.log.iter().filter(|l| l.starts_with("Post ")).count();
    let patches = remote.log.iter().filter(|l| l.starts_with("Patch ")).count();
    assert_eq!(posts, 1);
    assert_eq!(patches, 0);
}

#[test]
fn present_variable_gets_one_get_one_update_and_no_create() {
    let mut remote = FakeRemote::new();
    let mut prod = HashMap::new();
    prod.insert("A".to_string(), "old".to_string());
    remote.envs.insert("prod".to_string(), prod);
    run(&mut remote, &Selector::One("prod".to_string())).unwrap();
    let gets = remote.log.iter().filter(|l| l.starts_with("Get ")).count();
    let posts = remote.log.iter().filter(|l| l.starts_with("Post ")).count();
    let patches = remote.log.iter().filter(|l| l.starts_with("Patch ")).count();
    assert_eq!(gets, 1);
    assert_eq!(patches, 1);
    assert_eq!(posts, 0);
    assert_eq!(remote.envs["prod"]["A"], "1");
}

#[test]
fn repeated_sync_of_unchanged_document_is_a_no_op() {
    let mut remote = FakeRemote::new();
    run(&mut remote, &Selector::All).unwrap();
    let after_first = remote.envs.clone();
    run(&mut remote, &Selector::All).unwrap();
    assert_eq!(remote.envs, after_first);
}

#[test]
fn failed_write_stops_the_run_at_once() {
    let mut remote = FakeRemote::new();
    remote.fail_writes = true;
    let mut session = SyncSession::new(client(), doc(), &Selector::All).unwrap();
    let mut failed = None;
    while let Some(req) = session.next_request() {
        let resp = remote.respond(&req);
        if let Err(e) = session.apply_response(&resp) {
            failed = Some(e);
            break;
        }
    }
    match failed {
        Some(SyncError::Operation { status, body }) => {
            assert_eq!(status, 500);
            assert_eq!(body, "boom");
        },
        _ => panic!("expected the write failure to propagate"),
    }
    // The session is terminal: nothing further would be requested.
    assert!(session.next_request().is_none());
    // Only the first environment's upsert, probe and failing create ran.
    assert_eq!(remote.log.len(), 3);
    assert!(remote.log.iter().all(|l| !l.contains("staging")));
    assert!(!remote.envs.contains_key("staging"));
}

#[test]
fn environment_without_variables_is_still_upserted() {
    let mut remote = FakeRemote::new();
    let d = ConfigDocument { environments: vec![entry("empty", &[])] };
    let mut session = SyncSession::new(client(), d, &Selector::All).unwrap();
    while let Some(req) = session.next_request() {
        let resp = remote.respond(&req);
        session.apply_response(&resp).unwrap();
    }
    assert_eq!(remote.log.len(), 1);
    assert!(remote.envs.contains_key("empty"));
}
