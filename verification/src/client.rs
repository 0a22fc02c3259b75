//! The API client: request construction and response reading for every
//! GitHub endpoint the sync touches.
//!
//! Each operation is split into a `..._request` builder, whose contract
//! pins the method, URL and body exactly, and a `..._response` reader,
//! whose contract says for every status and body what comes back. The
//! driver sends the one and feeds the other.

use vstd::prelude::*;

use crate::err::SyncError;
use crate::http::{HttpRequest, HttpResponse, Method, is_success, status_is_success};
use crate::json::{
    environment_names_of_body, json_encode_string, json_string_of, parse_environments_body,
    parse_repository_body, parse_variable_body, repository_of_body, variable_value_of_body,
};
use crate::numeral::{dec_rep, u64_to_dec};

verus! {

/// The URL of the repository resource.
pub open spec fn repo_url_of(owner: Seq<char>, name: Seq<char>) -> Seq<char> {
    "https://api.github.com/repos/"@ + owner + "/"@ + name
}

/// The URL of the repository's environment collection.
pub open spec fn environments_url_of(owner: Seq<char>, name: Seq<char>) -> Seq<char> {
    repo_url_of(owner, name) + "/environments"@
}

/// The URL of one named environment.
pub open spec fn environment_url_of(owner: Seq<char>, name: Seq<char>, env: Seq<char>) -> Seq<
    char,
> {
    environments_url_of(owner, name) + "/"@ + env
}

/// The URL of an environment's variable collection, addressed by the
/// numeric repository id.
pub open spec fn variables_url_of(id: nat, env: Seq<char>) -> Seq<char> {
    "https://api.github.com/repositories/"@ + dec_rep(id) + "/environments/"@ + env
        + "/variables"@
}

/// The URL of one variable of an environment.
pub open spec fn variable_url_of(id: nat, env: Seq<char>, key: Seq<char>) -> Seq<char> {
    variables_url_of(id, env) + "/"@ + key
}

/// The JSON body of a variable creation: `{"name": key, "value": value}`.
pub open spec fn create_variable_body_of(key: Seq<char>, value: Seq<char>) -> Seq<char> {
    "{\"name\":"@ + json_string_of(key) + ",\"value\":"@ + json_string_of(value) + "}"@
}

/// The JSON body of a variable update: `{"value": value}`.
pub open spec fn update_variable_body_of(value: Seq<char>) -> Seq<char> {
    "{\"value\":"@ + json_string_of(value) + "}"@
}

/// The repository identity resolved once at construction: owner login,
/// name, and the numeric id that variable endpoints address by.
pub struct RepositoryIdentity {
    pub owner: String,
    pub name: String,
    pub id: u64,
}

/// Client over GitHub's environment and variable APIs. Holds the bearer
/// token, the `User-Agent` identity and the resolved repository identity;
/// immutable after construction.
pub struct GithubEnvClient {
    pub username: String,
    pub token: String,
    pub repository: RepositoryIdentity,
}

/// The repository lookup request that construction answers.
pub fn repository_lookup_request(owner: &str, name: &str) -> (r: HttpRequest)
    ensures
        r@.method == Method::Get,
        r@.url == repo_url_of(owner@, name@),
        r@.body is None,
{
    let mut url = String::from_str("https://api.github.com/repos/");
    url.append(owner);
    url.append("/");
    url.append(name);
    HttpRequest { method: Method::Get, url, body: None }
}

/// Reads the repository lookup answer: any non-success status is a
/// `RepositoryLookup` error carrying status and body; a success body
/// must decode to the repository fields.
pub fn repository_lookup_response(resp: &HttpResponse) -> (r: Result<
    RepositoryIdentity,
    SyncError,
>)
    ensures
        !is_success(resp.status) ==> (r matches Err(SyncError::RepositoryLookup {
            status,
            body,
        }) && status == resp.status && body@ == resp.body@),
        is_success(resp.status) && repository_of_body(resp.body@) is Some ==> (r matches Ok(id)
            && Some((id.id, id.name@, id.owner@)) == repository_of_body(resp.body@)),
        is_success(resp.status) && repository_of_body(resp.body@) is None ==> (r matches Err(
            SyncError::MalformedResponse { body },
        ) && body@ == resp.body@),
{
    if !status_is_success(resp.status) {
        return Err(
            SyncError::RepositoryLookup { status: resp.status, body: resp.body.clone() },
        );
    }
    match parse_repository_body(resp.body.as_str()) {
        Some(t) => Ok(RepositoryIdentity { id: t.0, name: t.1, owner: t.2 }),
        None => Err(SyncError::MalformedResponse { body: resp.body.clone() }),
    }
}

/// Reads the answer of a call that only reports success: 2xx is `Ok`,
/// anything else an `Operation` error with the status and body.
pub fn operation_response(resp: &HttpResponse) -> (r: Result<(), SyncError>)
    ensures
        is_success(resp.status) ==> r is Ok,
        !is_success(resp.status) ==> (r matches Err(SyncError::Operation { status, body })
            && status == resp.status && body@ == resp.body@),
{
    if status_is_success(resp.status) {
        Ok(())
    } else {
        Err(SyncError::Operation { status: resp.status, body: resp.body.clone() })
    }
}

/// Reads a get-variable answer. A 404 is not an error: it is the explicit
/// "absent" outcome that the upsert decision rests on. Every other
/// non-success status is an `Operation` error.
pub fn get_environment_variable_response(resp: &HttpResponse) -> (r: Result<
    Option<String>,
    SyncError,
>)
    ensures
        resp.status == 404 ==> (r matches Ok(v) && v is None),
        (is_success(resp.status) && variable_value_of_body(resp.body@) is Some) ==> (
        r matches Ok(Some(s)) && s@ == variable_value_of_body(resp.body@).unwrap()),
        is_success(resp.status) && variable_value_of_body(resp.body@) is None ==> (r matches Err(
            SyncError::MalformedResponse { body },
        ) && body@ == resp.body@),
        !is_success(resp.status) && resp.status != 404 ==> (r matches Err(SyncError::Operation {
            status,
            body,
        }) && status == resp.status && body@ == resp.body@),
{
    if status_is_success(resp.status) {
        match parse_variable_body(resp.body.as_str()) {
            Some(s) => Ok(Some(s)),
            None => Err(SyncError::MalformedResponse { body: resp.body.clone() }),
        }
    } else if resp.status == 404 {
        Ok(None)
    } else {
        Err(SyncError::Operation { status: resp.status, body: resp.body.clone() })
    }
}

/// Reads a list-environments answer into the ordered sequence of names.
pub fn list_environments_response(resp: &HttpResponse) -> (r: Result<Vec<String>, SyncError>)
    ensures
        (is_success(resp.status) && environment_names_of_body(resp.body@) is Some) ==> (
        r matches Ok(v) && v.deep_view() == environment_names_of_body(resp.body@).unwrap()),
        is_success(resp.status) && environment_names_of_body(resp.body@) is None ==> (
        r matches Err(SyncError::MalformedResponse { body }) && body@ == resp.body@),
        !is_success(resp.status) ==> (r matches Err(SyncError::Operation { status, body })
            && status == resp.status && body@ == resp.body@),
{
    if status_is_success(resp.status) {
        match parse_environments_body(resp.body.as_str()) {
            Some(v) => Ok(v),
            None => Err(SyncError::MalformedResponse { body: resp.body.clone() }),
        }
    } else {
        Err(SyncError::Operation { status: resp.status, body: resp.body.clone() })
    }
}

impl GithubEnvClient {
    /// The owner login of the resolved repository.
    pub open spec fn owner(self) -> Seq<char> {
        self.repository.owner@
    }

    /// The name of the resolved repository.
    pub open spec fn repo_name(self) -> Seq<char> {
        self.repository.name@
    }

    /// The numeric id of the resolved repository.
    pub open spec fn repo_id(self) -> nat {
        self.repository.id as nat
    }

    /// Builds a client from the answer to the repository lookup request.
    /// Construction is fail-fast: without a resolved identity no later
    /// call can be addressed.
    pub fn init(username: String, token: String, lookup: &HttpResponse) -> (r: Result<
        GithubEnvClient,
        SyncError,
    >)
        ensures
            !is_success(lookup.status) ==> (r matches Err(SyncError::RepositoryLookup {
                status,
                body,
            }) && status == lookup.status && body@ == lookup.body@),
            is_success(lookup.status) && repository_of_body(lookup.body@) is Some ==> (
            r matches Ok(c) && c.username@ == username@ && c.token@ == token@ && Some(
                (c.repository.id, c.repo_name(), c.owner()),
            ) == repository_of_body(lookup.body@)),
            is_success(lookup.status) && repository_of_body(lookup.body@) is None ==> (
            r matches Err(SyncError::MalformedResponse { body }) && body@ == lookup.body@),
    {
        match repository_lookup_response(lookup) {
            Ok(repository) => Ok(GithubEnvClient { username, token, repository }),
            Err(e) => Err(e),
        }
    }

    /// The request that lists the repository's environments.
    pub fn list_environments_request(&self) -> (r: HttpRequest)
        ensures
            r@.method == Method::Get,
            r@.url == environments_url_of(self.owner(), self.repo_name()),
            r@.body is None,
    {
        let url = self.environments_url();
        HttpRequest { method: Method::Get, url, body: None }
    }

    /// The idempotent PUT that creates an environment or leaves an
    /// existing one as it is.
    pub fn upsert_environment_request(&self, environment_name: &str) -> (r: HttpRequest)
        ensures
            r@.method == Method::Put,
            r@.url == environment_url_of(self.owner(), self.repo_name(), environment_name@),
            r@.body is None,
    {
        let mut url = self.environments_url();
        url.append("/");
        url.append(environment_name);
        HttpRequest { method: Method::Put, url, body: None }
    }

    /// The request that deletes an environment. Available, unused by the
    /// default sync flow.
    pub fn delete_environment_request(&self, environment_name: &str) -> (r: HttpRequest)
        ensures
            r@.method == Method::Delete,
            r@.url == environment_url_of(self.owner(), self.repo_name(), environment_name@),
            r@.body is None,
    {
        let mut url = self.environments_url();
        url.append("/");
        url.append(environment_name);
        HttpRequest { method: Method::Delete, url, body: None }
    }

    /// The POST that creates a variable, with body `{"name": key, "value": value}`.
    pub fn create_environment_variable_request(
        &self,
        environment_name: &str,
        key: &str,
        value: &str,
    ) -> (r: HttpRequest)
        ensures
            r@.method == Method::Post,
            r@.url == variables_url_of(self.repo_id(), environment_name@),
            r@.body == Some(create_variable_body_of(key@, value@)),
    {
        let url = self.variables_url(environment_name);
        let mut body = String::from_str("{\"name\":");
        let k = json_encode_string(key);
        body.append(k.as_str());
        body.append(",\"value\":");
        let v = json_encode_string(value);
        body.append(v.as_str());
        body.append("}");
        HttpRequest { method: Method::Post, url, body: Some(body) }
    }

    /// The GET that probes one variable.
    pub fn get_environment_variable_request(&self, environment_name: &str, key: &str) -> (r:
        HttpRequest)
        ensures
            r@.method == Method::Get,
            r@.url == variable_url_of(self.repo_id(), environment_name@, key@),
            r@.body is None,
    {
        let url = self.variable_url(environment_name, key);
        HttpRequest { method: Method::Get, url, body: None }
    }

    /// The PATCH that updates a variable, with body `{"value": value}`;
    /// the key is addressed in the URL path, not the body.
    pub fn update_environment_variable_request(
        &self,
        environment_name: &str,
        key: &str,
        value: &str,
    ) -> (r: HttpRequest)
        ensures
            r@.method == Method::Patch,
            r@.url == variable_url_of(self.repo_id(), environment_name@, key@),
            r@.body == Some(update_variable_body_of(value@)),
    {
        let url = self.variable_url(environment_name, key);
        let mut body = String::from_str("{\"value\":");
        let v = json_encode_string(value);
        body.append(v.as_str());
        body.append("}");
        HttpRequest { method: Method::Patch, url, body: Some(body) }
    }

    /// The request that deletes a variable. Available, unused by the
    /// default sync flow.
    pub fn delete_environment_variable_request(&self, environment_name: &str, key: &str) -> (r:
        HttpRequest)
        ensures
            r@.method == Method::Delete,
            r@.url == variable_url_of(self.repo_id(), environment_name@, key@),
            r@.body is None,
    {
        let url = self.variable_url(environment_name, key);
        HttpRequest { method: Method::Delete, url, body: None }
    }

    /// The write that an upsert issues once the probe's outcome is known:
    /// an update when the variable is present remotely, a create when it
    /// is absent. GitHub offers no native upsert; this decision together
    /// with the 404-as-absent probe takes its place.
    pub fn upsert_environment_variable_request(
        &self,
        environment_name: &str,
        key: &str,
        value: &str,
        current: &Option<String>,
    ) -> (r: HttpRequest)
        ensures
            current is Some ==> (r@.method == Method::Patch && r@.url == variable_url_of(
                self.repo_id(),
                environment_name@,
                key@,
            ) && r@.body == Some(update_variable_body_of(value@))),
            current is None ==> (r@.method == Method::Post && r@.url == variables_url_of(
                self.repo_id(),
                environment_name@,
            ) && r@.body == Some(create_variable_body_of(key@, value@))),
    {
        match current {
            Some(_) => self.update_environment_variable_request(environment_name, key, value),
            None => self.create_environment_variable_request(environment_name, key, value),
        }
    }

    /// The environment-collection URL of the resolved repository.
    fn environments_url(&self) -> (r: String)
        ensures
            r@ == environments_url_of(self.owner(), self.repo_name()),
    {
        let mut url = String::from_str("https://api.github.com/repos/");
        url.append(self.repository.owner.as_str());
        url.append("/");
        url.append(self.repository.name.as_str());
        url.append("/environments");
        url
    }

    /// The variable-collection URL of one environment.
    fn variables_url(&self, environment_name: &str) -> (r: String)
        ensures
            r@ == variables_url_of(self.repo_id(), environment_name@),
    {
        let mut url = String::from_str("https://api.github.com/repositories/");
        let id = u64_to_dec(self.repository.id);
        url.append(id.as_str());
        url.append("/environments/");
        url.append(environment_name);
        url.append("/variables");
        url
    }

    /// The URL of one variable of one environment.
    fn variable_url(&self, environment_name: &str, key: &str) -> (r: String)
        ensures
            r@ == variable_url_of(self.repo_id(), environment_name@, key@),
    {
        let mut url = self.variables_url(environment_name);
        url.append("/");
        url.append(key);
        url
    }
}

} // verus!
