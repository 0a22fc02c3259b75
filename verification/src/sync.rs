//! The reconciler: a session state machine that turns a document and a
//! selector into the exact sequence of API requests, one exchange at a
//! time.
//!
//! The driver loop is: ask `next_request`, perform the exchange, hand the
//! response to `apply_response`, and stop on the first error. The
//! contracts pin, for every state and response, both the request sent and
//! the successor state, so the whole call sequence of a run is determined
//! here: environments in selection order, each environment's existence
//! ensured first, then every variable probed and written exactly once,
//! fail-fast on the first non-success answer.

use vstd::prelude::*;

use crate::client::{
    GithubEnvClient, create_variable_body_of, environment_url_of, get_environment_variable_response,
    operation_response, update_variable_body_of, variable_url_of, variables_url_of,
};
use crate::config::{ConfigDocument, Selector, VarEntry, selected_environments, selector_name};
use crate::err::SyncError;
use crate::http::{HttpRequest, HttpResponse, Method, is_success};
use crate::json::variable_value_of_body;

verus! {

/// Which write a variable upsert has decided on.
#[derive(Clone, Copy, Debug, PartialEq, Eq, Structural)]
pub enum WriteKind {
    Create,
    Update,
}

/// Where the session stands: about to ensure the current environment
/// exists, to probe the current variable, to write it, or finished.
#[derive(Clone, Copy, Debug, PartialEq, Eq, Structural)]
pub enum Phase {
    EnvUpsert,
    VarProbe,
    VarWrite(WriteKind),
    Done,
}

/// One sync run: the client, the read-only document, the selected entry
/// indices, and the cursor (entry, variable, phase).
pub struct SyncSession {
    pub client: GithubEnvClient,
    pub doc: ConfigDocument,
    pub selected: Vec<usize>,
    pub pos: usize,
    pub var_pos: usize,
    pub phase: Phase,
}

impl SyncSession {
    /// The document entry the cursor stands on.
    pub open spec fn cur_env(self) -> crate::config::EnvEntry {
        self.doc.environments@[self.selected@[self.pos as int] as int]
    }

    /// The name of the current environment.
    pub open spec fn cur_env_name(self) -> Seq<char> {
        self.cur_env().name@
    }

    /// The variables of the current environment.
    pub open spec fn cur_vars(self) -> Seq<VarEntry> {
        self.cur_env().vars@
    }

    /// The key of the current variable.
    pub open spec fn cur_key(self) -> Seq<char> {
        self.cur_vars()[self.var_pos as int].key@
    }

    /// The value of the current variable.
    pub open spec fn cur_value(self) -> Seq<char> {
        self.cur_vars()[self.var_pos as int].value@
    }

    /// The session's invariant: the cursor stays inside the selection,
    /// every selected index names a document entry, and the phase agrees
    /// with the cursor.
    pub open spec fn wf(self) -> bool {
        &&& (forall|i: int|
            0 <= i < self.selected@.len() ==> (self.selected@[i] as int)
                < self.doc.environments@.len())
        &&& self.pos <= self.selected@.len()
        &&& (self.phase is Done <==> self.pos == self.selected@.len())
        &&& (self.phase is EnvUpsert ==> self.var_pos == 0)
        &&& ((self.phase is VarProbe || self.phase is VarWrite) ==> (self.var_pos as int)
            < self.cur_vars().len())
    }

    /// The state after the current environment's upsert succeeded: on to
    /// its first variable, or past it when it has none.
    pub open spec fn after_env_upsert(self) -> SyncSession {
        if self.cur_vars().len() > 0 {
            SyncSession { phase: Phase::VarProbe, ..self }
        } else {
            self.advanced_env()
        }
    }

    /// The state after a probe answered: the decided write.
    pub open spec fn after_probe(self, present: bool) -> SyncSession {
        SyncSession {
            phase: Phase::VarWrite(if present {
                WriteKind::Update
            } else {
                WriteKind::Create
            }),
            ..self
        }
    }

    /// The state after the current variable's write succeeded: the next
    /// variable, or the next environment.
    pub open spec fn after_var_write(self) -> SyncSession {
        if self.var_pos + 1 < self.cur_vars().len() {
            SyncSession { var_pos: (self.var_pos + 1) as usize, phase: Phase::VarProbe, ..self }
        } else {
            self.advanced_env()
        }
    }

    /// The cursor moved one environment onward.
    pub open spec fn advanced_env(self) -> SyncSession {
        SyncSession {
            pos: (self.pos + 1) as usize,
            var_pos: 0,
            phase: if self.pos + 1 == self.selected@.len() {
                Phase::Done
            } else {
                Phase::EnvUpsert
            },
            ..self
        }
    }

    /// The terminal state a failure leaves behind: nothing further is
    /// requested.
    pub open spec fn failed(self) -> SyncSession {
        SyncSession {
            pos: self.selected@.len() as usize,
            var_pos: 0,
            phase: Phase::Done,
            ..self
        }
    }

    /// Opens a session. A `One` selector naming no document entry is the
    /// configuration error, found here, before any request exists.
    pub fn new(client: GithubEnvClient, doc: ConfigDocument, sel: &Selector) -> (r: Result<
        SyncSession,
        SyncError,
    >)
        ensures
            sel is All ==> r is Ok,
            (sel is One && doc.contains_env(selector_name(*sel).unwrap())) ==> r is Ok,
            (sel is One && !doc.contains_env(selector_name(*sel).unwrap())) ==> (r matches Err(
                SyncError::EnvironmentNotInConfig { name },
            ) && name@ == selector_name(*sel).unwrap()),
            r matches Ok(s) ==> s.wf() && s.client == client && s.doc == doc && s.pos == 0
                && s.var_pos == 0 && (s.phase is EnvUpsert || s.phase is Done) && (sel is All
                ==> s.selected@.len()
                == doc.environments@.len() && (forall|i: int|
                0 <= i < s.selected@.len() ==> s.selected@[i] == i)) && (sel is One
                ==> s.selected@.len() == 1 && doc.environments@[s.selected@[0] as int].name@
                == selector_name(*sel).unwrap()),
    {
        let selected = match selected_environments(&doc, sel) {
            Ok(v) => v,
            Err(e) => {
                return Err(e);
            },
        };
        let phase = if selected.len() == 0 {
            Phase::Done
        } else {
            Phase::EnvUpsert
        };
        Ok(SyncSession { client, doc, selected, pos: 0, var_pos: 0, phase })
    }

    /// The request the session is waiting to have performed, or nothing
    /// once it is done. The request is exactly the one the current phase
    /// calls for; in particular a decided upsert write is a single create
    /// for an absent variable and a single update for a present one.
    pub fn next_request(&self) -> (r: Option<HttpRequest>)
        requires
            self.wf(),
        ensures
            (r is None) <==> self.phase is Done,
            self.phase is EnvUpsert ==> (r matches Some(req) && req@.method == Method::Put
                && req@.url == environment_url_of(
                self.client.owner(),
                self.client.repo_name(),
                self.cur_env_name(),
            ) && req@.body is None),
            self.phase is VarProbe ==> (r matches Some(req) && req@.method == Method::Get
                && req@.url == variable_url_of(
                self.client.repo_id(),
                self.cur_env_name(),
                self.cur_key(),
            ) && req@.body is None),
            self.phase == Phase::VarWrite(WriteKind::Create) ==> (r matches Some(req)
                && req@.method == Method::Post && req@.url == variables_url_of(
                self.client.repo_id(),
                self.cur_env_name(),
            ) && req@.body == Some(create_variable_body_of(self.cur_key(), self.cur_value()))),
            self.phase == Phase::VarWrite(WriteKind::Update) ==> (r matches Some(req)
                && req@.method == Method::Patch && req@.url == variable_url_of(
                self.client.repo_id(),
                self.cur_env_name(),
                self.cur_key(),
            ) && req@.body == Some(update_variable_body_of(self.cur_value()))),
    {
        match self.phase {
            Phase::Done => None,
            Phase::EnvUpsert => {
                let env = &self.doc.environments[self.selected[self.pos]];
                Some(self.client.upsert_environment_request(env.name.as_str()))
            },
            Phase::VarProbe => {
                let env = &self.doc.environments[self.selected[self.pos]];
                let var = &env.vars[self.var_pos];
                Some(
                    self.client.get_environment_variable_request(
                        env.name.as_str(),
                        var.key.as_str(),
                    ),
                )
            },
            Phase::VarWrite(WriteKind::Create) => {
                let env = &self.doc.environments[self.selected[self.pos]];
                let var = &env.vars[self.var_pos];
                Some(
                    self.client.create_environment_variable_request(
                        env.name.as_str(),
                        var.key.as_str(),
                        var.value.as_str(),
                    ),
                )
            },
            Phase::VarWrite(WriteKind::Update) => {
                let env = &self.doc.environments[self.selected[self.pos]];
                let var = &env.vars[self.var_pos];
                Some(
                    self.client.update_environment_variable_request(
                        env.name.as_str(),
                        var.key.as_str(),
                        var.value.as_str(),
                    ),
                )
            },
        }
    }

    /// Feeds back the answer to the request `next_request` gave. The
    /// contract determines the successor state and the verdict for every
    /// phase and status: a 404 on a probe decides a create, a success
    /// decides an update, and any failing answer ends the session at once
    /// with the error — no later variable or environment is attempted.
    pub fn apply_response(&mut self, resp: &HttpResponse) -> (r: Result<(), SyncError>)
        requires
            old(self).wf(),
            !(old(self).phase is Done),
        ensures
            final(self).wf(),
            final(self).client == old(self).client,
            final(self).doc == old(self).doc,
            final(self).selected == old(self).selected,
            r is Err ==> final(self).phase is Done && *final(self) == old(self).failed(),
            (old(self).phase is EnvUpsert && is_success(resp.status)) ==> (r is Ok && *final(self)
                == old(self).after_env_upsert()),
            (old(self).phase is EnvUpsert && !is_success(resp.status)) ==> (r matches Err(
                SyncError::Operation { status, body },
            ) && status == resp.status && body@ == resp.body@),
            (old(self).phase is VarProbe && is_success(resp.status) && variable_value_of_body(
                resp.body@,
            ) is Some) ==> (r is Ok && *final(self) == old(self).after_probe(true)),
            (old(self).phase is VarProbe && resp.status == 404) ==> (r is Ok && *final(self) == old(
                self,
            ).after_probe(false)),
            (old(self).phase is VarProbe && is_success(resp.status) && variable_value_of_body(
                resp.body@,
            ) is None) ==> (r matches Err(SyncError::MalformedResponse { body }) && body@
                == resp.body@),
            (old(self).phase is VarProbe && !is_success(resp.status) && resp.status != 404) ==> (
            r matches Err(SyncError::Operation { status, body }) && status == resp.status && body@
                == resp.body@),
            (old(self).phase is VarWrite && is_success(resp.status)) ==> (r is Ok && *final(self)
                == old(self).after_var_write()),
            (old(self).phase is VarWrite && !is_success(resp.status)) ==> (r matches Err(
                SyncError::Operation { status, body },
            ) && status == resp.status && body@ == resp.body@),
    {
        match self.phase {
            Phase::Done => {
                // Unreachable: the precondition excludes a finished session.
                proof {
                    assert(false);
                }
                Err(SyncError::MalformedResponse { body: String::new() })
            },
            Phase::EnvUpsert => {
                match operation_response(resp) {
                    Ok(_) => {
                        let vars_len =
                            self.doc.environments[self.selected[self.pos]].vars.len();
                        if vars_len > 0 {
                            self.phase = Phase::VarProbe;
                        } else {
                            self.advance_env();
                        }
                        Ok(())
                    },
                    Err(e) => {
                        self.fail();
                        Err(e)
                    },
                }
            },
            Phase::VarProbe => {
                match get_environment_variable_response(resp) {
                    Ok(current) => {
                        match current {
                            Some(_) => {
                                self.phase = Phase::VarWrite(WriteKind::Update);
                            },
                            None => {
                                self.phase = Phase::VarWrite(WriteKind::Create);
                            },
                        }
                        Ok(())
                    },
                    Err(e) => {
                        self.fail();
                        Err(e)
                    },
                }
            },
            Phase::VarWrite(_) => {
                match operation_response(resp) {
                    Ok(_) => {
                        let vars_len =
                            self.doc.environments[self.selected[self.pos]].vars.len();
                        self.var_pos = self.var_pos + 1;
                        if self.var_pos < vars_len {
                            self.phase = Phase::VarProbe;
                        } else {
                            self.var_pos = 0;
                            self.advance_env();
                        }
                        Ok(())
                    },
                    Err(e) => {
                        self.fail();
                        Err(e)
                    },
                }
            },
        }
    }

    /// Moves the cursor past the current environment.
    fn advance_env(&mut self)
        requires
            old(self).pos < old(self).selected@.len(),
            old(self).var_pos == 0,
        ensures
            *final(self) == old(self).advanced_env(),
            final(self).pos == old(self).pos + 1,
    {
        let n = self.selected.len();
        self.pos = self.pos + 1;
        if self.pos == n {
            self.phase = Phase::Done;
        } else {
            self.phase = Phase::EnvUpsert;
        }
    }

    /// Ends the session on a failure.
    fn fail(&mut self)
        ensures
            *final(self) == old(self).failed(),
            final(self).pos == old(self).selected@.len(),
    {
        self.pos = self.selected.len();
        self.var_pos = 0;
        self.phase = Phase::Done;
    }
}

} // verus!
