//! The meaning of a run: what a session still has to do to the remote
//! state, and that every successful exchange does exactly its share of
//! it.
//!
//! `pending_effect` reads off a session the effect that completing it
//! would have on a remote state. The step laws say the pending effect of
//! a fresh session is the whole selection's sync effect, that a probe
//! changes nothing, and that each successful upsert or write moves its
//! own effect from pending to applied. Together with the transition
//! contracts of `apply_response` they say: a run that ends without error
//! has applied precisely `doc_sync_effect` of the selected entries, no
//! matter which probes answered present and which absent.

use vstd::prelude::*;

use crate::effect::{
    RemoteEnvs, doc_sync_effect, lemma_doc_sync_first, lemma_env_sync_split,
    lemma_vars_sync_first, set_variable_effect, upsert_environment_effect, vars_sync_effect,
};
use crate::sync::{Phase, SyncSession};
use vstd::std_specs::vec::{axiom_spec_len, spec_vec_len};

verus! {

impl SyncSession {
    /// The views of the selected entries from selection index `i` on.
    pub open spec fn entries_from(self, i: int) -> Seq<(Seq<char>, Seq<(Seq<char>, Seq<char>)>)> {
        Seq::new(
            (self.selected@.len() - i) as nat,
            |j: int| self.doc.environments@[self.selected@[i + j] as int].deep_view(),
        )
    }

    /// The key/value views of the current environment's variables.
    pub open spec fn var_views(self) -> Seq<(Seq<char>, Seq<char>)> {
        self.cur_env().deep_view().1
    }

    /// What completing the session from its current cursor does to the
    /// remote state `s`, when every remaining exchange succeeds.
    pub open spec fn pending_effect(self, s: RemoteEnvs) -> RemoteEnvs {
        match self.phase {
            Phase::Done => s,
            Phase::EnvUpsert => doc_sync_effect(s, self.entries_from(self.pos as int)),
            Phase::VarProbe => self.pending_mid_env(s),
            Phase::VarWrite(_) => self.pending_mid_env(s),
        }
    }

    /// The pending effect in the middle of an environment: the remaining
    /// variable writes, then the remaining environments.
    pub open spec fn pending_mid_env(self, s: RemoteEnvs) -> RemoteEnvs {
        doc_sync_effect(
            vars_sync_effect(
                s,
                self.cur_env_name(),
                self.var_views().skip(self.var_pos as int),
            ),
            self.entries_from(self.pos as int + 1),
        )
    }
}

/// At its start — the cursor on the first selected entry, or already done
/// when nothing was selected — a session's pending effect is the whole
/// selection's sync effect.
pub proof fn lemma_initial_pending(session: SyncSession, s: RemoteEnvs)
    requires
        session.wf(),
        session.pos == 0,
        session.phase is EnvUpsert || session.phase is Done,
    ensures
        session.pending_effect(s) == doc_sync_effect(s, session.entries_from(0)),
{
    if session.phase is Done {
        assert(session.entries_from(0).len() == 0);
        assert(doc_sync_effect(s, session.entries_from(0)) == s);
    }
}

/// A successful environment upsert applies `upsert_environment_effect`
/// and leaves the rest pending.
pub proof fn lemma_env_upsert_step(pre: SyncSession, s: RemoteEnvs)
    requires
        pre.wf(),
        pre.phase is EnvUpsert,
    ensures
        pre.after_env_upsert().pending_effect(
            upsert_environment_effect(s, pre.cur_env_name()),
        ) == pre.pending_effect(s),
{
    broadcast use axiom_spec_len;

    assert(spec_vec_len(&pre.selected) == pre.selected@.len());
    let i = pre.pos as int;
    let es = pre.entries_from(i);
    let cur = pre.cur_env().deep_view();
    assert(es.len() > 0);
    assert(es[0] == cur);
    assert(cur.0 == pre.cur_env_name());
    assert(cur.1 == pre.var_views());
    lemma_doc_sync_first(s, es);
    assert(es.skip(1) =~= pre.entries_from(i + 1));
    lemma_env_sync_split(s, cur.0, cur.1);
    let s1 = upsert_environment_effect(s, pre.cur_env_name());
    let post = pre.after_env_upsert();
    assert(post.selected == pre.selected && post.doc == pre.doc);
    // The pending effect before the exchange: the current environment's
    // sync, then the rest.
    assert(pre.pending_effect(s) == doc_sync_effect(
        vars_sync_effect(s1, cur.0, cur.1),
        pre.entries_from(i + 1),
    ));
    if pre.cur_vars().len() > 0 {
        assert(post.entries_from(i + 1) =~= pre.entries_from(i + 1));
        assert(post.var_views() == pre.var_views());
        assert(post.var_views().skip(0) =~= pre.var_views());
        assert(post.cur_env_name() == pre.cur_env_name());
        assert(post.pending_effect(s1) == doc_sync_effect(
            vars_sync_effect(s1, cur.0, cur.1),
            pre.entries_from(i + 1),
        ));
    } else {
        assert(cur.1.len() == 0);
        assert(vars_sync_effect(s1, cur.0, cur.1) == s1);
        assert(post.entries_from(i + 1) =~= pre.entries_from(i + 1));
        if post.phase is Done {
            assert(pre.entries_from(i + 1).len() == 0);
            assert(doc_sync_effect(s1, pre.entries_from(i + 1)) == s1);
            assert(post.pending_effect(s1) == s1);
        } else {
            assert(post.pos == pre.pos + 1);
            assert(post.entries_from(post.pos as int) =~= pre.entries_from(i + 1));
            assert(post.pending_effect(s1) == doc_sync_effect(s1, pre.entries_from(i + 1)));
        }
    }
}

/// A probe applies nothing: whatever it answered, the pending effect is
/// unchanged.
pub proof fn lemma_probe_step(pre: SyncSession, s: RemoteEnvs, present: bool)
    requires
        pre.wf(),
        pre.phase is VarProbe,
    ensures
        pre.after_probe(present).pending_effect(s) == pre.pending_effect(s),
{
    let post = pre.after_probe(present);
    assert(post.entries_from(pre.pos as int + 1) =~= pre.entries_from(pre.pos as int + 1));
    assert(post.var_views() == pre.var_views());
}

/// A successful variable write applies `set_variable_effect` for the
/// current key and value and leaves the rest pending.
pub proof fn lemma_var_write_step(pre: SyncSession, s: RemoteEnvs)
    requires
        pre.wf(),
        pre.phase is VarWrite,
    ensures
        pre.after_var_write().pending_effect(
            set_variable_effect(s, pre.cur_env_name(), pre.cur_key(), pre.cur_value()),
        ) == pre.pending_effect(s),
{
    broadcast use axiom_spec_len;

    assert(spec_vec_len(&pre.selected) == pre.selected@.len());
    assert(spec_vec_len(&pre.cur_env().vars) == pre.cur_vars().len());
    let i = pre.pos as int;
    let name = pre.cur_env_name();
    let vs = pre.var_views().skip(pre.var_pos as int);
    assert(pre.var_views().len() == pre.cur_vars().len());
    assert(vs.len() > 0);
    assert(vs[0] == (pre.cur_key(), pre.cur_value()));
    lemma_vars_sync_first(s, name, vs);
    let s1 = set_variable_effect(s, name, pre.cur_key(), pre.cur_value());
    let post = pre.after_var_write();
    assert(post.selected == pre.selected && post.doc == pre.doc);
    // The pending effect before the exchange: this write, the remaining
    // writes, then the rest.
    assert(pre.pending_effect(s) == doc_sync_effect(
        vars_sync_effect(s1, name, vs.skip(1)),
        pre.entries_from(i + 1),
    ));
    if pre.var_pos + 1 < pre.cur_vars().len() {
        assert(vs.skip(1) =~= pre.var_views().skip(pre.var_pos as int + 1));
        assert(post.var_views() == pre.var_views());
        assert(post.cur_env_name() == name);
        assert(post.entries_from(i + 1) =~= pre.entries_from(i + 1));
        assert(post.pending_effect(s1) == doc_sync_effect(
            vars_sync_effect(s1, name, pre.var_views().skip(pre.var_pos as int + 1)),
            pre.entries_from(i + 1),
        ));
    } else {
        assert(vs.skip(1).len() == 0);
        assert(vars_sync_effect(s1, name, vs.skip(1)) == s1);
        assert(post.entries_from(i + 1) =~= pre.entries_from(i + 1));
        if post.phase is Done {
            assert(pre.entries_from(i + 1).len() == 0);
            assert(doc_sync_effect(s1, pre.entries_from(i + 1)) == s1);
            assert(post.pending_effect(s1) == s1);
        } else {
            assert(post.pos == pre.pos + 1);
            assert(post.entries_from(post.pos as int) =~= pre.entries_from(i + 1));
            assert(post.pending_effect(s1) == doc_sync_effect(s1, pre.entries_from(i + 1)));
        }
    }
}

} // verus!
