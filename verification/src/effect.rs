//! A mathematical model of the remote state and of what a sync run does
//! to it, with the idempotence laws of the design: environments and
//! variables are only created or overwritten, never removed, so re-running
//! an unchanged sync leaves the remote state where the first run put it.
//!
//! The element type of a selection here is exactly the view of a document
//! entry, so the laws speak of the same values the session iterates over.

use vstd::prelude::*;

verus! {

/// The remote state: environment name to its variable mapping.
pub type RemoteEnvs = Map<Seq<char>, Map<Seq<char>, Seq<char>>>;

/// The variables an environment holds; the empty mapping when the
/// environment is absent.
pub open spec fn vars_of(s: RemoteEnvs, env: Seq<char>) -> Map<Seq<char>, Seq<char>> {
    if s.dom().contains(env) {
        s[env]
    } else {
        Map::empty()
    }
}

/// What the environment PUT does: creates the environment empty, or
/// leaves an existing one exactly as it is.
pub open spec fn upsert_environment_effect(s: RemoteEnvs, env: Seq<char>) -> RemoteEnvs {
    if s.dom().contains(env) {
        s
    } else {
        s.insert(env, Map::empty())
    }
}

/// What a variable write does, whether it was the create or the update:
/// the key now maps to the value.
pub open spec fn set_variable_effect(
    s: RemoteEnvs,
    env: Seq<char>,
    key: Seq<char>,
    value: Seq<char>,
) -> RemoteEnvs {
    s.insert(env, vars_of(s, env).insert(key, value))
}

/// A variable mapping after the pairs of `vs` are written onto `m` in
/// order.
pub open spec fn vars_written(
    m: Map<Seq<char>, Seq<char>>,
    vs: Seq<(Seq<char>, Seq<char>)>,
) -> Map<Seq<char>, Seq<char>>
    decreases vs.len(),
{
    if vs.len() == 0 {
        m
    } else {
        vars_written(m, vs.drop_last()).insert(vs.last().0, vs.last().1)
    }
}

/// What syncing one environment does: the upsert PUT, then each pair
/// written in order.
pub open spec fn env_sync_effect(
    s: RemoteEnvs,
    env: Seq<char>,
    vs: Seq<(Seq<char>, Seq<char>)>,
) -> RemoteEnvs
    decreases vs.len(),
{
    if vs.len() == 0 {
        upsert_environment_effect(s, env)
    } else {
        set_variable_effect(
            env_sync_effect(s, env, vs.drop_last()),
            env,
            vs.last().0,
            vs.last().1,
        )
    }
}

/// What writing the pairs of `vs` in order does, for an environment
/// already ensured to exist.
pub open spec fn vars_sync_effect(
    s: RemoteEnvs,
    env: Seq<char>,
    vs: Seq<(Seq<char>, Seq<char>)>,
) -> RemoteEnvs
    decreases vs.len(),
{
    if vs.len() == 0 {
        s
    } else {
        set_variable_effect(
            vars_sync_effect(s, env, vs.drop_last()),
            env,
            vs.last().0,
            vs.last().1,
        )
    }
}

/// What syncing a selection does: each entry in order. An entry is the
/// view of one document entry.
pub open spec fn doc_sync_effect(
    s: RemoteEnvs,
    envs: Seq<(Seq<char>, Seq<(Seq<char>, Seq<char>)>)>,
) -> RemoteEnvs
    decreases envs.len(),
{
    if envs.len() == 0 {
        s
    } else {
        env_sync_effect(doc_sync_effect(s, envs.drop_last()), envs.last().0, envs.last().1)
    }
}

/// No two entries of the selection carry the same environment name, as
/// the keys of a mapping cannot.
pub open spec fn distinct_names(envs: Seq<(Seq<char>, Seq<(Seq<char>, Seq<char>)>)>) -> bool {
    forall|i: int, j: int| 0 <= i < j < envs.len() ==> envs[i].0 != envs[j].0
}

/// Unfolds one environment's sync into the upsert PUT followed by the
/// variable writes.
pub proof fn lemma_env_sync_split(s: RemoteEnvs, env: Seq<char>, vs: Seq<(Seq<char>, Seq<char>)>)
    ensures
        env_sync_effect(s, env, vs) == vars_sync_effect(
            upsert_environment_effect(s, env),
            env,
            vs,
        ),
    decreases vs.len(),
{
    if vs.len() > 0 {
        lemma_env_sync_split(s, env, vs.drop_last());
    }
}

/// Peels the first write off a sequence of variable writes.
pub proof fn lemma_vars_sync_first(s: RemoteEnvs, env: Seq<char>, vs: Seq<(Seq<char>, Seq<char>)>)
    requires
        vs.len() > 0,
    ensures
        vars_sync_effect(s, env, vs) == vars_sync_effect(
            set_variable_effect(s, env, vs[0].0, vs[0].1),
            env,
            vs.skip(1),
        ),
    decreases vs.len(),
{
    if vs.len() == 1 {
        assert(vs.last() == vs[0]);
        assert(vs.skip(1).len() == 0);
        assert(vs.drop_last().len() == 0);
        assert(vars_sync_effect(s, env, vs.drop_last()) == s);
        assert(vars_sync_effect(set_variable_effect(s, env, vs[0].0, vs[0].1), env, vs.skip(1))
            == set_variable_effect(s, env, vs[0].0, vs[0].1));
    } else {
        let vsp = vs.drop_last();
        let s0 = set_variable_effect(s, env, vs[0].0, vs[0].1);
        lemma_vars_sync_first(s, env, vsp);
        assert(vsp[0] == vs[0]);
        assert(vars_sync_effect(s, env, vs) == set_variable_effect(
            vars_sync_effect(s, env, vsp),
            env,
            vs.last().0,
            vs.last().1,
        ));
        assert(vars_sync_effect(s, env, vsp) == vars_sync_effect(s0, env, vsp.skip(1)));
        assert(vs.skip(1).drop_last() =~= vsp.skip(1));
        assert(vs.skip(1).last() == vs.last());
        assert(vars_sync_effect(s0, env, vs.skip(1)) == set_variable_effect(
            vars_sync_effect(s0, env, vsp.skip(1)),
            env,
            vs.last().0,
            vs.last().1,
        ));
    }
}

/// Peels the first environment off a selection's sync.
pub proof fn lemma_doc_sync_first(
    s: RemoteEnvs,
    envs: Seq<(Seq<char>, Seq<(Seq<char>, Seq<char>)>)>,
)
    requires
        envs.len() > 0,
    ensures
        doc_sync_effect(s, envs) == doc_sync_effect(
            env_sync_effect(s, envs[0].0, envs[0].1),
            envs.skip(1),
        ),
    decreases envs.len(),
{
    if envs.len() == 1 {
        assert(envs.last() == envs[0]);
        assert(envs.skip(1).len() == 0);
        assert(envs.drop_last().len() == 0);
        assert(doc_sync_effect(s, envs.drop_last()) == s);
        assert(doc_sync_effect(env_sync_effect(s, envs[0].0, envs[0].1), envs.skip(1))
            == env_sync_effect(s, envs[0].0, envs[0].1));
    } else {
        let esp = envs.drop_last();
        let s0 = env_sync_effect(s, envs[0].0, envs[0].1);
        lemma_doc_sync_first(s, esp);
        assert(esp[0] == envs[0]);
        assert(doc_sync_effect(s, envs) == env_sync_effect(
            doc_sync_effect(s, esp),
            envs.last().0,
            envs.last().1,
        ));
        assert(doc_sync_effect(s, esp) == doc_sync_effect(s0, esp.skip(1)));
        assert(envs.skip(1).drop_last() =~= esp.skip(1));
        assert(envs.skip(1).last() == envs.last());
        assert(doc_sync_effect(s0, envs.skip(1)) == env_sync_effect(
            doc_sync_effect(s0, esp.skip(1)),
            envs.skip(1).last().0,
            envs.skip(1).last().1,
        ));
    }
}

/// The environment PUT is idempotent: a second upsert of the same name
/// changes nothing.
pub proof fn lemma_upsert_environment_idempotent(s: RemoteEnvs, env: Seq<char>)
    ensures
        upsert_environment_effect(upsert_environment_effect(s, env), env)
            == upsert_environment_effect(s, env),
{
    assert(upsert_environment_effect(s, env).dom().contains(env));
}

/// Writing pairs onto `m` is `m` overwritten by the pairs written onto
/// the empty mapping.
pub proof fn lemma_vars_written_union(m: Map<Seq<char>, Seq<char>>, vs: Seq<(Seq<char>, Seq<char>)>)
    ensures
        vars_written(m, vs) == m.union_prefer_right(vars_written(Map::empty(), vs)),
    decreases vs.len(),
{
    if vs.len() == 0 {
        assert(m.union_prefer_right(Map::empty()) =~= m);
    } else {
        lemma_vars_written_union(m, vs.drop_last());
        assert(m.union_prefer_right(vars_written(Map::empty(), vs.drop_last())).insert(
            vs.last().0,
            vs.last().1,
        ) =~= m.union_prefer_right(
            vars_written(Map::empty(), vs.drop_last()).insert(vs.last().0, vs.last().1),
        ));
    }
}

/// Syncing an environment only rewrites that environment's mapping: the
/// result is the old state with the name bound to the written mapping.
pub proof fn lemma_env_sync_characterized(
    s: RemoteEnvs,
    env: Seq<char>,
    vs: Seq<(Seq<char>, Seq<char>)>,
)
    ensures
        env_sync_effect(s, env, vs) == s.insert(env, vars_written(vars_of(s, env), vs)),
    decreases vs.len(),
{
    if vs.len() == 0 {
        if s.dom().contains(env) {
            assert(s.insert(env, vars_of(s, env)) =~= s);
        }
    } else {
        lemma_env_sync_characterized(s, env, vs.drop_last());
        let t = s.insert(env, vars_written(vars_of(s, env), vs.drop_last()));
        assert(t.insert(env, vars_of(t, env).insert(vs.last().0, vs.last().1)) =~= s.insert(
            env,
            vars_written(vars_of(s, env), vs),
        ));
    }
}

/// Syncing one environment twice with the same pairs equals syncing it
/// once.
pub proof fn lemma_env_sync_idempotent(
    s: RemoteEnvs,
    env: Seq<char>,
    vs: Seq<(Seq<char>, Seq<char>)>,
)
    ensures
        env_sync_effect(env_sync_effect(s, env, vs), env, vs) == env_sync_effect(s, env, vs),
{
    lemma_env_sync_characterized(s, env, vs);
    let s1 = s.insert(env, vars_written(vars_of(s, env), vs));
    lemma_env_sync_characterized(s1, env, vs);
    let base = vars_of(s, env);
    let p = vars_written(Map::empty(), vs);
    lemma_vars_written_union(base, vs);
    lemma_vars_written_union(vars_written(base, vs), vs);
    assert(base.union_prefer_right(p).union_prefer_right(p) =~= base.union_prefer_right(p));
    assert(s1.insert(env, vars_written(vars_of(s1, env), vs)) =~= s1);
}

/// Syncs of two differently named environments commute.
pub proof fn lemma_env_sync_commutes(
    s: RemoteEnvs,
    env1: Seq<char>,
    vs1: Seq<(Seq<char>, Seq<char>)>,
    env2: Seq<char>,
    vs2: Seq<(Seq<char>, Seq<char>)>,
)
    requires
        env1 != env2,
    ensures
        env_sync_effect(env_sync_effect(s, env1, vs1), env2, vs2) == env_sync_effect(
            env_sync_effect(s, env2, vs2),
            env1,
            vs1,
        ),
{
    let x1 = vars_written(vars_of(s, env1), vs1);
    let x2 = vars_written(vars_of(s, env2), vs2);
    lemma_env_sync_characterized(s, env1, vs1);
    lemma_env_sync_characterized(s, env2, vs2);
    lemma_env_sync_characterized(s.insert(env1, x1), env2, vs2);
    lemma_env_sync_characterized(s.insert(env2, x2), env1, vs1);
    assert(vars_of(s.insert(env1, x1), env2) == vars_of(s, env2));
    assert(vars_of(s.insert(env2, x2), env1) == vars_of(s, env1));
    assert(s.insert(env1, x1).insert(env2, x2) =~= s.insert(env2, x2).insert(env1, x1));
}

/// One environment's sync commutes past a selection that does not carry
/// its name.
pub proof fn lemma_env_sync_doc_commutes(
    s: RemoteEnvs,
    envs: Seq<(Seq<char>, Seq<(Seq<char>, Seq<char>)>)>,
    env: Seq<char>,
    vs: Seq<(Seq<char>, Seq<char>)>,
)
    requires
        forall|i: int| 0 <= i < envs.len() ==> envs[i].0 != env,
    ensures
        env_sync_effect(doc_sync_effect(s, envs), env, vs) == doc_sync_effect(
            env_sync_effect(s, env, vs),
            envs,
        ),
    decreases envs.len(),
{
    if envs.len() > 0 {
        let prefix = envs.drop_last();
        let l = envs.last();
        lemma_env_sync_commutes(doc_sync_effect(s, prefix), l.0, l.1, env, vs);
        lemma_env_sync_doc_commutes(s, prefix, env, vs);
    }
}

/// Re-running a whole unchanged selection is a no-op in effect, for a
/// selection whose names are distinct, as a document's keys are.
pub proof fn lemma_doc_sync_idempotent(
    s: RemoteEnvs,
    envs: Seq<(Seq<char>, Seq<(Seq<char>, Seq<char>)>)>,
)
    requires
        distinct_names(envs),
    ensures
        doc_sync_effect(doc_sync_effect(s, envs), envs) == doc_sync_effect(s, envs),
    decreases envs.len(),
{
    if envs.len() > 0 {
        let prefix = envs.drop_last();
        let l = envs.last();
        let a = doc_sync_effect(s, prefix);
        assert(forall|i: int, j: int|
            0 <= i < j < prefix.len() ==> prefix[i] == envs[i] && prefix[j] == envs[j]);
        lemma_doc_sync_idempotent(s, prefix);
        assert(forall|i: int| 0 <= i < prefix.len() ==> prefix[i] == envs[i]);
        lemma_env_sync_doc_commutes(a, prefix, l.0, l.1);
        lemma_env_sync_idempotent(doc_sync_effect(a, prefix), l.0, l.1);
    }
}

} // verus!
