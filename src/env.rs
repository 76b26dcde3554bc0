//! Environment variables held as name and value pairs, used as a map: each
//! name at most once.
use vstd::prelude::*;

use crate::text::same_text;

verus! {

/// Environment variables, as name and value pairs.
pub type EnvVars = Vec<(String, String)>;

/// What environment variables stand for.
pub type EnvModel = Seq<(Seq<char>, Seq<char>)>;

/// No name occurs twice.
pub open spec fn keys_unique(env: EnvModel) -> bool {
    forall|i: int, j: int| 0 <= i < j < env.len() ==> #[trigger] env[i].0 != #[trigger] env[j].0
}

/// The value that `env` gives to `name`: that of its last pair with this
/// name, if any.
pub open spec fn env_value(env: EnvModel, name: Seq<char>) -> Option<Seq<char>>
    decreases env.len(),
{
    if env.len() == 0 {
        None
    } else if env.last().0 == name {
        Some(env.last().1)
    } else {
        env_value(env.drop_last(), name)
    }
}

/// Where names are unique, the value of a name is that of its one pair.
proof fn lemma_value_at(env: EnvModel, name: Seq<char>, j: int)
    requires
        keys_unique(env),
        0 <= j < env.len(),
        env[j].0 == name,
    ensures
        env_value(env, name) == Some(env[j].1),
    decreases env.len(),
{
    if j < env.len() - 1 {
        assert(env[j].0 != env[env.len() - 1].0);
        lemma_value_at(env.drop_last(), name, j);
    }
}

/// A name with no pair has no value.
proof fn lemma_value_absent(env: EnvModel, name: Seq<char>)
    requires
        forall|i: int| 0 <= i < env.len() ==> #[trigger] env[i].0 != name,
    ensures
        env_value(env, name) is None,
    decreases env.len(),
{
    if env.len() > 0 {
        assert(env.last().0 != name);
        lemma_value_absent(env.drop_last(), name);
    }
}

/// Where names are unique, the value of a name is that of its one pair,
/// or none.
proof fn lemma_value_unique(env: EnvModel, name: Seq<char>)
    requires
        keys_unique(env),
    ensures
        (exists|j: int| 0 <= j < env.len() && env[j].0 == name) ==> env_value(env, name)
            == Some(env[choose|j: int| 0 <= j < env.len() && env[j].0 == name].1),
        (forall|i: int| 0 <= i < env.len() ==> #[trigger] env[i].0 != name) ==> env_value(
            env,
            name,
        ) is None,
{
    if exists|j: int| 0 <= j < env.len() && env[j].0 == name {
        let j = choose|j: int| 0 <= j < env.len() && env[j].0 == name;
        lemma_value_at(env, name, j);
    } else {
        lemma_value_absent(env, name);
    }
}

/// The environment as a map: one pair for each name of `envs`, with the
/// value of its last pair there.
pub fn env_map(envs: &EnvVars) -> (r: EnvVars)
    ensures
        keys_unique(r.deep_view()),
        forall|name: Seq<char>| env_value(r.deep_view(), name) == env_value(envs.deep_view(), name),
{
    let mut out: EnvVars = Vec::new();
    let mut i: usize = 0;
    assert(envs.deep_view().take(0) =~= Seq::<(Seq<char>, Seq<char>)>::empty());
    assert(out.deep_view() =~= Seq::<(Seq<char>, Seq<char>)>::empty());
    while i < envs.len()
        invariant
            i <= envs@.len(),
            keys_unique(out.deep_view()),
            forall|name: Seq<char>|
                env_value(out.deep_view(), name) == env_value(envs.deep_view().take(i as int), name),
        decreases envs@.len() - i,
    {
        let name = envs[i].0.clone();
        let value = envs[i].1.clone();
        let ghost before = out.deep_view();
        let ghost pair = (name@, value@);
        let ghost seen = envs.deep_view().take(i as int);
        let ghost next = envs.deep_view().take(i as int + 1);
        assert(next.drop_last() =~= seen);
        assert(next.last() == pair);
        let mut j: usize = 0;
        let mut found: Option<usize> = None;
        while j < out.len()
            invariant
                j <= out@.len(),
                out.deep_view() == before,
                found matches Some(f) ==> f < out@.len() && before[f as int].0 == name@,
                found is None ==> forall|m: int| 0 <= m < j ==> #[trigger] before[m].0 != name@,
            decreases out@.len() - j,
        {
            if found.is_none() && same_text(out[j].0.as_str(), name.as_str()) {
                found = Some(j);
            }
            j = j + 1;
        }
        match found {
            Some(f) => {
                out[f] = (name, value);
                let ghost after = out.deep_view();
                assert(after =~= before.update(f as int, pair));
                assert(keys_unique(after)) by {
                    assert forall|a: int, b: int| 0 <= a < b < after.len() implies #[trigger] after[a].0
                        != #[trigger] after[b].0 by {
                        assert(after[a].0 == before[a].0);
                        assert(after[b].0 == before[b].0);
                    }
                }
                assert forall|n: Seq<char>| env_value(after, n) == env_value(next, n) by {
                    assert(env_value(next, n) == if n == name@ {
                        Some(value@)
                    } else {
                        env_value(seen, n)
                    });
                    if n == name@ {
                        lemma_value_at(after, n, f as int);
                    } else {
                        lemma_value_unique(before, n);
                        lemma_value_unique(after, n);
                        if exists|m: int| 0 <= m < before.len() && before[m].0 == n {
                            let m = choose|m: int| 0 <= m < before.len() && before[m].0 == n;
                            lemma_value_at(before, n, m);
                            lemma_value_at(after, n, m);
                        } else {
                            assert forall|m: int| 0 <= m < after.len() implies #[trigger] after[m].0
                                != n by {
                                assert(after[m].0 == before[m].0 || m == f);
                            }
                        }
                    }
                }
            },
            None => {
                out.push((name, value));
                let ghost after = out.deep_view();
                assert(after =~= before.push(pair));
                assert(after.drop_last() =~= before);
                assert(after.last() == pair);
                assert forall|n: Seq<char>| env_value(after, n) == env_value(next, n) by {
                    assert(env_value(after, n) == if n == name@ {
                        Some(value@)
                    } else {
                        env_value(before, n)
                    });
                    assert(env_value(next, n) == if n == name@ {
                        Some(value@)
                    } else {
                        env_value(seen, n)
                    });
                }
                assert(keys_unique(after)) by {
                    assert forall|a: int, b: int| 0 <= a < b < after.len() implies #[trigger] after[a].0
                        != #[trigger] after[b].0 by {
                        if b == after.len() - 1 {
                            assert(before[a].0 != name@);
                        } else {
                            assert(after[a].0 == before[a].0);
                            assert(after[b].0 == before[b].0);
                        }
                    }
                }
            },
        }
        i = i + 1;
    }
    assert(envs.deep_view().take(envs@.len() as int) =~= envs.deep_view());
    out
}

} // verus!
