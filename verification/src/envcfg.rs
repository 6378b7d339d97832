//! Composes the child's environment block and splits raw `NAME=VALUE`
//! arguments.
//!
//! The environment is modelled as the mapping denoted by a list of
//! bindings, a later binding for a key overriding an earlier one. One run
//! composes it in a fixed order: start from the inherited bindings (or
//! from nothing when clearing is asked for), remove the unset names, then
//! lay the explicit bindings on top in the order given. A raw argument is
//! split at its first `=`; an argument without one binds the whole text to
//! the empty string, and so does a trailing `=` — which leaves the
//! variable present and empty, not absent.

use vstd::prelude::*;
use vstd::string::StrSliceExecFns;
use vstd::string::StringExecFns;

verus! {

/// The views of a list of key/value bindings.
pub open spec fn kv_views(entries: Seq<(String, String)>) -> Seq<(Seq<char>, Seq<char>)> {
    entries.map_values(|p: (String, String)| (p.0@, p.1@))
}

/// The views of a list of names.
pub open spec fn name_views(names: Seq<String>) -> Seq<Seq<char>> {
    names.map_values(|s: String| s@)
}

/// The set of names in a list.
pub open spec fn name_set(names: Seq<Seq<char>>) -> Set<Seq<char>> {
    Set::new(|k: Seq<char>| names.contains(k))
}

/// The mapping denoted by a list of bindings: a later binding for a key
/// overrides an earlier one.
pub open spec fn env_map_of(entries: Seq<(Seq<char>, Seq<char>)>) -> Map<Seq<char>, Seq<char>>
    decreases entries.len(),
{
    if entries.len() == 0 {
        Map::empty()
    } else {
        env_map_of(entries.drop_last()).insert(entries.last().0, entries.last().1)
    }
}

/// Lays explicit bindings, in order, on top of a base environment.
pub open spec fn env_apply(
    m: Map<Seq<char>, Seq<char>>,
    sets: Seq<(Seq<char>, Seq<char>)>,
) -> Map<Seq<char>, Seq<char>>
    decreases sets.len(),
{
    if sets.len() == 0 {
        m
    } else {
        env_apply(m, sets.drop_last()).insert(sets.last().0, sets.last().1)
    }
}

/// The environment owed to one run: the inherited bindings unless cleared,
/// minus the unset names, then the explicit bindings on top in order.
pub open spec fn spec_compose(
    inherited: Seq<(Seq<char>, Seq<char>)>,
    clear: bool,
    unset: Seq<Seq<char>>,
    set: Seq<(Seq<char>, Seq<char>)>,
) -> Map<Seq<char>, Seq<char>> {
    env_apply(
        (if clear {
            Map::<Seq<char>, Seq<char>>::empty()
        } else {
            env_map_of(inherited)
        }).remove_keys(name_set(unset)),
        set,
    )
}

/// True exactly when `k` is one of the names.
fn key_in(keys: &Vec<String>, k: &String) -> (r: bool)
    ensures
        r == name_set(name_views(keys@)).contains(k@),
{
    let n = keys.len();
    let mut i: usize = 0;
    while i < n
        invariant
            n == keys@.len(),
            0 <= i <= n,
            forall|j: int| 0 <= j < i ==> keys@[j]@ != k@,
        decreases n - i,
    {
        if keys[i].eq(k) {
            proof {
                assert(name_views(keys@)[i as int] == k@);
                assert(name_views(keys@).contains(k@));
            }
            return true;
        }
        i += 1;
    }
    proof {
        assert forall|j: int| 0 <= j < name_views(keys@).len() implies name_views(keys@)[j]
            != k@ by {
            assert(name_views(keys@)[j] == keys@[j]@);
        }
        assert(!name_views(keys@).contains(k@));
    }
    false
}

/// Composes the child's environment block from the inherited bindings,
/// the clear flag, the unset names and the explicit bindings, in that
/// order. The result is handed binding by binding to the process launcher.
pub fn compose_env(
    inherited: &Vec<(String, String)>,
    clear: bool,
    unset: &Vec<String>,
    set: &Vec<(String, String)>,
) -> (r: Vec<(String, String)>)
    ensures
        env_map_of(kv_views(r@)) == spec_compose(
            kv_views(inherited@),
            clear,
            name_views(unset@),
            kv_views(set@),
        ),
{
    let ghost u: Set<Seq<char>> = name_set(name_views(unset@));
    let mut r: Vec<(String, String)> = Vec::new();
    proof {
        assert(kv_views(r@) =~= Seq::<(Seq<char>, Seq<char>)>::empty());
    }
    if !clear {
        let n = inherited.len();
        let mut i: usize = 0;
        while i < n
            invariant
                n == inherited@.len(),
                0 <= i <= n,
                env_map_of(kv_views(r@)) == env_map_of(kv_views(inherited@).take(i as int)).remove_keys(u),
                u == name_set(name_views(unset@)),
            decreases n - i,
        {
            let ghost prefix = kv_views(inherited@).take(i as int);
            let ghost prefix1 = kv_views(inherited@).take(i as int + 1);
            let kc = inherited[i].0.clone();
            let vc = inherited[i].1.clone();
            let ghost kk = kc@;
            let ghost vv = vc@;
            proof {
                assert(kv_views(inherited@)[i as int] == (kk, vv));
                assert(prefix1.drop_last() =~= prefix);
                assert(env_map_of(prefix1) == env_map_of(prefix).insert(kk, vv));
            }
            if !key_in(unset, &kc) {
                let ghost rold = kv_views(r@);
                r.push((kc, vc));
                proof {
                    assert(kv_views(r@) =~= rold.push((kk, vv)));
                    assert(kv_views(r@).drop_last() =~= rold);
                    assert(env_map_of(kv_views(r@)) == env_map_of(rold).insert(kk, vv));
                    assert(env_map_of(prefix).remove_keys(u).insert(kk, vv) =~= env_map_of(
                        prefix,
                    ).insert(kk, vv).remove_keys(u));
                }
            } else {
                proof {
                    assert(env_map_of(prefix).insert(kk, vv).remove_keys(u) =~= env_map_of(
                        prefix,
                    ).remove_keys(u));
                }
            }
            i += 1;
        }
        proof {
            assert(kv_views(inherited@).take(n as int) =~= kv_views(inherited@));
        }
    } else {
        proof {
            assert(Map::<Seq<char>, Seq<char>>::empty().remove_keys(u)
                =~= Map::<Seq<char>, Seq<char>>::empty());
        }
    }
    let ghost mid = env_map_of(kv_views(r@));
    let m = set.len();
    let mut i: usize = 0;
    while i < m
        invariant
            m == set@.len(),
            0 <= i <= m,
            env_map_of(kv_views(r@)) == env_apply(mid, kv_views(set@).take(i as int)),
        decreases m - i,
    {
        let ghost si = kv_views(set@).take(i as int);
        let ghost si1 = kv_views(set@).take(i as int + 1);
        let kc = set[i].0.clone();
        let vc = set[i].1.clone();
        let ghost kk = kc@;
        let ghost vv = vc@;
        let ghost rold = kv_views(r@);
        proof {
            assert(kv_views(set@)[i as int] == (kk, vv));
            assert(si1.drop_last() =~= si);
            assert(env_apply(mid, si1) == env_apply(mid, si).insert(kk, vv));
        }
        r.push((kc, vc));
        proof {
            assert(kv_views(r@) =~= rold.push((kk, vv)));
            assert(kv_views(r@).drop_last() =~= rold);
            assert(env_map_of(kv_views(r@)) == env_map_of(rold).insert(kk, vv));
        }
        i += 1;
    }
    proof {
        assert(kv_views(set@).take(m as int) =~= kv_views(set@));
    }
    r
}

/// The name written before the first `=` of a raw binding argument; the
/// whole argument when it has no `=`.
pub open spec fn env_key_of(s: Seq<char>) -> Seq<char>
    decreases s.len(),
{
    if s.len() == 0 {
        Seq::<char>::empty()
    } else if s[0] == '=' {
        Seq::<char>::empty()
    } else {
        seq![s[0]] + env_key_of(s.skip(1))
    }
}

/// The value written after the first `=` of a raw binding argument; empty
/// when it has no `=`.
pub open spec fn env_value_of(s: Seq<char>) -> Seq<char>
    decreases s.len(),
{
    if s.len() == 0 {
        Seq::<char>::empty()
    } else if s[0] == '=' {
        s.skip(1)
    } else {
        env_value_of(s.skip(1))
    }
}

/// The split is governed by the first `=`: everything before it is the
/// key, everything after it the value; without one the whole text is the
/// key and the value is empty.
pub proof fn lemma_split_at_first(s: Seq<char>, i: int)
    requires
        0 <= i <= s.len(),
        forall|j: int| 0 <= j < i ==> s[j] != '=',
        i < s.len() ==> s[i] == '=',
    ensures
        env_key_of(s) == s.take(i),
        env_value_of(s) == if i < s.len() {
            s.skip(i + 1)
        } else {
            Seq::<char>::empty()
        },
    decreases s.len(),
{
    if i == 0 {
        assert(s.take(0) =~= Seq::<char>::empty());
        if s.len() > 0 {
            assert(s[0] == '=');
        }
    } else {
        let t = s.skip(1);
        assert forall|j: int| 0 <= j < i - 1 implies t[j] != '=' by {
            assert(t[j] == s[j + 1]);
        }
        if i - 1 < t.len() {
            assert(t[i - 1] == s[i]);
        }
        lemma_split_at_first(t, i - 1);
        assert(seq![s[0]] + t.take(i - 1) =~= s.take(i));
        if i < s.len() {
            assert(t.skip(i) =~= s.skip(i + 1));
        }
    }
}

/// Splits a raw `NAME=VALUE` argument at its first `=`. Without an `=`
/// the whole argument is the name and the value is empty; a trailing `=`
/// gives an empty value, which still binds the variable.
pub fn split_env_pair(s: &str) -> (kv: (String, String))
    ensures
        kv.0@ == env_key_of(s@),
        kv.1@ == env_value_of(s@),
{
    let n = s.unicode_len();
    let mut i: usize = 0;
    while i < n
        invariant
            n == s@.len(),
            0 <= i <= n,
            forall|j: int| 0 <= j < i ==> s@[j] != '=',
        decreases n - i,
    {
        if s.get_char(i) == '=' {
            proof {
                lemma_split_at_first(s@, i as int);
            }
            let k = s.substring_char(0, i);
            let v = s.substring_char(i + 1, n);
            proof {
                assert(s@.subrange(0, i as int) =~= s@.take(i as int));
                assert(s@.subrange(i as int + 1, n as int) =~= s@.skip(i as int + 1));
            }
            return (String::from_str(k), String::from_str(v));
        }
        i += 1;
    }
    proof {
        lemma_split_at_first(s@, n as int);
        assert(s@.take(n as int) =~= s@);
    }
    (String::from_str(s), String::new())
}

/// Law: with the environment cleared, one explicit binding yields exactly
/// that binding, whatever was inherited and whatever names are unset.
pub proof fn lemma_cleared_env_is_exactly_set(
    inherited: Seq<(Seq<char>, Seq<char>)>,
    unset: Seq<Seq<char>>,
    k: Seq<char>,
    v: Seq<char>,
)
    ensures
        spec_compose(inherited, true, unset, seq![(k, v)]) == map![k => v],
{
    let base = Map::<Seq<char>, Seq<char>>::empty().remove_keys(name_set(unset));
    assert(base =~= Map::<Seq<char>, Seq<char>>::empty());
    assert(seq![(k, v)].drop_last() =~= Seq::<(Seq<char>, Seq<char>)>::empty());
    assert(env_apply(base, Seq::<(Seq<char>, Seq<char>)>::empty()) == base);
    assert(env_apply(base, seq![(k, v)]) == base.insert(k, v));
    assert(base.insert(k, v) =~= map![k => v]);
}

/// Law: unsetting a name removes exactly that binding and no other; every
/// other inherited binding keeps its value.
pub proof fn lemma_unset_removes_only_named(
    inherited: Seq<(Seq<char>, Seq<char>)>,
    name: Seq<char>,
    k: Seq<char>,
)
    ensures
        !spec_compose(inherited, false, seq![name], Seq::<(Seq<char>, Seq<char>)>::empty()).contains_key(name),
        k != name ==> spec_compose(
            inherited,
            false,
            seq![name],
            Seq::<(Seq<char>, Seq<char>)>::empty(),
        ).contains_key(k) == env_map_of(inherited).contains_key(k),
        k != name && env_map_of(inherited).contains_key(k) ==> spec_compose(
            inherited,
            false,
            seq![name],
            Seq::<(Seq<char>, Seq<char>)>::empty(),
        )[k] == env_map_of(inherited)[k],
{
    let u = name_set(seq![name]);
    assert(seq![name][0] == name);
    assert(seq![name].contains(name));
    assert(u.contains(name));
    assert forall|x: Seq<char>| u.contains(x) implies x == name by {
        let i = choose|i: int| 0 <= i < seq![name].len() && seq![name][i] == x;
        assert(seq![name][i] == name);
    }
    let m = env_map_of(inherited).remove_keys(u);
    assert(env_apply(m, Seq::<(Seq<char>, Seq<char>)>::empty()) == m);
    if k != name {
        assert(!u.contains(k));
    }
}

/// Law: a binding with an empty value leaves the variable present and
/// empty — observably different from the variable being absent.
pub proof fn lemma_empty_value_binding(m: Map<Seq<char>, Seq<char>>, k: Seq<char>)
    ensures
        env_apply(m, seq![(k, Seq::<char>::empty())]).contains_key(k),
        env_apply(m, seq![(k, Seq::<char>::empty())])[k] == Seq::<char>::empty(),
{
    let p = (k, Seq::<char>::empty());
    assert(seq![p].drop_last() =~= Seq::<(Seq<char>, Seq<char>)>::empty());
    assert(env_apply(m, Seq::<(Seq<char>, Seq<char>)>::empty()) == m);
    assert(env_apply(m, seq![p]) == m.insert(k, Seq::<char>::empty()));
}

/// Law: an argument whose only `=` is its last character binds the name
/// written before the `=` to the empty string.
pub proof fn lemma_trailing_eq_gives_empty_value(s: Seq<char>)
    requires
        s.len() >= 1,
        s[s.len() - 1] == '=',
        forall|j: int| 0 <= j < s.len() - 1 ==> s[j] != '=',
    ensures
        env_key_of(s) == s.take(s.len() - 1),
        env_value_of(s) == Seq::<char>::empty(),
{
    lemma_split_at_first(s, s.len() - 1);
    assert(s.skip(s.len() - 1 + 1) =~= Seq::<char>::empty());
}

} // verus!
