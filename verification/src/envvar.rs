//! Environment-variable tokens from the command line: `NAME=VALUE` maps the
//! name to the JSON string `VALUE`, `NAME=` maps it to JSON null, and a bare
//! `NAME` is filled in from the ambient process environment, failing when it
//! is unset there. The value is everything after the first `=`, further `=`
//! signs included. Duplicate names collapse to one entry, the last value
//! winning.

use vstd::prelude::*;

use crate::scan::{find_char_from, find_from, lemma_find_from};

verus! {

/// A JSON value an environment variable can map to on the wire.
#[derive(Debug)]
pub enum EnvValue {
    Null,
    Text(String),
}

/// What one `--env` token denotes before the ambient environment is
/// consulted: a settled name/value pair, or a bare name still to look up.
#[derive(Debug)]
pub enum EnvToken {
    Pair(String, EnvValue),
    Lookup(String),
}

/// The name part of a token: everything before the first `=`, or the whole
/// token when it has none.
pub open spec fn spec_env_name(s: Seq<char>) -> Seq<char> {
    match find_from(s, 0, '=') {
        Some(i) => s.take(i),
        None => s,
    }
}

/// The raw value part of a token: everything after the first `=`, further
/// `=` signs included, or `None` when the token has no `=` at all.
pub open spec fn spec_env_raw_value(s: Seq<char>) -> Option<Seq<char>> {
    match find_from(s, 0, '=') {
        Some(i) => Some(s.skip(i + 1)),
        None => None,
    }
}

/// The three shapes a token can take, spelled out. `NAME=VALUE` (no `=` in
/// the name; the value is arbitrary, further `=` signs included) splits
/// into exactly that name and raw value — so `NAME=` yields the empty raw
/// value, read as JSON null, and `NAME=VALUE` yields the entire `VALUE`,
/// read as a JSON string — while a bare `NAME` yields no raw value at all
/// and is left for the ambient environment.
pub proof fn lemma_env_token_shapes(name: Seq<char>, value: Seq<char>)
    requires
        forall|i: int| 0 <= i < name.len() ==> name[i] != '=',
    ensures
        spec_env_name(name + seq!['='] + value) == name,
        spec_env_raw_value(name + seq!['='] + value) == Some(value),
        spec_env_name(name) == name,
        spec_env_raw_value(name) is None,
{
    let s = name + seq!['='] + value;
    lemma_find_from(s, 0, '=');
    assert(s[name.len() as int] == '=');
    assert(forall|j: int| 0 <= j < name.len() ==> s[j] == name[j]);
    assert(find_from(s, 0, '=') == Some(name.len() as int));
    assert(s.take(name.len() as int) =~= name);
    assert(s.skip(name.len() as int + 1) =~= value);
    lemma_find_from(name, 0, '=');
    assert(find_from(name, 0, '=') is None);
}

/// How a raw value is read: empty means JSON null, anything else the JSON
/// string of the text verbatim.
pub open spec fn spec_env_value(raw: Seq<char>, v: EnvValue) -> bool {
    if raw.len() == 0 {
        v is Null
    } else {
        v matches EnvValue::Text(t) && t@ == raw
    }
}

/// Splits one `--env` token. A token with an `=` becomes a settled pair; a
/// bare name becomes a lookup against the ambient environment.
pub fn parse_env(input: &str) -> (r: EnvToken)
    ensures
        match spec_env_raw_value(input@) {
            Some(raw) => (r matches EnvToken::Pair(name, value) && name@ == spec_env_name(input@)
                && spec_env_value(raw, value)),
            None => (r matches EnvToken::Lookup(name) && name@ == spec_env_name(input@)),
        },
{
    let len = input.unicode_len();
    match find_char_from(input, 0, '=') {
        None => EnvToken::Lookup(input.to_owned()),
        Some(i) => {
            proof {
                lemma_find_from(input@, 0, '=');
            }
            let name = input.substring_char(0, i).to_owned();
            assert(name@ =~= spec_env_name(input@));
            let raw = input.substring_char(i + 1, len);
            assert(raw@ =~= spec_env_raw_value(input@)->0);
            if raw.unicode_len() == 0 {
                EnvToken::Pair(name, EnvValue::Null)
            } else {
                EnvToken::Pair(name, EnvValue::Text(raw.to_owned()))
            }
        },
    }
}

/// Settles a token against the ambient environment: `ambient` is what the
/// process environment holds for the token's name. A settled pair passes
/// through untouched; a bare name becomes the ambient JSON string, or the
/// failure message `NAME not found` when the ambient value is absent.
pub fn resolve_env_token(token: EnvToken, ambient: Option<String>) -> (r: Result<
    (String, EnvValue),
    String,
>)
    ensures
        match token {
            EnvToken::Pair(n, v) => (r matches Ok(p) && p.0 == n && p.1 == v),
            EnvToken::Lookup(n) => match ambient {
                Some(val) => (r matches Ok(p) && p.0 == n && (p.1 matches EnvValue::Text(t)
                    && t == val)),
                None => (r matches Err(m) && m@ == n@ + " not found"@),
            },
        },
{
    match token {
        EnvToken::Pair(n, v) => Ok((n, v)),
        EnvToken::Lookup(n) => match ambient {
            Some(val) => Ok((n, EnvValue::Text(val))),
            None => {
                let mut m = n;
                m.append(" not found");
                Err(m)
            },
        },
    }
}

/// The environment mapping a list of settled pairs denotes: names unique,
/// each name keeping its last value, entries ordered by last occurrence.
pub open spec fn spec_dedup(s: Seq<(String, EnvValue)>) -> Seq<(String, EnvValue)>
    decreases s.len(),
{
    if s.len() == 0 {
        Seq::empty()
    } else {
        spec_dedup(s.drop_last()).filter(|p: (String, EnvValue)| p.0@ != s.last().0@).push(
            s.last(),
        )
    }
}

/// Drops any earlier entry under `pair`'s name and appends `pair`.
fn insert_env(r: &mut Vec<(String, EnvValue)>, pair: (String, EnvValue))
    ensures
        final(r)@ == old(r)@.filter(|p: (String, EnvValue)| p.0@ != pair.0@).push(pair),
{
    let ghost orig = r@;
    let ghost pred = |p: (String, EnvValue)| p.0@ != pair.0@;
    let mut kept: Vec<(String, EnvValue)> = Vec::new();
    let ghost mut done: int = 0;
    while r.len() > 0
        invariant
            0 <= done <= orig.len(),
            r@ =~= orig.skip(done),
            kept@ == orig.take(done).filter(pred),
            pred == (|p: (String, EnvValue)| p.0@ != pair.0@),
        decreases r@.len(),
    {
        let q = r.remove(0);
        proof {
            assert(q == orig.skip(done)[0]);
            assert(q == orig[done]);
            assert(r@ =~= orig.skip(done + 1));
        }
        let keep = !(q.0 == pair.0);
        if keep {
            kept.push(q);
        }
        proof {
            reveal(Seq::filter);
            assert(orig.take(done + 1).drop_last() =~= orig.take(done));
            assert(orig.take(done + 1).last() == orig[done]);
            assert(keep == pred(orig[done]));
            assert(kept@ == orig.take(done + 1).filter(pred));
            done = done + 1;
        }
    }
    assert(orig.take(done) =~= orig);
    kept.push(pair);
    *r = kept;
}

/// Collapses settled pairs to the mapping they denote: one entry per name,
/// the last value winning, entries ordered by last occurrence.
pub fn dedup_env(env: Vec<(String, EnvValue)>) -> (r: Vec<(String, EnvValue)>)
    ensures
        r@ == spec_dedup(env@),
    decreases env@.len(),
{
    let mut rest = env;
    match rest.pop() {
        None => {
            assert(rest@ =~= Seq::<(String, EnvValue)>::empty());
            rest
        },
        Some(last) => {
            let mut r = dedup_env(rest);
            insert_env(&mut r, last);
            r
        },
    }
}

/// Names are pairwise distinct in `s`.
pub open spec fn names_unique(s: Seq<(String, EnvValue)>) -> bool {
    forall|i: int, j: int| #![trigger s[i], s[j]]
        0 <= i < j < s.len() ==> s[i].0@ != s[j].0@
}

/// Filtering keeps names pairwise distinct.
proof fn lemma_filter_keeps_names_unique(s: Seq<(String, EnvValue)>, pred: spec_fn(
    (String, EnvValue),
) -> bool)
    requires
        names_unique(s),
    ensures
        names_unique(s.filter(pred)),
        forall|i: int| #![trigger s.filter(pred)[i]]
            0 <= i < s.filter(pred).len() ==> exists|k: int|
                0 <= k < s.len() && s[k] == s.filter(pred)[i],
    decreases s.len(),
{
    reveal(Seq::filter);
    if s.len() > 0 {
        lemma_filter_keeps_names_unique(s.drop_last(), pred);
        let dl = s.drop_last();
        assert(names_unique(dl));
        assert(forall|i: int| #![trigger dl.filter(pred)[i]]
            0 <= i < dl.filter(pred).len() ==> exists|k: int|
                0 <= k < dl.len() && dl[k] == dl.filter(pred)[i]);
        if pred(s.last()) {
            assert(s.filter(pred) == dl.filter(pred).push(s.last()));
            assert(forall|i: int| #![trigger dl.filter(pred)[i]]
                0 <= i < dl.filter(pred).len() ==> dl.filter(pred)[i].0@ != s.last().0@);
        }
    }
}

/// Collapsing never lets two entries share a name: the mapping's names are
/// pairwise distinct.
pub proof fn lemma_dedup_names_unique(s: Seq<(String, EnvValue)>)
    ensures
        names_unique(spec_dedup(s)),
    decreases s.len(),
{
    if s.len() > 0 {
        lemma_dedup_names_unique(s.drop_last());
        let prev = spec_dedup(s.drop_last());
        let pred = |p: (String, EnvValue)| p.0@ != s.last().0@;
        lemma_filter_keeps_names_unique(prev, pred);
        broadcast use vstd::seq_lib::group_filter_ensures;

        let kept = prev.filter(pred);
        assert(forall|i: int| #![trigger kept[i]]
            0 <= i < kept.len() ==> kept[i].0@ != s.last().0@);
        assert(names_unique(kept.push(s.last())));
    }
}

} // verus!
