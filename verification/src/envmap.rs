//! The mathematical model of environment-variable overlays.
//!
//! A batch of overrides is an ordered sequence of name/value pairs; applying
//! it to a map inserts each pair in turn, so within a batch (and across
//! batches applied one after the other) a later pair overwrites an earlier
//! pair that shares its name.
use vstd::map::*;
use vstd::prelude::*;

verus! {

/// Applies the pairs of `ps` to `m`, in order: each pair inserts or
/// overwrites its key, so a later pair wins over an earlier one sharing
/// the same key.
pub open spec fn overlay(
    m: Map<Seq<char>, Seq<char>>,
    ps: Seq<(Seq<char>, Seq<char>)>,
) -> Map<Seq<char>, Seq<char>>
    decreases ps.len(),
{
    if ps.len() == 0 {
        m
    } else {
        overlay(m.insert(ps[0].0, ps[0].1), ps.skip(1))
    }
}

/// The value carried by the last pair of `ps` whose key is `k`, if any.
pub open spec fn last_value(ps: Seq<(Seq<char>, Seq<char>)>, k: Seq<char>) -> Option<Seq<char>>
    decreases ps.len(),
{
    if ps.len() == 0 {
        None
    } else {
        match last_value(ps.skip(1), k) {
            Some(v) => Some(v),
            None => if ps[0].0 == k {
                Some(ps[0].1)
            } else {
                None
            },
        }
    }
}

/// What one overlay batch does to a lookup: a key set by the batch maps to
/// the last value the batch gives it, and any other key keeps exactly the
/// binding it had before.
pub proof fn lemma_overlay_lookup(
    m: Map<Seq<char>, Seq<char>>,
    ps: Seq<(Seq<char>, Seq<char>)>,
    k: Seq<char>,
)
    ensures
        overlay(m, ps).contains_key(k) <==> (m.contains_key(k) || last_value(ps, k) is Some),
        overlay(m, ps).contains_key(k) ==> overlay(m, ps)[k] == (match last_value(ps, k) {
            Some(v) => v,
            None => m[k],
        }),
    decreases ps.len(),
{
    if ps.len() > 0 {
        lemma_overlay_lookup(m.insert(ps[0].0, ps[0].1), ps.skip(1), k);
    }
}

/// Prepending one pair to a batch applied to the empty map: the batch's
/// own pairs win over the prepended one, which only adds a binding for a
/// key the batch leaves unset.
pub proof fn lemma_overlay_prepend(
    p: (Seq<char>, Seq<char>),
    s: Seq<(Seq<char>, Seq<char>)>,
)
    ensures
        overlay(Map::empty(), seq![p] + s) == (if overlay(Map::empty(), s).contains_key(p.0) {
            overlay(Map::empty(), s)
        } else {
            overlay(Map::empty(), s).insert(p.0, p.1)
        }),
{
    let base = Map::<Seq<char>, Seq<char>>::empty();
    let t = seq![p] + s;
    assert(t.skip(1) =~= s);
    assert(t[0] == p);
    let lhs = overlay(base.insert(p.0, p.1), s);
    assert(overlay(base, t) == lhs);
    let rhs = if overlay(base, s).contains_key(p.0) {
        overlay(base, s)
    } else {
        overlay(base, s).insert(p.0, p.1)
    };
    assert_maps_equal!(lhs, rhs, q => {
        lemma_overlay_lookup(base.insert(p.0, p.1), s, q);
        lemma_overlay_lookup(base, s, q);
    });
}

/// Applying one batch after another is the same as applying their
/// concatenation in one go.
pub proof fn lemma_overlay_append(
    m: Map<Seq<char>, Seq<char>>,
    a: Seq<(Seq<char>, Seq<char>)>,
    b: Seq<(Seq<char>, Seq<char>)>,
)
    ensures
        overlay(m, a + b) == overlay(overlay(m, a), b),
    decreases a.len(),
{
    if a.len() == 0 {
        assert(a + b =~= b);
    } else {
        assert((a + b).skip(1) =~= a.skip(1) + b);
        assert((a + b)[0] == a[0]);
        lemma_overlay_append(m.insert(a[0].0, a[0].1), a.skip(1), b);
    }
}

} // verus!
