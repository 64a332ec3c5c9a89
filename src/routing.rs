//! Path-prefix ownership: which registered prefix a signal path resolves to.
use vstd::prelude::*;
use vstd::string::*;

verus! {

/// `p` is a literal string prefix of `s` (not aware of path segments).
pub open spec fn is_prefix_of(p: Seq<char>, s: Seq<char>) -> bool {
    p.len() <= s.len() && s.subrange(0, p.len() as int) == p
}

/// Index of the first prefix, in registration order, that is a prefix of `path`.
pub open spec fn resolve_in(prefixes: Seq<Seq<char>>, path: Seq<char>) -> Option<int>
    decreases prefixes.len(),
{
    if prefixes.len() == 0 {
        None
    } else {
        match resolve_in(prefixes.drop_last(), path) {
            Some(i) => Some(i),
            None => if is_prefix_of(prefixes.last(), path) {
                Some(prefixes.len() - 1)
            } else {
                None
            },
        }
    }
}

/// The shard of every path that resolves, in input order; unresolved paths drop out.
pub open spec fn routes(prefixes: Seq<Seq<char>>, paths: Seq<Seq<char>>) -> Seq<(int, Seq<char>)>
    decreases paths.len(),
{
    if paths.len() == 0 {
        Seq::empty()
    } else {
        let rest = routes(prefixes, paths.drop_last());
        match resolve_in(prefixes, paths.last()) {
            Some(i) => rest.push((i, paths.last())),
            None => rest,
        }
    }
}

/// Shard, path and state of every signal whose path resolves, in input order;
/// unresolved signals drop out.
pub open spec fn set_routes<T>(prefixes: Seq<Seq<char>>, signals: Seq<(String, T)>) -> Seq<
    (int, Seq<char>, Option<T>),
>
    decreases signals.len(),
{
    if signals.len() == 0 {
        Seq::empty()
    } else {
        let rest = set_routes(prefixes, signals.drop_last());
        let last = signals.last();
        match resolve_in(prefixes, last.0@) {
            Some(i) => rest.push((i, last.0@, Some(last.1))),
            None => rest,
        }
    }
}

/// `resolve_in` picks a matching prefix with no matching prefix before it,
/// and finds nothing only where no prefix matches.
pub proof fn lemma_resolve_characterized(prefixes: Seq<Seq<char>>, path: Seq<char>)
    ensures
        match resolve_in(prefixes, path) {
            Some(i) => 0 <= i < prefixes.len() && is_prefix_of(prefixes[i], path) && forall|j: int|
                0 <= j < i ==> !is_prefix_of(#[trigger] prefixes[j], path),
            None => forall|j: int| 0 <= j < prefixes.len() ==> !is_prefix_of(#[trigger] prefixes[j], path),
        },
    decreases prefixes.len(),
{
    if prefixes.len() > 0 {
        let init = prefixes.drop_last();
        lemma_resolve_characterized(init, path);
        assert forall|j: int| 0 <= j < init.len() implies init[j] == prefixes[j] by {}
    }
}

/// The first registered matching prefix wins, even where a later one is longer.
pub proof fn lemma_first_match_wins(prefixes: Seq<Seq<char>>, path: Seq<char>, i: int)
    requires
        0 <= i < prefixes.len(),
        is_prefix_of(prefixes[i], path),
        forall|j: int| 0 <= j < i ==> !is_prefix_of(#[trigger] prefixes[j], path),
    ensures
        resolve_in(prefixes, path) == Some(i),
{
    lemma_resolve_characterized(prefixes, path);
}

/// A path resolves to nothing exactly when no registered prefix is a prefix of it.
pub proof fn lemma_resolve_none_iff(prefixes: Seq<Seq<char>>, path: Seq<char>)
    ensures
        resolve_in(prefixes, path) is None <==> forall|j: int|
            0 <= j < prefixes.len() ==> !is_prefix_of(#[trigger] prefixes[j], path),
{
    lemma_resolve_characterized(prefixes, path);
}

/// Whether `p` is a literal string prefix of `s`.
pub fn has_prefix(s: &str, p: &str) -> (r: bool)
    ensures
        r == is_prefix_of(p@, s@),
{
    let pn = p.unicode_len();
    let sn = s.unicode_len();
    if pn > sn {
        return false;
    }
    let mut i: usize = 0;
    while i < pn
        invariant
            pn == p@.len(),
            sn == s@.len(),
            pn <= sn,
            i <= pn,
            forall|j: int| 0 <= j < i ==> s@[j] == p@[j],
        decreases pn - i,
    {
        if s.get_char(i) != p.get_char(i) {
            assert(s@.subrange(0, pn as int)[i as int] != p@[i as int]);
            return false;
        }
        i = i + 1;
    }
    assert(s@.subrange(0, pn as int) =~= p@);
    true
}

} // verus!
