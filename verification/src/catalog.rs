//! First-match-wins dispatch over an ordered catalog: the record of the
//! first rule that matches wins, and a default stands in when none does.

use vstd::prelude::*;

verus! {

/// The first present value in `results`, or `default` when every entry is
/// absent.
pub open spec fn first_some<A>(results: Seq<Option<A>>, default: A) -> A
    decreases results.len(),
{
    if results.len() == 0 {
        default
    } else {
        match results[0] {
            Some(x) => x,
            None => first_some(results.drop_first(), default),
        }
    }
}

/// Law: rule order decides ties. When the rule at `i` matches and every rule
/// before it does not, the catalog's answer is rule `i`'s record, whatever
/// the rules after it would have said.
pub proof fn lemma_first_match_wins<A>(results: Seq<Option<A>>, default: A, i: int)
    requires
        0 <= i < results.len(),
        results[i] is Some,
        forall|j: int| 0 <= j < i ==> results[j] is None,
    ensures
        first_some(results, default) == results[i]->0,
    decreases i,
{
    if i > 0 {
        assert(results[0] is None);
        let rest = results.drop_first();
        assert forall|j: int| 0 <= j < i - 1 implies rest[j] is None by {
            assert(rest[j] == results[j + 1]);
        }
        assert(rest[i - 1] == results[i]);
        lemma_first_match_wins(rest, default, i - 1);
    }
}

/// Law: when no rule matches, the catalog falls back to the default record.
pub proof fn lemma_default_fallback<A>(results: Seq<Option<A>>, default: A)
    requires
        forall|j: int| 0 <= j < results.len() ==> results[j] is None,
    ensures
        first_some(results, default) == default,
    decreases results.len(),
{
    if results.len() > 0 {
        let rest = results.drop_first();
        assert forall|j: int| 0 <= j < rest.len() implies rest[j] is None by {
            assert(rest[j] == results[j + 1]);
        }
        lemma_default_fallback(rest, default);
    }
}

} // verus!
