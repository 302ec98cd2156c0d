//! Walking a list of names that holds each name once.
//!
//! The maps hand out their keys as such a list. A loop over it has dealt,
//! after `n` steps, with the names that `listed` gives for `n`.

use vstd::prelude::*;

use crate::maps::lists_each_once;

verus! {

/// The names among the first `n` of `names`.
pub open spec fn listed(names: Seq<String>, n: int) -> Set<Seq<char>> {
    Set::new(|k: Seq<char>| exists|j: int| 0 <= j < n && #[trigger] names[j]@ == k)
}

/// Once all of `names` are counted, `listed` is the set that `names` lists.
pub proof fn lemma_listed_all(names: Seq<String>, keys: Set<Seq<char>>)
    requires
        lists_each_once(names, keys),
    ensures
        listed(names, names.len() as int) == keys,
{
    assert forall|k: Seq<char>| listed(names, names.len() as int).contains(k) == keys.contains(
        k,
    ) by {
        if keys.contains(k) {
            let i = choose|i: int| 0 <= i < names.len() && #[trigger] names[i]@ == k;
            assert(names[i]@ == k);
        }
    }
    assert(listed(names, names.len() as int) =~= keys);
}

/// Counting one more name adds that name.
pub proof fn lemma_listed_step(names: Seq<String>, n: int)
    requires
        0 <= n < names.len(),
    ensures
        listed(names, n + 1) == listed(names, n).insert(names[n]@),
{
    assert forall|k: Seq<char>| listed(names, n + 1).contains(k) == listed(names, n).insert(
        names[n]@,
    ).contains(k) by {
        if listed(names, n + 1).contains(k) {
            let j = choose|j: int| 0 <= j < n + 1 && #[trigger] names[j]@ == k;
            if j < n {
                assert(names[j]@ == k);
            }
        }
        if listed(names, n).contains(k) {
            let j = choose|j: int| 0 <= j < n && #[trigger] names[j]@ == k;
            assert(names[j]@ == k);
        }
        if k == names[n]@ {
            assert(names[n]@ == k);
        }
    }
    assert(listed(names, n + 1) =~= listed(names, n).insert(names[n]@));
}

/// Where `names` holds nothing twice, the next name is not among those counted.
pub proof fn lemma_listed_fresh(names: Seq<String>, keys: Set<Seq<char>>, n: int)
    requires
        lists_each_once(names, keys),
        0 <= n < names.len(),
    ensures
        !listed(names, n).contains(names[n]@),
{
    if listed(names, n).contains(names[n]@) {
        let j = choose|j: int| 0 <= j < n && #[trigger] names[j]@ == names[n]@;
        assert(names[j]@ != names[n]@);
    }
}

/// Where the first `n` names differ from each other, they are `n` names.
pub proof fn lemma_listed_count(names: Seq<String>, n: int)
    requires
        0 <= n <= names.len(),
        forall|i: int, j: int| 0 <= i < j < n ==> #[trigger] names[i]@ != #[trigger] names[j]@,
    ensures
        listed(names, n).finite(),
        listed(names, n).len() == n,
    decreases n,
{
    if n == 0 {
        assert(listed(names, 0) =~= Set::<Seq<char>>::empty());
    } else {
        lemma_listed_count(names, n - 1);
        lemma_listed_step(names, n - 1);
        if listed(names, n - 1).contains(names[n - 1]@) {
            let j = choose|j: int| 0 <= j < n - 1 && #[trigger] names[j]@ == names[n - 1]@;
            assert(names[j]@ != names[n - 1]@);
        }
    }
}

} // verus!
