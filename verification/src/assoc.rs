use vstd::prelude::*;

verus! {

/// The first position of `key` in a list of pairs, or -1 where no pair has it.
pub open spec fn index_of<V>(s: Seq<(Seq<char>, V)>, key: Seq<char>) -> int
    decreases s.len(),
{
    if s.len() == 0 {
        -1
    } else if s[0].0 == key {
        0
    } else {
        let rest = index_of(s.drop_first(), key);
        if rest < 0 {
            -1
        } else {
            rest + 1
        }
    }
}

/// `index_of` finds the first pair with `key` and fails only where there is none.
pub proof fn lemma_index_of<V>(s: Seq<(Seq<char>, V)>, key: Seq<char>)
    ensures
        -1 <= index_of(s, key) < s.len(),
        index_of(s, key) >= 0 ==> s[index_of(s, key)].0 == key,
        forall|i: int| 0 <= i < s.len() && s[i].0 == key ==> 0 <= index_of(s, key) <= i,
    decreases s.len(),
{
    if s.len() > 0 && s[0].0 != key {
        lemma_index_of(s.drop_first(), key);
        assert forall|i: int| 0 <= i < s.len() && s[i].0 == key implies 0 <= index_of(s, key)
            <= i by {
            assert(s.drop_first()[i - 1] == s[i]);
        }
    }
}

/// A pair with `key` that no pair with `key` precedes is the one that
/// `index_of` finds.
pub proof fn lemma_index_at<V>(s: Seq<(Seq<char>, V)>, key: Seq<char>, k: int)
    requires
        0 <= k < s.len(),
        s[k].0 == key,
        forall|j: int| 0 <= j < k ==> s[j].0 != key,
    ensures
        index_of(s, key) == k,
{
    lemma_index_of(s, key);
}

} // verus!
