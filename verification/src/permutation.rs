use vstd::prelude::*;
use vstd::seq_lib::{to_multiset_build, to_multiset_remove, to_multiset_contains};

verus! {

/// `destination` and `source` are permutations of the same indices, each the
/// inverse of the other.
pub open spec fn is_permutation(destination: Seq<u32>, source: Seq<u32>) -> bool {
    &&& destination.len() == source.len()
    &&& forall|i: int|
        0 <= i < destination.len() ==> (#[trigger] destination[i]) < source.len()
            && source[destination[i] as int] == i
    &&& forall|s: int|
        0 <= s < source.len() ==> (#[trigger] source[s]) < destination.len()
            && destination[source[s] as int] == s
}

/// `moved` holds the items of `data` in the order that `source` names.
pub open spec fn is_gathered<T>(data: Seq<T>, source: Seq<u32>, moved: Seq<T>) -> bool {
    &&& moved.len() == source.len()
    &&& forall|s: int| 0 <= s < source.len() ==> (#[trigger] moved[s]) == data[source[s] as int]
}

proof fn lemma_rearranged<T>(data: Seq<T>, moved: Seq<T>, to: Seq<int>, from: Seq<int>)
    requires
        data.len() == moved.len(),
        to.len() == data.len(),
        from.len() == data.len(),
        forall|i: int| 0 <= i < to.len() ==> 0 <= #[trigger] to[i] < to.len() && from[to[i]] == i,
        forall|s: int| 0 <= s < from.len() ==> 0 <= #[trigger] from[s] < to.len() && to[from[s]] == s,
        forall|s: int| 0 <= s < from.len() ==> #[trigger] moved[s] == data[from[s]],
    ensures
        moved.to_multiset() == data.to_multiset(),
    decreases data.len(),
{
    let n = data.len() as int;
    if n == 0 {
        assert(moved =~= data);
    } else {
        let last = from[n - 1];
        let item = data[last];
        let fewer = data.remove(last);
        let front = moved.drop_last();
        let from2 = Seq::new(
            (n - 1) as nat,
            |s: int|
                if from[s] < last {
                    from[s]
                } else {
                    from[s] - 1
                },
        );
        let to2 = Seq::new(
            (n - 1) as nat,
            |i: int|
                if i < last {
                    to[i]
                } else {
                    to[i + 1]
                },
        );
        assert(to[last] == n - 1);
        assert forall|i: int| 0 <= i < to2.len() implies 0 <= #[trigger] to2[i] < to2.len() && from2[to2[i]]
            == i by {
            let j = if i < last {
                i
            } else {
                i + 1
            };
            assert(to[j] != n - 1) by {
                if to[j] == n - 1 {
                    assert(from[to[j]] == j);
                }
            }
        }
        assert forall|s: int| 0 <= s < from2.len() implies 0 <= #[trigger] from2[s] < to2.len() && to2[from2[s]]
            == s by {
            assert(from[s] != last) by {
                if from[s] == last {
                    assert(to[from[s]] == s);
                }
            }
        }
        assert forall|s: int| 0 <= s < from2.len() implies #[trigger] front[s] == fewer[from2[s]] by {
            assert(moved[s] == data[from[s]]);
        }
        lemma_rearranged(fewer, front, to2, from2);
        assert(moved =~= front.push(item)) by {
            assert(moved[n - 1] == data[from[n - 1]]);
        }
        to_multiset_build(front, item);
        to_multiset_remove(data, last);
        to_multiset_contains(data, item);
        assert(data.contains(item));
        assert(data.to_multiset().remove(item).insert(item) =~= data.to_multiset());
    }
}

/// Rearranging by a permutation keeps every item exactly as often as it was
/// there: the rearranged sequence has the length and the multiset of the
/// sequence it was made from.
pub proof fn lemma_permutation_keeps_items<T>(
    data: Seq<T>,
    destination: Seq<u32>,
    source: Seq<u32>,
    moved: Seq<T>,
)
    requires
        is_permutation(destination, source),
        data.len() == source.len(),
        is_gathered(data, source, moved),
    ensures
        moved.len() == data.len(),
        moved.to_multiset() == data.to_multiset(),
{
    let to = Seq::new(destination.len(), |i: int| destination[i] as int);
    let from = Seq::new(source.len(), |s: int| source[s] as int);
    assert forall|i: int| 0 <= i < to.len() implies 0 <= #[trigger] to[i] < to.len() && from[to[i]] == i by {
        assert(source[destination[i] as int] == i);
    }
    assert forall|s: int| 0 <= s < from.len() implies 0 <= #[trigger] from[s] < to.len() && to[from[s]]
        == s by {
        assert(destination[source[s] as int] == s);
    }
    lemma_rearranged(data, moved, to, from);
}

/// The sequence `0, 1, .., len - 1`: every particle's index, in order.
pub open spec fn identities(len: nat) -> Seq<u32> {
    Seq::new(len, |i: int| i as u32)
}

/// The source table of a permutation names every particle exactly once.
pub proof fn lemma_permutation_names_each_once(destination: Seq<u32>, source: Seq<u32>)
    requires
        is_permutation(destination, source),
        source.len() <= u32::MAX,
    ensures
        source.to_multiset() == identities(source.len()).to_multiset(),
{
    let ids = identities(source.len());
    assert(is_gathered(ids, source, source));
    lemma_permutation_keeps_items(ids, destination, source, source);
}

} // verus!
