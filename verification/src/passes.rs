use vstd::prelude::*;
use crate::permutation::{is_permutation, is_gathered, lemma_permutation_keeps_items};

verus! {

/// The bin that a raw key falls into: keys past the last bin are clamped to it.
pub open spec fn bin_of(key: u32, num_bins: u32) -> int {
    if key < num_bins {
        key as int
    } else {
        num_bins - 1
    }
}

/// How many of the first `upto` keys fall into `bin`.
pub open spec fn population(keys: Seq<u32>, num_bins: u32, bin: int, upto: int) -> nat
    decreases upto,
{
    if upto <= 0 {
        0
    } else {
        population(keys, num_bins, bin, upto - 1) + if bin_of(keys[upto - 1], num_bins) == bin {
            1nat
        } else {
            0nat
        }
    }
}

/// How many of the first `upto` keys fall into a bin before `bin`.
pub open spec fn below(keys: Seq<u32>, num_bins: u32, bin: int, upto: int) -> nat
    decreases upto,
{
    if upto <= 0 {
        0
    } else {
        below(keys, num_bins, bin, upto - 1) + if bin_of(keys[upto - 1], num_bins) < bin {
            1nat
        } else {
            0nat
        }
    }
}

/// The sum of the first `upto` entries of `counts`.
pub open spec fn prefix_total(counts: Seq<u32>, upto: int) -> nat
    decreases upto,
{
    if upto <= 0 {
        0
    } else {
        prefix_total(counts, upto - 1) + counts[upto - 1] as nat
    }
}

/// `counts` is the bin-count table of `keys`: one entry per bin, holding the
/// number of keys that fall into it.
pub open spec fn is_count_table(keys: Seq<u32>, num_bins: u32, counts: Seq<u32>) -> bool {
    &&& counts.len() == num_bins
    &&& forall|b: int|
        0 <= b < num_bins ==> #[trigger] counts[b] == population(keys, num_bins, b, keys.len() as int)
}

/// `prefix` is the exclusive prefix sum of `counts`: entry `i` holds the sum
/// of the entries of `counts` before `i`.
pub open spec fn is_prefix_table(counts: Seq<u32>, prefix: Seq<u32>) -> bool {
    &&& prefix.len() == counts.len()
    &&& forall|i: int| 0 <= i < counts.len() ==> #[trigger] prefix[i] == prefix_total(counts, i)
}

/// `prefix` holds the first slot of every bin of `keys`: entry `b` is the
/// number of keys that fall into a bin before `b`.
pub open spec fn is_offset_table(keys: Seq<u32>, num_bins: u32, prefix: Seq<u32>) -> bool {
    &&& prefix.len() == num_bins
    &&& forall|b: int|
        0 <= b < num_bins ==> #[trigger] prefix[b] == below(keys, num_bins, b, keys.len() as int)
}

/// The slot that particle `i` is moved to: behind all particles of earlier
/// bins, and behind the earlier particles of its own bin.
pub open spec fn slot_of(keys: Seq<u32>, num_bins: u32, i: int) -> nat {
    let bin = bin_of(keys[i], num_bins);
    below(keys, num_bins, bin, keys.len() as int) + population(keys, num_bins, bin, i)
}

/// `destination` and `source` describe the reordering of `keys` by bin:
/// `destination[i]` is the slot of particle `i`, and `source[s]` is the
/// particle in slot `s`.
pub open spec fn is_reordering(
    keys: Seq<u32>,
    num_bins: u32,
    destination: Seq<u32>,
    source: Seq<u32>,
) -> bool {
    &&& destination.len() == keys.len()
    &&& is_permutation(destination, source)
    &&& forall|i: int|
        0 <= i < keys.len() ==> (#[trigger] destination[i]) == slot_of(keys, num_bins, i)
}

/// No bin holds more of the first `upto` keys than there are.
pub proof fn lemma_population_bound(keys: Seq<u32>, num_bins: u32, bin: int, upto: int)
    requires
        0 <= upto,
    ensures
        population(keys, num_bins, bin, upto) <= upto,
    decreases upto,
{
    if upto > 0 {
        lemma_population_bound(keys, num_bins, bin, upto - 1);
    }
}

/// A bin's population only grows as more keys are counted.
pub proof fn lemma_population_grows(keys: Seq<u32>, num_bins: u32, bin: int, fewer: int, more: int)
    requires
        fewer <= more,
    ensures
        population(keys, num_bins, bin, fewer) <= population(keys, num_bins, bin, more),
    decreases more,
{
    if fewer < more && more > 0 {
        lemma_population_grows(keys, num_bins, bin, fewer, more - 1);
    }
}

/// The keys before bin `bin + 1` are those before `bin` and those in `bin`.
pub proof fn lemma_below_next(keys: Seq<u32>, num_bins: u32, bin: int, upto: int)
    ensures
        below(keys, num_bins, bin + 1, upto) == below(keys, num_bins, bin, upto) + population(
            keys,
            num_bins,
            bin,
            upto,
        ),
    decreases upto,
{
    if upto > 0 {
        lemma_below_next(keys, num_bins, bin, upto - 1);
    }
}

/// A later bin has at least as many keys before it.
pub proof fn lemma_below_grows(keys: Seq<u32>, num_bins: u32, lower: int, upper: int, upto: int)
    requires
        lower <= upper,
    ensures
        below(keys, num_bins, lower, upto) <= below(keys, num_bins, upper, upto),
    decreases upto,
{
    if upto > 0 {
        lemma_below_grows(keys, num_bins, lower, upper, upto - 1);
    }
}

/// No key falls before the first bin, and every key falls before the end of
/// the table.
pub proof fn lemma_below_ends(keys: Seq<u32>, num_bins: u32, upto: int)
    requires
        num_bins >= 1,
        0 <= upto,
    ensures
        below(keys, num_bins, 0, upto) == 0,
        below(keys, num_bins, num_bins as int, upto) == upto,
    decreases upto,
{
    if upto > 0 {
        lemma_below_ends(keys, num_bins, upto - 1);
    }
}

/// The prefix sums of a bin-count table are the first slots of the bins.
pub proof fn lemma_prefix_of_counts(keys: Seq<u32>, num_bins: u32, counts: Seq<u32>, upto: int)
    requires
        num_bins >= 1,
        is_count_table(keys, num_bins, counts),
        0 <= upto <= num_bins,
    ensures
        prefix_total(counts, upto) == below(keys, num_bins, upto, keys.len() as int),
    decreases upto,
{
    if upto > 0 {
        lemma_prefix_of_counts(keys, num_bins, counts, upto - 1);
        lemma_below_next(keys, num_bins, upto - 1, keys.len() as int);
    } else {
        lemma_below_ends(keys, num_bins, keys.len() as int);
    }
}

/// The exclusive prefix sum of the bin-count table of `keys` is their offset
/// table.
pub proof fn lemma_scan_gives_offsets(keys: Seq<u32>, num_bins: u32, counts: Seq<u32>, prefix: Seq<u32>)
    requires
        num_bins >= 1,
        is_count_table(keys, num_bins, counts),
        is_prefix_table(counts, prefix),
    ensures
        is_offset_table(keys, num_bins, prefix),
{
    assert forall|b: int| 0 <= b < num_bins implies #[trigger] prefix[b] == below(
        keys,
        num_bins,
        b,
        keys.len() as int,
    ) by {
        lemma_prefix_of_counts(keys, num_bins, counts, b);
    }
}

/// A partial sum never exceeds a later one.
pub proof fn lemma_prefix_total_grows(counts: Seq<u32>, fewer: int, more: int)
    requires
        fewer <= more,
    ensures
        prefix_total(counts, fewer) <= prefix_total(counts, more),
    decreases more,
{
    if fewer < more && more > 0 {
        lemma_prefix_total_grows(counts, fewer, more - 1);
    }
}

/// Clamps a raw key to the bins of the table.
pub fn clamp_bin(key: u32, num_bins: u32) -> (bin: u32)
    requires
        num_bins >= 1,
    ensures
        bin == bin_of(key, num_bins),
        bin < num_bins,
{
    if key < num_bins {
        key
    } else {
        num_bins - 1
    }
}

/// A table of `len` zeros.
pub fn zeroed(len: usize) -> (table: Vec<u32>)
    ensures
        table@ == Seq::new(len as nat, |i: int| 0u32),
{
    let mut table: Vec<u32> = Vec::new();
    let mut i: usize = 0;
    while i < len
        invariant
            i <= len,
            table@ == Seq::new(i as nat, |j: int| 0u32),
        decreases len - i,
    {
        table.push(0);
        i = i + 1;
        assert(table@ =~= Seq::new(i as nat, |j: int| 0u32));
    }
    table
}

/// The count pass: tallies, for every bin, the keys that fall into it.
pub fn count_pass(keys: &Vec<u32>, num_bins: u32) -> (counts: Vec<u32>)
    requires
        num_bins >= 1,
        keys.len() <= u32::MAX,
    ensures
        is_count_table(keys@, num_bins, counts@),
{
    let mut counts: Vec<u32> = zeroed(num_bins as usize);
    let mut i: usize = 0;
    while i < keys.len()
        invariant
            num_bins >= 1,
            keys.len() <= u32::MAX,
            i <= keys.len(),
            counts.len() == num_bins,
            forall|b: int|
                0 <= b < num_bins ==> #[trigger] counts[b] == population(keys@, num_bins, b, i as int),
        decreases keys.len() - i,
    {
        let bin: usize = clamp_bin(keys[i], num_bins) as usize;
        proof {
            lemma_population_bound(keys@, num_bins, bin as int, i as int);
        }
        let tally: u32 = counts[bin];
        counts.set(bin, tally + 1);
        i = i + 1;
    }
    counts
}

/// The scan pass: the exclusive prefix sum of a bin-count table.
pub fn scan_pass(counts: &Vec<u32>) -> (prefix: Vec<u32>)
    requires
        prefix_total(counts@, counts.len() as int) <= u32::MAX,
    ensures
        is_prefix_table(counts@, prefix@),
{
    let mut prefix: Vec<u32> = Vec::new();
    let mut running: u32 = 0;
    let mut i: usize = 0;
    while i < counts.len()
        invariant
            i <= counts.len(),
            prefix_total(counts@, counts.len() as int) <= u32::MAX,
            running == prefix_total(counts@, i as int),
            prefix.len() == i,
            forall|j: int| 0 <= j < i ==> #[trigger] prefix[j] == prefix_total(counts@, j),
        decreases counts.len() - i,
    {
        proof {
            lemma_prefix_total_grows(counts@, i + 1, counts.len() as int);
        }
        prefix.push(running);
        running = running + counts[i];
        i = i + 1;
    }
    prefix
}

/// Whether slot `s` belongs to `bin` and has been claimed once the first
/// `upto` particles are placed.
pub open spec fn claimed(keys: Seq<u32>, num_bins: u32, bin: int, s: int, upto: int) -> bool {
    &&& 0 <= bin < num_bins
    &&& below(keys, num_bins, bin, keys.len() as int) <= s
    &&& s < below(keys, num_bins, bin, keys.len() as int) + population(keys, num_bins, bin, upto)
}

/// The slots that a bin has claimed never pass the first slot of the next
/// bin, nor the end of the array.
pub proof fn lemma_bin_range(keys: Seq<u32>, num_bins: u32, bin: int, upto: int)
    requires
        num_bins >= 1,
        0 <= bin < num_bins,
        0 <= upto <= keys.len(),
    ensures
        below(keys, num_bins, bin, keys.len() as int) + population(keys, num_bins, bin, upto) <= below(
            keys,
            num_bins,
            bin + 1,
            keys.len() as int,
        ) <= keys.len(),
{
    let n = keys.len() as int;
    lemma_population_grows(keys, num_bins, bin, upto, n);
    lemma_below_next(keys, num_bins, bin, n);
    lemma_below_grows(keys, num_bins, bin + 1, num_bins as int, n);
    lemma_below_ends(keys, num_bins, n);
}

/// The slot of particle `i` lies in the range of its bin.
pub proof fn lemma_slot_in_bin_range(keys: Seq<u32>, num_bins: u32, i: int)
    requires
        num_bins >= 1,
        0 <= i < keys.len(),
    ensures
        below(keys, num_bins, bin_of(keys[i], num_bins), keys.len() as int) <= slot_of(keys, num_bins, i),
        slot_of(keys, num_bins, i) < below(keys, num_bins, bin_of(keys[i], num_bins), keys.len() as int)
            + population(keys, num_bins, bin_of(keys[i], num_bins), keys.len() as int),
        slot_of(keys, num_bins, i) < keys.len(),
        claimed(keys, num_bins, bin_of(keys[i], num_bins), slot_of(keys, num_bins, i) as int, i + 1),
{
    let bin = bin_of(keys[i], num_bins);
    assert(population(keys, num_bins, bin, i + 1) == population(keys, num_bins, bin, i) + 1);
    lemma_population_grows(keys, num_bins, bin, i + 1, keys.len() as int);
    lemma_bin_range(keys, num_bins, bin, i + 1);
}

/// A slot that some bin has claimed among the first `upto` particles is not
/// the slot of particle `upto`.
pub proof fn lemma_claimed_slot_is_taken(keys: Seq<u32>, num_bins: u32, bin: int, s: int, upto: int)
    requires
        num_bins >= 1,
        0 <= upto < keys.len(),
        claimed(keys, num_bins, bin, s, upto),
    ensures
        s != slot_of(keys, num_bins, upto),
{
    let n = keys.len() as int;
    let mine = bin_of(keys[upto], num_bins);
    if bin < mine {
        lemma_bin_range(keys, num_bins, bin, upto);
        lemma_below_grows(keys, num_bins, bin + 1, mine, n);
    } else if bin > mine {
        lemma_slot_in_bin_range(keys, num_bins, upto);
        lemma_below_next(keys, num_bins, mine, n);
        lemma_below_grows(keys, num_bins, mine + 1, bin, n);
    }
}

/// A claim stays a claim as more particles are placed.
pub proof fn lemma_claim_stays(keys: Seq<u32>, num_bins: u32, bin: int, s: int, fewer: int, more: int)
    requires
        fewer <= more,
        claimed(keys, num_bins, bin, s, fewer),
    ensures
        claimed(keys, num_bins, bin, s, more),
{
    lemma_population_grows(keys, num_bins, bin, fewer, more);
}

/// Two particles never share a slot.
pub proof fn lemma_slots_differ(keys: Seq<u32>, num_bins: u32, i: int, j: int)
    requires
        num_bins >= 1,
        0 <= i < j < keys.len(),
    ensures
        slot_of(keys, num_bins, i) != slot_of(keys, num_bins, j),
{
    lemma_slot_in_bin_range(keys, num_bins, i);
    lemma_claim_stays(
        keys,
        num_bins,
        bin_of(keys[i], num_bins),
        slot_of(keys, num_bins, i) as int,
        i + 1,
        j,
    );
    lemma_claimed_slot_is_taken(
        keys,
        num_bins,
        bin_of(keys[i], num_bins),
        slot_of(keys, num_bins, i) as int,
        j,
    );
}

/// Every slot of the array lies in the range of a bin at or before `limit`,
/// provided it lies before the first slot of bin `limit + 1`.
pub proof fn lemma_slot_has_bin(keys: Seq<u32>, num_bins: u32, s: int, limit: int) -> (bin: int)
    requires
        num_bins >= 1,
        0 <= limit < num_bins,
        0 <= s < below(keys, num_bins, limit + 1, keys.len() as int),
    ensures
        claimed(keys, num_bins, bin, s, keys.len() as int),
    decreases limit,
{
    let n = keys.len() as int;
    lemma_below_next(keys, num_bins, limit, n);
    if below(keys, num_bins, limit, n) <= s {
        limit
    } else {
        if limit == 0 {
            lemma_below_ends(keys, num_bins, n);
        }
        lemma_slot_has_bin(keys, num_bins, s, limit - 1)
    }
}

/// Where each particle goes, and which particle each slot receives.
#[derive(Debug)]
pub struct Reordering {
    /// `destination[i]` is the slot that particle `i` is written to.
    pub destination: Vec<u32>,
    /// `source[s]` is the particle that is written to slot `s`.
    pub source: Vec<u32>,
}

/// The reorder pass: every particle claims the next free slot of its bin,
/// starting from the bin's first slot in `prefix`.
pub fn reorder_pass(keys: &Vec<u32>, num_bins: u32, prefix: &Vec<u32>) -> (order: Reordering)
    requires
        num_bins >= 1,
        keys.len() <= u32::MAX,
        is_offset_table(keys@, num_bins, prefix@),
    ensures
        is_reordering(keys@, num_bins, order.destination@, order.source@),
{
    let n: usize = keys.len();
    let mut cursor: Vec<u32> = Vec::new();
    let mut b: usize = 0;
    while b < prefix.len()
        invariant
            b <= prefix.len(),
            cursor.len() == b,
            forall|k: int| 0 <= k < b ==> #[trigger] cursor[k] == prefix[k],
        decreases prefix.len() - b,
    {
        cursor.push(prefix[b]);
        b = b + 1;
    }
    let mut destination: Vec<u32> = Vec::new();
    let mut source: Vec<u32> = zeroed(n);
    let mut i: usize = 0;
    while i < n
        invariant
            num_bins >= 1,
            n == keys.len(),
            n <= u32::MAX,
            i <= n,
            cursor.len() == num_bins,
            forall|k: int|
                0 <= k < num_bins ==> #[trigger] cursor[k] == below(keys@, num_bins, k, n as int)
                    + population(keys@, num_bins, k, i as int),
            destination.len() == i,
            source.len() == n,
            forall|j: int| 0 <= j < i ==> (#[trigger] destination[j]) == slot_of(keys@, num_bins, j),
            forall|j: int|
                0 <= j < i ==> (#[trigger] destination[j]) < n && source[destination[j] as int] == j,
            forall|k: int, s: int| #[trigger]
                claimed(keys@, num_bins, k, s, i as int) ==> source[s] < i && destination[source[s] as int]
                    == s,
        decreases n - i,
    {
        let bin: usize = clamp_bin(keys[i], num_bins) as usize;
        let slot: u32 = cursor[bin];
        proof {
            lemma_slot_in_bin_range(keys@, num_bins, i as int);
            assert forall|j: int| 0 <= j < i implies (#[trigger] destination[j]) != slot by {
                lemma_slots_differ(keys@, num_bins, j, i as int);
            }
        }
        let ghost before = source@;
        destination.push(slot);
        source.set(slot as usize, i as u32);
        cursor.set(bin, slot + 1);
        proof {
            assert forall|k: int, s: int| #[trigger]
                claimed(keys@, num_bins, k, s, i + 1) implies source[s] < i + 1 && destination[source[s] as int]
                == s by {
                if s != slot {
                    assert(claimed(keys@, num_bins, k, s, i as int));
                    assert(source[s] == before[s]);
                }
            }
        }
        i = i + 1;
    }
    proof {
        assert forall|s: int| 0 <= s < n implies (#[trigger] source[s]) < n && destination[source[s] as int]
            == s by {
            lemma_below_ends(keys@, num_bins, n as int);
            let k = lemma_slot_has_bin(keys@, num_bins, s, num_bins - 1);
            assert(claimed(keys@, num_bins, k, s, n as int));
        }
    }
    Reordering { destination, source }
}

/// The tables and the reordering that one sort leaves behind.
#[derive(Debug)]
pub struct Sorted {
    /// For every bin, the number of particles in it.
    pub counts: Vec<u32>,
    /// For every bin, the slot of its first particle.
    pub prefix: Vec<u32>,
    /// Where each particle goes, and which particle each slot receives.
    pub order: Reordering,
}

/// One sort of `keys` into `num_bins` bins: the count pass, the scan pass and
/// the reorder pass, in that order.
pub fn sort_keys(keys: &Vec<u32>, num_bins: u32) -> (sorted: Sorted)
    requires
        num_bins >= 1,
        keys.len() <= u32::MAX,
    ensures
        is_count_table(keys@, num_bins, sorted.counts@),
        is_prefix_table(sorted.counts@, sorted.prefix@),
        is_reordering(keys@, num_bins, sorted.order.destination@, sorted.order.source@),
{
    let counts = count_pass(keys, num_bins);
    proof {
        lemma_prefix_of_counts(keys@, num_bins, counts@, num_bins as int);
        lemma_below_ends(keys@, num_bins, keys@.len() as int);
    }
    let prefix = scan_pass(&counts);
    proof {
        lemma_scan_gives_offsets(keys@, num_bins, counts@, prefix@);
    }
    let order = reorder_pass(keys, num_bins, &prefix);
    Sorted { counts, prefix, order }
}

/// Moves every item to its slot: slot `s` of the result holds the item that
/// `source[s]` names.
pub fn gather<T: Copy>(data: &Vec<T>, source: &Vec<u32>) -> (moved: Vec<T>)
    requires
        forall|s: int| 0 <= s < source.len() ==> (#[trigger] source[s]) < data.len(),
    ensures
        is_gathered(data@, source@, moved@),
{
    let mut moved: Vec<T> = Vec::new();
    let mut s: usize = 0;
    while s < source.len()
        invariant
            s <= source.len(),
            moved.len() == s,
            forall|k: int| 0 <= k < source.len() ==> (#[trigger] source[k]) < data.len(),
            forall|k: int| 0 <= k < s ==> (#[trigger] moved[k]) == data[source[k] as int],
        decreases source.len() - s,
    {
        moved.push(data[source[s] as usize]);
        s = s + 1;
    }
    moved
}


/// Two bins never claim the same slot.
pub proof fn lemma_claims_disjoint(keys: Seq<u32>, num_bins: u32, one: int, other: int, s: int)
    requires
        num_bins >= 1,
        claimed(keys, num_bins, one, s, keys.len() as int),
        claimed(keys, num_bins, other, s, keys.len() as int),
    ensures
        one == other,
{
    let n = keys.len() as int;
    if one < other {
        lemma_bin_range(keys, num_bins, one, n);
        lemma_below_grows(keys, num_bins, one + 1, other, n);
    } else if other < one {
        lemma_bin_range(keys, num_bins, other, n);
        lemma_below_grows(keys, num_bins, other + 1, one, n);
    }
}

/// The exclusive prefix sum law: the first entry is zero, and every later
/// entry is the entry before it plus the count before it.
pub proof fn lemma_exclusive_scan(counts: Seq<u32>, prefix: Seq<u32>)
    requires
        is_prefix_table(counts, prefix),
    ensures
        counts.len() > 0 ==> prefix[0] == 0,
        forall|i: int| 1 <= i < counts.len() ==> #[trigger] prefix[i] == prefix[i - 1] + counts[i - 1],
{
    assert forall|i: int| 1 <= i < counts.len() implies #[trigger] prefix[i] == prefix[i - 1] + counts[i
        - 1] by {
        assert(prefix[i - 1] == prefix_total(counts, i - 1));
    }
}

/// The scan is a function of the counts alone: two prefix tables of the same
/// counts are equal.
pub proof fn lemma_scan_is_determined(counts: Seq<u32>, one: Seq<u32>, other: Seq<u32>)
    requires
        is_prefix_table(counts, one),
        is_prefix_table(counts, other),
    ensures
        one == other,
{
    assert(one =~= other);
}

/// After the three passes the particles stand grouped by bin: the slots from
/// `prefix[bin]` on, `counts[bin]` of them, hold particles of `bin` and no
/// others, and every particle of `bin` stands in one of them.
pub proof fn lemma_grouped_by_bin(
    keys: Seq<u32>,
    num_bins: u32,
    counts: Seq<u32>,
    prefix: Seq<u32>,
    destination: Seq<u32>,
    source: Seq<u32>,
    bin: int,
)
    requires
        num_bins >= 1,
        is_count_table(keys, num_bins, counts),
        is_prefix_table(counts, prefix),
        is_reordering(keys, num_bins, destination, source),
        0 <= bin < num_bins,
    ensures
        prefix[bin] + counts[bin] <= keys.len(),
        forall|s: int|
            prefix[bin] <= s < prefix[bin] + counts[bin] ==> bin_of(
                keys[(#[trigger] source[s]) as int],
                num_bins,
            ) == bin,
        forall|i: int|
            0 <= i < keys.len() && bin_of(keys[i], num_bins) == bin ==> prefix[bin]
                <= #[trigger] destination[i] < prefix[bin] + counts[bin],
{
    let n = keys.len() as int;
    lemma_scan_gives_offsets(keys, num_bins, counts, prefix);
    lemma_bin_range(keys, num_bins, bin, n);
    assert forall|s: int| prefix[bin] <= s < prefix[bin] + counts[bin] implies bin_of(
        keys[(#[trigger] source[s]) as int],
        num_bins,
    ) == bin by {
        let i = source[s] as int;
        assert(destination[i] == s);
        lemma_slot_in_bin_range(keys, num_bins, i);
        lemma_claim_stays(keys, num_bins, bin_of(keys[i], num_bins), s, i + 1, n);
        assert(claimed(keys, num_bins, bin, s, n));
        lemma_claims_disjoint(keys, num_bins, bin, bin_of(keys[i], num_bins), s);
    }
    assert forall|i: int| 0 <= i < keys.len() && bin_of(keys[i], num_bins) == bin implies prefix[bin]
        <= #[trigger] destination[i] < prefix[bin] + counts[bin] by {
        lemma_slot_in_bin_range(keys, num_bins, i);
    }
}

/// The reorder pass loses and repeats nothing: what it moves has the length
/// and the multiset of what it was given.
pub proof fn lemma_reorder_keeps_particles<T>(
    keys: Seq<u32>,
    num_bins: u32,
    destination: Seq<u32>,
    source: Seq<u32>,
    data: Seq<T>,
    moved: Seq<T>,
)
    requires
        is_reordering(keys, num_bins, destination, source),
        data.len() == keys.len(),
        is_gathered(data, source, moved),
    ensures
        moved.len() == data.len(),
        moved.to_multiset() == data.to_multiset(),
{
    lemma_permutation_keeps_items(data, destination, source, moved);
}


} // verus!
