use vstd::prelude::*;

use crate::apply_action_helpers::{bits_of, lemma_two_pow_monotone, two_pow};

verus! {

/// One sequence of coin flips (true = heads), in the order they were flipped.
pub struct CoinSeq(pub Vec<bool>);

/// The coin flips behind a branch of a forecast, when they are known.
pub enum CoinPaths {
    NotTracked,
    Exact(Vec<CoinSeq>),
}

/// The coin paths as plain values (`None` when they are not tracked).
pub open spec fn coin_paths_view(c: CoinPaths) -> Option<Seq<Seq<bool>>> {
    match c {
        CoinPaths::NotTracked => None,
        CoinPaths::Exact(v) => Some(v@.map_values(|s: CoinSeq| s.0@)),
    }
}

/// The coin paths of the branch with `h` heads out of `flips` coins: every sequence of
/// `flips` coins with exactly `h` heads, in bit order.
pub open spec fn heads_paths(flips: nat, h: nat) -> Seq<Seq<bool>> {
    sequences_with_heads_upto(flips, h, two_pow(flips))
}

/// The coin path of the branch with `h` heads when flipping until tails, at most `max_heads`
/// heads: `h` heads then a tails below the cap, `max_heads` heads at the cap.
pub open spec fn until_tails_path(max_heads: nat, h: nat) -> Seq<bool> {
    if h < max_heads {
        Seq::new(h, |i: int| true).push(false)
    } else {
        Seq::new(h, |i: int| true)
    }
}

/// One possible result of an action: it happens with probability `weight / denominator` of the
/// distribution it belongs to.
pub struct Branch<M> {
    pub weight: u64,
    pub mutation: M,
    pub coin_paths: CoinPaths,
}

/// A probability distribution over results: branch `i` happens with probability
/// `branches[i].weight / denominator`. Probabilities are exact fractions.
pub struct Outcomes<M> {
    pub denominator: u64,
    pub branches: Vec<Branch<M>>,
}

/// Sum of the weights of the branches.
pub open spec fn total_weight<M>(bs: Seq<Branch<M>>) -> int
    decreases bs.len(),
{
    if bs.len() == 0 {
        0
    } else {
        total_weight(bs.drop_last()) + bs.last().weight
    }
}

impl<M> Outcomes<M> {
    /// The weights sum to the denominator, which is positive: the probabilities sum to one.
    pub open spec fn is_distribution(&self) -> bool {
        &&& self.denominator > 0
        &&& total_weight(self.branches@) == self.denominator
    }

    /// Number of branches.
    pub fn len(&self) -> (r: usize)
        ensures
            r == self.branches@.len(),
    {
        self.branches.len()
    }

    /// A single result that happens for sure.
    pub fn single(mutation: M) -> (r: Outcomes<M>)
        ensures
            r.is_distribution(),
            r.denominator == 1,
            r.branches@.len() == 1,
            r.branches@[0].weight == 1,
            r.branches@[0].mutation == mutation,
            r.branches@[0].coin_paths is NotTracked,
    {
        let mut branches: Vec<Branch<M>> = Vec::new();
        branches.push(Branch { weight: 1, mutation, coin_paths: CoinPaths::NotTracked });
        let r = Outcomes { denominator: 1, branches };
        proof {
            assert(r.branches@.drop_last() =~= Seq::<Branch<M>>::empty());
            assert(total_weight(r.branches@.drop_last()) == 0);
            assert(total_weight(r.branches@) == total_weight(r.branches@.drop_last()) + r.branches@.last().weight);
        }
        r
    }

    /// One equally likely branch per mutation.
    pub fn from_uniform(mutations: Vec<M>) -> (r: Outcomes<M>)
        requires
            mutations@.len() > 0,
            mutations@.len() <= u64::MAX,
        ensures
            r.is_distribution(),
            r.denominator == mutations@.len(),
            r.branches@.len() == mutations@.len(),
            forall|i: int|
                0 <= i < r.branches@.len() ==> (#[trigger] r.branches@[i]).weight == 1
                    && r.branches@[i].mutation == mutations@[i] && r.branches@[i].coin_paths is NotTracked,
    {
        let n = mutations.len();
        let ghost ms = mutations@;
        let mut branches: Vec<Branch<M>> = Vec::new();
        let mut rest = mutations;
        let mut tail: Vec<Branch<M>> = Vec::new();
        // Taken from the back, so the branches are built in reverse and then put in order.
        while rest.len() > 0
            invariant
                rest@ == ms.subrange(0, rest@.len() as int),
                tail@.len() == ms.len() - rest@.len(),
                forall|i: int|
                    0 <= i < tail@.len() ==> (#[trigger] tail@[i]).weight == 1 && tail@[i].mutation
                        == ms[ms.len() - 1 - i] && tail@[i].coin_paths is NotTracked,
            decreases rest@.len(),
        {
            let m = rest.pop().unwrap();
            tail.push(Branch { weight: 1, mutation: m, coin_paths: CoinPaths::NotTracked });
            proof {
                assert(rest@ =~= ms.subrange(0, rest@.len() as int));
            }
        }
        while tail.len() > 0
            invariant
                tail@.len() + branches@.len() == ms.len(),
                forall|i: int|
                    0 <= i < tail@.len() ==> (#[trigger] tail@[i]).weight == 1 && tail@[i].mutation
                        == ms[ms.len() - 1 - i] && tail@[i].coin_paths is NotTracked,
                forall|i: int|
                    0 <= i < branches@.len() ==> (#[trigger] branches@[i]).weight == 1
                        && branches@[i].mutation == ms[i] && branches@[i].coin_paths is NotTracked,
                total_weight(branches@) == branches@.len(),
            decreases tail@.len(),
        {
            let b = tail.pop().unwrap();
            let ghost before = branches@;
            branches.push(b);
            proof {
                assert(branches@.drop_last() =~= before);
            }
        }
        Outcomes { denominator: n as u64, branches }
    }

    /// Heads and tails of one coin, each with probability 1/2.
    pub fn binary_coin(heads: M, tails: M) -> (r: Outcomes<M>)
        ensures
            r.is_distribution(),
            r.denominator == 2,
            r.branches@.len() == 2,
            r.branches@[0].weight == 1 && r.branches@[0].mutation == heads,
            r.branches@[1].weight == 1 && r.branches@[1].mutation == tails,
            coin_paths_view(r.branches@[0].coin_paths) == Some(seq![seq![true]]),
            coin_paths_view(r.branches@[1].coin_paths) == Some(seq![seq![false]]),
    {
        let mut h: Vec<bool> = Vec::new();
        h.push(true);
        let mut hs: Vec<CoinSeq> = Vec::new();
        hs.push(CoinSeq(h));
        let mut t: Vec<bool> = Vec::new();
        t.push(false);
        let mut ts: Vec<CoinSeq> = Vec::new();
        ts.push(CoinSeq(t));
        let mut branches: Vec<Branch<M>> = Vec::new();
        branches.push(Branch { weight: 1, mutation: heads, coin_paths: CoinPaths::Exact(hs) });
        let ghost one = branches@;
        branches.push(Branch { weight: 1, mutation: tails, coin_paths: CoinPaths::Exact(ts) });
        proof {
            assert(coin_paths_view(branches@[0].coin_paths).unwrap() =~= seq![seq![true]]);
            assert(coin_paths_view(branches@[1].coin_paths).unwrap() =~= seq![seq![false]]);
            assert(branches@.drop_last() =~= one);
            assert(one.drop_last() =~= Seq::<Branch<M>>::empty());
            assert(total_weight(one.drop_last()) == 0);
            assert(total_weight(one) == total_weight(one.drop_last()) + one.last().weight);
            assert(total_weight(branches@) == total_weight(one) + branches@.last().weight);
        }
        Outcomes { denominator: 2, branches }
    }

    /// The probabilities of the branches, as `(weight, denominator)` fractions.
    pub fn probabilities(&self) -> (r: Vec<(u64, u64)>)
        ensures
            r@.len() == self.branches@.len(),
            forall|i: int|
                0 <= i < r@.len() ==> (#[trigger] r@[i]) == (self.branches@[i].weight, self.denominator),
    {
        let mut r: Vec<(u64, u64)> = Vec::new();
        let mut i: usize = 0;
        while i < self.branches.len()
            invariant
                i <= self.branches@.len(),
                r@.len() == i,
                forall|k: int|
                    0 <= k < i ==> (#[trigger] r@[k]) == (self.branches@[k].weight, self.denominator),
            decreases self.branches@.len() - i,
        {
            r.push((self.branches[i].weight, self.denominator));
            i = i + 1;
        }
        r
    }
}

/// The binomial coefficient "n choose k" (Pascal's rule).
pub open spec fn binomial(n: nat, k: nat) -> nat
    decreases n,
{
    if k == 0 {
        1
    } else if n == 0 {
        0
    } else {
        binomial((n - 1) as nat, (k - 1) as nat) + binomial((n - 1) as nat, k)
    }
}

/// `binomial(n, 0) + ... + binomial(n, m - 1)`.
pub open spec fn choose_sum(n: nat, m: nat) -> nat
    decreases m,
{
    if m == 0 {
        0
    } else {
        choose_sum(n, (m - 1) as nat) + binomial(n, (m - 1) as nat)
    }
}

/// There are no ways to choose more than `n` of `n`.
pub proof fn lemma_choose_zero(n: nat, k: nat)
    requires
        k > n,
    ensures
        binomial(n, k) == 0,
    decreases n,
{
    if n > 0 {
        lemma_choose_zero((n - 1) as nat, (k - 1) as nat);
        lemma_choose_zero((n - 1) as nat, k);
    }
}

/// Pascal's rule summed over a row prefix.
pub proof fn lemma_choose_sum_step(n: nat, m: nat)
    requires
        n > 0,
    ensures
        choose_sum(n, m + 1) == choose_sum((n - 1) as nat, m + 1) + choose_sum((n - 1) as nat, m),
    decreases m,
{
    let p = (n - 1) as nat;
    if m > 0 {
        lemma_choose_sum_step(n, (m - 1) as nat);
        assert(choose_sum(n, m + 1) == choose_sum(n, m) + binomial(n, m));
        assert(binomial(n, m) == binomial(p, (m - 1) as nat) + binomial(p, m));
        assert(choose_sum(p, m + 1) == choose_sum(p, m) + binomial(p, m));
        assert(choose_sum(p, m) == choose_sum(p, (m - 1) as nat) + binomial(p, (m - 1) as nat));
    } else {
        assert(choose_sum(n, 1) == choose_sum(n, 0) + binomial(n, 0));
        assert(choose_sum(p, 1) == choose_sum(p, 0) + binomial(p, 0));
    }
}

/// There is one way to choose all `n` of `n`.
pub proof fn lemma_choose_all(n: nat)
    ensures
        binomial(n, n) == 1,
    decreases n,
{
    if n > 0 {
        lemma_choose_all((n - 1) as nat);
        lemma_choose_zero((n - 1) as nat, n);
    }
}

/// Law: the binomial coefficients of a row sum to a power of two — `2^n` equally likely coin
/// sequences, grouped by the number of heads.
pub proof fn lemma_binomial_row_sum(n: nat)
    ensures
        choose_sum(n, n + 1) == two_pow(n),
    decreases n,
{
    if n > 0 {
        let m = (n - 1) as nat;
        lemma_binomial_row_sum(m);
        lemma_choose_sum_step(n, n);
        lemma_choose_zero(m, n);
        assert(choose_sum(m, n + 1) == choose_sum(m, n) + binomial(m, n));
        assert(n == m + 1);
        assert(choose_sum(n, n + 1) == choose_sum(m, n + 1) + choose_sum(m, n));
        assert(two_pow(n) == 2 * two_pow(m));
    } else {
        assert(choose_sum(0, 1) == choose_sum(0, 0) + binomial(0, 0));
    }
}

/// Each binomial coefficient is at most the row sum.
pub proof fn lemma_choose_le_row(n: nat, k: nat)
    ensures
        binomial(n, k) <= two_pow(n),
{
    if k > n {
        lemma_choose_zero(n, k);
    } else {
        lemma_binomial_row_sum(n);
        lemma_choose_sum_monotone(n, k + 1, n + 1);
    }
}

/// Row prefix sums grow with the prefix.
pub proof fn lemma_choose_sum_monotone(n: nat, a: nat, b: nat)
    requires
        a <= b,
    ensures
        choose_sum(n, a) <= choose_sum(n, b),
    decreases b,
{
    if a < b {
        lemma_choose_sum_monotone(n, a, (b - 1) as nat);
    }
}

/// 2^63 fits in a `u64`.
pub proof fn lemma_two_pow_63()
    ensures
        two_pow(63) == 0x8000_0000_0000_0000,
{
    reveal_with_fuel(two_pow, 64);
}

/// 2^31 fits in a `usize`.
pub proof fn lemma_two_pow_31()
    ensures
        two_pow(31) == 0x8000_0000,
        two_pow(31) <= usize::MAX,
{
    reveal_with_fuel(two_pow, 32);
}

/// `bits_of(i, n)` has `n` entries.
pub proof fn lemma_bits_of_len(i: nat, n: nat)
    ensures
        crate::apply_action_helpers::bits_of(i, n).len() == n,
    decreases n,
{
    if n > 0 {
        lemma_bits_of_len(i / 2, (n - 1) as nat);
    }
}

impl Outcomes<()> {
    /// The number of ways to get `k` heads out of `n` coins.
    pub fn binomial_coefficient(n: usize, k: usize) -> (r: u64)
        requires
            n < 64,
        ensures
            r == binomial(n as nat, k as nat),
    {
        if k > n {
            proof {
                lemma_choose_zero(n as nat, k as nat);
            }
            return 0;
        }
        // row[j] == binomial(i, j) for j <= i
        let mut row: Vec<u64> = Vec::new();
        row.push(1);
        let mut i: usize = 0;
        while i < n
            invariant
                i <= n,
                n < 64,
                row@.len() == i + 1,
                forall|j: int| 0 <= j <= i ==> #[trigger] row@[j] == binomial(i as nat, j as nat),
            decreases n - i,
        {
            let mut next: Vec<u64> = Vec::new();
            next.push(1);
            let mut j: usize = 1;
            while j <= i
                invariant
                    1 <= j <= i + 1,
                    i < n,
                    n < 64,
                    row@.len() == i + 1,
                    forall|m: int| 0 <= m <= i ==> #[trigger] row@[m] == binomial(i as nat, m as nat),
                    next@.len() == j,
                    forall|m: int| 0 <= m < j ==> #[trigger] next@[m] == binomial((i + 1) as nat, m as nat),
                decreases i + 1 - j,
            {
                proof {
                    lemma_choose_le_row((i + 1) as nat, j as nat);
                    lemma_two_pow_monotone((i + 1) as nat, 63);
                    lemma_two_pow_63();
                }
                let v = row[j - 1] + row[j];
                next.push(v);
                j = j + 1;
            }
            proof {
                lemma_choose_zero(i as nat, (i + 1) as nat);
                lemma_choose_all(i as nat);
                lemma_choose_all((i + 1) as nat);
            }
            next.push(1);
            row = next;
            i = i + 1;
        }
        row[k]
    }

}


/// Number of heads in a coin sequence.
pub open spec fn count_heads(v: Seq<bool>) -> nat
    decreases v.len(),
{
    if v.len() == 0 {
        0
    } else {
        count_heads(v.drop_last()) + if v.last() {
            1nat
        } else {
            0nat
        }
    }
}

/// Counts the heads of a coin sequence.
fn heads_in(v: &Vec<bool>) -> (r: usize)
    ensures
        r == count_heads(v@),
{
    let mut r: usize = 0;
    let mut i: usize = 0;
    while i < v.len()
        invariant
            i <= v.len(),
            r == count_heads(v@.subrange(0, i as int)),
            r <= i,
        decreases v.len() - i,
    {
        proof {
            assert(v@.subrange(0, i as int + 1).drop_last() =~= v@.subrange(0, i as int));
        }
        if v[i] {
            r = r + 1;
        }
        i = i + 1;
    }
    proof {
        assert(v@.subrange(0, v@.len() as int) =~= v@);
    }
    r
}

/// The coin sequences `bits_of(k, flips)`, for `k` below `n`, that have exactly `heads` heads,
/// in the order of `k`.
pub open spec fn sequences_with_heads_upto(flips: nat, heads: nat, n: nat) -> Seq<Seq<bool>>
    decreases n,
{
    if n == 0 {
        Seq::empty()
    } else {
        let prev = sequences_with_heads_upto(flips, heads, (n - 1) as nat);
        let v = crate::apply_action_helpers::bits_of((n - 1) as nat, flips);
        if count_heads(v) == heads {
            prev.push(v)
        } else {
            prev
        }
    }
}

/// Every sequence of `flips` coins with exactly `heads` heads, in the order of the numbers whose
/// bits they are.
pub fn generate_sequences_with_heads(flips: usize, heads: usize) -> (r: Vec<Vec<bool>>)
    requires
        flips < 32,
    ensures
        forall|k: int|
            0 <= k < r@.len() ==> (#[trigger] r@[k])@.len() == flips && count_heads(r@[k]@) == heads,
        r@.len() == sequences_with_heads_upto(flips as nat, heads as nat, two_pow(flips as nat)).len(),
        forall|k: int|
            0 <= k < r@.len() ==> (#[trigger] r@[k])@ == sequences_with_heads_upto(
                flips as nat,
                heads as nat,
                two_pow(flips as nat),
            )[k],
{
    proof {
        lemma_two_pow_monotone(flips as nat, 31);
        lemma_two_pow_31();
    }
    let all = crate::apply_action_helpers::generate_boolean_vectors(flips);
    proof {
        assert forall|k: int| 0 <= k < all@.len() implies (#[trigger] all@[k])@.len() == flips by {
            lemma_bits_of_len(k as nat, flips as nat);
        }
    }
    let ghost whole = all@;
    let mut rest = all;
    let mut r: Vec<Vec<bool>> = Vec::new();
    let ghost mut i: nat = 0;
    proof {
        assert(rest@ =~= whole.subrange(0, whole.len() as int));
    }
    while rest.len() > 0
        invariant
            whole.len() == two_pow(flips as nat),
            forall|k: int| 0 <= k < whole.len() ==> (#[trigger] whole[k])@ == crate::apply_action_helpers::bits_of(
                k as nat,
                flips as nat,
            ),
            forall|k: int| 0 <= k < whole.len() ==> (#[trigger] whole[k])@.len() == flips,
            i <= whole.len(),
            rest@ == whole.subrange(i as int, whole.len() as int),
            forall|k: int|
                0 <= k < r@.len() ==> (#[trigger] r@[k])@.len() == flips && count_heads(r@[k]@) == heads,
            r@.len() == sequences_with_heads_upto(flips as nat, heads as nat, i).len(),
            forall|k: int|
                0 <= k < r@.len() ==> (#[trigger] r@[k])@ == sequences_with_heads_upto(flips as nat, heads as nat, i)[k],
        decreases rest@.len(),
    {
        let ghost before = rest@;
        let v = rest.remove(0);
        proof {
            assert(v == whole[i as int]);
            assert(rest@ =~= whole.subrange(i as int + 1, whole.len() as int));
        }
        let ghost prev = r@;
        if heads_in(&v) == heads {
            r.push(v);
            proof {
                assert forall|k: int| 0 <= k < r@.len() implies (#[trigger] r@[k])@ == sequences_with_heads_upto(
                    flips as nat,
                    heads as nat,
                    (i + 1) as nat,
                )[k] by {
                    if k < prev.len() {
                        assert(r@[k] == prev[k]);
                    }
                }
            }
        }
        proof {
            i = i + 1;
        }
    }
    proof {
        assert(i == whole.len());
    }
    r
}

/// Weight of the branch with `heads` heads when flipping until tails, at most `max_heads` heads,
/// out of `2^max_heads`: `2^(max_heads - heads - 1)` below the cap, and 1 at the cap.
pub open spec fn geometric_weight(max_heads: nat, heads: nat) -> nat {
    if heads < max_heads {
        two_pow((max_heads - heads - 1) as nat)
    } else {
        1
    }
}

/// Sum of the geometric weights of the first `k` branches.
pub open spec fn geometric_sum(max_heads: nat, k: nat) -> nat
    decreases k,
{
    if k == 0 {
        0
    } else {
        geometric_sum(max_heads, (k - 1) as nat) + geometric_weight(max_heads, (k - 1) as nat)
    }
}

/// The first `k` branches below the cap take `2^max - 2^(max - k)` of `2^max`.
pub proof fn lemma_geometric_sum(max_heads: nat, k: nat)
    requires
        k <= max_heads,
    ensures
        geometric_sum(max_heads, k) + two_pow((max_heads - k) as nat) == two_pow(max_heads),
    decreases k,
{
    if k > 0 {
        lemma_geometric_sum(max_heads, (k - 1) as nat);
        let e = (max_heads - k) as nat;
        assert(two_pow(e + 1) == 2 * two_pow(e));
        assert((max_heads - (k - 1)) as nat == e + 1);
    }
}

/// Law: flipping until tails (capped at `max_heads` heads) is a probability distribution.
pub proof fn lemma_geometric_total(max_heads: nat)
    ensures
        geometric_sum(max_heads, max_heads + 1) == two_pow(max_heads),
{
    lemma_geometric_sum(max_heads, max_heads);
}

/// The i-th mutation in order, consuming the vector.
fn zip_branches<M>(weights: &Vec<u64>, paths: Vec<CoinPaths>, mutations: Vec<M>) -> (r: Vec<Branch<M>>)
    requires
        weights@.len() == mutations@.len(),
        paths@.len() == mutations@.len(),
    ensures
        r@.len() == mutations@.len(),
        forall|i: int|
            0 <= i < r@.len() ==> (#[trigger] r@[i]).weight == weights@[i] && r@[i].mutation
                == mutations@[i] && r@[i].coin_paths == paths@[i],
{
    let ghost ms = mutations@;
    let ghost ps = paths@;
    let n = mutations.len();
    let mut rest = mutations;
    let mut rest_paths = paths;
    let mut r: Vec<Branch<M>> = Vec::new();
    let mut i: usize = 0;
    while rest.len() > 0
        invariant
            i <= ms.len(),
            rest@ == ms.subrange(i as int, ms.len() as int),
            rest_paths@ == ps.subrange(i as int, ps.len() as int),
            i + rest@.len() == ms.len(),
            ms.len() == n,
            ps.len() == ms.len(),
            weights@.len() == ms.len(),
            r@.len() == i,
            forall|k: int|
                0 <= k < i ==> (#[trigger] r@[k]).weight == weights@[k] && r@[k].mutation == ms[k]
                    && r@[k].coin_paths == ps[k],
        decreases rest@.len(),
    {
        let m = rest.remove(0);
        let p = rest_paths.remove(0);
        r.push(Branch { weight: weights[i], mutation: m, coin_paths: p });
        i = i + 1;
        proof {
            assert(rest@ =~= ms.subrange(i as int, ms.len() as int));
            assert(rest_paths@ =~= ps.subrange(i as int, ps.len() as int));
        }
    }
    r
}

/// Sum of the weights of a weight list's prefix.
pub open spec fn weight_sum(ws: Seq<u64>, k: int) -> int
    decreases k,
{
    if k <= 0 {
        0
    } else {
        weight_sum(ws, k - 1) + ws[k - 1]
    }
}

/// The total weight of zipped branches is the sum of the weights.
pub proof fn lemma_total_weight_zip<M>(bs: Seq<Branch<M>>, ws: Seq<u64>, k: int)
    requires
        0 <= k <= bs.len(),
        bs.len() == ws.len(),
        forall|i: int| 0 <= i < bs.len() ==> (#[trigger] bs[i]).weight == ws[i],
    ensures
        total_weight(bs.subrange(0, k)) == weight_sum(ws, k),
    decreases k,
{
    if k > 0 {
        lemma_total_weight_zip(bs, ws, k - 1);
        assert(bs.subrange(0, k).drop_last() =~= bs.subrange(0, k - 1));
    }
}

impl<M> Outcomes<M> {
    /// `flips` coins: the branch with `h` heads (probability `binomial(flips, h) / 2^flips`)
    /// gets `per_heads[h]`, and its coin paths are all the sequences with `h` heads.
    pub fn binomial_by_heads(flips: usize, per_heads: Vec<M>) -> (r: Outcomes<M>)
        requires
            flips < 32,
            per_heads@.len() == flips + 1,
        ensures
            r.is_distribution(),
            r.denominator == two_pow(flips as nat),
            r.branches@.len() == flips + 1,
            forall|h: int|
                0 <= h <= flips ==> (#[trigger] r.branches@[h]).weight == binomial(flips as nat, h as nat)
                    && r.branches@[h].mutation == per_heads@[h] && coin_paths_view(r.branches@[h].coin_paths)
                    == Some(heads_paths(flips as nat, h as nat)),
    {
        proof {
            lemma_two_pow_monotone(flips as nat, 63);
            lemma_two_pow_63();
        }
        let mut denominator: u64 = 1;
        let mut k: usize = 0;
        while k < flips
            invariant
                k <= flips,
                flips < 63,
                denominator == two_pow(k as nat),
            decreases flips - k,
        {
            proof {
                lemma_two_pow_monotone((k + 1) as nat, 63);
                lemma_two_pow_63();
            }
            denominator = denominator * 2;
            k = k + 1;
        }
        let mut weights: Vec<u64> = Vec::new();
        let mut paths: Vec<CoinPaths> = Vec::new();
        let mut heads: usize = 0;
        while heads <= flips
            invariant
                heads <= flips + 1,
                flips < 32,
                weights@.len() == heads,
                paths@.len() == heads,
                forall|h: int| 0 <= h < heads ==> #[trigger] weights@[h] == binomial(flips as nat, h as nat),
                forall|h: int|
                    0 <= h < heads ==> coin_paths_view(#[trigger] paths@[h]) == Some(heads_paths(flips as nat, h as nat)),
                weight_sum(weights@, heads as int) == choose_sum(flips as nat, heads as nat),
            decreases flips + 1 - heads,
        {
            let w = Outcomes::<()>::binomial_coefficient(flips, heads);
            let ghost before = weights@;
            weights.push(w);
            let seqs = generate_sequences_with_heads(flips, heads);
            let ghost want = heads_paths(flips as nat, heads as nat);
            let ghost all = seqs@;
            let mut coin_seqs: Vec<CoinSeq> = Vec::new();
            let mut rest = seqs;
            let ghost mut j: int = 0;
            while rest.len() > 0
                invariant
                    all.len() == want.len(),
                    forall|k: int| 0 <= k < all.len() ==> (#[trigger] all[k])@ == want[k],
                    0 <= j <= all.len(),
                    rest@ == all.subrange(j, all.len() as int),
                    coin_seqs@.len() == j,
                    forall|k: int| 0 <= k < j ==> (#[trigger] coin_seqs@[k]).0@ == want[k],
                decreases rest@.len(),
            {
                let v = rest.remove(0);
                proof {
                    assert(v == all[j]);
                    assert(rest@ =~= all.subrange(j + 1, all.len() as int));
                }
                coin_seqs.push(CoinSeq(v));
                proof {
                    j = j + 1;
                }
            }
            proof {
                assert(coin_seqs@.map_values(|s: CoinSeq| s.0@) =~= want);
            }
            let ghost path = CoinPaths::Exact(coin_seqs);
            let ghost before_paths = paths@;
            paths.push(CoinPaths::Exact(coin_seqs));
            proof {
                assert(forall|h: int| 0 <= h < heads ==> paths@[h] == before_paths[h]);
            }
            proof {
                lemma_weight_sum_prefix(before, weights@, heads as int);
                assert(weights@[heads as int] == w);
                assert(weight_sum(weights@, heads as int + 1) == weight_sum(weights@, heads as int) + w);
                assert(choose_sum(flips as nat, (heads + 1) as nat) == choose_sum(flips as nat, heads as nat)
                    + binomial(flips as nat, heads as nat));
            }
            heads = heads + 1;
        }
        let branches = zip_branches(&weights, paths, per_heads);
        proof {
            lemma_binomial_row_sum(flips as nat);
            lemma_total_weight_zip(branches@, weights@, branches@.len() as int);
            assert(branches@.subrange(0, branches@.len() as int) =~= branches@);
        }
        Outcomes { denominator, branches }
    }

    /// Flip until tails, with at most `max_heads` heads: the branch with `h` heads gets
    /// `per_heads[h]` and probability `1/2^(h+1)` below the cap, `1/2^max_heads` at the cap.
    pub fn geometric_until_tails(max_heads: usize, per_heads: Vec<M>) -> (r: Outcomes<M>)
        requires
            max_heads < 63,
            per_heads@.len() == max_heads + 1,
        ensures
            r.is_distribution(),
            r.denominator == two_pow(max_heads as nat),
            r.branches@.len() == max_heads + 1,
            forall|h: int|
                0 <= h <= max_heads ==> (#[trigger] r.branches@[h]).weight == geometric_weight(
                    max_heads as nat,
                    h as nat,
                ) && r.branches@[h].mutation == per_heads@[h] && coin_paths_view(r.branches@[h].coin_paths)
                    == Some(seq![until_tails_path(max_heads as nat, h as nat)]),
    {
        proof {
            lemma_two_pow_monotone(max_heads as nat, 63);
            lemma_two_pow_63();
        }
        let mut weights: Vec<u64> = Vec::new();
        let mut paths: Vec<CoinPaths> = Vec::new();
        let mut denominator: u64 = 1;
        let mut k: usize = 0;
        while k < max_heads
            invariant
                k <= max_heads,
                max_heads < 63,
                denominator == two_pow(k as nat),
            decreases max_heads - k,
        {
            proof {
                lemma_two_pow_monotone((k + 1) as nat, 63);
                lemma_two_pow_63();
            }
            denominator = denominator * 2;
            k = k + 1;
        }
        let mut heads: usize = 0;
        while heads <= max_heads
            invariant
                heads <= max_heads + 1,
                max_heads < 63,
                weights@.len() == heads,
                paths@.len() == heads,
                forall|h: int| 0 <= h < heads ==> #[trigger] weights@[h] == geometric_weight(max_heads as nat, h as nat),
                forall|h: int|
                    0 <= h < heads ==> coin_paths_view(#[trigger] paths@[h]) == Some(
                        seq![until_tails_path(max_heads as nat, h as nat)],
                    ),
                weight_sum(weights@, heads as int) == geometric_sum(max_heads as nat, heads as nat),
            decreases max_heads + 1 - heads,
        {
            let mut w: u64 = 1;
            if heads < max_heads {
                let mut e: usize = 0;
                while e < max_heads - heads - 1
                    invariant
                        heads < max_heads < 63,
                        e <= max_heads - heads - 1,
                        w == two_pow(e as nat),
                    decreases max_heads - heads - 1 - e,
                {
                    proof {
                        lemma_two_pow_monotone((e + 1) as nat, 63);
                        lemma_two_pow_63();
                    }
                    w = w * 2;
                    e = e + 1;
                }
            }
            let mut sequence: Vec<bool> = Vec::new();
            let mut j: usize = 0;
            while j < heads
                invariant
                    j <= heads,
                    sequence@ == Seq::new(j as nat, |i: int| true),
                decreases heads - j,
            {
                sequence.push(true);
                j = j + 1;
                proof {
                    assert(sequence@ =~= Seq::new(j as nat, |i: int| true));
                }
            }
            if heads < max_heads {
                sequence.push(false);
            }
            proof {
                assert(sequence@ =~= until_tails_path(max_heads as nat, heads as nat));
            }
            let mut seqs: Vec<CoinSeq> = Vec::new();
            seqs.push(CoinSeq(sequence));
            proof {
                assert(seqs@.map_values(|s: CoinSeq| s.0@) =~= seq![until_tails_path(max_heads as nat, heads as nat)]);
            }
            let ghost before_paths = paths@;
            paths.push(CoinPaths::Exact(seqs));
            proof {
                assert(forall|h: int| 0 <= h < heads ==> paths@[h] == before_paths[h]);
            }
            let ghost before = weights@;
            weights.push(w);
            proof {
                lemma_weight_sum_prefix(before, weights@, heads as int);
                assert(weights@[heads as int] == w);
                assert(weight_sum(weights@, heads as int + 1) == weight_sum(weights@, heads as int) + w);
                assert(geometric_sum(max_heads as nat, (heads + 1) as nat) == geometric_sum(max_heads as nat, heads as nat)
                    + geometric_weight(max_heads as nat, heads as nat));
            }
            heads = heads + 1;
        }
        let branches = zip_branches(&weights, paths, per_heads);
        proof {
            lemma_geometric_total(max_heads as nat);
            lemma_total_weight_zip(branches@, weights@, branches@.len() as int);
            assert(branches@.subrange(0, branches@.len() as int) =~= branches@);
        }
        Outcomes { denominator, branches }
    }
}

/// Appending to a weight list keeps the sums of its old prefixes.
pub proof fn lemma_weight_sum_prefix(a: Seq<u64>, b: Seq<u64>, k: int)
    requires
        0 <= k <= a.len(),
        a.len() <= b.len(),
        forall|i: int| 0 <= i < a.len() ==> a[i] == b[i],
    ensures
        weight_sum(a, k) == weight_sum(b, k),
    decreases k,
{
    if k > 0 {
        lemma_weight_sum_prefix(a, b, k - 1);
    }
}

/// A distribution as plain values: the denominator, and each branch's weight and result.
pub open spec fn outcomes_view<M>(o: Outcomes<M>) -> (int, Seq<(int, M)>) {
    (o.denominator as int, o.branches@.map_values(|b: Branch<M>| (b.weight as int, b.mutation)))
}

impl<M> Outcomes<M> {
    /// Branch `i` gets `mutations[i]` with probability `weights[i] / (sum of the weights)`.
    pub fn from_parts(weights: Vec<u64>, mutations: Vec<M>) -> (r: Outcomes<M>)
        requires
            weights@.len() == mutations@.len(),
            0 < weight_sum(weights@, weights@.len() as int) <= u64::MAX,
        ensures
            r.is_distribution(),
            r.denominator == weight_sum(weights@, weights@.len() as int),
            r.branches@.len() == mutations@.len(),
            forall|i: int|
                0 <= i < r.branches@.len() ==> (#[trigger] r.branches@[i]).weight == weights@[i]
                    && r.branches@[i].mutation == mutations@[i] && r.branches@[i].coin_paths is NotTracked,
    {
        let n = weights.len();
        let mut total: u64 = 0;
        let mut i: usize = 0;
        while i < n
            invariant
                i <= n,
                n == weights@.len(),
                total == weight_sum(weights@, i as int),
                weight_sum(weights@, n as int) <= u64::MAX,
            decreases n - i,
        {
            proof {
                lemma_weight_sum_monotone(weights@, i as int + 1, n as int);
            }
            total = total + weights[i];
            i = i + 1;
        }
        let mut paths: Vec<CoinPaths> = Vec::new();
        let mut j: usize = 0;
        while j < n
            invariant
                j <= n,
                paths@.len() == j,
                forall|x: int| 0 <= x < j ==> (#[trigger] paths@[x]) is NotTracked,
            decreases n - j,
        {
            paths.push(CoinPaths::NotTracked);
            j = j + 1;
        }
        let branches = zip_branches(&weights, paths, mutations);
        proof {
            lemma_total_weight_zip(branches@, weights@, branches@.len() as int);
            assert(branches@.subrange(0, branches@.len() as int) =~= branches@);
        }
        Outcomes { denominator: total, branches }
    }
}

/// Prefix sums of weights never decrease.
pub proof fn lemma_weight_sum_monotone(ws: Seq<u64>, a: int, b: int)
    requires
        0 <= a <= b <= ws.len(),
    ensures
        weight_sum(ws, a) <= weight_sum(ws, b),
    decreases b - a,
{
    if a < b {
        lemma_weight_sum_monotone(ws, a, b - 1);
    }
}

} // verus!
