use vstd::prelude::*;

use crate::apply_attack_action::{attack_view, AttackEffect, AttackView};
use crate::attack_outcome::{outcome_view, AttackOutcome, AttackOutcomes, DamageTarget};
use crate::models::TurnEffect;
use crate::outcomes::{lemma_two_pow_31, weight_sum, Outcomes};
use crate::apply_action_helpers::two_pow;
use crate::state::{occupied_from, State, StateView};

verus! {

/// `n` to the power `k`.
pub open spec fn nat_pow(n: nat, k: nat) -> nat
    decreases k,
{
    if k == 0 {
        1
    } else {
        n * nat_pow(n, (k - 1) as nat)
    }
}

/// Powers of a positive base grow with the exponent.
pub proof fn lemma_nat_pow_monotone(n: nat, a: nat, b: nat)
    requires
        n >= 1,
        a <= b,
    ensures
        1 <= nat_pow(n, a) <= nat_pow(n, b),
    decreases b,
{
    if b > a {
        lemma_nat_pow_monotone(n, a, (b - 1) as nat);
        let p = nat_pow(n, (b - 1) as nat);
        assert(n * p >= p) by (nonlinear_arith)
            requires
                n >= 1,
                p >= 0,
        ;
    } else if b > 0 {
        lemma_nat_pow_monotone(n, 0, (b - 1) as nat);
        let p = nat_pow(n, (b - 1) as nat);
        assert(n * p >= p) by (nonlinear_arith)
            requires
                n >= 1,
                p >= 0,
        ;
    }
}

/// `a` comes strictly before `b` in (player, slot) order.
pub open spec fn target_before(a: (usize, usize), b: (usize, usize)) -> bool {
    a.0 < b.0 || (a.0 == b.0 && a.1 < b.1)
}

/// The first position at or after `k` whose target does not come before `t`
/// (the length of `dist` when there is none).
pub open spec fn insert_pos(dist: Seq<(usize, usize, u32)>, t: (usize, usize), k: int) -> int
    decreases dist.len() - k,
{
    if k < 0 || k >= dist.len() || !target_before((dist[k].0, dist[k].1), t) {
        k
    } else {
        insert_pos(dist, t, k + 1)
    }
}

/// The insertion position lies within the list.
proof fn lemma_insert_pos_range(dist: Seq<(usize, usize, u32)>, t: (usize, usize), k: int)
    requires
        0 <= k <= dist.len(),
    ensures
        k <= insert_pos(dist, t, k) <= dist.len(),
    decreases dist.len() - k,
{
    if k < dist.len() && target_before((dist[k].0, dist[k].1), t) {
        lemma_insert_pos_range(dist, t, k + 1);
    }
}

/// Entries from `k` up to the insertion position come before `t`; the entry there, if any,
/// does not.
proof fn lemma_insert_pos_before(dist: Seq<(usize, usize, u32)>, t: (usize, usize), k: int)
    requires
        0 <= k <= dist.len(),
    ensures
        forall|i: int| k <= i < insert_pos(dist, t, k) ==> target_before((#[trigger] dist[i].0, dist[i].1), t),
        insert_pos(dist, t, k) < dist.len() ==> !target_before(
            (dist[insert_pos(dist, t, k)].0, dist[insert_pos(dist, t, k)].1),
            t,
        ),
    decreases dist.len() - k,
{
    if k < dist.len() && target_before((dist[k].0, dist[k].1), t) {
        lemma_insert_pos_before(dist, t, k + 1);
    }
}

/// Entries strictly increase in (player, slot) order: sorted, one entry per target.
pub open spec fn strictly_sorted(dist: Seq<(usize, usize, u32)>) -> bool {
    forall|i: int, j: int|
        0 <= i < j < dist.len() ==> target_before((#[trigger] dist[i].0, dist[i].1), (#[trigger] dist[j].0, dist[j].1))
}

/// Inserting an entry whose target comes after those before `pos` and before those from `pos`
/// on keeps a list strictly sorted.
proof fn lemma_insert_sorted(dist: Seq<(usize, usize, u32)>, pos: int, e: (usize, usize, u32))
    requires
        strictly_sorted(dist),
        0 <= pos <= dist.len(),
        forall|i: int| 0 <= i < pos ==> target_before((#[trigger] dist[i].0, dist[i].1), (e.0, e.1)),
        pos < dist.len() ==> target_before((e.0, e.1), (dist[pos].0, dist[pos].1)),
    ensures
        strictly_sorted(dist.insert(pos, e)),
{
    let r = dist.insert(pos, e);
    dist.insert_ensures(pos, e);
    assert forall|i: int, j: int| 0 <= i < j < r.len() implies target_before(
        (#[trigger] r[i].0, r[i].1),
        (#[trigger] r[j].0, r[j].1),
    ) by {
        if j < pos {
            assert(target_before((dist[i].0, dist[i].1), (dist[j].0, dist[j].1)));
        } else if j == pos {
            assert(r[i] == dist[i]);
        } else {
            assert(r[j] == dist[j - 1]);
            if pos < j - 1 {
                assert(target_before((dist[pos].0, dist[pos].1), (dist[j - 1].0, dist[j - 1].1)));
            }
            if i < pos {
                assert(r[i] == dist[i]);
            } else if i > pos {
                assert(r[i] == dist[i - 1]);
                assert(target_before((dist[i - 1].0, dist[i - 1].1), (dist[j - 1].0, dist[j - 1].1)));
            }
        }
    }
}

/// A hit keeps a distribution strictly sorted.
pub proof fn lemma_add_hit_sorted(dist: Seq<(usize, usize, u32)>, t: (usize, usize), dmg: u32)
    requires
        strictly_sorted(dist),
    ensures
        strictly_sorted(add_hit(dist, t, dmg)),
{
    lemma_insert_pos_range(dist, t, 0);
    lemma_insert_pos_before(dist, t, 0);
    let pos = insert_pos(dist, t, 0);
    let r = add_hit(dist, t, dmg);
    if pos < dist.len() && dist[pos].0 == t.0 && dist[pos].1 == t.1 {
        assert forall|i: int, j: int| 0 <= i < j < r.len() implies target_before(
            (#[trigger] r[i].0, r[i].1),
            (#[trigger] r[j].0, r[j].1),
        ) by {
            assert(dist[i].0 == r[i].0 && dist[i].1 == r[i].1);
            assert(dist[j].0 == r[j].0 && dist[j].1 == r[j].1);
            assert(target_before((dist[i].0, dist[i].1), (dist[j].0, dist[j].1)));
        }
    } else {
        lemma_insert_sorted(dist, pos, (t.0, t.1, dmg));
    }
}

/// One hit of `dmg` on target `t`: the entry of `t` gains `dmg`, or, where `t` has none yet,
/// an entry `(t, dmg)` is inserted in front of the first entry that does not come before `t`.
/// Built hit by hit from the empty list, a distribution is sorted by (player, slot) and has
/// one entry per target hit.
pub open spec fn add_hit(dist: Seq<(usize, usize, u32)>, t: (usize, usize), dmg: u32) -> Seq<
    (usize, usize, u32),
> {
    let pos = insert_pos(dist, t, 0);
    if pos < dist.len() && dist[pos].0 == t.0 && dist[pos].1 == t.1 {
        dist.update(pos, (t.0, t.1, (dist[pos].2 + dmg) as u32))
    } else {
        dist.insert(pos, (t.0, t.1, dmg))
    }
}

/// The distribution after `k` more hits from `acc`, the target of each hit being the next
/// base-`n` digit of `rem` (least significant first), `n` the number of targets.
pub open spec fn hits_from(
    targets: Seq<(usize, usize)>,
    rem: nat,
    k: nat,
    dmg: u32,
    acc: Seq<(usize, usize, u32)>,
) -> Seq<(usize, usize, u32)>
    decreases k,
{
    if k == 0 || targets.len() == 0 {
        acc
    } else {
        let n = targets.len();
        hits_from(targets, rem / n, (k - 1) as nat, dmg, add_hit(acc, targets[(rem % n) as int], dmg))
    }
}

/// The damage distribution of targeting sequence number `s`: its `times` choices are the
/// base-`n` digits of `s`, each choice one hit of `dmg` on that target.
pub open spec fn sequence_damage(targets: Seq<(usize, usize)>, s: nat, times: nat, dmg: u32) -> Seq<
    (usize, usize, u32),
> {
    hits_from(targets, s, times, dmg, Seq::empty())
}

/// Hits keep a distribution strictly sorted.
proof fn lemma_hits_from_sorted(
    targets: Seq<(usize, usize)>,
    rem: nat,
    k: nat,
    dmg: u32,
    acc: Seq<(usize, usize, u32)>,
)
    requires
        strictly_sorted(acc),
    ensures
        strictly_sorted(hits_from(targets, rem, k, dmg, acc)),
    decreases k,
{
    if k > 0 && targets.len() > 0 {
        let n = targets.len();
        lemma_add_hit_sorted(acc, targets[(rem % n) as int], dmg);
        lemma_hits_from_sorted(targets, rem / n, (k - 1) as nat, dmg, add_hit(acc, targets[(rem % n) as int], dmg));
    }
}

/// Every sequence's distribution is strictly sorted by (player, slot).
pub proof fn lemma_sequence_damage_sorted(targets: Seq<(usize, usize)>, s: nat, times: nat, dmg: u32)
    ensures
        strictly_sorted(sequence_damage(targets, s, times, dmg)),
{
    lemma_hits_from_sorted(targets, s, times, dmg, Seq::empty());
}

/// How many of the targeting sequences numbered below `upto` give distribution `dist`.
pub open spec fn sequences_giving(
    targets: Seq<(usize, usize)>,
    times: nat,
    dmg: u32,
    upto: nat,
    dist: Seq<(usize, usize, u32)>,
) -> nat
    decreases upto,
{
    if upto == 0 {
        0
    } else {
        sequences_giving(targets, times, dmg, (upto - 1) as nat, dist) + if sequence_damage(
            targets,
            (upto - 1) as nat,
            times,
            dmg,
        ) == dist {
            1nat
        } else {
            0nat
        }
    }
}

/// `groups` with distribution `d` counted once more: its entry, where it has one, gains one;
/// otherwise `(1, d)` is appended.
pub open spec fn add_group(groups: Seq<(nat, Seq<(usize, usize, u32)>)>, d: Seq<(usize, usize, u32)>) -> Seq<
    (nat, Seq<(usize, usize, u32)>),
> {
    if exists|i: int| 0 <= i < groups.len() && (#[trigger] groups[i]).1 == d {
        let i = choose|i: int| 0 <= i < groups.len() && (#[trigger] groups[i]).1 == d;
        groups.update(i, (groups[i].0 + 1, d))
    } else {
        groups.push((1nat, d))
    }
}

/// The distributions of the targeting sequences numbered below `upto`, each with how many of
/// those sequences give it, in the order in which the distributions first occur.
pub open spec fn groups_upto(targets: Seq<(usize, usize)>, times: nat, dmg: u32, upto: nat) -> Seq<
    (nat, Seq<(usize, usize, u32)>),
>
    decreases upto,
{
    if upto == 0 {
        Seq::empty()
    } else {
        add_group(
            groups_upto(targets, times, dmg, (upto - 1) as nat),
            sequence_damage(targets, (upto - 1) as nat, times, dmg),
        )
    }
}

/// A list of counted distributions as plain values.
pub open spec fn counted_view(r: Seq<(u64, Vec<(usize, usize, u32)>)>) -> Seq<(nat, Seq<(usize, usize, u32)>)> {
    r.map_values(|e: (u64, Vec<(usize, usize, u32)>)| (e.0 as nat, e.1@))
}

/// A distribution that no sequence below `upto` gives is counted zero times.
proof fn lemma_sequences_giving_zero(
    targets: Seq<(usize, usize)>,
    times: nat,
    dmg: u32,
    upto: nat,
    dist: Seq<(usize, usize, u32)>,
)
    requires
        forall|s: nat| s < upto ==> #[trigger] sequence_damage(targets, s, times, dmg) != dist,
    ensures
        sequences_giving(targets, times, dmg, upto, dist) == 0,
    decreases upto,
{
    if upto > 0 {
        assert(sequence_damage(targets, (upto - 1) as nat, times, dmg) != dist);
        lemma_sequences_giving_zero(targets, times, dmg, (upto - 1) as nat, dist);
    }
}

/// No distribution is given by more sequences than there are.
proof fn lemma_sequences_giving_le(
    targets: Seq<(usize, usize)>,
    times: nat,
    dmg: u32,
    upto: nat,
    dist: Seq<(usize, usize, u32)>,
)
    ensures
        sequences_giving(targets, times, dmg, upto, dist) <= upto,
    decreases upto,
{
    if upto > 0 {
        lemma_sequences_giving_le(targets, times, dmg, (upto - 1) as nat, dist);
    }
}

/// `n` to the power `k`, for a result that fits.
fn power(n: usize, k: usize) -> (r: usize)
    requires
        n >= 1,
        nat_pow(n as nat, k as nat) <= usize::MAX,
    ensures
        r == nat_pow(n as nat, k as nat),
{
    let mut acc: usize = 1;
    let mut j: usize = 0;
    while j < k
        invariant
            j <= k,
            n >= 1,
            nat_pow(n as nat, k as nat) <= usize::MAX,
            acc == nat_pow(n as nat, j as nat),
        decreases k - j,
    {
        proof {
            lemma_nat_pow_monotone(n as nat, (j + 1) as nat, k as nat);
        }
        acc = n * acc;
        j = j + 1;
    }
    acc
}

/// Adds one hit of `dmg` on `t` to `dist`.
fn add_hit_in_place(dist: &mut Vec<(usize, usize, u32)>, t: (usize, usize), dmg: u32)
    requires
        forall|i: int| 0 <= i < old(dist)@.len() ==> #[trigger] old(dist)@[i].2 + dmg <= u32::MAX,
    ensures
        final(dist)@ == add_hit(old(dist)@, t, dmg),
{
    let mut k: usize = 0;
    while k < dist.len()
        invariant_except_break
            k <= dist@.len(),
            insert_pos(dist@, t, 0) == insert_pos(dist@, t, k as int),
        ensures
            k <= dist@.len(),
            insert_pos(dist@, t, 0) == k,
        decreases dist@.len() - k,
    {
        let e = dist[k];
        if !(e.0 < t.0 || (e.0 == t.0 && e.1 < t.1)) {
            break;
        }
        k = k + 1;
    }
    if k < dist.len() && dist[k].0 == t.0 && dist[k].1 == t.1 {
        let e = dist[k];
        dist.set(k, (t.0, t.1, e.2 + dmg));
    } else {
        dist.insert(k, (t.0, t.1, dmg));
    }
}

/// The damage distribution of targeting sequence number `seq_idx`.
fn damage_of_sequence(targets: &Vec<(usize, usize)>, seq_idx: usize, times: usize, dmg: u32) -> (r:
    Vec<(usize, usize, u32)>)
    requires
        targets@.len() > 0,
        times * dmg <= u32::MAX,
    ensures
        r@ == sequence_damage(targets@, seq_idx as nat, times as nat, dmg),
{
    let n = targets.len();
    let mut acc: Vec<(usize, usize, u32)> = Vec::new();
    let mut remaining: usize = seq_idx;
    let mut j: usize = 0;
    while j < times
        invariant
            n == targets@.len(),
            n > 0,
            j <= times,
            times * dmg <= u32::MAX,
            forall|i: int| 0 <= i < acc@.len() ==> #[trigger] acc@[i].2 <= j * dmg,
            sequence_damage(targets@, seq_idx as nat, times as nat, dmg) == hits_from(
                targets@,
                remaining as nat,
                (times - j) as nat,
                dmg,
                acc@,
            ),
        decreases times - j,
    {
        assert((j + 1) * dmg <= times * dmg) by (nonlinear_arith)
            requires
                j + 1 <= times,
        ;
        assert((j + 1) * dmg == j * dmg + dmg) by (nonlinear_arith);
        let t = targets[remaining % n];
        let ghost before = acc@;
        add_hit_in_place(&mut acc, t, dmg);
        proof {
            let pos = insert_pos(before, t, 0);
            lemma_insert_pos_range(before, t, 0);
            if !(pos < before.len() && before[pos].0 == t.0 && before[pos].1 == t.1) {
                before.insert_ensures(pos, (t.0, t.1, dmg));
            }
            assert forall|i: int| 0 <= i < acc@.len() implies #[trigger] acc@[i].2 <= (j + 1) * dmg by {
                if pos < before.len() && before[pos].0 == t.0 && before[pos].1 == t.1 {
                    if i != pos {
                        assert(acc@[i] == before[i]);
                    }
                } else {
                    if i < pos {
                        assert(acc@[i] == before[i]);
                    } else if i > pos {
                        assert(acc@[i] == before[i - 1]);
                    }
                }
            }
        }
        remaining = remaining / n;
        j = j + 1;
    }
    acc
}

/// Whether two distributions are equal.
fn same_distribution(a: &Vec<(usize, usize, u32)>, b: &Vec<(usize, usize, u32)>) -> (r: bool)
    ensures
        r == (a@ == b@),
{
    if a.len() != b.len() {
        return false;
    }
    let mut i: usize = 0;
    while i < a.len()
        invariant
            i <= a@.len(),
            a@.len() == b@.len(),
            forall|k: int| 0 <= k < i ==> a@[k] == b@[k],
        decreases a@.len() - i,
    {
        let x = a[i];
        let y = b[i];
        if x.0 != y.0 || x.1 != y.1 || x.2 != y.2 {
            assert(a@[i as int] != b@[i as int]);
            return false;
        }
        i = i + 1;
    }
    assert(a@ =~= b@);
    true
}

/// The index of `dist` in `dists`, if it occurs.
fn find_distribution(dists: &Vec<Vec<(usize, usize, u32)>>, dist: &Vec<(usize, usize, u32)>) -> (r:
    Option<usize>)
    ensures
        match r {
            Some(g) => g < dists@.len() && dists@[g as int]@ == dist@,
            None => forall|g: int| 0 <= g < dists@.len() ==> #[trigger] dists@[g]@ != dist@,
        },
{
    let mut g: usize = 0;
    while g < dists.len()
        invariant
            g <= dists@.len(),
            forall|h: int| 0 <= h < g ==> #[trigger] dists@[h]@ != dist@,
        decreases dists@.len() - g,
    {
        if same_distribution(&dists[g], dist) {
            return Some(g);
        }
        g = g + 1;
    }
    None
}

/// Every targeting of `times` hits of `damage_per_hit` among `possible_targets`, each of the
/// `n^times` sequences of choices (`n` the number of targets) equally likely, grouped by the
/// damage it deals. Each entry is `(count, distribution)`: `count` sequences out of `n^times`
/// give that distribution, a list of `(player, in_play_idx, total_damage)` sorted by player and
/// slot. The distributions are distinct, every sequence's distribution is listed, and the
/// counts sum to `n^times`; they come in the order in which they first occur among the
/// sequences. No targets, no outcomes.
pub fn enumerate_random_damage_outcomes(
    possible_targets: &Vec<(usize, usize)>,
    times: usize,
    damage_per_hit: u32,
) -> (r: Vec<(u64, Vec<(usize, usize, u32)>)>)
    requires
        possible_targets@.len() > 0 ==> nat_pow(possible_targets@.len(), times as nat) <= usize::MAX,
        possible_targets@.len() > 0 ==> times * damage_per_hit <= u32::MAX,
    ensures
        possible_targets@.len() == 0 ==> r@.len() == 0,
        possible_targets@.len() > 0 ==> {
            let total = nat_pow(possible_targets@.len(), times as nat);
            &&& counted_view(r@) == groups_upto(possible_targets@, times as nat, damage_per_hit, total)
            &&& forall|g: int|
                0 <= g < r@.len() ==> (#[trigger] r@[g]).0 == sequences_giving(
                    possible_targets@,
                    times as nat,
                    damage_per_hit,
                    total,
                    r@[g].1@,
                ) && r@[g].0 > 0
            &&& forall|g: int| 0 <= g < r@.len() ==> strictly_sorted((#[trigger] r@[g]).1@)
            &&& forall|g: int, h: int|
                0 <= g < h < r@.len() ==> (#[trigger] r@[g]).1@ != (#[trigger] r@[h]).1@
            &&& forall|s: nat|
                s < total ==> exists|g: int|
                    0 <= g < r@.len() && (#[trigger] r@[g]).1@ == #[trigger] sequence_damage(
                        possible_targets@,
                        s,
                        times as nat,
                        damage_per_hit,
                    )
            &&& weight_sum(r@.map_values(|e: (u64, Vec<(usize, usize, u32)>)| e.0), r@.len() as int)
                == total
        },
{
    let n = possible_targets.len();
    if n == 0 {
        return Vec::new();
    }
    let ghost targets = possible_targets@;
    let total = power(n, times);
    let mut counts: Vec<u64> = Vec::new();
    let mut dists: Vec<Vec<(usize, usize, u32)>> = Vec::new();
    let mut seq_idx: usize = 0;
    while seq_idx < total
        invariant
            targets == possible_targets@,
            n == targets.len(),
            n > 0,
            total == nat_pow(n as nat, times as nat),
            times * damage_per_hit <= u32::MAX,
            seq_idx <= total,
            counts@.len() == dists@.len(),
            forall|g: int|
                0 <= g < counts@.len() ==> (#[trigger] counts@[g]) == sequences_giving(
                    targets,
                    times as nat,
                    damage_per_hit,
                    seq_idx as nat,
                    dists@[g]@,
                ) && counts@[g] > 0,
            forall|g: int| 0 <= g < dists@.len() ==> strictly_sorted((#[trigger] dists@[g])@),
            forall|g: int, h: int|
                0 <= g < h < dists@.len() ==> (#[trigger] dists@[g])@ != (#[trigger] dists@[h])@,
            forall|s: nat|
                s < seq_idx ==> exists|g: int|
                    0 <= g < dists@.len() && (#[trigger] dists@[g])@ == #[trigger] sequence_damage(
                        targets,
                        s,
                        times as nat,
                        damage_per_hit,
                    ),
            weight_sum(counts@, counts@.len() as int) == seq_idx,
            groups_upto(targets, times as nat, damage_per_hit, seq_idx as nat).len() == counts@.len(),
            forall|g: int|
                0 <= g < counts@.len() ==> #[trigger] groups_upto(
                    targets,
                    times as nat,
                    damage_per_hit,
                    seq_idx as nat,
                )[g] == (counts@[g] as nat, dists@[g]@),
        decreases total - seq_idx,
    {
        let dist = damage_of_sequence(possible_targets, seq_idx, times, damage_per_hit);
        let ghost cur = sequence_damage(targets, seq_idx as nat, times as nat, damage_per_hit);
        let ghost old_counts = counts@;
        let ghost old_dists = dists@;
        let ghost old_groups = groups_upto(targets, times as nat, damage_per_hit, seq_idx as nat);
        assert(groups_upto(targets, times as nat, damage_per_hit, (seq_idx + 1) as nat) == add_group(old_groups, cur));
        match find_distribution(&dists, &dist) {
            Some(g) => {
                let c = counts[g];
                proof {
                    lemma_sequences_giving_le(targets, times as nat, damage_per_hit, seq_idx as nat, dists@[g as int]@);
                }
                counts.set(g, c + 1);
                proof {
                    assert forall|h: int| 0 <= h < counts@.len() implies (#[trigger] counts@[h])
                        == sequences_giving(
                        targets,
                        times as nat,
                        damage_per_hit,
                        (seq_idx + 1) as nat,
                        dists@[h]@,
                    ) && counts@[h] > 0 by {
                        if h != g {
                            assert(old_counts[h] == counts@[h]);
                            if h < g {
                                assert(dists@[h]@ != dists@[g as int]@);
                            } else {
                                assert(dists@[g as int]@ != dists@[h]@);
                            }
                        }
                    }
                    assert forall|s: nat| s < seq_idx + 1 implies exists|k: int|
                        0 <= k < dists@.len() && (#[trigger] dists@[k])@ == #[trigger] sequence_damage(
                            targets,
                            s,
                            times as nat,
                            damage_per_hit,
                        ) by {
                        if s == seq_idx {
                            assert(dists@[g as int]@ == sequence_damage(
                                targets,
                                s,
                                times as nat,
                                damage_per_hit,
                            ));
                        }
                    }
                    lemma_weight_sum_update(old_counts, g as int);
                    assert(old_groups[g as int].1 == cur);
                    let i = choose|i: int| 0 <= i < old_groups.len() && (#[trigger] old_groups[i]).1 == cur;
                    assert(old_groups[i] == (old_counts[i] as nat, old_dists[i]@));
                    if i != g {
                        if i < g {
                            assert(old_dists[i]@ != old_dists[g as int]@);
                        } else {
                            assert(old_dists[g as int]@ != old_dists[i]@);
                        }
                    }
                    let new_groups = groups_upto(targets, times as nat, damage_per_hit, (seq_idx + 1) as nat);
                    assert forall|h: int| 0 <= h < counts@.len() implies #[trigger] new_groups[h] == (
                        counts@[h] as nat,
                        dists@[h]@,
                    ) by {
                        assert(old_groups[h] == (old_counts[h] as nat, old_dists[h]@));
                    }
                }
            },
            None => {
                proof {
                    assert forall|s: nat| s < seq_idx implies #[trigger] sequence_damage(
                        targets,
                        s,
                        times as nat,
                        damage_per_hit,
                    ) != cur by {
                        let k = choose|k: int|
                            0 <= k < old_dists.len() && (#[trigger] old_dists[k])@ == #[trigger] sequence_damage(
                                targets,
                                s,
                                times as nat,
                                damage_per_hit,
                            );
                        assert(old_dists[k]@ != dist@);
                    }
                    lemma_sequences_giving_zero(targets, times as nat, damage_per_hit, seq_idx as nat, cur);
                }
                proof {
                    lemma_sequence_damage_sorted(targets, seq_idx as nat, times as nat, damage_per_hit);
                }
                counts.push(1);
                dists.push(dist);
                proof {
                    assert forall|h: int| 0 <= h < counts@.len() implies (#[trigger] counts@[h])
                        == sequences_giving(
                        targets,
                        times as nat,
                        damage_per_hit,
                        (seq_idx + 1) as nat,
                        dists@[h]@,
                    ) && counts@[h] > 0 by {
                        if h < old_counts.len() {
                            assert(old_counts[h] == counts@[h]);
                            assert(old_dists[h] == dists@[h]);
                            assert(old_dists[h]@ != cur);
                        }
                    }
                    assert forall|a: int, b: int|
                        0 <= a < b < dists@.len() implies (#[trigger] dists@[a])@ != (#[trigger] dists@[b])@ by {
                        if b == old_dists.len() {
                            assert(dists@[a] == old_dists[a]);
                        } else {
                            assert(dists@[a] == old_dists[a]);
                            assert(dists@[b] == old_dists[b]);
                        }
                    }
                    assert forall|s: nat| s < seq_idx + 1 implies exists|k: int|
                        0 <= k < dists@.len() && (#[trigger] dists@[k])@ == #[trigger] sequence_damage(
                            targets,
                            s,
                            times as nat,
                            damage_per_hit,
                        ) by {
                        if s == seq_idx {
                            assert(dists@[old_dists.len() as int]@ == cur);
                        } else {
                            let k = choose|k: int|
                                0 <= k < old_dists.len() && (#[trigger] old_dists[k])@ == #[trigger] sequence_damage(
                                    targets,
                                    s,
                                    times as nat,
                                    damage_per_hit,
                                );
                            assert(dists@[k] == old_dists[k]);
                        }
                    }
                    lemma_weight_sum_prefix_push(old_counts, 1);
                    assert(counts@ =~= old_counts.push(1));
                    assert(!exists|i: int| 0 <= i < old_groups.len() && (#[trigger] old_groups[i]).1 == cur) by {
                        assert forall|i: int| 0 <= i < old_groups.len() implies (#[trigger] old_groups[i]).1 != cur by {
                            assert(old_groups[i] == (old_counts[i] as nat, old_dists[i]@));
                        }
                    }
                    let new_groups = groups_upto(targets, times as nat, damage_per_hit, (seq_idx + 1) as nat);
                    assert forall|h: int| 0 <= h < counts@.len() implies #[trigger] new_groups[h] == (
                        counts@[h] as nat,
                        dists@[h]@,
                    ) by {
                        if h < old_counts.len() {
                            assert(old_groups[h] == (old_counts[h] as nat, old_dists[h]@));
                            assert(dists@[h] == old_dists[h]);
                        }
                    }
                }
            },
        }
        seq_idx = seq_idx + 1;
    }
    let mut result: Vec<(u64, Vec<(usize, usize, u32)>)> = Vec::new();
    let ghost all_dists = dists@;
    let ghost all_counts = counts@;
    assert(all_dists.len() == dists.len());
    let mut rest = dists;
    let mut i: usize = 0;
    while rest.len() > 0
        invariant
            i + rest@.len() == all_dists.len(),
            all_dists.len() <= usize::MAX,
            all_counts.len() == all_dists.len(),
            counts@ == all_counts,
            forall|g: int| 0 <= g < all_dists.len() ==> strictly_sorted((#[trigger] all_dists[g])@),
            groups_upto(targets, times as nat, damage_per_hit, total as nat).len() == all_counts.len(),
            forall|g: int|
                0 <= g < all_counts.len() ==> #[trigger] groups_upto(
                    targets,
                    times as nat,
                    damage_per_hit,
                    total as nat,
                )[g] == (all_counts[g] as nat, all_dists[g]@),
            rest@ == all_dists.subrange(i as int, all_dists.len() as int),
            result@.len() == i,
            forall|k: int|
                0 <= k < i ==> (#[trigger] result@[k]).0 == all_counts[k] && result@[k].1 == all_dists[k],
        decreases rest@.len(),
    {
        let d = rest.remove(0);
        result.push((counts[i], d));
        proof {
            assert(rest@ =~= all_dists.subrange(i as int + 1, all_dists.len() as int));
        }
        i = i + 1;
    }
    proof {
        let ws = result@.map_values(|e: (u64, Vec<(usize, usize, u32)>)| e.0);
        assert(ws =~= all_counts);
        let gs = groups_upto(targets, times as nat, damage_per_hit, total as nat);
        assert(counted_view(result@) =~= gs) by {
            assert forall|g: int| 0 <= g < gs.len() implies #[trigger] counted_view(result@)[g] == gs[g] by {
                assert(result@[g].1 == all_dists[g]);
            }
        }
        assert forall|s: nat| s < total implies exists|g: int|
            0 <= g < result@.len() && (#[trigger] result@[g]).1@ == #[trigger] sequence_damage(
                targets,
                s,
                times as nat,
                damage_per_hit,
            ) by {
            let k = choose|k: int|
                0 <= k < all_dists.len() && (#[trigger] all_dists[k])@ == #[trigger] sequence_damage(
                    targets,
                    s,
                    times as nat,
                    damage_per_hit,
                );
            assert(result@[k].1 == all_dists[k]);
        }
        assert forall|g: int| 0 <= g < result@.len() implies strictly_sorted((#[trigger] result@[g]).1@) by {
            assert(result@[g].1 == all_dists[g]);
        }
        assert forall|g: int, h: int|
            0 <= g < h < result@.len() implies (#[trigger] result@[g]).1@ != (#[trigger] result@[h]).1@ by {
            assert(result@[g].1 == all_dists[g]);
            assert(result@[h].1 == all_dists[h]);
        }
    }
    result
}

/// Raising one entry by one raises the sum by one.
proof fn lemma_weight_sum_update(ws: Seq<u64>, g: int)
    requires
        0 <= g < ws.len(),
        ws[g] < u64::MAX,
    ensures
        weight_sum(ws.update(g, (ws[g] + 1) as u64), ws.len() as int) == weight_sum(ws, ws.len() as int) + 1,
    decreases ws.len(),
{
    let us = ws.update(g, (ws[g] + 1) as u64);
    if g == ws.len() - 1 {
        lemma_weight_sum_same_prefix(ws, us, ws.len() - 1);
    } else {
        lemma_weight_sum_update(ws.drop_last(), g);
        assert(ws.drop_last().update(g, (ws[g] + 1) as u64) =~= us.drop_last());
        lemma_weight_sum_same_prefix(us.drop_last(), us, us.len() - 1);
        lemma_weight_sum_same_prefix(ws.drop_last(), ws, ws.len() - 1);
    }
}

/// Sums of the first `k` entries depend on those entries only.
proof fn lemma_weight_sum_same_prefix(a: Seq<u64>, b: Seq<u64>, k: int)
    requires
        0 <= k <= a.len(),
        k <= b.len(),
        forall|i: int| 0 <= i < k ==> a[i] == b[i],
    ensures
        weight_sum(a, k) == weight_sum(b, k),
    decreases k,
{
    if k > 0 {
        lemma_weight_sum_same_prefix(a, b, k - 1);
    }
}

/// Pushing an entry adds it to the sum.
proof fn lemma_weight_sum_prefix_push(ws: Seq<u64>, w: u64)
    ensures
        weight_sum(ws.push(w), ws.len() as int + 1) == weight_sum(ws, ws.len() as int) + w,
{
    lemma_weight_sum_same_prefix(ws, ws.push(w), ws.len() as int);
}


/// The targets of a random spread by `actor`: every Pokémon of the opponent in play, then, with
/// `include_own_bench`, `actor`'s Benched Pokémon, each as `(player, in_play_idx)`.
pub open spec fn spread_targets(s: StateView, actor: int, include_own_bench: bool) -> Seq<(usize, usize)> {
    let opp = 1 - actor;
    s.in_play_indices(opp).map_values(|i: usize| (opp as usize, i)) + if include_own_bench {
        s.bench_indices(actor).map_values(|i: usize| (actor as usize, i))
    } else {
        Seq::empty()
    }
}

/// Hits that the first `k` turn effects add to the random spread of the attack titled `title`.
pub open spec fn extra_hits_upto(tes: Seq<TurnEffect>, title: Seq<char>, k: int) -> nat
    decreases k,
{
    if k <= 0 {
        0
    } else {
        extra_hits_upto(tes, title, k - 1) + match tes[k - 1] {
            TurnEffect::ExtraRandomSpreadHits { amount, attack_name } => if attack_name@ == title {
                amount as nat
            } else {
                0nat
            },
            _ => 0nat,
        }
    }
}

/// Hits that the turn effects in force add to the random spread of the attack titled `title`.
pub open spec fn extra_spread_hits(s: StateView, title: Seq<char>) -> nat {
    extra_hits_upto(s.turn_effects, title, s.turn_effects.len() as int)
}

/// Counting more turn effects never counts fewer hits.
proof fn lemma_extra_hits_monotone(tes: Seq<TurnEffect>, title: Seq<char>, a: int, b: int)
    requires
        a <= b,
    ensures
        extra_hits_upto(tes, title, a) <= extra_hits_upto(tes, title, b),
    decreases b - a,
{
    if a < b {
        lemma_extra_hits_monotone(tes, title, a, b - 1);
    }
}

/// A distribution's damage as targets seen from `actor`.
pub open spec fn relative_damage(d: Seq<(usize, usize, u32)>, actor: int) -> Seq<DamageTarget> {
    d.map_values(|e: (usize, usize, u32)| (e.2, e.0 != actor, e.1))
}

/// Whether `hits` random hits of `dmg` among `n` targets are within what this library
/// forecasts: at most 64 hits, at most 2^31 targeting sequences, damage that fits a `u32`.
pub open spec fn random_hits_fit(n: nat, hits: nat, dmg: u32) -> bool {
    hits <= 64 && nat_pow(n, hits) <= two_pow(31) && hits * dmg <= u32::MAX
}

/// `hits` random hits of `dmg` among `targets` as a forecast: one branch per distinct damage
/// distribution, weighted by how many targeting sequences give it out of `n^hits`, each dealing
/// its damage and then `also`.
pub open spec fn random_hits_view(
    targets: Seq<(usize, usize)>,
    hits: nat,
    dmg: u32,
    actor: int,
    also: Seq<DamageTarget>,
) -> AttackView {
    let total = nat_pow(targets.len(), hits);
    (
        total as int,
        groups_upto(targets, hits, dmg, total).map_values(
            |g: (nat, Seq<(usize, usize, u32)>)|
                (g.0 as int, (relative_damage(g.1, actor) + also, Seq::empty(), Seq::empty(), Seq::empty())),
        ),
    )
}

/// Appends `(player, i)` for each index `i`.
fn push_tagged(r: &mut Vec<(usize, usize)>, player: usize, idxs: &Vec<usize>)
    ensures
        final(r)@ == old(r)@ + idxs@.map_values(|i: usize| (player, i)),
{
    let ghost start = r@;
    let mut k: usize = 0;
    while k < idxs.len()
        invariant
            k <= idxs@.len(),
            r@ == start + idxs@.subrange(0, k as int).map_values(|i: usize| (player, i)),
        decreases idxs@.len() - k,
    {
        r.push((player, idxs[k]));
        k = k + 1;
        proof {
            assert(r@ =~= start + idxs@.subrange(0, k as int).map_values(|i: usize| (player, i)));
        }
    }
    proof {
        assert(idxs@.subrange(0, idxs@.len() as int) =~= idxs@);
    }
}

/// The targets of a random spread by `actor`.
pub fn spread_targets_exec(state: &State, actor: usize, include_own_bench: bool) -> (r: Vec<(usize, usize)>)
    requires
        state.wf(),
        actor < 2,
    ensures
        r@ == spread_targets(state@, actor as int, include_own_bench),
        r@.len() <= 7,
{
    let opp = 1 - actor;
    let in_play = state.enumerate_in_play_pokemon(opp);
    let mut r: Vec<(usize, usize)> = Vec::new();
    push_tagged(&mut r, opp, &in_play);
    proof {
        assert(state@.board[opp as int] == state.in_play_pokemon@[opp as int]@);
        assert(state@.board[actor as int] == state.in_play_pokemon@[actor as int]@);
        lemma_occupied_count(state@.board[opp as int], 0);
        lemma_occupied_count(state@.board[actor as int], 1);
    }
    if include_own_bench {
        let bench = state.enumerate_bench_pokemon(actor);
        push_tagged(&mut r, actor, &bench);
    }
    proof {
        assert(r@ =~= spread_targets(state@, actor as int, include_own_bench));
    }
    r
}

/// A side of four slots has at most `4 - from` occupied slots from `from` on.
proof fn lemma_occupied_count(side: Seq<Option<crate::models::PlayedCard>>, from: int)
    requires
        0 <= from <= side.len(),
    ensures
        occupied_from(side, from).len() <= side.len() - from,
    decreases side.len() - from,
{
    if from < side.len() {
        lemma_occupied_count(side, from + 1);
    }
}

/// Hits that the turn effects add to the random spread of `title`, when at most 64.
pub fn extra_spread_hits_exec(state: &State, title: &String) -> (r: Option<usize>)
    ensures
        match r {
            Some(e) => e == extra_spread_hits(state@, title@) && e <= 64,
            None => extra_spread_hits(state@, title@) > 64,
        },
{
    let mut total: usize = 0;
    let mut k: usize = 0;
    while k < state.turn_effects.len()
        invariant
            k <= state.turn_effects@.len(),
            total == extra_hits_upto(state@.turn_effects, title@, k as int),
            total <= 64,
        decreases state.turn_effects@.len() - k,
    {
        match &state.turn_effects[k] {
            TurnEffect::ExtraRandomSpreadHits { amount, attack_name } => {
                if *attack_name == *title {
                    let next: u64 = total as u64 + *amount as u64;
                    if next > 64 {
                        proof {
                            lemma_extra_hits_monotone(
                                state@.turn_effects,
                                title@,
                                k as int + 1,
                                state@.turn_effects.len() as int,
                            );
                        }
                        return None;
                    }
                    total = next as usize;
                }
            },
            _ => {},
        }
        k = k + 1;
    }
    Some(total)
}

/// The outcome dealing distribution `d`, seen from `actor`, and then `also`.
fn distribution_outcome(d: &Vec<(usize, usize, u32)>, actor: usize, also: &Vec<DamageTarget>) -> (o:
    AttackOutcome<AttackEffect>)
    ensures
        outcome_view(o) == (
            relative_damage(d@, actor as int) + also@,
            Seq::<AttackEffect>::empty(),
            Seq::<AttackEffect>::empty(),
            Seq::<usize>::empty(),
        ),
{
    let mut list: Vec<DamageTarget> = Vec::new();
    let mut j: usize = 0;
    while j < d.len()
        invariant
            j <= d@.len(),
            list@ == relative_damage(d@.subrange(0, j as int), actor as int),
        decreases d@.len() - j,
    {
        let e = d[j];
        list.push((e.2, e.0 != actor, e.1));
        j = j + 1;
        proof {
            assert(list@ =~= relative_damage(d@.subrange(0, j as int), actor as int));
        }
    }
    let mut m: usize = 0;
    let ghost mid = list@;
    while m < also.len()
        invariant
            m <= also@.len(),
            list@ == mid + also@.subrange(0, m as int),
        decreases also@.len() - m,
    {
        list.push(also[m]);
        m = m + 1;
        proof {
            assert(list@ =~= mid + also@.subrange(0, m as int));
        }
    }
    proof {
        assert(d@.subrange(0, d@.len() as int) =~= d@);
        assert(also@.subrange(0, also@.len() as int) =~= also@);
    }
    let o = AttackOutcome::damage(list);
    proof {
        assert(outcome_view(o).1 =~= Seq::<AttackEffect>::empty());
        assert(outcome_view(o).2 =~= Seq::<AttackEffect>::empty());
        assert(outcome_view(o).3 =~= Seq::<usize>::empty());
    }
    o
}

/// `hits` random hits of `dmg` among `targets`, seen from `actor`, each branch's damage
/// followed by `also`.
pub fn random_hits_outcomes(
    targets: &Vec<(usize, usize)>,
    hits: usize,
    dmg: u32,
    actor: usize,
    also: &Vec<DamageTarget>,
) -> (r: AttackOutcomes<AttackEffect>)
    requires
        targets@.len() > 0,
        random_hits_fit(targets@.len(), hits as nat, dmg),
    ensures
        r.is_distribution(),
        attack_view(r) == random_hits_view(targets@, hits as nat, dmg, actor as int, also@),
{
    proof {
        lemma_two_pow_31();
        lemma_nat_pow_monotone(targets@.len(), 0, hits as nat);
    }
    let ghost total = nat_pow(targets@.len(), hits as nat);
    let groups = enumerate_random_damage_outcomes(targets, hits, dmg);
    let ghost gs = groups@;
    let mut weights: Vec<u64> = Vec::new();
    let mut outcomes: Vec<AttackOutcome<AttackEffect>> = Vec::new();
    assert(gs.len() == groups.len());
    let mut rest = groups;
    let mut i: usize = 0;
    while rest.len() > 0
        invariant
            i + rest@.len() == gs.len(),
            gs.len() <= usize::MAX,
            rest@ == gs.subrange(i as int, gs.len() as int),
            weights@.len() == i,
            outcomes@.len() == i,
            forall|k: int|
                0 <= k < i ==> #[trigger] weights@[k] == gs[k].0 && outcome_view(outcomes@[k]) == (
                    relative_damage(gs[k].1@, actor as int) + also@,
                    Seq::<AttackEffect>::empty(),
                    Seq::<AttackEffect>::empty(),
                    Seq::<usize>::empty(),
                ),
        decreases rest@.len(),
    {
        let (c, d) = rest.remove(0);
        let ghost old_w = weights@;
        let ghost old_o = outcomes@;
        weights.push(c);
        let o = distribution_outcome(&d, actor, also);
        outcomes.push(o);
        proof {
            assert(gs[i as int] == (c, d));
            assert(rest@ =~= gs.subrange(i as int + 1, gs.len() as int));
            assert forall|k: int| 0 <= k < i + 1 implies #[trigger] weights@[k] == gs[k].0 && outcome_view(
                outcomes@[k],
            ) == (
                relative_damage(gs[k].1@, actor as int) + also@,
                Seq::<AttackEffect>::empty(),
                Seq::<AttackEffect>::empty(),
                Seq::<usize>::empty(),
            ) by {
                if k < i {
                    assert(weights@[k] == old_w[k]);
                    assert(outcomes@[k] == old_o[k]);
                } else {
                    assert(outcomes@[k] == o);
                }
            }
        }
        i = i + 1;
    }
    proof {
        assert(weights@ =~= gs.map_values(|e: (u64, Vec<(usize, usize, u32)>)| e.0));
    }
    let o = Outcomes::from_parts(weights, outcomes);
    let r = AttackOutcomes::from_outcomes(o);
    proof {
        let view = random_hits_view(targets@, hits as nat, dmg, actor as int, also@);
        let groups_view = groups_upto(targets@, hits as nat, dmg, total);
        assert(counted_view(gs) == groups_view);
        assert forall|k: int| 0 <= k < attack_view(r).1.len() implies attack_view(r).1[k] == view.1[k] by {
            assert(counted_view(gs)[k] == (gs[k].0 as nat, gs[k].1@));
        }
        assert(attack_view(r).1 =~= view.1);
    }
    r
}

/// Three hits of 20 among at most three targets are within what this library forecasts.
pub proof fn lemma_three_hits_fit(n: nat)
    requires
        n <= 3,
    ensures
        random_hits_fit(n, 3, 20),
        nat_pow(n, 3) <= 27,
{
    reveal_with_fuel(nat_pow, 4);
    assert(n * (n * (n * 1)) <= 27) by (nonlinear_arith)
        requires
            n <= 3,
    ;
    lemma_two_pow_31();
}

/// Whether `hits` random hits of `dmg` among `n` targets are within what this library
/// forecasts.
pub fn random_hits_fit_exec(n: usize, hits: usize, dmg: u32) -> (r: bool)
    requires
        1 <= n <= 64,
    ensures
        r == random_hits_fit(n as nat, hits as nat, dmg),
{
    proof {
        lemma_two_pow_31();
    }
    if hits > 64 {
        return false;
    }
    let mut acc: u64 = 1;
    let mut j: usize = 0;
    while j < hits
        invariant
            j <= hits <= 64,
            1 <= n <= 64,
            acc == nat_pow(n as nat, j as nat),
            acc <= 0x8000_0000,
            two_pow(31) == 0x8000_0000,
        decreases hits - j,
    {
        assert((n as u64) * acc <= 64 * 0x8000_0000) by (nonlinear_arith)
            requires
                n <= 64,
                acc <= 0x8000_0000,
        ;
        acc = (n as u64) * acc;
        j = j + 1;
        if acc > 0x8000_0000 {
            proof {
                lemma_nat_pow_monotone(n as nat, j as nat, hits as nat);
            }
            return false;
        }
    }
    assert(hits * dmg <= 64 * 0xffff_ffff) by (nonlinear_arith)
        requires
            hits <= 64,
            dmg <= 0xffff_ffff,
    ;
    let total: u64 = hits as u64 * dmg as u64;
    total <= u32::MAX as u64
}

/// The Benched Pokémon of `player` as targets `(player, in_play_idx)`.
pub fn bench_targets_of(state: &State, player: usize) -> (r: Vec<(usize, usize)>)
    requires
        state.wf(),
        player < 2,
    ensures
        r@ == state@.bench_indices(player as int).map_values(|i: usize| (player, i)),
        r@.len() <= 3,
{
    let bench = state.enumerate_bench_pokemon(player);
    let mut r: Vec<(usize, usize)> = Vec::new();
    push_tagged(&mut r, player, &bench);
    proof {
        assert(state@.board[player as int] == state.in_play_pokemon@[player as int]@);
        lemma_occupied_count(state@.board[player as int], 1);
        assert(r@ =~= state@.bench_indices(player as int).map_values(|i: usize| (player, i)));
    }
    r
}

} // verus!
