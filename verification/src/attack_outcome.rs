use vstd::prelude::*;

use crate::apply_action_helpers::{
    modify_damage, modify_damage_spec, add_capped, bits_of, guts_would_flip, guts_would_flip_spec, lemma_two_pow_monotone, two_pow,
};
use crate::outcomes::{
    coin_paths_view, heads_paths, until_tails_path,
    binomial, weight_sum, geometric_weight, lemma_two_pow_63, total_weight, Branch, CoinPaths, CoinSeq, Outcomes,
};
use crate::state::{State, StateView};

verus! {

/// A single damage target described as plain data: `(amount, is_opponent_target, in_play_idx)`.
/// `is_opponent_target` tells whether `in_play_idx` is a slot on the attacker's opponent's side
/// (true) or on the attacker's own side (false). The amount is the raw damage, before modifiers.
pub type DamageTarget = (u32, bool, usize);

/// The result of (one branch of) an attack: the damage it deals, carried as data, plus the
/// effects that run before and after damage is applied, and the opponent's Pokémon that survive
/// at 10 HP thanks to Guts (their HP is set right after the damage, before the other effects).
pub struct AttackOutcome<E> {
    pub damage: Vec<DamageTarget>,
    pub pre_damage_effects: Vec<E>,
    pub post_damage_effects: Vec<E>,
    pub survivors_at_10: Vec<usize>,
}

/// A copy of a list of plain effects.
fn copy_effects<E: Copy>(effects: &Vec<E>) -> (r: Vec<E>)
    ensures
        r@ == effects@,
{
    let mut r: Vec<E> = Vec::new();
    let mut i: usize = 0;
    while i < effects.len()
        invariant
            i <= effects.len(),
            r@ == effects@.subrange(0, i as int),
        decreases effects.len() - i,
    {
        r.push(effects[i]);
        i = i + 1;
        proof {
            assert(r@ =~= effects@.subrange(0, i as int));
        }
    }
    proof {
        assert(effects@.subrange(0, effects@.len() as int) =~= effects@);
    }
    r
}

/// A copy of a list of plain values of another kind.
fn copy_indices(v: &Vec<usize>) -> (r: Vec<usize>)
    ensures
        r@ == v@,
{
    let mut r: Vec<usize> = Vec::new();
    let mut i: usize = 0;
    while i < v.len()
        invariant
            i <= v.len(),
            r@ == v@.subrange(0, i as int),
        decreases v.len() - i,
    {
        r.push(v[i]);
        i = i + 1;
        proof {
            assert(r@ =~= v@.subrange(0, i as int));
        }
    }
    proof {
        assert(v@.subrange(0, v@.len() as int) =~= v@);
    }
    r
}

/// A copy of a damage list.
fn copy_damage(v: &Vec<DamageTarget>) -> (r: Vec<DamageTarget>)
    ensures
        r@ == v@,
{
    let mut r: Vec<DamageTarget> = Vec::new();
    let mut i: usize = 0;
    while i < v.len()
        invariant
            i <= v.len(),
            r@ == v@.subrange(0, i as int),
        decreases v.len() - i,
    {
        r.push(v[i]);
        i = i + 1;
        proof {
            assert(r@ =~= v@.subrange(0, i as int));
        }
    }
    proof {
        assert(v@.subrange(0, v@.len() as int) =~= v@);
    }
    r
}

/// Resolves `is_opponent_target` into a player index for `actor`.
pub open spec fn resolve_target(t: DamageTarget, actor: usize) -> (u32, usize, usize) {
    (t.0, if t.1 {
        (1 - actor) as usize
    } else {
        actor
    }, t.2)
}

impl<E: Copy> AttackOutcome<E> {
    /// An outcome that does nothing.
    pub fn noop() -> (r: Self)
        ensures
            r.damage@.len() == 0,
            r.pre_damage_effects@.len() == 0,
            r.post_damage_effects@.len() == 0,
            r.survivors_at_10@.len() == 0,
    {
        AttackOutcome {
            damage: Vec::new(),
            pre_damage_effects: Vec::new(),
            post_damage_effects: Vec::new(),
            survivors_at_10: Vec::new(),
        }
    }

    /// Damage only.
    pub fn damage(targets: Vec<DamageTarget>) -> (r: Self)
        ensures
            r.damage@ == targets@,
            r.pre_damage_effects@.len() == 0,
            r.post_damage_effects@.len() == 0,
            r.survivors_at_10@.len() == 0,
    {
        AttackOutcome {
            damage: targets,
            pre_damage_effects: Vec::new(),
            post_damage_effects: Vec::new(),
            survivors_at_10: Vec::new(),
        }
    }

    /// Damage, then an effect.
    pub fn damage_then_effect(targets: Vec<DamageTarget>, effect: E) -> (r: Self)
        ensures
            r.damage@ == targets@,
            r.pre_damage_effects@.len() == 0,
            r.post_damage_effects@ == seq![effect],
            r.survivors_at_10@.len() == 0,
    {
        let mut post: Vec<E> = Vec::new();
        post.push(effect);
        AttackOutcome {
            damage: targets,
            pre_damage_effects: Vec::new(),
            post_damage_effects: post,
            survivors_at_10: Vec::new(),
        }
    }

    /// An effect that resolves before damage (and before damage modifiers are computed).
    pub fn effect_then_damage(effect: E, targets: Vec<DamageTarget>) -> (r: Self)
        ensures
            r.damage@ == targets@,
            r.pre_damage_effects@ == seq![effect],
            r.post_damage_effects@.len() == 0,
            r.survivors_at_10@.len() == 0,
    {
        let mut pre: Vec<E> = Vec::new();
        pre.push(effect);
        AttackOutcome {
            damage: targets,
            pre_damage_effects: pre,
            post_damage_effects: Vec::new(),
            survivors_at_10: Vec::new(),
        }
    }

    /// An effect that deals no damage of its own.
    pub fn effect_only(effect: E) -> (r: Self)
        ensures
            r.damage@.len() == 0,
            r.pre_damage_effects@.len() == 0,
            r.post_damage_effects@ == seq![effect],
            r.survivors_at_10@.len() == 0,
    {
        let mut post: Vec<E> = Vec::new();
        post.push(effect);
        AttackOutcome {
            damage: Vec::new(),
            pre_damage_effects: Vec::new(),
            post_damage_effects: post,
            survivors_at_10: Vec::new(),
        }
    }

    /// Damage with an effect before it and another after it.
    pub fn damage_with_pre_and_post(targets: Vec<DamageTarget>, pre: E, post: E) -> (r: Self)
        ensures
            r.damage@ == targets@,
            r.pre_damage_effects@ == seq![pre],
            r.post_damage_effects@ == seq![post],
            r.survivors_at_10@.len() == 0,
    {
        let mut pre_effects: Vec<E> = Vec::new();
        pre_effects.push(pre);
        let mut post_effects: Vec<E> = Vec::new();
        post_effects.push(post);
        AttackOutcome {
            damage: targets,
            pre_damage_effects: pre_effects,
            post_damage_effects: post_effects,
            survivors_at_10: Vec::new(),
        }
    }

    /// An exact copy.
    pub fn copy(&self) -> (r: Self)
        ensures
            r.damage@ == self.damage@,
            r.pre_damage_effects@ == self.pre_damage_effects@,
            r.post_damage_effects@ == self.post_damage_effects@,
            r.survivors_at_10@ == self.survivors_at_10@,
    {
        AttackOutcome {
            damage: copy_damage(&self.damage),
            pre_damage_effects: copy_effects(&self.pre_damage_effects),
            post_damage_effects: copy_effects(&self.post_damage_effects),
            survivors_at_10: copy_indices(&self.survivors_at_10),
        }
    }

    /// The damage targets with concrete player indices for the acting player.
    pub fn resolved_targets(&self, actor: usize) -> (r: Vec<(u32, usize, usize)>)
        requires
            actor < 2,
        ensures
            r@ == self.damage@.map_values(|t: DamageTarget| resolve_target(t, actor)),
    {
        let opponent = 1 - actor;
        let mut r: Vec<(u32, usize, usize)> = Vec::new();
        let mut i: usize = 0;
        while i < self.damage.len()
            invariant
                i <= self.damage@.len(),
                opponent == 1 - actor,
                r@ == self.damage@.subrange(0, i as int).map_values(
                    |t: DamageTarget| resolve_target(t, actor),
                ),
            decreases self.damage@.len() - i,
        {
            let (amount, is_opponent, idx) = self.damage[i];
            let target_player = if is_opponent {
                opponent
            } else {
                actor
            };
            r.push((amount, target_player, idx));
            i = i + 1;
            proof {
                assert(r@ =~= self.damage@.subrange(0, i as int).map_values(
                    |t: DamageTarget| resolve_target(t, actor),
                ));
            }
        }
        proof {
            assert(self.damage@.subrange(0, self.damage@.len() as int) =~= self.damage@);
        }
        r
    }
}

/// One branch of an attack forecast: probability `weight / denominator`.
pub struct AttackBranch<E> {
    pub weight: u64,
    pub outcome: AttackOutcome<E>,
    pub coin_paths: CoinPaths,
}

/// A probability distribution over attack outcomes, with damage carried as data.
pub struct AttackOutcomes<E> {
    pub denominator: u64,
    pub branches: Vec<AttackBranch<E>>,
}

/// Sum of the weights of attack branches.
pub open spec fn attack_total_weight<E>(bs: Seq<AttackBranch<E>>) -> int
    decreases bs.len(),
{
    if bs.len() == 0 {
        0
    } else {
        attack_total_weight(bs.drop_last()) + bs.last().weight
    }
}

/// Appending a branch adds its weight.
pub proof fn lemma_attack_total_push<E>(bs: Seq<AttackBranch<E>>, b: AttackBranch<E>)
    ensures
        attack_total_weight(bs.push(b)) == attack_total_weight(bs) + b.weight,
{
    assert(bs.push(b).drop_last() =~= bs);
}

/// Totals of a sequence and its prefixes agree with each step.
pub proof fn lemma_attack_total_prefix<E>(bs: Seq<AttackBranch<E>>, k: int)
    requires
        0 < k <= bs.len(),
    ensures
        attack_total_weight(bs.subrange(0, k)) == attack_total_weight(bs.subrange(0, k - 1)) + bs[k
            - 1].weight,
{
    assert(bs.subrange(0, k).drop_last() =~= bs.subrange(0, k - 1));
}

/// Weights are never negative.
pub proof fn lemma_attack_total_nonneg<E>(bs: Seq<AttackBranch<E>>)
    ensures
        attack_total_weight(bs) >= 0,
    decreases bs.len(),
{
    if bs.len() > 0 {
        lemma_attack_total_nonneg(bs.drop_last());
    }
}

impl<E: Copy> AttackOutcomes<E> {
    /// The weights sum to the denominator, which is positive: the probabilities sum to one.
    pub open spec fn is_distribution(&self) -> bool {
        &&& self.denominator > 0
        &&& attack_total_weight(self.branches@) == self.denominator
    }

    /// A single outcome that happens for sure.
    pub fn single(outcome: AttackOutcome<E>) -> (r: Self)
        ensures
            r.is_distribution(),
            r.denominator == 1,
            r.branches@.len() == 1,
            r.branches@[0].weight == 1,
            r.branches@[0].outcome == outcome,
            r.branches@[0].coin_paths is NotTracked,
    {
        let mut branches: Vec<AttackBranch<E>> = Vec::new();
        branches.push(AttackBranch { weight: 1, outcome, coin_paths: CoinPaths::NotTracked });
        proof {
            lemma_attack_total_push(Seq::<AttackBranch<E>>::empty(), branches@[0]);
            assert(branches@ =~= Seq::<AttackBranch<E>>::empty().push(branches@[0]));
        }
        AttackOutcomes { denominator: 1, branches }
    }

    /// A single effect-only outcome.
    pub fn single_effect(effect: E) -> (r: Self)
        ensures
            r.is_distribution(),
            r.branches@.len() == 1,
            r.branches@[0].outcome.damage@.len() == 0,
            r.branches@[0].outcome.post_damage_effects@ == seq![effect],
    {
        Self::single(AttackOutcome::effect_only(effect))
    }

    /// Heads and tails of one coin, 1/2 each.
    pub fn binary_coin(heads: AttackOutcome<E>, tails: AttackOutcome<E>) -> (r: Self)
        ensures
            r.is_distribution(),
            r.denominator == 2,
            r.branches@.len() == 2,
            r.branches@[0].weight == 1 && r.branches@[0].outcome == heads,
            r.branches@[1].weight == 1 && r.branches@[1].outcome == tails,
            coin_paths_view(r.branches@[0].coin_paths) == Some(seq![seq![true]]),
            coin_paths_view(r.branches@[1].coin_paths) == Some(seq![seq![false]]),
    {
        let mut h: Vec<bool> = Vec::new();
        h.push(true);
        let mut hs: Vec<CoinSeq> = Vec::new();
        hs.push(CoinSeq(h));
        let mut t: Vec<bool> = Vec::new();
        t.push(false);
        let mut ts: Vec<CoinSeq> = Vec::new();
        ts.push(CoinSeq(t));
        let mut branches: Vec<AttackBranch<E>> = Vec::new();
        branches.push(AttackBranch { weight: 1, outcome: heads, coin_paths: CoinPaths::Exact(hs) });
        let ghost one = branches@;
        branches.push(AttackBranch { weight: 1, outcome: tails, coin_paths: CoinPaths::Exact(ts) });
        proof {
            lemma_attack_total_push(Seq::<AttackBranch<E>>::empty(), one[0]);
            assert(one =~= Seq::<AttackBranch<E>>::empty().push(one[0]));
            lemma_attack_total_push(one, branches@[1]);
            assert(branches@ =~= one.push(branches@[1]));
        }
        proof {
            assert(coin_paths_view(branches@[0].coin_paths).unwrap() =~= seq![seq![true]]) by {
                assert(hs@.map_values(|s: CoinSeq| s.0@)[0] =~= seq![true]);
            }
            assert(coin_paths_view(branches@[1].coin_paths).unwrap() =~= seq![seq![false]]) by {
                assert(ts@.map_values(|s: CoinSeq| s.0@)[0] =~= seq![false]);
            }
        }
        AttackOutcomes { denominator: 2, branches }
    }

    /// Attack outcomes from a distribution of outcomes (same weights and coin paths).
    pub fn from_outcomes(outcomes: Outcomes<AttackOutcome<E>>) -> (r: Self)
        requires
            outcomes.is_distribution(),
        ensures
            r.is_distribution(),
            r.denominator == outcomes.denominator,
            r.branches@.len() == outcomes.branches@.len(),
            forall|i: int|
                0 <= i < r.branches@.len() ==> (#[trigger] r.branches@[i]).weight
                    == outcomes.branches@[i].weight && r.branches@[i].outcome
                    == outcomes.branches@[i].mutation && r.branches@[i].coin_paths
                    == outcomes.branches@[i].coin_paths,
    {
        let Outcomes { denominator, branches: source } = outcomes;
        let ghost src = source@;
        let mut rest = source;
        let mut branches: Vec<AttackBranch<E>> = Vec::new();
        let n = rest.len();
        let mut i: usize = 0;
        while rest.len() > 0
            invariant
                i + rest@.len() == src.len(),
                src.len() == n,
                rest@ == src.subrange(i as int, src.len() as int),
                branches@.len() == i,
                forall|k: int|
                    0 <= k < i ==> (#[trigger] branches@[k]).weight == src[k].weight
                        && branches@[k].outcome == src[k].mutation && branches@[k].coin_paths == src[k].coin_paths,
                attack_total_weight(branches@) == total_weight(src.subrange(0, i as int)),
            decreases rest@.len(),
        {
            let Branch { weight, mutation, coin_paths } = rest.remove(0);
            let ghost before = branches@;
            branches.push(AttackBranch { weight, outcome: mutation, coin_paths });
            proof {
                lemma_attack_total_push(before, branches@.last());
                assert(branches@ =~= before.push(branches@.last()));
                assert(src.subrange(0, i as int + 1).drop_last() =~= src.subrange(0, i as int));
                assert(rest@ =~= src.subrange(i as int + 1, src.len() as int));
            }
            i = i + 1;
        }
        proof {
            assert(src.subrange(0, src.len() as int) =~= src);
        }
        AttackOutcomes { denominator, branches }
    }

    /// Prepends a nullifying coin (heads: the whole attack does nothing), halving the
    /// probability of every other branch. Used for Confusion and for effects that may block an
    /// attack; coin paths are dropped, as these are not the attacker's card-effect coins.
    pub fn prepend_nullifying_coin_gate(self) -> (r: Self)
        requires
            self.is_distribution(),
            self.denominator <= u64::MAX / 2,
        ensures
            r.is_distribution(),
            r.denominator == 2 * self.denominator,
            r.branches@.len() == self.branches@.len() + 1,
            r.branches@[0].weight == self.denominator,
            r.branches@[0].outcome.damage@.len() == 0,
            r.branches@[0].outcome.post_damage_effects@.len() == 0,
            r.branches@[0].outcome.pre_damage_effects@.len() == 0,
            r.branches@[0].outcome.survivors_at_10@.len() == 0,
            forall|i: int|
                0 <= i < self.branches@.len() ==> (#[trigger] r.branches@[i + 1]).weight
                    == self.branches@[i].weight && r.branches@[i + 1].outcome
                    == self.branches@[i].outcome,
            forall|i: int| 0 <= i < r.branches@.len() ==> (#[trigger] r.branches@[i]).coin_paths is NotTracked,
    {
        let AttackOutcomes { denominator, branches: source } = self;
        let ghost src = source@;
        let mut branches: Vec<AttackBranch<E>> = Vec::new();
        branches.push(
            AttackBranch {
                weight: denominator,
                outcome: AttackOutcome::noop(),
                coin_paths: CoinPaths::NotTracked,
            },
        );
        proof {
            lemma_attack_total_push(Seq::<AttackBranch<E>>::empty(), branches@[0]);
            assert(branches@ =~= Seq::<AttackBranch<E>>::empty().push(branches@[0]));
        }
        let mut rest = source;
        let n = rest.len();
        let mut i: usize = 0;
        while rest.len() > 0
            invariant
                i + rest@.len() == src.len(),
                src.len() == n,
                rest@ == src.subrange(i as int, src.len() as int),
                branches@.len() == i + 1,
                branches@[0].weight == denominator,
                branches@[0].outcome.damage@.len() == 0,
                branches@[0].outcome.post_damage_effects@.len() == 0,
                branches@[0].outcome.pre_damage_effects@.len() == 0,
                branches@[0].outcome.survivors_at_10@.len() == 0,
                forall|k: int|
                    0 <= k < i ==> (#[trigger] branches@[k + 1]).weight == src[k].weight
                        && branches@[k + 1].outcome == src[k].outcome,
                forall|k: int| 0 <= k < branches@.len() ==> (#[trigger] branches@[k]).coin_paths is NotTracked,
                attack_total_weight(branches@) == denominator + attack_total_weight(
                    src.subrange(0, i as int),
                ),
            decreases rest@.len(),
        {
            let AttackBranch { weight, outcome, coin_paths: _ } = rest.remove(0);
            let ghost before = branches@;
            branches.push(AttackBranch { weight, outcome, coin_paths: CoinPaths::NotTracked });
            proof {
                lemma_attack_total_push(before, branches@.last());
                assert(branches@ =~= before.push(branches@.last()));
                lemma_attack_total_prefix(src, i as int + 1);
                assert(rest@ =~= src.subrange(i as int + 1, src.len() as int));
            }
            i = i + 1;
        }
        proof {
            assert(src.subrange(0, src.len() as int) =~= src);
        }
        AttackOutcomes { denominator: denominator * 2, branches }
    }

    /// Adds `effect` after every branch's existing post-damage effects. Used for defender
    /// abilities that only react after the damage lands (e.g. Glimmora's Shattering Crystal).
    pub fn with_post_damage_effect(self, effect: E) -> (r: Self)
        ensures
            r.denominator == self.denominator,
            r.branches@.len() == self.branches@.len(),
            forall|i: int|
                0 <= i < r.branches@.len() ==> (#[trigger] r.branches@[i]).weight
                    == self.branches@[i].weight && r.branches@[i].outcome.damage
                    == self.branches@[i].outcome.damage && r.branches@[i].outcome.pre_damage_effects
                    == self.branches@[i].outcome.pre_damage_effects
                    && r.branches@[i].outcome.survivors_at_10 == self.branches@[i].outcome.survivors_at_10
                    && r.branches@[i].outcome.post_damage_effects@
                    == self.branches@[i].outcome.post_damage_effects@.push(effect),
            self.is_distribution() ==> r.is_distribution(),
    {
        let AttackOutcomes { denominator, branches: source } = self;
        let ghost src = source@;
        let mut rest = source;
        let mut branches: Vec<AttackBranch<E>> = Vec::new();
        let n = rest.len();
        let mut i: usize = 0;
        while rest.len() > 0
            invariant
                i + rest@.len() == src.len(),
                src.len() == n,
                rest@ == src.subrange(i as int, src.len() as int),
                branches@.len() == i,
                forall|k: int|
                    0 <= k < i ==> (#[trigger] branches@[k]).weight == src[k].weight
                        && branches@[k].outcome.damage == src[k].outcome.damage
                        && branches@[k].outcome.pre_damage_effects == src[k].outcome.pre_damage_effects
                        && branches@[k].outcome.survivors_at_10 == src[k].outcome.survivors_at_10
                        && branches@[k].outcome.post_damage_effects@ == src[k].outcome.post_damage_effects@.push(effect),
                attack_total_weight(branches@) == attack_total_weight(src.subrange(0, i as int)),
            decreases rest@.len(),
        {
            let AttackBranch { weight, outcome, coin_paths } = rest.remove(0);
            let AttackOutcome { damage, pre_damage_effects, post_damage_effects, survivors_at_10 } =
                outcome;
            let mut post = post_damage_effects;
            post.push(effect);
            let ghost before = branches@;
            branches.push(
                AttackBranch {
                    weight,
                    outcome: AttackOutcome {
                        damage,
                        pre_damage_effects,
                        post_damage_effects: post,
                        survivors_at_10,
                    },
                    coin_paths,
                },
            );
            proof {
                lemma_attack_total_push(before, branches@.last());
                assert(branches@ =~= before.push(branches@.last()));
                lemma_attack_total_prefix(src, i as int + 1);
                assert(rest@ =~= src.subrange(i as int + 1, src.len() as int));
            }
            i = i + 1;
        }
        proof {
            assert(src.subrange(0, src.len() as int) =~= src);
        }
        AttackOutcomes { denominator, branches }
    }
}

impl<E: Copy> AttackOutcomes<E> {
    /// `flips` coins: the branch with `h` heads has probability `binomial(flips, h) / 2^flips`
    /// and outcome `per_heads[h]`; its coin paths are all the sequences with `h` heads.
    pub fn binomial_by_heads(flips: usize, per_heads: Vec<AttackOutcome<E>>) -> (r: Self)
        requires
            flips < 32,
            per_heads@.len() == flips + 1,
        ensures
            r.is_distribution(),
            r.denominator == two_pow(flips as nat),
            r.branches@.len() == flips + 1,
            forall|h: int|
                0 <= h <= flips ==> (#[trigger] r.branches@[h]).weight == binomial(flips as nat, h as nat)
                    && r.branches@[h].outcome == per_heads@[h] && coin_paths_view(r.branches@[h].coin_paths)
                    == Some(heads_paths(flips as nat, h as nat)),
    {
        let o = Outcomes::binomial_by_heads(flips, per_heads);
        Self::from_outcomes(o)
    }

    /// Flip until tails, at most `max_heads` heads: the branch with `h` heads has outcome
    /// `per_heads[h]` and probability `1/2^(h+1)` below the cap, `1/2^max_heads` at the cap.
    pub fn geometric_until_tails(max_heads: usize, per_heads: Vec<AttackOutcome<E>>) -> (r: Self)
        requires
            max_heads < 63,
            per_heads@.len() == max_heads + 1,
        ensures
            r.is_distribution(),
            r.denominator == two_pow(max_heads as nat),
            r.branches@.len() == max_heads + 1,
            forall|h: int|
                0 <= h <= max_heads ==> (#[trigger] r.branches@[h]).weight == geometric_weight(
                    max_heads as nat,
                    h as nat,
                ) && r.branches@[h].outcome == per_heads@[h] && coin_paths_view(r.branches@[h].coin_paths)
                    == Some(seq![until_tails_path(max_heads as nat, h as nat)]),
    {
        let o = Outcomes::geometric_until_tails(max_heads, per_heads);
        Self::from_outcomes(o)
    }

    /// Branch `i` has outcome `outcomes[i]` and probability `weights[i] / (sum of the weights)`.
    pub fn from_parts(weights: Vec<u64>, outcomes: Vec<AttackOutcome<E>>) -> (r: Self)
        requires
            weights@.len() == outcomes@.len(),
            0 < weight_sum(weights@, weights@.len() as int) <= u64::MAX,
        ensures
            r.is_distribution(),
            r.denominator == weight_sum(weights@, weights@.len() as int),
            r.branches@.len() == outcomes@.len(),
            forall|i: int|
                0 <= i < r.branches@.len() ==> (#[trigger] r.branches@[i]).weight == weights@[i]
                    && r.branches@[i].outcome == outcomes@[i],
    {
        let o = Outcomes::from_parts(weights, outcomes);
        Self::from_outcomes(o)
    }

    /// Each branch of a distribution of effects becomes an outcome with that effect after no
    /// damage, with the same probability and coin paths.
    pub fn from_effect_outcomes(outcomes: Outcomes<E>) -> (r: Self)
        requires
            outcomes.is_distribution(),
        ensures
            r.is_distribution(),
            r.denominator == outcomes.denominator,
            r.branches@.len() == outcomes.branches@.len(),
            forall|i: int|
                0 <= i < r.branches@.len() ==> (#[trigger] r.branches@[i]).weight
                    == outcomes.branches@[i].weight && r.branches@[i].coin_paths
                    == outcomes.branches@[i].coin_paths && r.branches@[i].outcome.damage@.len() == 0
                    && r.branches@[i].outcome.pre_damage_effects@.len() == 0
                    && r.branches@[i].outcome.post_damage_effects@ == seq![outcomes.branches@[i].mutation]
                    && r.branches@[i].outcome.survivors_at_10@.len() == 0,
    {
        let Outcomes { denominator, branches: source } = outcomes;
        let ghost src = source@;
        let mut rest = source;
        let n = rest.len();
        let mut branches: Vec<AttackBranch<E>> = Vec::new();
        let mut i: usize = 0;
        while rest.len() > 0
            invariant
                i + rest@.len() == src.len(),
                src.len() == n,
                rest@ == src.subrange(i as int, src.len() as int),
                branches@.len() == i,
                forall|k: int|
                    0 <= k < i ==> (#[trigger] branches@[k]).weight == src[k].weight
                        && branches@[k].coin_paths == src[k].coin_paths
                        && branches@[k].outcome.damage@.len() == 0
                        && branches@[k].outcome.pre_damage_effects@.len() == 0
                        && branches@[k].outcome.post_damage_effects@ == seq![src[k].mutation]
                        && branches@[k].outcome.survivors_at_10@.len() == 0,
                attack_total_weight(branches@) == total_weight(src.subrange(0, i as int)),
            decreases rest@.len(),
        {
            let Branch { weight, mutation, coin_paths } = rest.remove(0);
            let ghost before = branches@;
            branches.push(AttackBranch { weight, outcome: AttackOutcome::effect_only(mutation), coin_paths });
            proof {
                lemma_attack_total_push(before, branches@.last());
                assert(branches@ =~= before.push(branches@.last()));
                assert(src.subrange(0, i as int + 1).drop_last() =~= src.subrange(0, i as int));
                assert(rest@ =~= src.subrange(i as int + 1, src.len() as int));
            }
            i = i + 1;
        }
        proof {
            assert(src.subrange(0, src.len() as int) =~= src);
        }
        AttackOutcomes { denominator, branches }
    }

    /// The same distribution as a distribution of outcomes: same weights, outcomes and coin
    /// paths.
    pub fn into_outcomes(self) -> (r: Outcomes<AttackOutcome<E>>)
        requires
            self.is_distribution(),
        ensures
            r.is_distribution(),
            r.denominator == self.denominator,
            r.branches@.len() == self.branches@.len(),
            forall|i: int|
                0 <= i < r.branches@.len() ==> (#[trigger] r.branches@[i]).weight
                    == self.branches@[i].weight && r.branches@[i].mutation == self.branches@[i].outcome
                    && r.branches@[i].coin_paths == self.branches@[i].coin_paths,
    {
        let AttackOutcomes { denominator, branches: source } = self;
        let ghost src = source@;
        let mut rest = source;
        let n = rest.len();
        let mut branches: Vec<Branch<AttackOutcome<E>>> = Vec::new();
        let mut i: usize = 0;
        while rest.len() > 0
            invariant
                i + rest@.len() == src.len(),
                src.len() == n,
                rest@ == src.subrange(i as int, src.len() as int),
                branches@.len() == i,
                forall|k: int|
                    0 <= k < i ==> (#[trigger] branches@[k]).weight == src[k].weight
                        && branches@[k].mutation == src[k].outcome
                        && branches@[k].coin_paths == src[k].coin_paths,
                total_weight(branches@) == attack_total_weight(src.subrange(0, i as int)),
            decreases rest@.len(),
        {
            let AttackBranch { weight, outcome, coin_paths } = rest.remove(0);
            let ghost before = branches@;
            branches.push(Branch { weight, mutation: outcome, coin_paths });
            proof {
                assert(branches@.drop_last() =~= before);
                lemma_attack_total_prefix(src, i as int + 1);
                assert(rest@ =~= src.subrange(i as int + 1, src.len() as int));
            }
            i = i + 1;
        }
        proof {
            assert(src.subrange(0, src.len() as int) =~= src);
        }
        Outcomes { denominator, branches }
    }

    /// The probabilities, each as `(weight, denominator)`, and the outcomes, branch by branch.
    pub fn into_branches(self) -> (r: (Vec<(u64, u64)>, Vec<AttackOutcome<E>>))
        ensures
            r.0@.len() == self.branches@.len(),
            r.1@.len() == self.branches@.len(),
            forall|i: int|
                0 <= i < self.branches@.len() ==> (#[trigger] r.0@[i]) == (
                    self.branches@[i].weight,
                    self.denominator,
                ) && r.1@[i] == self.branches@[i].outcome,
    {
        let AttackOutcomes { denominator, branches: source } = self;
        let ghost src = source@;
        let mut rest = source;
        let n = rest.len();
        let mut probabilities: Vec<(u64, u64)> = Vec::new();
        let mut outcomes: Vec<AttackOutcome<E>> = Vec::new();
        let mut i: usize = 0;
        while rest.len() > 0
            invariant
                i + rest@.len() == src.len(),
                src.len() == n,
                rest@ == src.subrange(i as int, src.len() as int),
                probabilities@.len() == i,
                outcomes@.len() == i,
                forall|k: int|
                    0 <= k < i ==> (#[trigger] probabilities@[k]) == (src[k].weight, denominator)
                        && outcomes@[k] == src[k].outcome,
            decreases rest@.len(),
        {
            let AttackBranch { weight, outcome, coin_paths: _ } = rest.remove(0);
            probabilities.push((weight, denominator));
            outcomes.push(outcome);
            proof {
                assert(rest@ =~= src.subrange(i as int + 1, src.len() as int));
            }
            i = i + 1;
        }
        (probabilities, outcomes)
    }
}


/// Damage, after modifiers, that the first `k` entries of `ts` deal to `target_player`'s slot
/// `target_idx` in an attack by the Pokémon at `attacking_ref`.
pub open spec fn damage_to_slot(
    s: StateView,
    attacking_ref: (usize, usize),
    ts: Seq<DamageTarget>,
    target_player: usize,
    target_idx: usize,
    k: int,
) -> int
    decreases k,
{
    if k <= 0 {
        0
    } else {
        let t = resolve_target(ts[k - 1], attacking_ref.0);
        damage_to_slot(s, attacking_ref, ts, target_player, target_idx, k - 1) + if t.1 == target_player
            && t.2 == target_idx {
            modify_damage_spec(s, attacking_ref, (t.0, target_player, target_idx), true) as int
        } else {
            0
        }
    }
}

/// The first `k` branches' damage to that slot, each times its weight, summed.
pub open spec fn weighted_damage_to_slot<E>(
    s: StateView,
    attacking_ref: (usize, usize),
    bs: Seq<AttackBranch<E>>,
    target_player: usize,
    target_idx: usize,
    k: int,
) -> int
    decreases k,
{
    if k <= 0 {
        0
    } else {
        let ts = bs[k - 1].outcome.damage@;
        weighted_damage_to_slot(s, attacking_ref, bs, target_player, target_idx, k - 1) + bs[k
            - 1].weight * damage_to_slot(s, attacking_ref, ts, target_player, target_idx, ts.len() as int)
    }
}

/// Counting more damage entries never counts less damage.
proof fn lemma_damage_to_slot_monotone(
    s: StateView,
    attacking_ref: (usize, usize),
    ts: Seq<DamageTarget>,
    target_player: usize,
    target_idx: usize,
    a: int,
    b: int,
)
    requires
        0 <= a <= b,
    ensures
        0 <= damage_to_slot(s, attacking_ref, ts, target_player, target_idx, a) <= damage_to_slot(
            s,
            attacking_ref,
            ts,
            target_player,
            target_idx,
            b,
        ),
    decreases b,
{
    if b > a {
        lemma_damage_to_slot_monotone(s, attacking_ref, ts, target_player, target_idx, a, b - 1);
    } else if b > 0 {
        lemma_damage_to_slot_monotone(s, attacking_ref, ts, target_player, target_idx, 0, b - 1);
    }
}

/// The damage of one list of targets to `target_player`'s slot `target_idx`, after modifiers.
fn branch_damage_to_slot(
    state: &State,
    attacking_ref: (usize, usize),
    ts: &Vec<DamageTarget>,
    target_player: usize,
    target_idx: usize,
) -> (r: u32)
    requires
        state.wf(),
        attacking_ref.0 < 2,
        attacking_ref.1 < 4,
        target_player < 2,
        damage_to_slot(state@, attacking_ref, ts@, target_player, target_idx, ts@.len() as int)
            <= u32::MAX,
    ensures
        r == damage_to_slot(state@, attacking_ref, ts@, target_player, target_idx, ts@.len() as int),
{
    let actor = attacking_ref.0;
    let mut total: u32 = 0;
    let mut k: usize = 0;
    while k < ts.len()
        invariant
            k <= ts@.len(),
            state.wf(),
            actor == attacking_ref.0,
            attacking_ref.0 < 2,
            attacking_ref.1 < 4,
            target_player < 2,
            damage_to_slot(state@, attacking_ref, ts@, target_player, target_idx, ts@.len() as int)
                <= u32::MAX,
            total == damage_to_slot(state@, attacking_ref, ts@, target_player, target_idx, k as int),
        decreases ts@.len() - k,
    {
        let (amount, is_opponent, idx) = ts[k];
        let player = if is_opponent {
            1 - actor
        } else {
            actor
        };
        proof {
            lemma_damage_to_slot_monotone(
                state@,
                attacking_ref,
                ts@,
                target_player,
                target_idx,
                k as int + 1,
                ts@.len() as int,
            );
        }
        if player == target_player && idx == target_idx {
            let d = modify_damage(state, attacking_ref, (amount, target_player, idx), true);
            total = total + d;
        }
        k = k + 1;
    }
    total
}

/// Weighted prefix totals never exceed the total.
proof fn lemma_attack_total_prefix_le<E>(bs: Seq<AttackBranch<E>>, k: int)
    requires
        0 <= k <= bs.len(),
    ensures
        0 <= attack_total_weight(bs.subrange(0, k)) <= attack_total_weight(bs),
    decreases bs.len() - k,
{
    if k < bs.len() {
        lemma_attack_total_prefix_le(bs, k + 1);
        lemma_attack_total_prefix(bs, k + 1);
    } else {
        assert(bs.subrange(0, k) =~= bs);
    }
    lemma_attack_total_nonneg(bs.subrange(0, k));
}

impl<E: Copy> AttackOutcomes<E> {
    /// The expected damage, after modifiers, that the attack by the Pokémon at `attacking_ref`
    /// deals to `target_player`'s slot `target_idx`, as the fraction `r.0 / r.1`: the branches'
    /// damage to that slot weighted by their weights, over the denominator. Only the damage the
    /// branches carry is read; no effect runs. Each branch's damage to the slot must fit a `u32`.
    pub fn expected_damage_to(
        &self,
        state: &State,
        attacking_ref: (usize, usize),
        target_player: usize,
        target_idx: usize,
    ) -> (r: (u128, u64))
        requires
            self.is_distribution(),
            state.wf(),
            attacking_ref.0 < 2,
            attacking_ref.1 < 4,
            target_player < 2,
            forall|i: int|
                0 <= i < self.branches@.len() ==> damage_to_slot(
                    state@,
                    attacking_ref,
                    (#[trigger] self.branches@[i]).outcome.damage@,
                    target_player,
                    target_idx,
                    self.branches@[i].outcome.damage@.len() as int,
                ) <= u32::MAX,
        ensures
            r.1 == self.denominator,
            r.0 == weighted_damage_to_slot(
                state@,
                attacking_ref,
                self.branches@,
                target_player,
                target_idx,
                self.branches@.len() as int,
            ),
    {
        let ghost bs = self.branches@;
        let mut numerator: u128 = 0;
        let mut k: usize = 0;
        while k < self.branches.len()
            invariant
                k <= bs.len(),
                bs == self.branches@,
                self.is_distribution(),
                state.wf(),
                attacking_ref.0 < 2,
                attacking_ref.1 < 4,
                target_player < 2,
                forall|i: int|
                    0 <= i < bs.len() ==> damage_to_slot(
                        state@,
                        attacking_ref,
                        (#[trigger] bs[i]).outcome.damage@,
                        target_player,
                        target_idx,
                        bs[i].outcome.damage@.len() as int,
                    ) <= u32::MAX,
                numerator == weighted_damage_to_slot(state@, attacking_ref, bs, target_player, target_idx, k as int),
                numerator <= attack_total_weight(bs.subrange(0, k as int)) * 0xffff_ffff,
            decreases bs.len() - k,
        {
            let b = &self.branches[k];
            let d = branch_damage_to_slot(state, attacking_ref, &b.outcome.damage, target_player, target_idx);
            let w = b.weight;
            proof {
                lemma_attack_total_prefix(bs, k as int + 1);
                lemma_attack_total_prefix_le(bs, k as int + 1);
                let t = attack_total_weight(bs.subrange(0, k as int));
                assert(w * d <= w * 0xffff_ffff) by (nonlinear_arith)
                    requires
                        d <= 0xffff_ffff,
                ;
                assert((t + w) * 0xffff_ffff == t * 0xffff_ffff + w * 0xffff_ffff) by (nonlinear_arith);
                assert((t + w) * 0xffff_ffff <= 0xffff_ffff_ffff_ffff * 0xffff_ffff) by (nonlinear_arith)
                    requires
                        t + w <= 0xffff_ffff_ffff_ffff,
                ;
            }
            numerator = numerator + (w as u128) * (d as u128);
            k = k + 1;
        }
        (numerator, self.denominator)
    }

    /// The expected damage to the opponent's Active Pokémon of an attack by `acting_player`'s
    /// Active Pokémon, as the fraction `r.0 / r.1` (see `expected_damage_to`).
    pub fn expected_damage_to_opponent_active(&self, state: &State, acting_player: usize) -> (r: (
        u128,
        u64,
    ))
        requires
            self.is_distribution(),
            state.wf(),
            acting_player < 2,
            forall|i: int|
                0 <= i < self.branches@.len() ==> damage_to_slot(
                    state@,
                    (acting_player, 0),
                    (#[trigger] self.branches@[i]).outcome.damage@,
                    (1 - acting_player) as usize,
                    0,
                    self.branches@[i].outcome.damage@.len() as int,
                ) <= u32::MAX,
        ensures
            r.1 == self.denominator,
            r.0 == weighted_damage_to_slot(
                state@,
                (acting_player, 0),
                self.branches@,
                (1 - acting_player) as usize,
                0,
                self.branches@.len() as int,
            ),
    {
        self.expected_damage_to(state, (acting_player, 0), 1 - acting_player, 0)
    }
}

/// Whether the damage list hits the opponent's Pokémon in `target_idx` with positive damage.
pub open spec fn damages_opponent_slot(damage: Seq<DamageTarget>, target_idx: usize) -> bool {
    exists|k: int|
        0 <= k < damage.len() && (#[trigger] damage[k]).1 && damage[k].2 == target_idx
            && damage[k].0 > 0
}

/// The first `j` entries of `reductions` kept in order when their Pokémon takes positive
/// damage from `damage`: only those Pokémon flip a coin.
pub open spec fn flipping_upto(
    damage: Seq<DamageTarget>,
    reductions: Seq<(usize, u32)>,
    j: int,
) -> Seq<(usize, u32)>
    decreases j,
{
    if j <= 0 {
        Seq::empty()
    } else {
        let prev = flipping_upto(damage, reductions, j - 1);
        if damages_opponent_slot(damage, reductions[j - 1].0) {
            prev.push(reductions[j - 1])
        } else {
            prev
        }
    }
}

/// The entries of `reductions` whose Pokémon takes positive damage from `damage`.
pub open spec fn flipping_of(damage: Seq<DamageTarget>, reductions: Seq<(usize, u32)>) -> Seq<
    (usize, u32),
> {
    flipping_upto(damage, reductions, reductions.len() as int)
}

/// The first `b` entries of `flipping` whose coin in `mask` came up heads.
pub open spec fn heads_upto(flipping: Seq<(usize, u32)>, mask: Seq<bool>, b: int) -> Seq<
    (usize, u32),
>
    decreases b,
{
    if b <= 0 {
        Seq::empty()
    } else {
        let prev = heads_upto(flipping, mask, b - 1);
        if mask[b - 1] {
            prev.push(flipping[b - 1])
        } else {
            prev
        }
    }
}

/// The reduction of the first entry of `reduced`, from position `j` on, for slot `idx`.
pub open spec fn first_reduction_from(reduced: Seq<(usize, u32)>, idx: usize, j: int) -> Option<
    u32,
>
    decreases reduced.len() - j,
{
    if j < 0 || j >= reduced.len() {
        None
    } else if reduced[j].0 == idx {
        Some(reduced[j].1)
    } else {
        first_reduction_from(reduced, idx, j + 1)
    }
}

/// What one damage entry becomes when the opponent's Pokémon in `reduced` take less damage:
/// the entry loses the reduction (down to 0), and an entry left at 0 goes away.
pub open spec fn reduce_entry(t: DamageTarget, reduced: Seq<(usize, u32)>) -> Seq<DamageTarget> {
    if t.1 {
        match first_reduction_from(reduced, t.2, 0) {
            Some(off) => {
                let left: int = if t.0 >= off {
                    t.0 - off
                } else {
                    0
                };
                if left > 0 {
                    seq![(left as u32, t.1, t.2)]
                } else {
                    Seq::empty()
                }
            },
            None => seq![t],
        }
    } else {
        seq![t]
    }
}

/// The first `i` entries of `damage`, each reduced by `reduced`.
pub open spec fn reduce_damage_upto(
    damage: Seq<DamageTarget>,
    reduced: Seq<(usize, u32)>,
    i: int,
) -> Seq<DamageTarget>
    decreases i,
{
    if i <= 0 {
        Seq::empty()
    } else {
        reduce_damage_upto(damage, reduced, i - 1) + reduce_entry(damage[i - 1], reduced)
    }
}

/// A branch as plain values: weight, damage, pre- and post-damage effects, Guts survivors, and
/// coin paths (`None` when they are not tracked).
pub type BranchView<E> = (int, Seq<DamageTarget>, Seq<E>, Seq<E>, Seq<usize>, Option<Seq<Seq<bool>>>);

/// A branch as plain values.
pub open spec fn branch_view<E>(b: AttackBranch<E>) -> BranchView<E> {
    (
        b.weight as int,
        b.outcome.damage@,
        b.outcome.pre_damage_effects@,
        b.outcome.post_damage_effects@,
        b.outcome.survivors_at_10@,
        coin_paths_view(b.coin_paths),
    )
}

/// All branches as plain values.
pub open spec fn branch_views<E>(bs: Seq<AttackBranch<E>>) -> Seq<BranchView<E>> {
    bs.map_values(|b: AttackBranch<E>| branch_view(b))
}

/// What one branch becomes under damage prevention: unchanged (its weight scaled to the new
/// denominator) when none of the protected Pokémon takes damage in it; otherwise one branch per
/// combination of the `k` coins (combination `m` has coin `b` heads when bit `b` of `m` is set),
/// each with `1 / 2^k` of its probability, its damage reduced for the heads, and no coin paths.
pub open spec fn prevention_expand<E>(b: BranchView<E>, reductions: Seq<(usize, u32)>) -> Seq<
    BranchView<E>,
> {
    let fl = flipping_of(b.1, reductions);
    let k = fl.len();
    let rr = reductions.len();
    if k == 0 {
        seq![(b.0 * two_pow(rr), b.1, b.2, b.3, b.4, b.5)]
    } else {
        Seq::new(
            two_pow(k),
            |m: int|
                (
                    b.0 * two_pow((rr - k) as nat),
                    reduce_damage_upto(
                        b.1,
                        heads_upto(fl, bits_of(m as nat, k), k as int),
                        b.1.len() as int,
                    ),
                    b.2,
                    b.3,
                    b.4,
                    None::<Seq<Seq<bool>>>,
                ),
        )
    }
}

/// Every branch expanded under damage prevention, in order.
pub open spec fn prevention_split<E>(bs: Seq<BranchView<E>>, reductions: Seq<(usize, u32)>) -> Seq<
    BranchView<E>,
>
    decreases bs.len(),
{
    if bs.len() == 0 {
        Seq::empty()
    } else {
        prevention_split(bs.drop_last(), reductions) + prevention_expand(bs.last(), reductions)
    }
}

/// Whether the damage list hits the opponent's Pokémon in `target_idx` with positive damage.
fn damages_opponent_slot_exec(damage: &Vec<DamageTarget>, target_idx: usize) -> (r: bool)
    ensures
        r == damages_opponent_slot(damage@, target_idx),
{
    let mut i: usize = 0;
    while i < damage.len()
        invariant
            i <= damage@.len(),
            forall|k: int|
                0 <= k < i ==> !((#[trigger] damage@[k]).1 && damage@[k].2 == target_idx
                    && damage@[k].0 > 0),
        decreases damage@.len() - i,
    {
        let (amount, is_opponent, idx) = damage[i];
        if is_opponent && idx == target_idx && amount > 0 {
            proof {
                assert(damage@[i as int].1 && damage@[i as int].2 == target_idx && damage@[i as int].0
                    > 0);
            }
            return true;
        }
        i = i + 1;
    }
    false
}

/// The reduction listed first for slot `idx`, if any.
fn find_reduction(reduced: &Vec<(usize, u32)>, idx: usize) -> (r: Option<u32>)
    ensures
        r == first_reduction_from(reduced@, idx, 0),
{
    let mut j: usize = 0;
    while j < reduced.len()
        invariant
            j <= reduced@.len(),
            first_reduction_from(reduced@, idx, 0) == first_reduction_from(reduced@, idx, j as int),
        decreases reduced@.len() - j,
    {
        if reduced[j].0 == idx {
            return Some(reduced[j].1);
        }
        j = j + 1;
    }
    None
}

/// The damage list after the opponent's Pokémon in `reduced` take less damage.
fn reduce_damage(damage: &Vec<DamageTarget>, reduced: &Vec<(usize, u32)>) -> (r: Vec<
    DamageTarget,
>)
    ensures
        r@ == reduce_damage_upto(damage@, reduced@, damage@.len() as int),
{
    let mut r: Vec<DamageTarget> = Vec::new();
    let mut i: usize = 0;
    while i < damage.len()
        invariant
            i <= damage@.len(),
            r@ == reduce_damage_upto(damage@, reduced@, i as int),
        decreases damage@.len() - i,
    {
        let (amount, is_opponent, idx) = damage[i];
        let ghost before = r@;
        if is_opponent {
            match find_reduction(reduced, idx) {
                Some(off) => {
                    let left = amount.saturating_sub(off);
                    if left > 0 {
                        r.push((left, is_opponent, idx));
                    }
                },
                None => {
                    r.push((amount, is_opponent, idx));
                },
            }
        } else {
            r.push((amount, is_opponent, idx));
        }
        proof {
            assert(r@ =~= before + reduce_entry(damage@[i as int], reduced@));
        }
        i = i + 1;
    }
    r
}

/// Each weight is at most the total.
pub proof fn lemma_weight_le_total<E>(bs: Seq<AttackBranch<E>>, i: int)
    requires
        0 <= i < bs.len(),
    ensures
        bs[i].weight <= attack_total_weight(bs),
    decreases bs.len(),
{
    lemma_attack_total_nonneg(bs.drop_last());
    if i < bs.len() - 1 {
        lemma_weight_le_total(bs.drop_last(), i);
        assert(bs.drop_last()[i] == bs[i]);
    }
}

/// 2^a * 2^b == 2^(a + b).
pub proof fn lemma_two_pow_add(a: nat, b: nat)
    ensures
        two_pow(a) * two_pow(b) == two_pow(a + b),
    decreases a,
{
    if a > 0 {
        let a1 = (a - 1) as nat;
        lemma_two_pow_add(a1, b);
        assert(two_pow(a) == 2 * two_pow(a1));
        assert(a1 + b + 1 == a + b);
        assert(two_pow(a + b) == 2 * two_pow((a + b - 1) as nat));
        assert((a + b - 1) as nat == a1 + b);
        let x = two_pow(a1);
        let y = two_pow(b);
        assert((2 * x) * y == 2 * (x * y)) by (nonlinear_arith);
        assert(two_pow(a) * two_pow(b) == (2 * x) * y);
        assert(two_pow(a1 + b) == x * y);
        assert(two_pow(a + b) == 2 * two_pow(a1 + b));
    } else {
        assert(two_pow(a) == 1);
        assert(a + b == b);
    }
}

/// The flipping prefix never grows faster than the reductions it is taken from.
proof fn lemma_flipping_len(damage: Seq<DamageTarget>, reductions: Seq<(usize, u32)>, j: int)
    requires
        0 <= j,
    ensures
        flipping_upto(damage, reductions, j).len() <= j,
    decreases j,
{
    if j > 0 {
        lemma_flipping_len(damage, reductions, j - 1);
    }
}

impl<E: Copy> AttackOutcomes<E> {
    /// The defender's "flip a coin; if heads, prevent that damage / take -X damage" abilities
    /// (Meowth's Carefree Steps, Hisuian Goodra's Securely Sheltered...), for each of the
    /// opponent's slots in `reductions` (`u32::MAX` = full prevention). In each branch, each
    /// listed Pokémon that takes damage flips its own coin: the branch splits into one
    /// sub-branch per combination of heads and tails, with heads reducing that Pokémon's damage
    /// (entries reduced to 0 are removed) and everything else kept. Coin paths are dropped
    /// (these are the defender's coins). Weights are expressed over the denominator times
    /// `2^reductions.len()`.
    pub fn split_with_damage_prevention(self, reductions: &Vec<(usize, u32)>) -> (r: Self)
        requires
            self.is_distribution(),
            reductions@.len() < 32,
            self.denominator * two_pow(reductions@.len() as nat) <= u64::MAX,
        ensures
            r.is_distribution(),
            r.denominator == self.denominator * two_pow(reductions@.len() as nat),
            branch_views(r.branches@) == prevention_split(branch_views(self.branches@), reductions@),
    {
        let AttackOutcomes { denominator, branches: source } = self;
        let ghost src = source@;
        let ghost vs = branch_views(src);
        let rr = reductions.len();
        proof {
            lemma_two_pow_monotone(rr as nat, 31);
            crate::outcomes::lemma_two_pow_31();
        }
        let mut scale_all: u64 = 1;
        let mut e: usize = 0;
        while e < rr
            invariant
                e <= rr,
                rr < 32,
                scale_all == two_pow(e as nat),
            decreases rr - e,
        {
            proof {
                lemma_two_pow_monotone((e + 1) as nat, 31);
                crate::outcomes::lemma_two_pow_31();
            }
            scale_all = scale_all * 2;
            e = e + 1;
        }
        proof {
            lemma_two_pow_monotone(0, rr as nat);
        }
        let new_denominator = denominator * scale_all;
        let mut branches: Vec<AttackBranch<E>> = Vec::new();
        let mut rest = source;
        let n = rest.len();
        let mut i: usize = 0;
        while rest.len() > 0
            invariant
                i + rest@.len() == src.len(),
                src.len() == n,
                vs == branch_views(src),
                rest@ == src.subrange(i as int, src.len() as int),
                rr == reductions@.len(),
                rr < 32,
                scale_all == two_pow(rr as nat),
                attack_total_weight(src) == denominator,
                denominator * scale_all <= u64::MAX,
                attack_total_weight(branches@) == attack_total_weight(src.subrange(0, i as int))
                    * scale_all,
                branch_views(branches@) == prevention_split(vs.subrange(0, i as int), reductions@),
            decreases rest@.len(),
        {
            let branch = rest.remove(0);
            let ghost vb = branch_view(branch);
            proof {
                lemma_weight_le_total(src, i as int);
                assert(branch == src[i as int]);
                assert(vb == vs[i as int]);
                assert(branch.weight * scale_all <= denominator * scale_all) by (nonlinear_arith)
                    requires
                        branch.weight <= denominator,
                ;
                lemma_attack_total_prefix(src, i as int + 1);
                assert(rest@ =~= src.subrange(i as int + 1, src.len() as int));
                assert(vs.subrange(0, i as int + 1).drop_last() =~= vs.subrange(0, i as int));
                assert(vs.subrange(0, i as int + 1).last() == vb);
                assert(prevention_split(vs.subrange(0, i as int + 1), reductions@)
                    == prevention_split(vs.subrange(0, i as int), reductions@) + prevention_expand(
                    vb,
                    reductions@,
                ));
            }
            let mut flipping: Vec<(usize, u32)> = Vec::new();
            let mut j: usize = 0;
            while j < reductions.len()
                invariant
                    j <= reductions@.len(),
                    flipping@ == flipping_upto(branch.outcome.damage@, reductions@, j as int),
                decreases reductions@.len() - j,
            {
                if damages_opponent_slot_exec(&branch.outcome.damage, reductions[j].0) {
                    flipping.push(reductions[j]);
                }
                j = j + 1;
            }
            proof {
                lemma_flipping_len(branch.outcome.damage@, reductions@, rr as int);
                assert(flipping@ == flipping_of(vb.1, reductions@));
            }
            let k = flipping.len();
            let ghost before_all = branches@;
            if k == 0 {
                let AttackBranch { weight, outcome, coin_paths } = branch;
                branches.push(AttackBranch { weight: weight * scale_all, outcome, coin_paths });
                proof {
                    lemma_attack_total_push(before_all, branches@.last());
                    assert(branches@ =~= before_all.push(branches@.last()));
                    assert(branch_views(branches@) =~= branch_views(before_all).push(
                        branch_view(branches@.last()),
                    ));
                    assert(prevention_expand(vb, reductions@) =~= seq![
                        branch_view(branches@.last()),
                    ]);
                    assert(attack_total_weight(src.subrange(0, i as int + 1)) * scale_all
                        == attack_total_weight(src.subrange(0, i as int)) * scale_all + src[i as int].weight
                        * scale_all) by (nonlinear_arith)
                        requires
                            attack_total_weight(src.subrange(0, i as int + 1)) == attack_total_weight(
                                src.subrange(0, i as int),
                            ) + src[i as int].weight,
                    ;
                }
            } else {
                proof {
                    lemma_two_pow_monotone(k as nat, rr as nat);
                    lemma_two_pow_monotone(k as nat, 31);
                    crate::outcomes::lemma_two_pow_31();
                    lemma_two_pow_add(k as nat, (rr - k) as nat);
                    assert(k as nat + (rr - k) as nat == rr as nat);
                }
                let mut sub_scale: u64 = 1;
                let mut e: usize = 0;
                while e < rr - k
                    invariant
                        k <= rr < 32,
                        e <= rr - k,
                        sub_scale == two_pow(e as nat),
                    decreases rr - k - e,
                {
                    proof {
                        lemma_two_pow_monotone((e + 1) as nat, 31);
                        crate::outcomes::lemma_two_pow_31();
                    }
                    sub_scale = sub_scale * 2;
                    e = e + 1;
                }
                proof {
                    lemma_two_pow_monotone((rr - k) as nat, rr as nat);
                    assert(branch.weight * sub_scale <= branch.weight * scale_all) by (nonlinear_arith)
                        requires
                            sub_scale <= scale_all,
                    ;
                }
                let sub_weight = branch.weight * sub_scale;
                proof {
                    assert(two_pow(k as nat) * sub_scale == scale_all);
                    assert(sub_weight * two_pow(k as nat) == branch.weight * scale_all)
                        by (nonlinear_arith)
                        requires
                            sub_weight == branch.weight * sub_scale,
                            two_pow(k as nat) * sub_scale == scale_all,
                    ;
                }
                let masks = crate::apply_action_helpers::generate_boolean_vectors(k);
                let ghost expansion = prevention_expand(vb, reductions@);
                proof {
                    assert(expansion.len() == two_pow(k as nat));
                }
                let mut m: usize = 0;
                while m < masks.len()
                    invariant
                        m <= masks@.len(),
                        masks@.len() == two_pow(k as nat),
                        forall|q: int|
                            0 <= q < masks@.len() ==> (#[trigger] masks@[q])@ == bits_of(
                                q as nat,
                                k as nat,
                            ),
                        flipping@.len() == k,
                        k > 0,
                        k <= rr,
                        rr == reductions@.len(),
                        flipping@ == flipping_of(vb.1, reductions@),
                        vb == branch_view(branch),
                        sub_weight == branch.weight * two_pow((rr - k) as nat),
                        expansion == prevention_expand(vb, reductions@),
                        attack_total_weight(branches@) == attack_total_weight(before_all) + m
                            * sub_weight,
                        branch_views(branches@) == branch_views(before_all) + expansion.subrange(
                            0,
                            m as int,
                        ),
                        sub_weight * two_pow(k as nat) <= u64::MAX,
                    decreases masks@.len() - m,
                {
                    let mask = &masks[m];
                    proof {
                        crate::outcomes::lemma_bits_of_len(m as nat, k as nat);
                    }
                    let mut reduced_now: Vec<(usize, u32)> = Vec::new();
                    let mut b: usize = 0;
                    while b < flipping.len()
                        invariant
                            b <= flipping@.len(),
                            mask@.len() == flipping@.len(),
                            reduced_now@ == heads_upto(flipping@, mask@, b as int),
                        decreases flipping@.len() - b,
                    {
                        if mask[b] {
                            reduced_now.push(flipping[b]);
                        }
                        b = b + 1;
                    }
                    let mut outcome = branch.outcome.copy();
                    outcome.damage = reduce_damage(&branch.outcome.damage, &reduced_now);
                    let ghost before = branches@;
                    branches.push(
                        AttackBranch {
                            weight: sub_weight,
                            outcome,
                            coin_paths: CoinPaths::NotTracked,
                        },
                    );
                    proof {
                        lemma_attack_total_push(before, branches@.last());
                        assert(branches@ =~= before.push(branches@.last()));
                        assert((m + 1) * sub_weight == m * sub_weight + sub_weight)
                            by (nonlinear_arith);
                        assert(branch_view(branches@.last()) == expansion[m as int]);
                        assert(branch_views(branches@) =~= branch_views(before).push(
                            branch_view(branches@.last()),
                        ));
                        assert(expansion.subrange(0, m as int + 1) =~= expansion.subrange(
                            0,
                            m as int,
                        ).push(expansion[m as int]));
                    }
                    m = m + 1;
                }
                proof {
                    assert(expansion.subrange(0, m as int) =~= expansion);
                    assert(attack_total_weight(src.subrange(0, i as int + 1)) * scale_all
                        == attack_total_weight(src.subrange(0, i as int)) * scale_all + src[i as int].weight
                        * scale_all) by (nonlinear_arith)
                        requires
                            attack_total_weight(src.subrange(0, i as int + 1)) == attack_total_weight(
                                src.subrange(0, i as int),
                            ) + src[i as int].weight,
                    ;
                    assert(two_pow(k as nat) * sub_weight == sub_weight * two_pow(k as nat))
                        by (nonlinear_arith);
                }
            }
            i = i + 1;
        }
        proof {
            assert(src.subrange(0, src.len() as int) =~= src);
            assert(vs.subrange(0, vs.len() as int) =~= vs);
            assert(denominator * scale_all > 0) by (nonlinear_arith)
                requires
                    denominator > 0,
                    scale_all >= 1,
            ;
        }
        AttackOutcomes { denominator: new_denominator, branches }
    }
}

/// One outcome as plain values: damage, the effects before and after it, and the Guts
/// survivors.
pub type OutcomeView<E> = (Seq<DamageTarget>, Seq<E>, Seq<E>, Seq<usize>);

/// An outcome as plain values.
pub open spec fn outcome_view<E>(o: AttackOutcome<E>) -> OutcomeView<E> {
    (o.damage@, o.pre_damage_effects@, o.post_damage_effects@, o.survivors_at_10@)
}

/// A branch as its weight and outcome.
pub open spec fn weighted_view<E>(b: BranchView<E>) -> (int, OutcomeView<E>) {
    (b.0, (b.1, b.2, b.3, b.4))
}

/// Branches as their weights and outcomes.
pub open spec fn weighted_views<E>(bs: Seq<BranchView<E>>) -> Seq<(int, OutcomeView<E>)> {
    bs.map_values(|b: BranchView<E>| weighted_view(b))
}

/// Damage prevention on branches given as weights and outcomes (see `prevention_expand`).
pub open spec fn prevention_expand_w<E>(b: (int, OutcomeView<E>), reductions: Seq<(usize, u32)>) -> Seq<
    (int, OutcomeView<E>),
> {
    let o = b.1;
    let fl = flipping_of(o.0, reductions);
    let k = fl.len();
    let rr = reductions.len();
    if k == 0 {
        seq![(b.0 * two_pow(rr), o)]
    } else {
        Seq::new(
            two_pow(k),
            |m: int|
                (
                    b.0 * two_pow((rr - k) as nat),
                    (
                        reduce_damage_upto(
                            o.0,
                            heads_upto(fl, bits_of(m as nat, k), k as int),
                            o.0.len() as int,
                        ),
                        o.1,
                        o.2,
                        o.3,
                    ),
                ),
        )
    }
}

/// Damage prevention on every branch, in order, as weights and outcomes.
pub open spec fn prevention_split_w<E>(bs: Seq<(int, OutcomeView<E>)>, reductions: Seq<(usize, u32)>) -> Seq<
    (int, OutcomeView<E>),
>
    decreases bs.len(),
{
    if bs.len() == 0 {
        Seq::empty()
    } else {
        prevention_split_w(bs.drop_last(), reductions) + prevention_expand_w(bs.last(), reductions)
    }
}

/// Coin paths play no part in what damage prevention does to weights and outcomes.
pub proof fn lemma_prevention_weighted<E>(bs: Seq<BranchView<E>>, reductions: Seq<(usize, u32)>)
    ensures
        weighted_views(prevention_split(bs, reductions)) == prevention_split_w(
            weighted_views(bs),
            reductions,
        ),
    decreases bs.len(),
{
    if bs.len() > 0 {
        lemma_prevention_weighted(bs.drop_last(), reductions);
        assert(weighted_views(bs).drop_last() =~= weighted_views(bs.drop_last()));
        assert(weighted_views(bs).last() == weighted_view(bs.last()));
        assert(weighted_views(prevention_expand(bs.last(), reductions)) =~= prevention_expand_w(
            weighted_view(bs.last()),
            reductions,
        ));
        assert(weighted_views(
            prevention_split(bs.drop_last(), reductions) + prevention_expand(bs.last(), reductions),
        ) =~= weighted_views(prevention_split(bs.drop_last(), reductions)) + weighted_views(
            prevention_expand(bs.last(), reductions),
        ));
    } else {
        assert(weighted_views(prevention_split(bs, reductions)) =~= Seq::empty());
    }
}

/// The raw damage of the first `n` entries of `damage` aimed at the opponent's slot `idx`,
/// summed (saturating at `u32::MAX`).
pub open spec fn raw_damage_to(damage: Seq<DamageTarget>, idx: usize, n: int) -> u32
    decreases n,
{
    if n <= 0 {
        0
    } else {
        let prev = raw_damage_to(damage, idx, n - 1);
        if damage[n - 1].1 && damage[n - 1].2 == idx {
            add_capped(prev, damage[n - 1].0)
        } else {
            prev
        }
    }
}

/// Of the first `j` Guts slots, those whose Pokémon the damage would Knock Out: only those flip.
pub open spec fn guts_flipping_upto(
    s: StateView,
    actor: usize,
    damage: Seq<DamageTarget>,
    guts: Seq<usize>,
    j: int,
) -> Seq<usize>
    decreases j,
{
    if j <= 0 {
        Seq::empty()
    } else {
        let prev = guts_flipping_upto(s, actor, damage, guts, j - 1);
        let idx = guts[j - 1];
        if guts_would_flip_spec(
            s,
            (actor, 0),
            raw_damage_to(damage, idx, damage.len() as int),
            ((1 - actor) as usize, idx),
            true,
        ) {
            prev.push(idx)
        } else {
            prev
        }
    }
}

/// The first `b` entries of `items` whose coin in `mask` came up heads.
pub open spec fn picked_upto(items: Seq<usize>, mask: Seq<bool>, b: int) -> Seq<usize>
    decreases b,
{
    if b <= 0 {
        Seq::empty()
    } else {
        let prev = picked_upto(items, mask, b - 1);
        if mask[b - 1] {
            prev.push(items[b - 1])
        } else {
            prev
        }
    }
}

/// What one branch becomes under Guts: unchanged (weight scaled) when no Guts Pokémon would be
/// Knocked Out by it; otherwise one branch per combination of their coins, each with
/// `1 / 2^k` of its probability, the heads surviving at 10 HP, and no coin paths.
pub open spec fn guts_expand<E>(b: BranchView<E>, s: StateView, actor: usize, guts: Seq<usize>) -> Seq<
    BranchView<E>,
> {
    let fl = guts_flipping_upto(s, actor, b.1, guts, guts.len() as int);
    let k = fl.len();
    let rr = guts.len();
    if k == 0 {
        seq![(b.0 * two_pow(rr), b.1, b.2, b.3, b.4, b.5)]
    } else {
        Seq::new(
            two_pow(k),
            |m: int|
                (
                    b.0 * two_pow((rr - k) as nat),
                    b.1,
                    b.2,
                    b.3,
                    b.4 + picked_upto(fl, bits_of(m as nat, k), k as int),
                    None::<Seq<Seq<bool>>>,
                ),
        )
    }
}

/// Every branch expanded under Guts, in order.
pub open spec fn guts_split<E>(bs: Seq<BranchView<E>>, s: StateView, actor: usize, guts: Seq<usize>) -> Seq<
    BranchView<E>,
>
    decreases bs.len(),
{
    if bs.len() == 0 {
        Seq::empty()
    } else {
        guts_split(bs.drop_last(), s, actor, guts) + guts_expand(bs.last(), s, actor, guts)
    }
}

/// Guts on branches given as weights and outcomes.
pub open spec fn guts_expand_w<E>(b: (int, OutcomeView<E>), s: StateView, actor: usize, guts: Seq<usize>) -> Seq<
    (int, OutcomeView<E>),
> {
    let o = b.1;
    let fl = guts_flipping_upto(s, actor, o.0, guts, guts.len() as int);
    let k = fl.len();
    let rr = guts.len();
    if k == 0 {
        seq![(b.0 * two_pow(rr), o)]
    } else {
        Seq::new(
            two_pow(k),
            |m: int|
                (
                    b.0 * two_pow((rr - k) as nat),
                    (o.0, o.1, o.2, o.3 + picked_upto(fl, bits_of(m as nat, k), k as int)),
                ),
        )
    }
}

/// Guts on every branch, in order, as weights and outcomes.
pub open spec fn guts_split_w<E>(bs: Seq<(int, OutcomeView<E>)>, s: StateView, actor: usize, guts: Seq<usize>) -> Seq<
    (int, OutcomeView<E>),
>
    decreases bs.len(),
{
    if bs.len() == 0 {
        Seq::empty()
    } else {
        guts_split_w(bs.drop_last(), s, actor, guts) + guts_expand_w(bs.last(), s, actor, guts)
    }
}

/// Coin paths play no part in what Guts does to weights and outcomes.
pub proof fn lemma_guts_weighted<E>(bs: Seq<BranchView<E>>, s: StateView, actor: usize, guts: Seq<usize>)
    ensures
        weighted_views(guts_split(bs, s, actor, guts)) == guts_split_w(weighted_views(bs), s, actor, guts),
    decreases bs.len(),
{
    if bs.len() > 0 {
        lemma_guts_weighted(bs.drop_last(), s, actor, guts);
        assert(weighted_views(bs).drop_last() =~= weighted_views(bs.drop_last()));
        assert(weighted_views(bs).last() == weighted_view(bs.last()));
        assert(weighted_views(guts_expand(bs.last(), s, actor, guts)) =~= guts_expand_w(
            weighted_view(bs.last()),
            s,
            actor,
            guts,
        ));
        assert(weighted_views(
            guts_split(bs.drop_last(), s, actor, guts) + guts_expand(bs.last(), s, actor, guts),
        ) =~= weighted_views(guts_split(bs.drop_last(), s, actor, guts)) + weighted_views(
            guts_expand(bs.last(), s, actor, guts),
        ));
    } else {
        assert(weighted_views(guts_split(bs, s, actor, guts)) =~= Seq::empty());
    }
}

/// The raw damage in `damage` aimed at the opponent's slot `idx`.
fn raw_damage_to_exec(damage: &Vec<DamageTarget>, idx: usize) -> (r: u32)
    ensures
        r == raw_damage_to(damage@, idx, damage@.len() as int),
{
    let mut total: u32 = 0;
    let mut i: usize = 0;
    while i < damage.len()
        invariant
            i <= damage@.len(),
            total == raw_damage_to(damage@, idx, i as int),
        decreases damage@.len() - i,
    {
        let (amount, is_opponent, target) = damage[i];
        if is_opponent && target == idx {
            total = total.saturating_add(amount);
        }
        i = i + 1;
    }
    total
}

/// The Guts slots whose Pokémon the damage would Knock Out.
fn guts_flipping(
    state: &State,
    actor: usize,
    damage: &Vec<DamageTarget>,
    guts: &Vec<usize>,
) -> (r: Vec<usize>)
    requires
        state.wf(),
        actor < 2,
        forall|j: int| 0 <= j < guts@.len() ==> #[trigger] guts@[j] < 4,
    ensures
        r@ == guts_flipping_upto(state@, actor, damage@, guts@, guts@.len() as int),
        r@.len() <= guts@.len(),
{
    let mut r: Vec<usize> = Vec::new();
    let mut j: usize = 0;
    while j < guts.len()
        invariant
            j <= guts@.len(),
            state.wf(),
            actor < 2,
            forall|q: int| 0 <= q < guts@.len() ==> #[trigger] guts@[q] < 4,
            r@ == guts_flipping_upto(state@, actor, damage@, guts@, j as int),
            r@.len() <= j,
        decreases guts@.len() - j,
    {
        let idx = guts[j];
        let raw = raw_damage_to_exec(damage, idx);
        if guts_would_flip(state, (actor, 0), raw, (1 - actor, idx), true) {
            r.push(idx);
        }
        j = j + 1;
    }
    r
}

/// A copy of `a` followed by `b`.
fn concat_indices(a: &Vec<usize>, b: &Vec<usize>) -> (r: Vec<usize>)
    ensures
        r@ == a@ + b@,
{
    let mut r = copy_indices(a);
    let mut i: usize = 0;
    while i < b.len()
        invariant
            i <= b@.len(),
            r@ == a@ + b@.subrange(0, i as int),
        decreases b@.len() - i,
    {
        r.push(b[i]);
        i = i + 1;
        proof {
            assert(r@ =~= a@ + b@.subrange(0, i as int));
        }
    }
    proof {
        assert(b@.subrange(0, b@.len() as int) =~= b@);
    }
    r
}

impl<E: Copy> AttackOutcomes<E> {
    /// The defender's Guts (Ursaluna): each of the opponent's Pokémon in `guts_indices` that this
    /// branch's damage would Knock Out (forecast on the board before the attack, modifiers
    /// included) flips a coin; the branch splits into one sub-branch per combination of heads
    /// and tails, and on heads that Pokémon survives at 10 HP after the damage lands. Coin paths
    /// are dropped. Weights are expressed over the denominator times `2^guts_indices.len()`.
    pub fn split_with_guts_survival(self, state: &State, acting_player: usize, guts_indices: &Vec<
        usize,
    >) -> (r: Self)
        requires
            self.is_distribution(),
            state.wf(),
            acting_player < 2,
            forall|j: int| 0 <= j < guts_indices@.len() ==> #[trigger] guts_indices@[j] < 4,
            guts_indices@.len() < 32,
            self.denominator * two_pow(guts_indices@.len() as nat) <= u64::MAX,
        ensures
            r.is_distribution(),
            r.denominator == self.denominator * two_pow(guts_indices@.len() as nat),
            branch_views(r.branches@) == guts_split(
                branch_views(self.branches@),
                state@,
                acting_player,
                guts_indices@,
            ),
    {
        let AttackOutcomes { denominator, branches: source } = self;
        let ghost src = source@;
        let ghost vs = branch_views(src);
        let ghost s = state@;
        let rr = guts_indices.len();
        proof {
            lemma_two_pow_monotone(rr as nat, 31);
            crate::outcomes::lemma_two_pow_31();
        }
        let mut scale_all: u64 = 1;
        let mut e: usize = 0;
        while e < rr
            invariant
                e <= rr,
                rr < 32,
                scale_all == two_pow(e as nat),
            decreases rr - e,
        {
            proof {
                lemma_two_pow_monotone((e + 1) as nat, 31);
                crate::outcomes::lemma_two_pow_31();
            }
            scale_all = scale_all * 2;
            e = e + 1;
        }
        proof {
            lemma_two_pow_monotone(0, rr as nat);
        }
        let new_denominator = denominator * scale_all;
        let mut branches: Vec<AttackBranch<E>> = Vec::new();
        let mut rest = source;
        let n = rest.len();
        let mut i: usize = 0;
        while rest.len() > 0
            invariant
                i + rest@.len() == src.len(),
                src.len() == n,
                vs == branch_views(src),
                s == state@,
                state.wf(),
                acting_player < 2,
                forall|j: int| 0 <= j < guts_indices@.len() ==> #[trigger] guts_indices@[j] < 4,
                rest@ == src.subrange(i as int, src.len() as int),
                rr == guts_indices@.len(),
                rr < 32,
                scale_all == two_pow(rr as nat),
                attack_total_weight(src) == denominator,
                denominator * scale_all <= u64::MAX,
                attack_total_weight(branches@) == attack_total_weight(src.subrange(0, i as int))
                    * scale_all,
                branch_views(branches@) == guts_split(
                    vs.subrange(0, i as int),
                    s,
                    acting_player,
                    guts_indices@,
                ),
            decreases rest@.len(),
        {
            let branch = rest.remove(0);
            let ghost vb = branch_view(branch);
            proof {
                lemma_weight_le_total(src, i as int);
                assert(branch == src[i as int]);
                assert(vb == vs[i as int]);
                assert(branch.weight * scale_all <= denominator * scale_all) by (nonlinear_arith)
                    requires
                        branch.weight <= denominator,
                ;
                lemma_attack_total_prefix(src, i as int + 1);
                assert(rest@ =~= src.subrange(i as int + 1, src.len() as int));
                assert(vs.subrange(0, i as int + 1).drop_last() =~= vs.subrange(0, i as int));
                assert(vs.subrange(0, i as int + 1).last() == vb);
                assert(guts_split(vs.subrange(0, i as int + 1), s, acting_player, guts_indices@)
                    == guts_split(vs.subrange(0, i as int), s, acting_player, guts_indices@)
                    + guts_expand(vb, s, acting_player, guts_indices@));
            }
            let flipping = guts_flipping(state, acting_player, &branch.outcome.damage, guts_indices);
            let k = flipping.len();
            let ghost before_all = branches@;
            if k == 0 {
                let AttackBranch { weight, outcome, coin_paths } = branch;
                branches.push(AttackBranch { weight: weight * scale_all, outcome, coin_paths });
                proof {
                    lemma_attack_total_push(before_all, branches@.last());
                    assert(branches@ =~= before_all.push(branches@.last()));
                    assert(branch_views(branches@) =~= branch_views(before_all).push(
                        branch_view(branches@.last()),
                    ));
                    assert(guts_expand(vb, s, acting_player, guts_indices@) =~= seq![
                        branch_view(branches@.last()),
                    ]);
                    assert(attack_total_weight(src.subrange(0, i as int + 1)) * scale_all
                        == attack_total_weight(src.subrange(0, i as int)) * scale_all + src[i as int].weight
                        * scale_all) by (nonlinear_arith)
                        requires
                            attack_total_weight(src.subrange(0, i as int + 1)) == attack_total_weight(
                                src.subrange(0, i as int),
                            ) + src[i as int].weight,
                    ;
                }
            } else {
                proof {
                    lemma_two_pow_monotone(k as nat, rr as nat);
                    lemma_two_pow_monotone(k as nat, 31);
                    crate::outcomes::lemma_two_pow_31();
                    lemma_two_pow_add(k as nat, (rr - k) as nat);
                    assert(k as nat + (rr - k) as nat == rr as nat);
                }
                let mut sub_scale: u64 = 1;
                let mut e: usize = 0;
                while e < rr - k
                    invariant
                        k <= rr < 32,
                        e <= rr - k,
                        sub_scale == two_pow(e as nat),
                    decreases rr - k - e,
                {
                    proof {
                        lemma_two_pow_monotone((e + 1) as nat, 31);
                        crate::outcomes::lemma_two_pow_31();
                    }
                    sub_scale = sub_scale * 2;
                    e = e + 1;
                }
                proof {
                    lemma_two_pow_monotone((rr - k) as nat, rr as nat);
                    assert(branch.weight * sub_scale <= branch.weight * scale_all) by (nonlinear_arith)
                        requires
                            sub_scale <= scale_all,
                    ;
                }
                let sub_weight = branch.weight * sub_scale;
                proof {
                    assert(two_pow(k as nat) * sub_scale == scale_all);
                    assert(sub_weight * two_pow(k as nat) == branch.weight * scale_all)
                        by (nonlinear_arith)
                        requires
                            sub_weight == branch.weight * sub_scale,
                            two_pow(k as nat) * sub_scale == scale_all,
                    ;
                }
                let masks = crate::apply_action_helpers::generate_boolean_vectors(k);
                let ghost expansion = guts_expand(vb, s, acting_player, guts_indices@);
                let mut m: usize = 0;
                while m < masks.len()
                    invariant
                        m <= masks@.len(),
                        masks@.len() == two_pow(k as nat),
                        forall|q: int|
                            0 <= q < masks@.len() ==> (#[trigger] masks@[q])@ == bits_of(
                                q as nat,
                                k as nat,
                            ),
                        flipping@.len() == k,
                        k > 0,
                        k <= rr,
                        rr == guts_indices@.len(),
                        flipping@ == guts_flipping_upto(s, acting_player, vb.1, guts_indices@, rr as int),
                        vb == branch_view(branch),
                        sub_weight == branch.weight * two_pow((rr - k) as nat),
                        expansion == guts_expand(vb, s, acting_player, guts_indices@),
                        attack_total_weight(branches@) == attack_total_weight(before_all) + m
                            * sub_weight,
                        branch_views(branches@) == branch_views(before_all) + expansion.subrange(
                            0,
                            m as int,
                        ),
                        sub_weight * two_pow(k as nat) <= u64::MAX,
                    decreases masks@.len() - m,
                {
                    let mask = &masks[m];
                    proof {
                        crate::outcomes::lemma_bits_of_len(m as nat, k as nat);
                    }
                    let mut survivors: Vec<usize> = Vec::new();
                    let mut b: usize = 0;
                    while b < flipping.len()
                        invariant
                            b <= flipping@.len(),
                            mask@.len() == flipping@.len(),
                            survivors@ == picked_upto(flipping@, mask@, b as int),
                        decreases flipping@.len() - b,
                    {
                        if mask[b] {
                            survivors.push(flipping[b]);
                        }
                        b = b + 1;
                    }
                    let mut outcome = branch.outcome.copy();
                    outcome.survivors_at_10 = concat_indices(&branch.outcome.survivors_at_10, &survivors);
                    let ghost before = branches@;
                    branches.push(
                        AttackBranch {
                            weight: sub_weight,
                            outcome,
                            coin_paths: CoinPaths::NotTracked,
                        },
                    );
                    proof {
                        lemma_attack_total_push(before, branches@.last());
                        assert(branches@ =~= before.push(branches@.last()));
                        assert((m + 1) * sub_weight == m * sub_weight + sub_weight)
                            by (nonlinear_arith);
                        assert(branch_view(branches@.last()) == expansion[m as int]);
                        assert(branch_views(branches@) =~= branch_views(before).push(
                            branch_view(branches@.last()),
                        ));
                        assert(expansion.subrange(0, m as int + 1) =~= expansion.subrange(
                            0,
                            m as int,
                        ).push(expansion[m as int]));
                    }
                    m = m + 1;
                }
                proof {
                    assert(expansion.subrange(0, m as int) =~= expansion);
                    assert(attack_total_weight(src.subrange(0, i as int + 1)) * scale_all
                        == attack_total_weight(src.subrange(0, i as int)) * scale_all + src[i as int].weight
                        * scale_all) by (nonlinear_arith)
                        requires
                            attack_total_weight(src.subrange(0, i as int + 1)) == attack_total_weight(
                                src.subrange(0, i as int),
                            ) + src[i as int].weight,
                    ;
                    assert(two_pow(k as nat) * sub_weight == sub_weight * two_pow(k as nat))
                        by (nonlinear_arith);
                }
            }
            i = i + 1;
        }
        proof {
            assert(src.subrange(0, src.len() as int) =~= src);
            assert(vs.subrange(0, vs.len() as int) =~= vs);
            assert(denominator * scale_all > 0) by (nonlinear_arith)
                requires
                    denominator > 0,
                    scale_all >= 1,
            ;
        }
        AttackOutcomes { denominator: new_denominator, branches }
    }
}

} // verus!
