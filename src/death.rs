use vstd::prelude::*;
use crate::castle::Castle;
use crate::enemy::EnemyBundle;
use crate::side::Side;

verus! {

/// Whether `e` is dead and belongs to one of `sides`.
pub open spec fn dies_in(e: EnemyBundle, sides: Set<Side>) -> bool {
    sides.contains(e.side) && e.enemy.health <= 0
}

/// Total experience of the dead enemies of `enemies` that belong to one of `sides`.
pub open spec fn dying_exp_in(enemies: Seq<EnemyBundle>, sides: Set<Side>) -> int
    decreases enemies.len(),
{
    if enemies.len() == 0 {
        0
    } else {
        let e = enemies.last();
        dying_exp_in(enemies.drop_last(), sides) + if dies_in(e, sides) {
            e.enemy.exp as int
        } else {
            0
        }
    }
}

/// `enemies` without the dead ones that belong to one of `sides`, in their order.
pub open spec fn survivors_in(enemies: Seq<EnemyBundle>, sides: Set<Side>) -> Seq<EnemyBundle>
    decreases enemies.len(),
{
    if enemies.len() == 0 {
        Seq::empty()
    } else {
        let e = enemies.last();
        let rest = survivors_in(enemies.drop_last(), sides);
        if dies_in(e, sides) {
            rest
        } else {
            rest.push(e)
        }
    }
}

/// Experience that resolving deaths of `side` credits.
pub open spec fn dying_exp(enemies: Seq<EnemyBundle>, side: Side) -> int {
    dying_exp_in(enemies, set![side])
}

/// Enemies left after resolving deaths of `side`.
pub open spec fn survivors(enemies: Seq<EnemyBundle>, side: Side) -> Seq<EnemyBundle> {
    survivors_in(enemies, set![side])
}

/// Experience credited when the sides of `order` resolve their deaths one after the other.
pub open spec fn credited_by_order(enemies: Seq<EnemyBundle>, order: Seq<Side>) -> int
    decreases order.len(),
{
    if order.len() == 0 {
        0
    } else {
        dying_exp(enemies, order[0]) + credited_by_order(
            survivors(enemies, order[0]),
            order.drop_first(),
        )
    }
}

/// Enemies left when the sides of `order` resolve their deaths one after the other.
pub open spec fn survivors_by_order(enemies: Seq<EnemyBundle>, order: Seq<Side>) -> Seq<EnemyBundle>
    decreases order.len(),
{
    if order.len() == 0 {
        enemies
    } else {
        survivors_by_order(survivors(enemies, order[0]), order.drop_first())
    }
}

/// Credited experience is never negative.
pub proof fn lemma_dying_exp_nonneg(enemies: Seq<EnemyBundle>, sides: Set<Side>)
    ensures
        dying_exp_in(enemies, sides) >= 0,
    decreases enemies.len(),
{
    if enemies.len() > 0 {
        lemma_dying_exp_nonneg(enemies.drop_last(), sides);
    }
}

/// Resolving the sides of `a` and then those of `b` credits, the second
/// time, the dead enemies of the sides of `b` that are not in `a`.
pub proof fn lemma_dying_after_survivors(enemies: Seq<EnemyBundle>, a: Set<Side>, b: Set<Side>)
    ensures
        dying_exp_in(survivors_in(enemies, a), b) == dying_exp_in(enemies, b.difference(a)),
    decreases enemies.len(),
{
    if enemies.len() > 0 {
        let e = enemies.last();
        let rest = survivors_in(enemies.drop_last(), a);
        lemma_dying_after_survivors(enemies.drop_last(), a, b);
        if !dies_in(e, a) {
            assert(rest.push(e).drop_last() =~= rest);
        }
    }
}

/// Removing the dead of the sides of `a` and then of `b` removes the dead of both.
pub proof fn lemma_survivors_twice(enemies: Seq<EnemyBundle>, a: Set<Side>, b: Set<Side>)
    ensures
        survivors_in(survivors_in(enemies, a), b) == survivors_in(enemies, a.union(b)),
    decreases enemies.len(),
{
    if enemies.len() > 0 {
        let e = enemies.last();
        let rest = survivors_in(enemies.drop_last(), a);
        lemma_survivors_twice(enemies.drop_last(), a, b);
        if !dies_in(e, a) {
            assert(rest.push(e).drop_last() =~= rest);
        }
    }
}

/// The experience of the dead of two disjoint groups of sides adds up.
pub proof fn lemma_dying_exp_split(enemies: Seq<EnemyBundle>, a: Set<Side>, b: Set<Side>)
    requires
        a.disjoint(b),
    ensures
        dying_exp_in(enemies, a) + dying_exp_in(enemies, b) == dying_exp_in(enemies, a.union(b)),
    decreases enemies.len(),
{
    if enemies.len() > 0 {
        lemma_dying_exp_split(enemies.drop_last(), a, b);
    }
}

/// Nothing is credited for no side.
pub proof fn lemma_dying_exp_none(enemies: Seq<EnemyBundle>)
    ensures
        dying_exp_in(enemies, Set::empty()) == 0,
        survivors_in(enemies, Set::empty()) == enemies,
    decreases enemies.len(),
{
    if enemies.len() > 0 {
        lemma_dying_exp_none(enemies.drop_last());
        assert(enemies.drop_last().push(enemies.last()) =~= enemies);
    }
}

/// Death resolution is idempotent: running it a second time for a side
/// credits nothing and removes nothing.
pub proof fn lemma_resolve_twice(enemies: Seq<EnemyBundle>, side: Side)
    ensures
        dying_exp(survivors(enemies, side), side) == 0,
        survivors(survivors(enemies, side), side) == survivors(enemies, side),
{
    lemma_dying_after_survivors(enemies, set![side], set![side]);
    assert(set![side].difference(set![side]) =~= Set::<Side>::empty());
    lemma_dying_exp_none(enemies);
    lemma_survivors_twice(enemies, set![side], set![side]);
    assert(set![side].union(set![side]) =~= set![side]);
}

/// When the sides resolve their deaths one after another, in any order and
/// each at most once, the experience credited is that of every dead enemy of
/// those sides, and the enemies left are all the others: the order does not matter.
pub proof fn lemma_resolution_order_independent(enemies: Seq<EnemyBundle>, order: Seq<Side>)
    requires
        order.no_duplicates(),
    ensures
        credited_by_order(enemies, order) == dying_exp_in(enemies, order.to_set()),
        survivors_by_order(enemies, order) == survivors_in(enemies, order.to_set()),
    decreases order.len(),
{
    if order.len() == 0 {
        assert(order.to_set() =~= Set::<Side>::empty());
        lemma_dying_exp_none(enemies);
    } else {
        let s = order[0];
        let rest = order.drop_first();
        let after = survivors(enemies, s);
        assert(rest.no_duplicates()) by {
            assert forall|i: int, j: int| 0 <= i < rest.len() && 0 <= j < rest.len() && i != j
                implies rest[i] != rest[j] by {
                assert(rest[i] == order[i + 1] && rest[j] == order[j + 1]);
            }
        }
        lemma_resolution_order_independent(after, rest);
        assert(!rest.to_set().contains(s)) by {
            if rest.to_set().contains(s) {
                let k = choose|k: int| 0 <= k < rest.len() && rest[k] == s;
                assert(order[k + 1] == s && order[0] == s);
            }
        }
        assert(order.to_set() =~= set![s].union(rest.to_set())) by {
            assert forall|x: Side| order.to_set().contains(x) implies set![s].union(rest.to_set()).contains(x) by {
                let k = choose|k: int| 0 <= k < order.len() && order[k] == x;
                if k > 0 {
                    assert(rest[k - 1] == x);
                }
            }
            assert forall|x: Side| rest.to_set().contains(x) implies order.to_set().contains(x) by {
                let k = choose|k: int| 0 <= k < rest.len() && rest[k] == x;
                assert(order[k + 1] == x);
            }
            assert(order.to_set().contains(order[0]));
        }
        lemma_dying_after_survivors(enemies, set![s], rest.to_set());
        assert(rest.to_set().difference(set![s]) =~= rest.to_set());
        lemma_dying_exp_split(enemies, set![s], rest.to_set());
        lemma_survivors_twice(enemies, set![s], rest.to_set());
    }
}

/// Removes the dead enemies of `side` and credits each one's experience to
/// the castle; the others keep their order.
pub fn resolve_deaths(enemies: &mut Vec<EnemyBundle>, castle: &mut Castle, side: Side)
    requires
        old(castle).exp + dying_exp(old(enemies)@, side) <= u32::MAX,
    ensures
        final(enemies)@ == survivors(old(enemies)@, side),
        final(castle).exp == old(castle).exp + dying_exp(old(enemies)@, side),
        *final(castle) == (Castle { exp: final(castle).exp, ..*old(castle) }),
{
    let ghost all = enemies@;
    let ghost start_exp = castle.exp;
    let mut kept: Vec<EnemyBundle> = Vec::new();
    let mut i: usize = 0;
    let n = enemies.len();
    while i < n
        invariant
            n == all.len(),
            enemies@ == all,
            i <= n,
            kept@ == survivors(all.subrange(0, i as int), side),
            castle.exp == start_exp + dying_exp(all.subrange(0, i as int), side),
            *castle == (Castle { exp: castle.exp, ..*old(castle) }),
            start_exp == old(castle).exp,
            start_exp + dying_exp(all, side) <= u32::MAX,
        decreases n - i,
    {
        let e = enemies[i];
        assert(all.subrange(0, i + 1).drop_last() =~= all.subrange(0, i as int));
        assert(all.subrange(0, i + 1).last() == e);
        proof {
            lemma_dying_prefix_bound(all, i as int + 1, side);
        }
        if e.side == side && e.enemy.health <= 0 {
            castle.credit_experience(e.enemy.exp);
        } else {
            kept.push(e);
        }
        i = i + 1;
    }
    assert(all.subrange(0, n as int) =~= all);
    *enemies = kept;
}

/// The experience of a prefix never exceeds that of the whole sequence.
proof fn lemma_dying_prefix_bound(all: Seq<EnemyBundle>, k: int, side: Side)
    requires
        0 <= k <= all.len(),
    ensures
        dying_exp(all.subrange(0, k), side) <= dying_exp(all, side),
    decreases all.len() - k,
{
    if k < all.len() {
        lemma_dying_prefix_bound(all, k + 1, side);
        assert(all.subrange(0, k + 1).drop_last() =~= all.subrange(0, k));
    } else {
        assert(all.subrange(0, k) =~= all);
    }
}

} // verus!
