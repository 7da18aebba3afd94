use vstd::prelude::*;

verus! {

/// Experience needed for the castle's first level.
pub const CASTLE_FIRST_LEVEL_EXP: u32 = 10;

/// Growth of the level threshold at each level, in thousandths (1200 is a factor of 1.2).
pub const CASTLE_NEXT_LEVEL_EXP_GROWTH: u32 = 1200;

/// The defended castle: its level and experience.
#[derive(Clone, Copy, Debug, PartialEq, Eq, Structural)]
pub struct Castle {
    pub level: u32,
    pub exp: u32,
    /// Experience at which the next level is reached.
    pub next_level_exp: u32,
    /// Factor applied to the threshold at each level, in thousandths.
    pub next_level_exp_growth: u32,
}

/// The threshold that follows `next` under a growth of `growth` thousandths:
/// the product rounded down, saturating at the largest `u32`.
pub open spec fn grown_threshold(next: int, growth: int) -> int {
    let g = next * growth / 1000;
    if g > u32::MAX as int {
        u32::MAX as int
    } else {
        g
    }
}

/// One operation on the castle's progression.
#[derive(Clone, Copy, Debug, PartialEq, Eq, Structural)]
pub enum CastleOp {
    Credit(u32),
    TryLevelUp,
}

impl Castle {
    /// The growth factor exceeds one.
    pub open spec fn wf(self) -> bool {
        self.next_level_exp_growth > 1000
    }

    /// Whether a level-up check on this castle succeeds.
    pub open spec fn can_level_up(self) -> bool {
        self.exp >= self.next_level_exp
    }

    /// The castle after `amount` experience has been credited.
    pub open spec fn credited(self, amount: int) -> Castle {
        Castle { exp: (self.exp + amount) as u32, ..self }
    }

    /// The castle after one successful level-up.
    pub open spec fn leveled(self) -> Castle {
        Castle {
            level: (self.level + 1) as u32,
            exp: (self.exp - self.next_level_exp) as u32,
            next_level_exp: grown_threshold(
                self.next_level_exp as int,
                self.next_level_exp_growth as int,
            ) as u32,
            ..self
        }
    }

    /// The castle after one operation.
    pub open spec fn apply(self, op: CastleOp) -> Castle {
        match op {
            CastleOp::Credit(amount) => self.credited(amount as int),
            CastleOp::TryLevelUp => if self.can_level_up() {
                self.leveled()
            } else {
                self
            },
        }
    }

    /// The operation can be carried out without leaving the range of `u32`.
    pub open spec fn op_fits(self, op: CastleOp) -> bool {
        match op {
            CastleOp::Credit(amount) => self.exp + amount <= u32::MAX,
            CastleOp::TryLevelUp => self.can_level_up() ==> self.level < u32::MAX,
        }
    }

    /// The castle after the operations `ops`, in order.
    pub open spec fn after_ops(self, ops: Seq<CastleOp>) -> Castle
        decreases ops.len(),
    {
        if ops.len() == 0 {
            self
        } else {
            self.apply(ops[0]).after_ops(ops.drop_first())
        }
    }

    /// Every operation of `ops` fits, each on the castle that the previous ones left.
    pub open spec fn ops_fit(self, ops: Seq<CastleOp>) -> bool
        decreases ops.len(),
    {
        ops.len() == 0 || (self.op_fits(ops[0]) && self.apply(ops[0]).ops_fit(ops.drop_first()))
    }

    /// A castle at level zero with no experience and the default threshold and growth.
    pub open spec fn initial() -> Castle {
        Castle {
            level: 0,
            exp: 0,
            next_level_exp: CASTLE_FIRST_LEVEL_EXP,
            next_level_exp_growth: CASTLE_NEXT_LEVEL_EXP_GROWTH,
        }
    }

    /// A castle at level zero with no experience and the default threshold and growth.
    pub fn new() -> (r: Castle)
        ensures
            r == Castle::initial(),
            r.wf(),
            r.level == 0,
            r.exp == 0,
            r.next_level_exp == CASTLE_FIRST_LEVEL_EXP,
            r.next_level_exp_growth == CASTLE_NEXT_LEVEL_EXP_GROWTH,
    {
        Castle {
            level: 0,
            exp: 0,
            next_level_exp: CASTLE_FIRST_LEVEL_EXP,
            next_level_exp_growth: CASTLE_NEXT_LEVEL_EXP_GROWTH,
        }
    }

    /// Adds `amount` to the castle's experience.
    pub fn credit_experience(&mut self, amount: u32)
        requires
            old(self).exp + amount <= u32::MAX,
        ensures
            *final(self) == old(self).credited(amount as int),
            final(self).exp == old(self).exp + amount,
            final(self).level == old(self).level,
    {
        self.exp = self.exp + amount;
    }

    /// Checks the threshold once: when the experience reaches it, the castle
    /// gains one level, pays the threshold out of its experience and the
    /// threshold grows. Returns whether the level was gained. Experience
    /// beyond one threshold is kept for later checks.
    pub fn try_level_up(&mut self) -> (r: bool)
        requires
            old(self).wf(),
            old(self).can_level_up() ==> old(self).level < u32::MAX,
        ensures
            final(self).wf(),
            r == old(self).can_level_up(),
            *final(self) == old(self).apply(CastleOp::TryLevelUp),
            r ==> final(self).level == old(self).level + 1,
            r ==> final(self).exp == old(self).exp - old(self).next_level_exp,
            r ==> final(self).next_level_exp == grown_threshold(
                old(self).next_level_exp as int,
                old(self).next_level_exp_growth as int,
            ),
            !r ==> *final(self) == *old(self),
            r && old(self).exp < old(self).next_level_exp + final(self).next_level_exp
                ==> final(self).exp < final(self).next_level_exp,
    {
        if self.exp >= self.next_level_exp {
            self.level = self.level + 1;
            self.exp = self.exp - self.next_level_exp;
            let next: u64 = self.next_level_exp as u64;
            let growth: u64 = self.next_level_exp_growth as u64;
            assert(next * growth <= u32::MAX as int * u32::MAX as int) by (nonlinear_arith)
                requires
                    next <= u32::MAX,
                    growth <= u32::MAX,
            ;
            let product: u64 = next * growth / 1000;
            self.next_level_exp = if product > u32::MAX as u64 {
                u32::MAX
            } else {
                product as u32
            };
            true
        } else {
            false
        }
    }
}

impl Default for Castle {
    fn default() -> (r: Castle)
        ensures
            r == Castle::initial(),
    {
        Castle::new()
    }
}

/// The castle as it is created at the start of a session.
#[derive(Clone, Copy, Debug)]
pub struct CastleBundle {
    pub castle: Castle,
}

impl Default for CastleBundle {
    fn default() -> (r: CastleBundle)
        ensures
            r.castle == Castle::initial(),
    {
        CastleBundle { castle: Castle::new() }
    }
}

/// Over any sequence of credits and level-up checks that fits in `u32`, the
/// level never decreases and the growth factor stays above one.
pub proof fn lemma_level_never_decreases(c: Castle, ops: Seq<CastleOp>)
    requires
        c.wf(),
        c.ops_fit(ops),
    ensures
        c.after_ops(ops).level >= c.level,
        c.after_ops(ops).wf(),
    decreases ops.len(),
{
    if ops.len() > 0 {
        lemma_level_never_decreases(c.apply(ops[0]), ops.drop_first());
    }
}

/// A successful level-up leaves less experience than the new threshold
/// whenever the experience before it was short of two thresholds (the current
/// one and the one that follows it); a larger surplus is carried to later checks.
pub proof fn lemma_level_up_clears_threshold(c: Castle)
    requires
        c.wf(),
        c.can_level_up(),
        c.level < u32::MAX,
        c.exp < c.next_level_exp + grown_threshold(
            c.next_level_exp as int,
            c.next_level_exp_growth as int,
        ),
    ensures
        c.leveled().exp < c.leveled().next_level_exp,
        c.leveled().level == c.level + 1,
{
    let g = grown_threshold(c.next_level_exp as int, c.next_level_exp_growth as int);
    assert(0 <= c.next_level_exp as int * c.next_level_exp_growth as int / 1000) by (nonlinear_arith)
        requires c.next_level_exp >= 0, c.next_level_exp_growth >= 0;
    assert(0 <= g <= u32::MAX);
}

} // verus!
