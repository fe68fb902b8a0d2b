//! The score ledger: two scores that always add up to forty.

use cetkaik_fundamental::AbsoluteSide;
use vstd::prelude::*;

use crate::rules::Rate;

verus! {

/// Who has won the game; `Victor(None)` is a draw.
#[derive(Clone, Copy, Debug, PartialEq, Eq, Hash)]
pub struct Victor(pub Option<AbsoluteSide>);

/// The points that the two players hold. Each starts with twenty, and a
/// player who has none left has lost.
#[derive(Clone, Copy, Debug, PartialEq, Eq, Hash)]
pub struct Scores {
    ia: i32,
    a: i32,
}

/// `x` cut off at the two ends of the pool of forty points.
pub open spec fn clamp_to_pool(x: int) -> int {
    if x < 0 {
        0
    } else if x > 40 {
        40
    } else {
        x
    }
}

/// The direction in which a raw score of `side` moves the score of the IA
/// side: its own gains count for it, those of the A side against it.
pub open spec fn sign_of(side: AbsoluteSide) -> int {
    match side {
        AbsoluteSide::IASide => 1,
        AbsoluteSide::ASide => -1,
    }
}

/// The side that holds more of the forty points, `None` where each holds
/// twenty.
pub open spec fn leader(ia_points: int) -> Victor {
    if ia_points > 40 - ia_points {
        Victor(Some(AbsoluteSide::IASide))
    } else if ia_points < 40 - ia_points {
        Victor(Some(AbsoluteSide::ASide))
    } else {
        Victor(None)
    }
}

impl Scores {
    /// The points of the IA side.
    pub closed spec fn ia_points(self) -> int {
        self.ia as int
    }

    /// The points of the A side.
    pub closed spec fn a_points(self) -> int {
        self.a as int
    }

    /// Both players hold a part of the pool, and the parts make up forty.
    #[verifier::type_invariant]
    pub closed spec fn wf(self) -> bool {
        0 < self.ia < 40 && self.a == 40 - self.ia
    }

    /// What `wf` says, over the two scores.
    pub proof fn wf_means(self)
        ensures
            self.wf() <==> 0 < self.ia_points() < 40 && self.a_points() == 40 - self.ia_points(),
    {
    }

    /// The score of the IA side after `whose_turn` has scored `raw_score`
    /// at `rate`, cut off at zero and at forty.
    pub open spec fn edited(self, raw_score: int, whose_turn: AbsoluteSide, rate: Rate) -> int {
        clamp_to_pool(self.ia_points() + sign_of(whose_turn) * rate.value() * raw_score)
    }

    /// What an edit returns where the score of the IA side comes to
    /// `ia_points`: the winner where a player has lost all points, else
    /// nothing yet.
    pub open spec fn victor_at(ia_points: int) -> Option<Victor> {
        if ia_points == 40 {
            Some(Victor(Some(AbsoluteSide::IASide)))
        } else if ia_points == 0 {
            Some(Victor(Some(AbsoluteSide::ASide)))
        } else {
            None
        }
    }

    /// The ledger in which the IA side holds `ia_points` and the A side
    /// the rest of the forty.
    pub closed spec fn holding(ia_points: int) -> Scores {
        Scores { ia: ia_points as i32, a: (40 - ia_points) as i32 }
    }

    /// The ledger that `holding` names holds what its argument says.
    pub broadcast proof fn holding_holds(ia_points: int)
        requires
            0 < ia_points < 40,
        ensures
            (#[trigger] Scores::holding(ia_points)).ia_points() == ia_points,
            Scores::holding(ia_points).a_points() == 40 - ia_points,
            Scores::holding(ia_points).wf(),
    {
    }

    /// What an edit by `raw_score` returns: the winner where the edit uses
    /// up a player's points, else the new ledger.
    pub open spec fn after_edit(self, raw_score: int, whose_turn: AbsoluteSide, rate: Rate)
        -> Result<Scores, Victor> {
        let ia_points = self.edited(raw_score, whose_turn, rate);
        match Scores::victor_at(ia_points) {
            Some(victor) => Err(victor),
            None => Ok(Scores::holding(ia_points)),
        }
    }

    #[must_use]
    pub fn new() -> (r: Scores)
        ensures
            r == Scores::holding(20),
            r.ia_points() == 20,
            r.a_points() == 20,
            r.wf(),
    {
        Scores { ia: 20, a: 20 }
    }

    #[must_use]
    pub fn ia(self) -> (r: i32)
        ensures
            r == self.ia_points(),
            self.wf(),
    {
        proof {
            use_type_invariant(&self);
        }
        self.ia
    }

    #[must_use]
    pub fn a(self) -> (r: i32)
        ensures
            r == self.a_points(),
            self.wf(),
    {
        proof {
            use_type_invariant(&self);
        }
        self.a
    }

    /// The edit for a raw score of any size that a turn can add up.
    pub(crate) fn edit_wide(self, raw_score: i64, whose_turn: AbsoluteSide, rate: Rate) -> (r:
        Result<Scores, Victor>)
        requires
            -0x1_0000_0000_0000 <= raw_score <= 0x1_0000_0000_0000,
        ensures
            r == self.after_edit(raw_score as int, whose_turn, rate),
    {
        proof {
            use_type_invariant(&self);
        }
        let sign: i64 = match whose_turn {
            AbsoluteSide::IASide => 1,
            AbsoluteSide::ASide => -1,
        };
        let factor: i64 = sign * (rate.num() as i64);
        assert(-64 <= factor <= 64);
        assert(factor * raw_score == sign_of(whose_turn) * rate.value() * raw_score)
            by (nonlinear_arith)
            requires
                factor == sign_of(whose_turn) * rate.value(),
        ;
        assert(-0x40_0000_0000_0000 <= factor * raw_score <= 0x40_0000_0000_0000)
            by (nonlinear_arith)
            requires
                -64 <= factor <= 64,
                -0x1_0000_0000_0000 <= raw_score <= 0x1_0000_0000_0000,
        ;
        let increment_in_ia_owner_s_score: i64 = factor * raw_score;
        let sum: i64 = (self.ia as i64) + increment_in_ia_owner_s_score;
        let new_ia_owner_s_score: i32 = if sum < 0 {
            0
        } else if sum > 40 {
            40
        } else {
            sum as i32
        };
        if new_ia_owner_s_score == 40 {
            Err(Victor(Some(AbsoluteSide::IASide)))
        } else if new_ia_owner_s_score == 0 {
            Err(Victor(Some(AbsoluteSide::ASide)))
        } else {
            Ok(Scores { ia: new_ia_owner_s_score, a: 40 - new_ia_owner_s_score })
        }
    }

    /// Moves `raw_score` times `rate` points to `whose_turn`, or from it
    /// where the raw score is negative. Returns the winner in place of a
    /// ledger where a player is left without points.
    pub fn edit(self, raw_score: i32, whose_turn: AbsoluteSide, rate: Rate) -> (r: Result<
        Scores,
        Victor,
    >)
        ensures
            r == self.after_edit(raw_score as int, whose_turn, rate),
            r is Ok ==> r->Ok_0.ia_points() == self.edited(raw_score as int, whose_turn, rate),
            r is Ok ==> r->Ok_0.ia_points() + r->Ok_0.a_points() == 40,
            r is Ok ==> 0 < r->Ok_0.ia_points() < 40,
    {
        let r = self.edit_wide(raw_score as i64, whose_turn, rate);
        proof {
            if r is Ok {
                Scores::holding_holds(self.edited(raw_score as int, whose_turn, rate));
            }
        }
        r
    }

    #[must_use]
    pub fn which_side_is_winning(self) -> (r: Victor)
        ensures
            r == leader(self.ia_points()),
    {
        proof {
            use_type_invariant(&self);
        }
        let other: i32 = 40 - self.ia;
        if self.ia > other {
            Victor(Some(AbsoluteSide::IASide))
        } else if self.ia < other {
            Victor(Some(AbsoluteSide::ASide))
        } else {
            Victor(None)
        }
    }
}

impl Default for Scores {
    fn default() -> (r: Scores)
        ensures
            r == Scores::holding(20),
            r.ia_points() == 20,
            r.a_points() == 20,
    {
        Scores::new()
    }
}

} // verus!
