//! The end of a turn: whether a hand has been formed, what it does to the
//! scores, and how the game goes on.

use cetkaik_fundamental::AbsoluteSide;
use vstd::prelude::*;

use crate::field::{hop1zuo1_of, starting_field, yhuap_initial};
use crate::hand::{newly_acquired, newly_acquired_score, too_many};
use crate::pieces::{opponent_of, other_side};
use crate::probabilistic::Probabilistic;
use crate::rules::{Config, Rate, Season};
use crate::score::{leader, Scores};
use crate::state::{
    ground_outcomes, GroundModel, GroundState_, HandNotResolvedModel, HandNotResolved_,
    HandResolvedModel, HandResolved_, IfTaxotModel, IfTaxot_,
};

verus! {

/// The state in which `whose_turn` opens a season.
pub open spec fn season_opening(season: Season, scores: Scores, whose_turn: AbsoluteSide)
    -> GroundModel {
    GroundModel {
        f: starting_field(),
        whose_turn,
        season,
        scores,
        rate: Rate::X1,
        tam_has_moved_previously: false,
    }
}

/// The start of a season: the board is set up afresh, the reserves are
/// empty, the stake is single, and who moves first is drawn.
pub open spec fn season_start(season: Season, scores: Scores) -> Probabilistic<GroundModel> {
    Probabilistic::WhoGoesFirst {
        ia_first: season_opening(season, scores, AbsoluteSide::IASide),
        a_first: season_opening(season, scores, AbsoluteSide::ASide),
    }
}

impl HandNotResolvedModel {
    /// The state in which the other player is to move.
    pub open spec fn passed_on(self, scores: Scores, rate: Rate) -> GroundModel {
        GroundModel {
            f: self.f,
            whose_turn: opponent_of(self.whose_turn),
            season: self.season,
            scores,
            rate,
            tam_has_moved_previously: self.i_have_moved_tam_in_this_turn,
        }
    }

    /// Whether the reserve of the player who moved has changed.
    pub open spec fn hop1zuo1_changed(self) -> bool {
        self.previous_hop1zuo1(self.whose_turn) != self.f.hop1zuo1(self.whose_turn)
    }

    /// Whether the hand detector can be asked about the move: where the
    /// reserve of the player who moved has changed, neither the old nor the
    /// new reserve holds more pieces of a kind than there are.
    pub open spec fn countable(self) -> bool {
        self.hop1zuo1_changed() ==> !too_many(self.previous_hop1zuo1(self.whose_turn))
            && !too_many(self.f.hop1zuo1(self.whose_turn))
    }

    /// Whether having stepped over Tam2 is a hand.
    pub open spec fn kut2tam2_is_hand(self, config: Config) -> bool {
        self.kut2tam2_happened && config.step_tam_is_a_hand
    }

    /// The score of the hands in the reserve of the player who moved, where
    /// the move has brought a hand that was not there before.
    pub open spec fn newly_acquired(self) -> Option<int> {
        newly_acquired_score(
            self.previous_hop1zuo1(self.whose_turn),
            self.f.hop1zuo1(self.whose_turn),
        )
    }

    /// Whether the turn ends with a hand, given what the reserve has newly
    /// brought.
    pub open spec fn hand_exists(self, config: Config, newly: Option<int>) -> bool {
        self.kut2tam2_is_hand(config) || newly is Some || self.tam2tysak2_will_trigger_taxottymok
    }

    /// The raw score of a turn that ends with a hand: the penalty for the
    /// way in which Tam2 was moved, five points off where stepping over
    /// Tam2 is the hand, and the score of what the reserve has newly
    /// brought.
    pub open spec fn raw_score(self, config: Config, newly: Option<int>) -> int {
        self.tam2tysak2_raw_penalty + (if self.kut2tam2_is_hand(config) {
            -5int
        } else {
            0
        }) + (match newly {
            Some(score) => score,
            None => 0,
        })
    }

    /// What ending the season leads to, once the raw score of the turn has
    /// been entered: the winner where a player is left without points or
    /// the last season is over, else the start of the next season.
    pub open spec fn taxot(self, config: Config, newly: Option<int>) -> IfTaxotModel {
        match self.scores.after_edit(self.raw_score(config, newly), self.whose_turn, self.rate) {
            Err(victor) => IfTaxotModel::VictoriousSide(victor),
            Ok(new_scores) => match self.season.successor() {
                None => IfTaxotModel::VictoriousSide(leader(new_scores.ia_points())),
                Some(next_season) => IfTaxotModel::NextSeason(
                    season_start(next_season, new_scores),
                ),
            },
        }
    }

    /// How the turn ends, given what the reserve has newly brought. With
    /// no hand, the penalty is entered and the turn passes, or the game is
    /// over where the penalty uses up a score. With a hand, the player
    /// chooses between going on at twice the stake, with the scores as they
    /// were, and ending the season.
    pub open spec fn resolved(self, config: Config, newly: Option<int>) -> HandResolvedModel {
        if !self.hand_exists(config, newly) {
            match self.scores.after_edit(
                self.tam2tysak2_raw_penalty as int,
                self.whose_turn,
                self.rate,
            ) {
                Ok(new_scores) => HandResolvedModel::NeitherTymokNorTaxot(
                    self.passed_on(new_scores, self.rate),
                ),
                Err(victor) => HandResolvedModel::GameEndsWithoutTymokTaxot(victor),
            }
        } else {
            HandResolvedModel::HandExists {
                if_tymok: self.passed_on(self.scores, self.rate.doubled()),
                if_taxot: self.taxot(config, newly),
            }
        }
    }
}

/// What an optional score is as a number without bound.
pub open spec fn widened(score: Option<i32>) -> Option<int> {
    match score {
        Some(score) => Some(score as int),
        None => None,
    }
}

fn beginning_of_season(season: Season, scores: Scores) -> (r: Probabilistic<GroundState_>)
    ensures
        ground_outcomes(r) == season_start(season, scores),
{
    let ia_first = GroundState_ {
        whose_turn: AbsoluteSide::IASide,
        scores,
        rate: Rate::X1,
        season,
        tam_has_moved_previously: false,
        f: yhuap_initial(),
    };
    let mut a_first = ia_first.clone();
    a_first.whose_turn = AbsoluteSide::ASide;
    Probabilistic::WhoGoesFirst { a_first, ia_first }
}

/// The start of the game: spring, with twenty points for each player.
#[must_use]
pub fn initial_state() -> (r: Probabilistic<GroundState_>)
    ensures
        ground_outcomes(r) == season_start(Season::Iei2, Scores::holding(20)),
{
    beginning_of_season(Season::Iei2, Scores::new())
}

/// Ends the turn, given the score of the hands that the move has newly
/// brought into the reserve of the player who moved, if it has brought any.
#[must_use]
pub fn resolve_with(state: &HandNotResolved_, config: Config, newly: Option<i32>) -> (r:
    HandResolved_)
    ensures
        r@ == state@.resolved(config, widened(newly)),
{
    let tymoxtaxot_because_of_kut2tam2 = state.kut2tam2_happened && config.step_tam_is_a_hand;
    if !tymoxtaxot_because_of_kut2tam2 && newly.is_none()
        && !state.tam2tysak2_will_trigger_taxottymok {
        // No hand has been formed: the turn passes to the other player,
        // once the penalty has been taken off at the rate in force.
        return match state.scores.edit(
            state.tam2tysak2_raw_penalty,
            state.whose_turn,
            state.rate,
        ) {
            Ok(new_scores) => HandResolved_::NeitherTymokNorTaxot(
                GroundState_ {
                    f: state.f.clone(),
                    whose_turn: other_side(state.whose_turn),
                    season: state.season,
                    scores: new_scores,
                    rate: state.rate,
                    tam_has_moved_previously: state.i_have_moved_tam_in_this_turn,
                },
            ),
            Err(victor) => HandResolved_::GameEndsWithoutTymokTaxot(victor),
        };
    }
    // In every other case a hand exists for one reason or another, and the
    // player must choose.
    let raw_score: i64 = (state.tam2tysak2_raw_penalty as i64) + (if tymoxtaxot_because_of_kut2tam2 {
        -5i64
    } else {
        0i64
    }) + (match newly {
        Some(score) => score as i64,
        None => 0i64,
    });
    let if_taxot = match state.scores.edit_wide(raw_score, state.whose_turn, state.rate) {
        Err(victor) => IfTaxot_::VictoriousSide(victor),
        Ok(new_scores) => match state.season.next() {
            // All seasons have ended.
            None => IfTaxot_::VictoriousSide(new_scores.which_side_is_winning()),
            Some(next_season) => IfTaxot_::NextSeason(
                beginning_of_season(next_season, new_scores),
            ),
        },
    };
    HandResolved_::HandExists {
        if_tymok: GroundState_ {
            f: state.f.clone(),
            whose_turn: other_side(state.whose_turn),
            season: state.season,
            scores: state.scores,
            rate: state.rate.next(),
            tam_has_moved_previously: state.i_have_moved_tam_in_this_turn,
        },
        if_taxot,
    }
}

/// Whether the hand detector can be asked about the move that led to
/// `state`.
pub fn can_resolve(state: &HandNotResolved_) -> (r: bool)
    ensures
        r == state@.countable(),
{
    let current = hop1zuo1_of(state.whose_turn, &state.f);
    let previous = match state.whose_turn {
        AbsoluteSide::ASide => &state.previous_a_side_hop1zuo1,
        AbsoluteSide::IASide => &state.previous_ia_side_hop1zuo1,
    };
    crate::pieces::same_hop1zuo1(previous, &current) || (crate::hand::within_limits(previous)
        && crate::hand::within_limits(&current))
}

/// Ends the turn: finds out whether a hand has been formed, and what
/// follows from it.
#[must_use]
pub fn resolve(state: &HandNotResolved_, config: Config) -> (r: HandResolved_)
    requires
        state@.countable(),
    ensures
        r@ == state@.resolved(config, state@.newly_acquired()),
{
    let current = hop1zuo1_of(state.whose_turn, &state.f);
    let tymoxtaxot_because_of_newly_acquired = match state.whose_turn {
        AbsoluteSide::ASide => newly_acquired(&state.previous_a_side_hop1zuo1, &current),
        AbsoluteSide::IASide => newly_acquired(&state.previous_ia_side_hop1zuo1, &current),
    };
    resolve_with(state, config, tymoxtaxot_because_of_newly_acquired)
}

/// Ends the game at once for a player who is left with no move at all.
pub fn no_move_possible_at_all(old_state: &GroundState_, config: Config) -> (r: Result<
    HandResolved_,
    &'static str,
>)
    ensures
        match r {
            Ok(resolved) => old_state@.hop1zuo1_candidates().len() == 0 && old_state@.candidates(
                config,
            ).len() == 0 && resolved@ == HandResolvedModel::GameEndsWithoutTymokTaxot(
                leader(old_state.scores.ia_points()),
            ),
            Err(reason) => (old_state@.hop1zuo1_candidates().len() > 0 || old_state@.candidates(
                config,
            ).len() > 0) && reason == "At least one valid move exists",
        },
{
    let (hop1zuo1_candidates, candidates) = old_state.get_candidates(config);
    if hop1zuo1_candidates.len() == 0 && candidates.len() == 0 {
        Ok(HandResolved_::GameEndsWithoutTymokTaxot(old_state.scores.which_side_is_winning()))
    } else {
        Err("At least one valid move exists")
    }
}

} // verus!
