//! What holds of every game, whatever is played.

use cetkaik_fundamental::AbsoluteSide;
use cetkaik_naive_representation::absolute::Coord;
use vstd::prelude::*;

use crate::message::PureMove__;
use crate::rules::{Config, Rate, Season};
use crate::score::{sign_of, Scores, Victor};
use crate::state::{GroundModel, HandNotResolvedModel, HandResolvedModel, IfTaxotModel};

verus! {

/// The two scores of a ledger make up forty points, and each player holds
/// some of them.
pub proof fn scores_make_forty(scores: Scores)
    requires
        scores.wf(),
    ensures
        scores.ia_points() + scores.a_points() == 40,
        0 < scores.ia_points() < 40,
        0 < scores.a_points() < 40,
{
    scores.wf_means();
}

/// The ledger that an edit leaves is a ledger of forty points.
pub proof fn edit_keeps_forty(
    scores: Scores,
    raw_score: int,
    whose_turn: AbsoluteSide,
    rate: Rate,
    edited: Scores,
)
    requires
        scores.after_edit(raw_score, whose_turn, rate) == Ok::<Scores, Victor>(edited),
    ensures
        edited.wf(),
        edited.ia_points() + edited.a_points() == 40,
        edited.ia_points() == scores.edited(raw_score, whose_turn, rate),
{
    Scores::holding_holds(scores.edited(raw_score, whose_turn, rate));
}

/// An edit that would take a score to zero or below, or to forty or above,
/// names as the winner the side that then holds the forty points.
pub proof fn edit_names_the_winner(
    scores: Scores,
    raw_score: int,
    whose_turn: AbsoluteSide,
    rate: Rate,
)
    ensures
        scores.ia_points() + sign_of(whose_turn) * rate.value() * raw_score >= 40
            ==> scores.after_edit(raw_score, whose_turn, rate) == Err::<Scores, Victor>(
            Victor(Some(AbsoluteSide::IASide)),
        ),
        scores.ia_points() + sign_of(whose_turn) * rate.value() * raw_score <= 0
            ==> scores.after_edit(raw_score, whose_turn, rate) == Err::<Scores, Victor>(
            Victor(Some(AbsoluteSide::ASide)),
        ),
        0 < scores.ia_points() + sign_of(whose_turn) * rate.value() * raw_score < 40
            ==> scores.after_edit(raw_score, whose_turn, rate) is Ok,
{
}

/// Doubling never lowers the stake, and doubles it below sixty-four.
pub proof fn doubling_raises_the_rate(rate: Rate)
    ensures
        rate.doubled().value() >= rate.value(),
        rate != Rate::X64 ==> rate.doubled().value() == 2 * rate.value(),
{
}

/// The rate of the state in which a season goes on after a resolution is
/// never lower than the rate before: where the turn just passes it is the
/// same, and where the player goes on after a hand it is doubled.
pub proof fn rate_never_falls_within_a_season(
    state: HandNotResolvedModel,
    config: Config,
    newly: Option<int>,
)
    ensures
        match state.resolved(config, newly) {
            HandResolvedModel::NeitherTymokNorTaxot(next) => next.rate == state.rate,
            HandResolvedModel::HandExists { if_tymok, .. } => if_tymok.rate == state.rate.doubled()
                && if_tymok.rate.value() >= state.rate.value() && (state.rate != Rate::X64
                ==> if_tymok.rate.value() == 2 * state.rate.value()),
            HandResolvedModel::GameEndsWithoutTymokTaxot(_) => true,
        },
{
}

/// Each season is followed by the next of the year, and winter by none.
pub proof fn seasons_advance(season: Season)
    ensures
        match season.successor() {
            Some(next) => next.index() == season.index() + 1,
            None => season == Season::Iat1,
        },
{
}

/// A resolution keeps the season for the states in which it goes on, and
/// ending it leads to the season that follows; ending winter ends the game.
pub proof fn resolution_advances_the_season(
    state: HandNotResolvedModel,
    config: Config,
    newly: Option<int>,
)
    ensures
        match state.resolved(config, newly) {
            HandResolvedModel::NeitherTymokNorTaxot(next) => next.season == state.season,
            HandResolvedModel::HandExists { if_tymok, if_taxot } => if_tymok.season == state.season
                && match if_taxot {
                IfTaxotModel::NextSeason(start) => state.season != Season::Iat1 && start
                    is WhoGoesFirst && start->ia_first.season.index() == state.season.index() + 1
                    && start->a_first.season.index() == state.season.index() + 1,
                IfTaxotModel::VictoriousSide(_) => true,
            },
            HandResolvedModel::GameEndsWithoutTymokTaxot(_) => true,
        },
        state.season == Season::Iat1 ==> match state.resolved(config, newly) {
            HandResolvedModel::HandExists { if_taxot, .. } => if_taxot is VictoriousSide,
            _ => true,
        },
{
}

/// Two lists of candidates for states that hold the same are the same
/// lists: the candidates depend on nothing but the state and the rules.
pub proof fn candidates_depend_on_the_state_alone(
    first: GroundModel,
    second: GroundModel,
    config: Config,
    first_listed: (Seq<PureMove__<Coord>>, Seq<PureMove__<Coord>>),
    second_listed: (Seq<PureMove__<Coord>>, Seq<PureMove__<Coord>>),
)
    requires
        first == second,
        first_listed.0 == first.hop1zuo1_candidates(),
        first_listed.1 == first.candidates(config),
        second_listed.0 == second.hop1zuo1_candidates(),
        second_listed.1 == second.candidates(config),
    ensures
        first_listed == second_listed,
{
}

/// Where the reserve of the player who moved is as it was, Tam2 was not
/// stepped over, and the way in which Tam2 was moved is no hand, the turn
/// passes with the penalty entered once, unless that uses up a score.
pub proof fn quiet_turn_passes(state: HandNotResolvedModel, config: Config, new_scores: Scores)
    requires
        !state.hop1zuo1_changed(),
        !state.kut2tam2_happened,
        !state.tam2tysak2_will_trigger_taxottymok,
        state.scores.after_edit(state.tam2tysak2_raw_penalty as int, state.whose_turn, state.rate)
            == Ok::<Scores, Victor>(new_scores),
    ensures
        state.newly_acquired() is None,
        state.resolved(config, state.newly_acquired()) == HandResolvedModel::NeitherTymokNorTaxot(
            state.passed_on(new_scores, state.rate),
        ),
        new_scores == Scores::holding(
            state.scores.edited(state.tam2tysak2_raw_penalty as int, state.whose_turn, state.rate),
        ),
{
}

} // verus!
