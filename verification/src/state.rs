//! The states that a turn passes through.

use cetkaik_fundamental::{AbsoluteSide, Color, ColorAndProf, Profession, PureMove_};
use cetkaik_naive_representation::absolute::{Coord, Field, Piece};
use vstd::prelude::*;

use crate::candidates::{
    from_hop1zuo1_candidates, from_hop1zuo1_candidates_vec, not_from_hop1zuo1_candidates,
    not_from_hop1zuo1_candidates_vec, to_messages,
};
use crate::field::{contents_of, FieldModel};
use crate::message::{message_of, AfterHalfAcceptance_, NormalMove_, PureMove__};
use crate::pieces::{
    absolute_distance, absolute_same_direction, distance_between, on_one_ray, same_coord,
};
use crate::probabilistic::Probabilistic;
use crate::rules::{Config, Consequence, Plan, Rate, Season};
use crate::score::{Scores, Victor};

verus! {

/// The state at the start of a turn.
#[derive(Debug)]
pub struct GroundState_ {
    pub f: Field,
    pub whose_turn: AbsoluteSide,
    pub season: Season,
    pub scores: Scores,
    pub rate: Rate,
    /// Whether the opponent moved Tam2 in the turn before this one.
    pub tam_has_moved_previously: bool,
}

/// What a [`GroundState_`] holds.
pub ghost struct GroundModel {
    pub f: FieldModel,
    pub whose_turn: AbsoluteSide,
    pub season: Season,
    pub scores: Scores,
    pub rate: Rate,
    pub tam_has_moved_previously: bool,
}

impl View for GroundState_ {
    type V = GroundModel;

    open spec fn view(&self) -> GroundModel {
        GroundModel {
            f: contents_of(self.f),
            whose_turn: self.whose_turn,
            season: self.season,
            scores: self.scores,
            rate: self.rate,
            tam_has_moved_previously: self.tam_has_moved_previously,
        }
    }
}

impl Clone for GroundState_ {
    fn clone(&self) -> (r: Self)
        ensures
            r@ == self@,
    {
        GroundState_ {
            f: self.f.clone(),
            whose_turn: self.whose_turn,
            season: self.season,
            scores: self.scores,
            rate: self.rate,
            tam_has_moved_previously: self.tam_has_moved_previously,
        }
    }
}

/// A move that has stepped over a piece and is to run on, before the
/// sticks have been cast.
#[derive(Debug)]
pub struct ExcitedStateWithoutCiurl_ {
    pub f: Field,
    pub whose_turn: AbsoluteSide,
    pub flying_piece_src: Coord,
    pub flying_piece_step: Coord,
    pub flying_piece_planned_direction: Coord,
    pub season: Season,
    pub scores: Scores,
    pub rate: Rate,
}

/// What an [`ExcitedStateWithoutCiurl_`] holds.
pub ghost struct ExcitedWithoutCiurlModel {
    pub f: FieldModel,
    pub whose_turn: AbsoluteSide,
    pub flying_piece_src: Coord,
    pub flying_piece_step: Coord,
    pub flying_piece_planned_direction: Coord,
    pub season: Season,
    pub scores: Scores,
    pub rate: Rate,
}

impl View for ExcitedStateWithoutCiurl_ {
    type V = ExcitedWithoutCiurlModel;

    open spec fn view(&self) -> ExcitedWithoutCiurlModel {
        ExcitedWithoutCiurlModel {
            f: contents_of(self.f),
            whose_turn: self.whose_turn,
            flying_piece_src: self.flying_piece_src,
            flying_piece_step: self.flying_piece_step,
            flying_piece_planned_direction: self.flying_piece_planned_direction,
            season: self.season,
            scores: self.scores,
            rate: self.rate,
        }
    }
}

impl Clone for ExcitedStateWithoutCiurl_ {
    fn clone(&self) -> (r: Self)
        ensures
            r@ == self@,
    {
        ExcitedStateWithoutCiurl_ {
            f: self.f.clone(),
            whose_turn: self.whose_turn,
            flying_piece_src: self.flying_piece_src,
            flying_piece_step: self.flying_piece_step,
            flying_piece_planned_direction: self.flying_piece_planned_direction,
            season: self.season,
            scores: self.scores,
            rate: self.rate,
        }
    }
}

/// The state after the sticks have been cast for a move that stepped over
/// a piece: the player now decides where the piece lands.
#[derive(Debug)]
pub struct ExcitedState_ {
    pub c: ExcitedStateWithoutCiurl_,
    /// What the sticks show, from 0 to 5.
    pub ciurl: i32,
}

/// What an [`ExcitedState_`] holds.
pub ghost struct ExcitedModel {
    pub c: ExcitedWithoutCiurlModel,
    pub ciurl: i32,
}

impl ExcitedModel {
    /// A piece stands on the square from which the move set out, and one
    /// on the square that it stepped over.
    pub open spec fn wf(self) -> bool {
        self.c.f.board.contains_key(self.c.flying_piece_src) && self.c.f.board.contains_key(
            self.c.flying_piece_step,
        )
    }
}

impl View for ExcitedState_ {
    type V = ExcitedModel;

    open spec fn view(&self) -> ExcitedModel {
        ExcitedModel { c: self.c@, ciurl: self.ciurl }
    }
}

impl Clone for ExcitedState_ {
    fn clone(&self) -> (r: Self)
        ensures
            r@ == self@,
    {
        ExcitedState_ { c: self.c.clone(), ciurl: self.ciurl }
    }
}

/// The state after a move has been made and any water-entry cast is over,
/// before it is known whether a hand has been formed.
#[derive(Debug)]
pub struct HandNotResolved_ {
    pub f: Field,
    pub whose_turn: AbsoluteSide,
    pub season: Season,
    pub scores: Scores,
    pub rate: Rate,
    pub i_have_moved_tam_in_this_turn: bool,
    /// The reserve of the A side as it was before the move.
    pub previous_a_side_hop1zuo1: Vec<ColorAndProf>,
    /// The reserve of the IA side as it was before the move.
    pub previous_ia_side_hop1zuo1: Vec<ColorAndProf>,
    /// Whether the move stepped over Tam2.
    pub kut2tam2_happened: bool,
    /// The raw penalty for the way in which Tam2 was moved.
    pub tam2tysak2_raw_penalty: i32,
    /// Whether that penalty counts as a hand.
    pub tam2tysak2_will_trigger_taxottymok: bool,
}

/// What a [`HandNotResolved_`] holds.
pub ghost struct HandNotResolvedModel {
    pub f: FieldModel,
    pub whose_turn: AbsoluteSide,
    pub season: Season,
    pub scores: Scores,
    pub rate: Rate,
    pub i_have_moved_tam_in_this_turn: bool,
    pub previous_a_side_hop1zuo1: Seq<ColorAndProf>,
    pub previous_ia_side_hop1zuo1: Seq<ColorAndProf>,
    pub kut2tam2_happened: bool,
    pub tam2tysak2_raw_penalty: i32,
    pub tam2tysak2_will_trigger_taxottymok: bool,
}

impl HandNotResolvedModel {
    /// The reserve that `side` had before the move.
    pub open spec fn previous_hop1zuo1(self, side: AbsoluteSide) -> Seq<ColorAndProf> {
        match side {
            AbsoluteSide::ASide => self.previous_a_side_hop1zuo1,
            AbsoluteSide::IASide => self.previous_ia_side_hop1zuo1,
        }
    }
}

impl View for HandNotResolved_ {
    type V = HandNotResolvedModel;

    open spec fn view(&self) -> HandNotResolvedModel {
        HandNotResolvedModel {
            f: contents_of(self.f),
            whose_turn: self.whose_turn,
            season: self.season,
            scores: self.scores,
            rate: self.rate,
            i_have_moved_tam_in_this_turn: self.i_have_moved_tam_in_this_turn,
            previous_a_side_hop1zuo1: self.previous_a_side_hop1zuo1@,
            previous_ia_side_hop1zuo1: self.previous_ia_side_hop1zuo1@,
            kut2tam2_happened: self.kut2tam2_happened,
            tam2tysak2_raw_penalty: self.tam2tysak2_raw_penalty,
            tam2tysak2_will_trigger_taxottymok: self.tam2tysak2_will_trigger_taxottymok,
        }
    }
}

impl Clone for HandNotResolved_ {
    fn clone(&self) -> (r: Self)
        ensures
            r@ == self@,
    {
        let previous_a_side_hop1zuo1 = self.previous_a_side_hop1zuo1.clone();
        let previous_ia_side_hop1zuo1 = self.previous_ia_side_hop1zuo1.clone();
        proof {
            assert(previous_a_side_hop1zuo1@ =~= self.previous_a_side_hop1zuo1@);
            assert(previous_ia_side_hop1zuo1@ =~= self.previous_ia_side_hop1zuo1@);
        }
        HandNotResolved_ {
            f: self.f.clone(),
            whose_turn: self.whose_turn,
            season: self.season,
            scores: self.scores,
            rate: self.rate,
            i_have_moved_tam_in_this_turn: self.i_have_moved_tam_in_this_turn,
            previous_a_side_hop1zuo1,
            previous_ia_side_hop1zuo1,
            kut2tam2_happened: self.kut2tam2_happened,
            tam2tysak2_raw_penalty: self.tam2tysak2_raw_penalty,
            tam2tysak2_will_trigger_taxottymok: self.tam2tysak2_will_trigger_taxottymok,
        }
    }
}

/// What follows if the player ends the season: the next season, or the end
/// of the game.
#[derive(Clone, Debug)]
pub enum IfTaxot_ {
    NextSeason(Probabilistic<GroundState_>),
    VictoriousSide(Victor),
}

/// What an [`IfTaxot_`] holds.
pub ghost enum IfTaxotModel {
    NextSeason(Probabilistic<GroundModel>),
    VictoriousSide(Victor),
}

/// The distribution of what the states of a distribution hold.
pub open spec fn ground_outcomes(p: Probabilistic<GroundState_>) -> Probabilistic<GroundModel> {
    p.map_outcomes(|s: GroundState_| s@)
}

impl View for IfTaxot_ {
    type V = IfTaxotModel;

    open spec fn view(&self) -> IfTaxotModel {
        match *self {
            IfTaxot_::NextSeason(p) => IfTaxotModel::NextSeason(ground_outcomes(p)),
            IfTaxot_::VictoriousSide(victor) => IfTaxotModel::VictoriousSide(victor),
        }
    }
}

/// How a turn ends.
#[derive(Clone, Debug)]
pub enum HandResolved_ {
    /// No hand: the turn passes.
    NeitherTymokNorTaxot(GroundState_),
    /// A hand: the player chooses between going on at twice the stake and
    /// ending the season.
    HandExists { if_tymok: GroundState_, if_taxot: IfTaxot_ },
    /// A penalty that is no hand has used up a score: the game is over, and
    /// no choice is offered.
    GameEndsWithoutTymokTaxot(Victor),
}

/// What a [`HandResolved_`] holds.
pub ghost enum HandResolvedModel {
    NeitherTymokNorTaxot(GroundModel),
    HandExists { if_tymok: GroundModel, if_taxot: IfTaxotModel },
    GameEndsWithoutTymokTaxot(Victor),
}

impl View for HandResolved_ {
    type V = HandResolvedModel;

    open spec fn view(&self) -> HandResolvedModel {
        match *self {
            HandResolved_::NeitherTymokNorTaxot(s) => HandResolvedModel::NeitherTymokNorTaxot(s@),
            HandResolved_::HandExists { if_tymok, if_taxot } => HandResolvedModel::HandExists {
                if_tymok: if_tymok@,
                if_taxot: if_taxot@,
            },
            HandResolved_::GameEndsWithoutTymokTaxot(victor) => {
                HandResolvedModel::GameEndsWithoutTymokTaxot(victor)
            },
        }
    }
}

impl ExcitedState_ {
    /// The piece that is on its way.
    #[must_use]
    pub fn piece_at_flying_piece_src(&self) -> (r: Piece)
        requires
            self@.wf(),
        ensures
            r == self@.c.f.board[self@.c.flying_piece_src],
    {
        crate::field::piece_on_field_at(&self.c.f, self.c.flying_piece_src).unwrap()
    }

    /// The piece that was stepped over.
    #[must_use]
    pub fn piece_at_flying_piece_step(&self) -> (r: Piece)
        requires
            self@.wf(),
        ensures
            r == self@.c.f.board[self@.c.flying_piece_step],
    {
        crate::field::piece_on_field_at(&self.c.f, self.c.flying_piece_step).unwrap()
    }
}

/// Whether `m` moves Tam2.
pub open spec fn is_tam_move(m: PureMove__<Coord>) -> bool {
    match m {
        PureMove__::NormalMove(NormalMove_::TamMoveNoStep { .. }) => true,
        PureMove__::NormalMove(NormalMove_::TamMoveStepsDuringFormer { .. }) => true,
        PureMove__::NormalMove(NormalMove_::TamMoveStepsDuringLatter { .. }) => true,
        _ => false,
    }
}

/// Whether `m` moves Tam2 and brings it back to the square on which it
/// stood.
pub open spec fn is_tam_mun_mok(m: PureMove__<Coord>) -> bool {
    match m {
        PureMove__::NormalMove(NormalMove_::TamMoveNoStep { src, second_dest, .. }) => src
            == second_dest,
        PureMove__::NormalMove(
            NormalMove_::TamMoveStepsDuringFormer { src, second_dest, .. },
        ) => src == second_dest,
        PureMove__::NormalMove(
            NormalMove_::TamMoveStepsDuringLatter { src, second_dest, .. },
        ) => src == second_dest,
        _ => false,
    }
}

/// Whether the rules in force let a player make `m`, as far as they speak
/// of Tam2: it may be forbidden to move Tam2 right after the opponent has
/// moved it, and to bring it back to where it stood.
pub open spec fn admits(tam_has_moved_previously: bool, config: Config, m: PureMove__<Coord>)
    -> bool {
    &&& !(tam_has_moved_previously && config.moving_tam_immediately_after_tam_has_moved
        == Consequence::Forbidden && is_tam_move(m))
    &&& !(config.tam_mun_mok == Consequence::Forbidden && is_tam_mun_mok(m))
}

/// The messages that stand for the candidates listed, in their order, less
/// those that the rules in force forbid.
pub open spec fn admitted(
    listed: Seq<PureMove_<Coord>>,
    tam_has_moved_previously: bool,
    config: Config,
) -> Seq<PureMove__<Coord>> {
    listed.map_values(|candidate: PureMove_<Coord>| message_of(candidate)).filter(
        |m: PureMove__<Coord>| admits(tam_has_moved_previously, config, m),
    )
}

impl GroundModel {
    /// The moves out of the reserve that are open to the player to move.
    pub open spec fn hop1zuo1_candidates(self) -> Seq<PureMove__<Coord>> {
        from_hop1zuo1_candidates(self.whose_turn, self.f).map_values(
            |candidate: PureMove_<Coord>| message_of(candidate),
        )
    }

    /// The moves on the board that are open to the player to move: those
    /// that the candidate generator lists, stepping over Tam2 included,
    /// less those that the rules in force forbid.
    pub open spec fn candidates(self, config: Config) -> Seq<PureMove__<Coord>> {
        admitted(
            not_from_hop1zuo1_candidates(
                true,
                config.tam_itself_is_tam_hue,
                self.whose_turn,
                self.f,
            ),
            self.tam_has_moved_previously,
            config,
        )
    }
}

impl ExcitedModel {
    /// Whether the run may end on `planned_direction`, a square that the
    /// candidate generator offers for the run: the cast reaches as far,
    /// and the square agrees with what was declared before the cast.
    pub open spec fn reaches(self, config: Config, planned_direction: Coord) -> bool {
        &&& self.ciurl >= distance_between(self.c.flying_piece_step, planned_direction)
        &&& match config.what_to_say_before_casting_sticks {
            None => true,
            Some(Plan::ExactDestination) => self.c.flying_piece_planned_direction
                == planned_direction,
            Some(Plan::Direction) => on_one_ray(
                self.c.flying_piece_step,
                self.c.flying_piece_planned_direction,
                planned_direction,
            ),
        }
    }

    /// The decision that a candidate stands for, if it continues the move
    /// in flight and the run may end where it says.
    pub open spec fn decision_for(self, config: Config, candidate: PureMove_<Coord>) -> Option<
        AfterHalfAcceptance_<Coord>,
    > {
        match candidate {
            PureMove_::InfAfterStep { src, step, planned_direction } => if src
                == self.c.flying_piece_src && step == self.c.flying_piece_step && self.reaches(
                config,
                planned_direction,
            ) {
                Some(AfterHalfAcceptance_ { dest: Some(planned_direction) })
            } else {
                None
            },
            _ => None,
        }
    }

    /// The decisions that are open after the cast, given the candidates
    /// listed: to pass, and then each square on which the run may end, in
    /// the order of the list.
    pub open spec fn decisions(self, config: Config, listed: Seq<PureMove_<Coord>>) -> Seq<
        AfterHalfAcceptance_<Coord>,
    > {
        seq![AfterHalfAcceptance_ { dest: None }] + listed.filter_map(
            |candidate: PureMove_<Coord>| self.decision_for(config, candidate),
        )
    }

    /// The decisions that are open after the cast, among the moves that the
    /// candidate generator lists for the field, stepping over Tam2 included.
    pub open spec fn candidates(self, config: Config) -> Seq<AfterHalfAcceptance_<Coord>> {
        self.decisions(
            config,
            not_from_hop1zuo1_candidates(
                true,
                config.tam_itself_is_tam_hue,
                self.c.whose_turn,
                self.c.f,
            ),
        )
    }
}

/// Whether `m` moves Tam2.
fn moves_tam(m: PureMove__<Coord>) -> (r: bool)
    ensures
        r == is_tam_move(m),
{
    match m {
        PureMove__::NormalMove(NormalMove_::TamMoveNoStep { .. }) => true,
        PureMove__::NormalMove(NormalMove_::TamMoveStepsDuringFormer { .. }) => true,
        PureMove__::NormalMove(NormalMove_::TamMoveStepsDuringLatter { .. }) => true,
        _ => false,
    }
}

/// Whether `m` brings Tam2 back to where it stood.
fn brings_tam_back(m: PureMove__<Coord>) -> (r: bool)
    ensures
        r == is_tam_mun_mok(m),
{
    match m {
        PureMove__::NormalMove(NormalMove_::TamMoveNoStep { src, second_dest, .. }) => {
            same_coord(src, second_dest)
        },
        PureMove__::NormalMove(
            NormalMove_::TamMoveStepsDuringFormer { src, second_dest, .. },
        ) => same_coord(src, second_dest),
        PureMove__::NormalMove(
            NormalMove_::TamMoveStepsDuringLatter { src, second_dest, .. },
        ) => same_coord(src, second_dest),
        _ => false,
    }
}

/// Turns the candidates listed into messages and leaves out those that the
/// rules in force forbid.
pub fn admitted_moves(
    listed: Vec<PureMove_<Coord>>,
    tam_has_moved_previously: bool,
    config: Config,
) -> (r: Vec<PureMove__<Coord>>)
    ensures
        r@ == admitted(listed@, tam_has_moved_previously, config),
{
    let all = to_messages(listed);
    let no_tam_move = tam_has_moved_previously && matches!(
        config.moving_tam_immediately_after_tam_has_moved,
        Consequence::Forbidden
    );
    let no_mun_mok = matches!(config.tam_mun_mok, Consequence::Forbidden);
    let ghost keep = |m: PureMove__<Coord>| admits(tam_has_moved_previously, config, m);
    let mut candidates: Vec<PureMove__<Coord>> = Vec::new();
    let mut i: usize = 0;
    proof {
        reveal(Seq::filter);
    }
    while i < all.len()
        invariant
            i <= all.len(),
            keep == |m: PureMove__<Coord>| admits(tam_has_moved_previously, config, m),
            no_tam_move == (tam_has_moved_previously
                && config.moving_tam_immediately_after_tam_has_moved == Consequence::Forbidden),
            no_mun_mok == (config.tam_mun_mok == Consequence::Forbidden),
            candidates@ == all@.take(i as int).filter(keep),
        decreases all.len() - i,
    {
        let m = all[i];
        proof {
            reveal(Seq::filter);
            assert(all@.take(i + 1).drop_last() =~= all@.take(i as int));
            assert(all@.take(i + 1).last() == m);
        }
        if !(no_tam_move && moves_tam(m)) && !(no_mun_mok && brings_tam_back(m)) {
            candidates.push(m);
        }
        i += 1;
    }
    proof {
        assert(all@.take(i as int) =~= all@);
    }
    candidates
}

impl GroundState_ {
    /// The moves that are open to the player to move: first those out of
    /// the reserve, then those on the board.
    #[must_use]
    pub fn get_candidates(&self, config: Config) -> (r: (
        Vec<PureMove__<Coord>>,
        Vec<PureMove__<Coord>>,
    ))
        ensures
            r.0@ == self@.hop1zuo1_candidates(),
            r.1@ == self@.candidates(config),
            forall|color: Color, prof: Profession, dest: Coord|
                (#[trigger] self@.f.parachuted(color, prof, self.whose_turn, dest)) is Some
                    ==> r.0@.contains(
                    PureMove__::NormalMove(NormalMove_::NonTamMoveFromHopZuo { color, prof, dest }),
                ),
    {
        let hop1zuo1_candidates = to_messages(
            from_hop1zuo1_candidates_vec(self.whose_turn, &self.f),
        );
        proof {
            let listed = from_hop1zuo1_candidates(self.whose_turn, self@.f);
            assert forall|color: Color, prof: Profession, dest: Coord|
                (#[trigger] self@.f.parachuted(
                    color,
                    prof,
                    self.whose_turn,
                    dest,
                )) is Some implies hop1zuo1_candidates@.contains(
                PureMove__::NormalMove(NormalMove_::NonTamMoveFromHopZuo { color, prof, dest }),
            ) by {
                let candidate = PureMove_::NonTamMoveFromHopZuo { color, prof, dest };
                assert(listed.contains(candidate));
                let i = choose|i: int| 0 <= i < listed.len() && listed[i] == candidate;
                assert(hop1zuo1_candidates@[i] == message_of(candidate));
            }
        }
        let candidates = admitted_moves(
            not_from_hop1zuo1_candidates_vec(
                true,
                config.tam_itself_is_tam_hue,
                self.whose_turn,
                &self.f,
            ),
            self.tam_has_moved_previously,
            config,
        );
        (hop1zuo1_candidates, candidates)
    }
}

impl ExcitedState_ {
    /// The decisions that are open to the player whose piece is in flight,
    /// given the candidates listed for the field.
    #[must_use]
    pub fn decisions_among(&self, config: Config, candidates: &Vec<PureMove_<Coord>>) -> (r: Vec<
        AfterHalfAcceptance_<Coord>,
    >)
        ensures
            r@ == self@.decisions(config, candidates@),
    {
        let ghost decide = |candidate: PureMove_<Coord>| self@.decision_for(config, candidate);
        let mut ans: Vec<AfterHalfAcceptance_<Coord>> = Vec::new();
        ans.push(AfterHalfAcceptance_ { dest: None });
        let mut i: usize = 0;
        while i < candidates.len()
            invariant
                i <= candidates.len(),
                decide == |candidate: PureMove_<Coord>| self@.decision_for(config, candidate),
                ans@ == seq![AfterHalfAcceptance_::<Coord> { dest: None }] + candidates@.take(
                    i as int,
                ).filter_map(decide),
            decreases candidates.len() - i,
        {
            let cand = candidates[i];
            proof {
                assert(candidates@.take(i + 1).drop_last() =~= candidates@.take(i as int));
                assert(candidates@.take(i + 1).last() == cand);
            }
            match cand {
                PureMove_::InfAfterStep { src, step, planned_direction } => {
                    if same_coord(src, self.c.flying_piece_src) && same_coord(
                        step,
                        self.c.flying_piece_step,
                    ) && self.ciurl >= absolute_distance(step, planned_direction)
                        && match config.what_to_say_before_casting_sticks {
                        None => true,
                        Some(Plan::ExactDestination) => same_coord(
                            self.c.flying_piece_planned_direction,
                            planned_direction,
                        ),
                        Some(Plan::Direction) => absolute_same_direction(
                            step,
                            self.c.flying_piece_planned_direction,
                            planned_direction,
                        ),
                    } {
                        ans.push(AfterHalfAcceptance_ { dest: Some(planned_direction) });
                    }
                },
                _ => {},
            }
            proof {
                assert(ans@ =~= seq![AfterHalfAcceptance_::<Coord> { dest: None }]
                    + candidates@.take(i + 1).filter_map(decide));
            }
            i += 1;
        }
        proof {
            assert(candidates@.take(i as int) =~= candidates@);
        }
        ans
    }

    /// The decisions that are open to the player whose piece is in flight.
    #[must_use]
    pub fn get_candidates(&self, config: Config) -> (r: Vec<AfterHalfAcceptance_<Coord>>)
        ensures
            r@ == self@.candidates(config),
    {
        let candidates = not_from_hop1zuo1_candidates_vec(
            true,
            config.tam_itself_is_tam_hue,
            self.c.whose_turn,
            &self.c.f,
        );
        self.decisions_among(config, &candidates)
    }
}

} // verus!
