//! The transitions that a submission causes: from the start of a turn to a
//! completed move, by way of a cast where the move needs one.

use cetkaik_fundamental::{AbsoluteSide, Profession};
use cetkaik_naive_representation::absolute::{Coord, Piece};
use vstd::prelude::*;

use crate::candidates::contains_move;
use crate::field::{
    field_is_empty_at, field_is_occupied_at, hop1zuo1_of,
    move_nontam_piece_from_src_to_dest_while_taking_opponent_piece_if_needed, piece_on_field_at,
    pop, put, search_from_hop1zuo1_and_parachute_at, FieldModel,
};
use crate::message::{
    same_decision, AfterHalfAcceptance_, InfAfterStep_, NormalMove_, PureMove__,
};
use crate::pieces::{
    has_prof_absolute, holds_tam2, in_water, is_water_absolute, of_profession, same_coord,
};
use crate::probabilistic::Probabilistic;
use crate::rules::{Config, Consequence};
use crate::state::{
    ExcitedModel, ExcitedStateWithoutCiurl_, ExcitedState_, ExcitedWithoutCiurlModel,
    GroundModel, GroundState_, HandNotResolvedModel, HandNotResolved_,
};

verus! {

/// The distribution of what the states of a distribution hold.
pub open spec fn pending_outcomes(p: Probabilistic<HandNotResolved_>) -> Probabilistic<
    HandNotResolvedModel,
> {
    p.map_outcomes(|s: HandNotResolved_| s@)
}

/// The distribution of what the states of a distribution hold.
pub open spec fn excited_outcomes(p: Probabilistic<ExcitedState_>) -> Probabilistic<ExcitedModel> {
    p.map_outcomes(|s: ExcitedState_| s@)
}

/// Whether a piece that moves from `src` to `dest` on `f` must pass a
/// water-entry cast: it enters the water from outside, and is no vessel.
pub open spec fn needs_water_entry_cast(f: FieldModel, src: Coord, dest: Coord) -> bool {
    !in_water(src) && !of_profession(f.board[src], Profession::Nuak1) && in_water(dest)
}

/// What a move of a piece other than Tam2 leads to, once it is known to be
/// a candidate. `before` is the state in which it is made, `stepped_on_tam2`
/// whether it steps over Tam2.
pub open spec fn nontam_outcome(
    before: HandNotResolvedModel,
    src: Coord,
    dest: Coord,
    stepped_on_tam2: bool,
    config: Config,
) -> Result<Probabilistic<HandNotResolvedModel>, &'static str> {
    match before.f.moved_nontam(src, dest, before.whose_turn) {
        Err(reason) => Err(reason),
        Ok(moved) => {
            let success = HandNotResolvedModel {
                f: moved,
                kut2tam2_happened: stepped_on_tam2,
                ..before
            };
            let failure = HandNotResolvedModel {
                kut2tam2_happened: stepped_on_tam2
                    && !config.failure_to_complete_the_move_means_exempt_from_kut2_tam2,
                ..before
            };
            if needs_water_entry_cast(before.f, src, dest) {
                Ok(Probabilistic::Water { failure, success })
            } else {
                Ok(Probabilistic::Pure(success))
            }
        },
    }
}

impl GroundModel {
    /// The state after a move that has changed nothing: the same field,
    /// with the reserves as they are noted down before every move.
    pub open spec fn untouched(self) -> HandNotResolvedModel {
        HandNotResolvedModel {
            f: self.f,
            whose_turn: self.whose_turn,
            season: self.season,
            scores: self.scores,
            rate: self.rate,
            i_have_moved_tam_in_this_turn: false,
            previous_a_side_hop1zuo1: self.f.a_side_hop1zuo1,
            previous_ia_side_hop1zuo1: self.f.ia_side_hop1zuo1,
            kut2tam2_happened: false,
            tam2tysak2_raw_penalty: 0,
            tam2tysak2_will_trigger_taxottymok: false,
        }
    }

    /// What follows from moving Tam2 in the turn right after the opponent
    /// has moved it, if it was moved then.
    pub open spec fn consequence_of_moving_again(self, config: Config) -> Consequence {
        if self.tam_has_moved_previously {
            config.moving_tam_immediately_after_tam_has_moved
        } else {
            Consequence::Allowed
        }
    }

    /// What follows from ending the move of Tam2 on `second_dest`, if that
    /// is where it set out.
    pub open spec fn consequence_of_coming_back(src: Coord, second_dest: Coord, config: Config)
        -> Consequence {
        if src == second_dest {
            config.tam_mun_mok
        } else {
            Consequence::Allowed
        }
    }

    /// What a move of Tam2 leads to, once it is known to be a candidate.
    /// The squares are looked at after Tam2 has left `src`.
    pub open spec fn tam_move_applied(
        self,
        src: Coord,
        first_dest: Coord,
        second_dest: Coord,
        step: Option<Coord>,
        config: Config,
    ) -> Result<Probabilistic<HandNotResolvedModel>, &'static str> {
        let again = self.consequence_of_moving_again(config);
        let back = GroundModel::consequence_of_coming_back(src, second_dest, config);
        let lifted = self.f.board.remove(src);
        if again == Consequence::Forbidden {
            Err(
                "By config, it is prohibited for tam2 to move immediately after the previous player has moved the tam2.",
            )
        } else if back == Consequence::Forbidden {
            Err("By config, it is prohibited for tam2 to start and end at the same position.")
        } else if !self.f.board.contains_key(src) {
            Err("expected tam2 but found an empty square")
        } else if self.f.board[src] != Piece::Tam2 {
            Err("expected tam2 but found a non-tam2 piece")
        } else if lifted.contains_key(first_dest) {
            Err("the first destination is already occupied")
        } else if step is Some && !lifted.contains_key(step->0) {
            Err("the stepping square is empty")
        } else if lifted.contains_key(second_dest) {
            Err("the second destination is already occupied")
        } else {
            Ok(
                Probabilistic::Pure(
                    HandNotResolvedModel {
                        f: self.f.with_board(lifted.insert(second_dest, Piece::Tam2)),
                        i_have_moved_tam_in_this_turn: true,
                        tam2tysak2_raw_penalty: (again.penalty_of() + back.penalty_of()) as i32,
                        tam2tysak2_will_trigger_taxottymok: again.counts_as_hand()
                            || back.counts_as_hand(),
                        ..self.untouched()
                    },
                ),
            )
        }
    }

    /// What a move of a piece other than Tam2 leads to, once it is known to
    /// be a candidate.
    pub open spec fn nontam_move_applied(
        self,
        src: Coord,
        dest: Coord,
        step: Option<Coord>,
        config: Config,
    ) -> Result<Probabilistic<HandNotResolvedModel>, &'static str> {
        if step is Some && !self.f.board.contains_key(step->0) {
            Err("expected a stepping square but found an empty square")
        } else if !self.f.board.contains_key(src) {
            Err("src does not contain a piece")
        } else {
            nontam_outcome(
                self.untouched(),
                src,
                dest,
                step is Some && self.f.piece_at(step->0) == Some(Piece::Tam2),
                config,
            )
        }
    }

    /// The reason given where a move on the board is no candidate.
    pub open spec fn rejection(msg: NormalMove_<Coord>) -> &'static str {
        match msg {
            NormalMove_::TamMoveNoStep { .. } => {
                "The provided TamMoveNoStep was rejected by the crate `cetkaik_yhuap_move_candidates`."
            },
            NormalMove_::TamMoveStepsDuringFormer { .. } => {
                "The provided TamMoveStepsDuringFormer was rejected by the crate `cetkaik_yhuap_move_candidates`."
            },
            NormalMove_::TamMoveStepsDuringLatter { .. } => {
                "The provided TamMoveStepsDuringLatter was rejected by the crate `cetkaik_yhuap_move_candidates`."
            },
            NormalMove_::NonTamMoveSrcDst { .. } => {
                "The provided NonTamMoveSrcDst was rejected by the crate `cetkaik_yhuap_move_candidates`."
            },
            NormalMove_::NonTamMoveSrcStepDstFinite { .. } => {
                "The provided NonTamMoveSrcStepDstFinite was rejected by the crate `cetkaik_yhuap_move_candidates`."
            },
            NormalMove_::NonTamMoveFromHopZuo { .. } => {
                "Cannot find an adequate piece to place, or the destination is occupied"
            },
        }
    }

    /// What a move that needs no cast of the sticks beforehand leads to,
    /// given the moves on the board that are open. A piece out of the
    /// reserve is set down wherever the field allows it; a move on the
    /// board must be among `candidates`, and is then made on the field.
    pub open spec fn normal_move_among(
        self,
        msg: NormalMove_<Coord>,
        config: Config,
        candidates: Seq<PureMove__<Coord>>,
    ) -> Result<Probabilistic<HandNotResolvedModel>, &'static str> {
        match msg {
            NormalMove_::NonTamMoveFromHopZuo { color, prof, dest } => match self.f.parachuted(
                color,
                prof,
                self.whose_turn,
                dest,
            ) {
                None => Err(GroundModel::rejection(msg)),
                Some(placed) => Ok(
                    Probabilistic::Pure(HandNotResolvedModel { f: placed, ..self.untouched() }),
                ),
            },
            _ => if !candidates.contains(PureMove__::NormalMove(msg)) {
                Err(GroundModel::rejection(msg))
            } else {
                match msg {
                    NormalMove_::TamMoveNoStep {
                        src,
                        first_dest,
                        second_dest,
                    } => self.tam_move_applied(src, first_dest, second_dest, None, config),
                    NormalMove_::TamMoveStepsDuringFormer {
                        src,
                        first_dest,
                        second_dest,
                        step,
                    } => self.tam_move_applied(src, first_dest, second_dest, Some(step), config),
                    NormalMove_::TamMoveStepsDuringLatter {
                        src,
                        first_dest,
                        second_dest,
                        step,
                    } => self.tam_move_applied(src, first_dest, second_dest, Some(step), config),
                    NormalMove_::NonTamMoveSrcDst { src, dest } => self.nontam_move_applied(
                        src,
                        dest,
                        None,
                        config,
                    ),
                    NormalMove_::NonTamMoveSrcStepDstFinite {
                        src,
                        step,
                        dest,
                    } => self.nontam_move_applied(src, dest, Some(step), config),
                    NormalMove_::NonTamMoveFromHopZuo { .. } => arbitrary(),
                }
            },
        }
    }

    /// What a move that needs no cast of the sticks beforehand leads to:
    /// what it leads to given the candidates of the state.
    pub open spec fn normal_move_applied(self, msg: NormalMove_<Coord>, config: Config) -> Result<
        Probabilistic<HandNotResolvedModel>,
        &'static str,
    > {
        self.normal_move_among(msg, config, self.candidates(config))
    }

    /// The move in flight, with `ciurl` as the cast.
    pub open spec fn in_flight(self, msg: InfAfterStep_<Coord>, ciurl: i32) -> ExcitedModel {
        ExcitedModel {
            c: ExcitedWithoutCiurlModel {
                f: self.f,
                whose_turn: self.whose_turn,
                flying_piece_src: msg.src,
                flying_piece_step: msg.step,
                flying_piece_planned_direction: msg.planned_direction,
                season: self.season,
                scores: self.scores,
                rate: self.rate,
            },
            ciurl,
        }
    }

    /// What the declaration of a step that is to be followed by a run leads
    /// to, given the moves on the board that are open: one state for each
    /// value that the cast can show. Both squares must be occupied, and the
    /// declaration must be among `candidates`, with the square that it
    /// names for the run.
    pub open spec fn inf_after_step_among(
        self,
        msg: InfAfterStep_<Coord>,
        candidates: Seq<PureMove__<Coord>>,
    ) -> Result<Probabilistic<ExcitedModel>, &'static str> {
        if !self.f.board.contains_key(msg.src) {
            Err("In InfAfterStep, `src` is not occupied; illegal")
        } else if !self.f.board.contains_key(msg.step) {
            Err("In InfAfterStep, `step` is not occupied; illegal")
        } else if !candidates.contains(PureMove__::InfAfterStep(msg)) {
            Err(
                "The provided InfAfterStep was rejected by the crate `cetkaik_yhuap_move_candidates`.",
            )
        } else {
            Ok(
                Probabilistic::Sticks {
                    s0: self.in_flight(msg, 0),
                    s1: self.in_flight(msg, 1),
                    s2: self.in_flight(msg, 2),
                    s3: self.in_flight(msg, 3),
                    s4: self.in_flight(msg, 4),
                    s5: self.in_flight(msg, 5),
                },
            )
        }
    }
}

impl GroundModel {
    /// What the declaration of a step that is to be followed by a run leads
    /// to: what it leads to given the candidates of the state.
    pub open spec fn inf_after_step_applied(self, msg: InfAfterStep_<Coord>, config: Config)
        -> Result<Probabilistic<ExcitedModel>, &'static str> {
        self.inf_after_step_among(msg, self.candidates(config))
    }
}

impl ExcitedModel {
    /// The state at the start of the turn in which the move set out.
    pub open spec fn untouched(self) -> HandNotResolvedModel {
        HandNotResolvedModel {
            f: self.c.f,
            whose_turn: self.c.whose_turn,
            season: self.c.season,
            scores: self.c.scores,
            rate: self.c.rate,
            i_have_moved_tam_in_this_turn: false,
            previous_a_side_hop1zuo1: self.c.f.a_side_hop1zuo1,
            previous_ia_side_hop1zuo1: self.c.f.ia_side_hop1zuo1,
            kut2tam2_happened: false,
            tam2tysak2_raw_penalty: 0,
            tam2tysak2_will_trigger_taxottymok: false,
        }
    }

    /// Whether the move stepped over Tam2.
    pub open spec fn stepped_on_tam2(self) -> bool {
        self.c.f.board[self.c.flying_piece_step] == Piece::Tam2
    }

    /// What the decision after the cast leads to: what it leads to given
    /// the decisions that are open in the state.
    pub open spec fn after_half_acceptance_applied(
        self,
        msg: AfterHalfAcceptance_<Coord>,
        config: Config,
    ) -> Result<Probabilistic<HandNotResolvedModel>, &'static str> {
        self.after_half_acceptance_among(msg, config, self.candidates(config))
    }

    /// What the decision after the cast leads to, given the decisions that
    /// are open. The decision must be among `decisions`; to give the move
    /// up leaves the field as it was, and to name a square moves the piece
    /// there.
    pub open spec fn after_half_acceptance_among(
        self,
        msg: AfterHalfAcceptance_<Coord>,
        config: Config,
        decisions: Seq<AfterHalfAcceptance_<Coord>>,
    ) -> Result<Probabilistic<HandNotResolvedModel>, &'static str> {
        if !decisions.contains(msg) {
            Err(
                "The provided InfAfterStep was rejected either by the crate `cetkaik_yhuap_move_candidates`, or because the ciurl limit was exceeded.",
            )
        } else {
            match msg.dest {
                None => Ok(
                    Probabilistic::Pure(
                        HandNotResolvedModel {
                            kut2tam2_happened: self.stepped_on_tam2()
                                && !config.failure_to_complete_the_move_means_exempt_from_kut2_tam2,
                            ..self.untouched()
                        },
                    ),
                ),
                Some(dest) => nontam_outcome(
                    self.untouched(),
                    self.c.flying_piece_src,
                    dest,
                    self.stepped_on_tam2(),
                    config,
                ),
            }
        }
    }
}

/// The state after a move of `old_state` that has changed nothing.
fn nothing_moved(old_state: &GroundState_) -> (r: HandNotResolved_)
    ensures
        r@ == old_state@.untouched(),
{
    HandNotResolved_ {
        previous_a_side_hop1zuo1: hop1zuo1_of(AbsoluteSide::ASide, &old_state.f),
        previous_ia_side_hop1zuo1: hop1zuo1_of(AbsoluteSide::IASide, &old_state.f),
        kut2tam2_happened: false,
        rate: old_state.rate,
        i_have_moved_tam_in_this_turn: false,
        season: old_state.season,
        scores: old_state.scores,
        whose_turn: old_state.whose_turn,
        f: old_state.f.clone(),
        tam2tysak2_will_trigger_taxottymok: false,
        tam2tysak2_raw_penalty: 0,
    }
}

/// Moves the piece and, where it enters the water unexcused, holds the
/// move against the state in which nothing has happened.
fn complete_nontam_move(
    before: HandNotResolved_,
    src: Coord,
    dest: Coord,
    stepped_on_tam2: bool,
    config: Config,
) -> (r: Result<Probabilistic<HandNotResolved_>, &'static str>)
    requires
        before@.f.board.contains_key(src),
    ensures
        match nontam_outcome(before@, src, dest, stepped_on_tam2, config) {
            Ok(outcomes) => r is Ok && pending_outcomes(r->Ok_0) == outcomes,
            Err(reason) => r is Err && r->Err_0 == reason,
        },
{
    let src_piece = piece_on_field_at(&before.f, src).unwrap();
    let moved = move_nontam_piece_from_src_to_dest_while_taking_opponent_piece_if_needed(
        &before.f,
        src,
        dest,
        before.whose_turn,
    );
    let new_field = match moved {
        Ok(new_field) => new_field,
        Err(reason) => {
            return Err(reason);
        },
    };
    let mut success = before.clone();
    success.f = new_field;
    success.kut2tam2_happened = stepped_on_tam2;
    // Water-entry cast: the piece comes from outside the water and is no
    // vessel.
    if !is_water_absolute(src) && !has_prof_absolute(src_piece, Profession::Nuak1)
        && is_water_absolute(dest) {
        let mut failure = before;
        failure.kut2tam2_happened = stepped_on_tam2
            && !config.failure_to_complete_the_move_means_exempt_from_kut2_tam2;
        Ok(Probabilistic::Water { failure, success })
    } else {
        Ok(Probabilistic::Pure(success))
    }
}

fn apply_tam_move(
    old_state: &GroundState_,
    src: Coord,
    first_dest: Coord,
    second_dest: Coord,
    step: Option<Coord>,
    config: Config,
) -> (r: Result<Probabilistic<HandNotResolved_>, &'static str>)
    requires
        config.penalties_fit(),
    ensures
        match old_state@.tam_move_applied(src, first_dest, second_dest, step, config) {
            Ok(outcomes) => r is Ok && pending_outcomes(r->Ok_0) == outcomes,
            Err(reason) => r is Err && r->Err_0 == reason,
        },
{
    let (penalty1, is_a_hand1): (i32, bool) = if old_state.tam_has_moved_previously {
        match config.moving_tam_immediately_after_tam_has_moved {
            Consequence::Allowed => (0, false),
            Consequence::Penalized { penalty, is_a_hand } => (penalty, is_a_hand),
            Consequence::Forbidden => {
                return Err(
                    "By config, it is prohibited for tam2 to move immediately after the previous player has moved the tam2.",
                );
            },
        }
    } else {
        (0, false)
    };
    let (penalty2, is_a_hand2): (i32, bool) = if same_coord(src, second_dest) {
        match config.tam_mun_mok {
            Consequence::Forbidden => {
                return Err(
                    "By config, it is prohibited for tam2 to start and end at the same position.",
                );
            },
            Consequence::Allowed => (0, false),
            Consequence::Penalized { penalty, is_a_hand } => (penalty, is_a_hand),
        }
    } else {
        (0, false)
    };
    let mut new_field = old_state.f.clone();
    let expect_tam = match pop(&mut new_field.board, src) {
        Some(piece) => piece,
        None => {
            return Err("expected tam2 but found an empty square");
        },
    };
    if !holds_tam2(Some(expect_tam)) {
        return Err("expected tam2 but found a non-tam2 piece");
    }
    if field_is_occupied_at(&new_field, first_dest) {
        return Err("the first destination is already occupied");
    }
    if let Some(st) = step {
        if field_is_empty_at(&new_field, st) {
            return Err("the stepping square is empty");
        }
    }
    if field_is_occupied_at(&new_field, second_dest) {
        return Err("the second destination is already occupied");
    }
    put(&mut new_field.board, second_dest, Some(Piece::Tam2));

    // When Tam2 moves, Tam2 is never stepped over.
    let mut after = nothing_moved(old_state);
    after.f = new_field;
    after.i_have_moved_tam_in_this_turn = true;
    after.tam2tysak2_raw_penalty = penalty1 + penalty2;
    after.tam2tysak2_will_trigger_taxottymok = is_a_hand1 || is_a_hand2;
    Ok(Probabilistic::Pure(after))
}

fn apply_nontam_move(
    old_state: &GroundState_,
    src: Coord,
    dest: Coord,
    step: Option<Coord>,
    config: Config,
) -> (r: Result<Probabilistic<HandNotResolved_>, &'static str>)
    ensures
        match old_state@.nontam_move_applied(src, dest, step, config) {
            Ok(outcomes) => r is Ok && pending_outcomes(r->Ok_0) == outcomes,
            Err(reason) => r is Err && r->Err_0 == reason,
        },
{
    let stepped_on_tam2 = match step {
        Some(st) => holds_tam2(piece_on_field_at(&old_state.f, st)),
        None => false,
    };
    if let Some(st) = step {
        if field_is_empty_at(&old_state.f, st) {
            return Err("expected a stepping square but found an empty square");
        }
    }
    if field_is_empty_at(&old_state.f, src) {
        return Err("src does not contain a piece");
    }
    complete_nontam_move(nothing_moved(old_state), src, dest, stepped_on_tam2, config)
}

/// Makes a move that needs no cast of the sticks beforehand, given the
/// moves on the board that are open.
pub fn apply_normal_move_among(
    old_state: &GroundState_,
    msg: NormalMove_<Coord>,
    config: Config,
    candidates: &Vec<PureMove__<Coord>>,
) -> (r: Result<Probabilistic<HandNotResolved_>, &'static str>)
    requires
        config.penalties_fit(),
    ensures
        match old_state@.normal_move_among(msg, config, candidates@) {
            Ok(outcomes) => r is Ok && pending_outcomes(r->Ok_0) == outcomes,
            Err(reason) => r is Err && r->Err_0 == reason,
        },
{
    match msg {
        NormalMove_::NonTamMoveFromHopZuo { color, prof, dest } => {
            let placed = search_from_hop1zuo1_and_parachute_at(
                &old_state.f,
                color,
                prof,
                old_state.whose_turn,
                dest,
            );
            let new_field = match placed {
                Some(new_field) => new_field,
                None => {
                    return Err(
                        "Cannot find an adequate piece to place, or the destination is occupied",
                    );
                },
            };
            // A piece that comes out of the reserve never steps over Tam2.
            let mut after = nothing_moved(old_state);
            after.f = new_field;
            Ok(Probabilistic::Pure(after))
        },
        NormalMove_::TamMoveNoStep { src, first_dest, second_dest } => {
            if contains_move(candidates, PureMove__::NormalMove(msg)) {
                apply_tam_move(old_state, src, first_dest, second_dest, None, config)
            } else {
                Err(
                    "The provided TamMoveNoStep was rejected by the crate `cetkaik_yhuap_move_candidates`.",
                )
            }
        },
        NormalMove_::TamMoveStepsDuringFormer { src, first_dest, second_dest, step } => {
            if contains_move(candidates, PureMove__::NormalMove(msg)) {
                apply_tam_move(old_state, src, first_dest, second_dest, Some(step), config)
            } else {
                Err(
                    "The provided TamMoveStepsDuringFormer was rejected by the crate `cetkaik_yhuap_move_candidates`.",
                )
            }
        },
        NormalMove_::TamMoveStepsDuringLatter { src, first_dest, second_dest, step } => {
            if contains_move(candidates, PureMove__::NormalMove(msg)) {
                apply_tam_move(old_state, src, first_dest, second_dest, Some(step), config)
            } else {
                Err(
                    "The provided TamMoveStepsDuringLatter was rejected by the crate `cetkaik_yhuap_move_candidates`.",
                )
            }
        },
        NormalMove_::NonTamMoveSrcDst { src, dest } => {
            if contains_move(candidates, PureMove__::NormalMove(msg)) {
                apply_nontam_move(old_state, src, dest, None, config)
            } else {
                Err(
                    "The provided NonTamMoveSrcDst was rejected by the crate `cetkaik_yhuap_move_candidates`.",
                )
            }
        },
        NormalMove_::NonTamMoveSrcStepDstFinite { src, step, dest } => {
            if contains_move(candidates, PureMove__::NormalMove(msg)) {
                apply_nontam_move(old_state, src, dest, Some(step), config)
            } else {
                Err(
                    "The provided NonTamMoveSrcStepDstFinite was rejected by the crate `cetkaik_yhuap_move_candidates`.",
                )
            }
        },
    }
}

/// Makes a move that needs no cast of the sticks beforehand.
pub fn apply_normal_move(old_state: &GroundState_, msg: NormalMove_<Coord>, config: Config) -> (r:
    Result<Probabilistic<HandNotResolved_>, &'static str>)
    requires
        config.penalties_fit(),
    ensures
        match old_state@.normal_move_applied(msg, config) {
            Ok(outcomes) => r is Ok && pending_outcomes(r->Ok_0) == outcomes,
            Err(reason) => r is Err && r->Err_0 == reason,
        },
{
    let (hop1zuo1_candidates, candidates) = old_state.get_candidates(config);
    let r = apply_normal_move_among(old_state, msg, config, &candidates);
    if let NormalMove_::NonTamMoveFromHopZuo { color, prof, dest } = msg {
        // Every move out of the reserve that the field allows is a
        // candidate: were it not listed, the field and the candidates
        // would contradict each other.
        if r.is_ok() && !contains_move(&hop1zuo1_candidates, PureMove__::NormalMove(msg)) {
            proof {
                assert(old_state@.f.parachuted(color, prof, old_state.whose_turn, dest) is Some);
            }
            unreached::<()>();
        }
    }
    r
}

/// Declares a step over a piece that is to be followed by a run, for which
/// the sticks are then cast, given the moves on the board that are open.
pub fn apply_inf_after_step_among(
    old_state: &GroundState_,
    msg: InfAfterStep_<Coord>,
    candidates: &Vec<PureMove__<Coord>>,
) -> (r: Result<Probabilistic<ExcitedState_>, &'static str>)
    ensures
        match old_state@.inf_after_step_among(msg, candidates@) {
            Ok(outcomes) => r is Ok && excited_outcomes(r->Ok_0) == outcomes,
            Err(reason) => r is Err && r->Err_0 == reason,
        },
        r is Ok ==> forall|i: int|
            0 <= i < r->Ok_0.flattened().len() ==> (#[trigger] r->Ok_0.flattened()[i]).0@.wf(),
{
    if field_is_empty_at(&old_state.f, msg.src) {
        return Err("In InfAfterStep, `src` is not occupied; illegal");
    }
    if field_is_empty_at(&old_state.f, msg.step) {
        return Err("In InfAfterStep, `step` is not occupied; illegal");
    }
    if !contains_move(candidates, PureMove__::InfAfterStep(msg)) {
        return Err(
            "The provided InfAfterStep was rejected by the crate `cetkaik_yhuap_move_candidates`.",
        );
    }
    let c = ExcitedStateWithoutCiurl_ {
        f: old_state.f.clone(),
        whose_turn: old_state.whose_turn,
        flying_piece_src: msg.src,
        flying_piece_step: msg.step,
        flying_piece_planned_direction: msg.planned_direction,
        season: old_state.season,
        scores: old_state.scores,
        rate: old_state.rate,
    };
    Ok(
        Probabilistic::Sticks {
            s0: ExcitedState_ { c: c.clone(), ciurl: 0 },
            s1: ExcitedState_ { c: c.clone(), ciurl: 1 },
            s2: ExcitedState_ { c: c.clone(), ciurl: 2 },
            s3: ExcitedState_ { c: c.clone(), ciurl: 3 },
            s4: ExcitedState_ { c: c.clone(), ciurl: 4 },
            s5: ExcitedState_ { c, ciurl: 5 },
        },
    )
}

/// Declares a step over a piece that is to be followed by a run, for which
/// the sticks are then cast.
pub fn apply_inf_after_step(old_state: &GroundState_, msg: InfAfterStep_<Coord>, config: Config)
    -> (r: Result<Probabilistic<ExcitedState_>, &'static str>)
    ensures
        match old_state@.inf_after_step_applied(msg, config) {
            Ok(outcomes) => r is Ok && excited_outcomes(r->Ok_0) == outcomes,
            Err(reason) => r is Err && r->Err_0 == reason,
        },
        r is Ok ==> forall|i: int|
            0 <= i < r->Ok_0.flattened().len() ==> (#[trigger] r->Ok_0.flattened()[i]).0@.wf(),
{
    let (_hop1zuo1, candidates) = old_state.get_candidates(config);
    apply_inf_after_step_among(old_state, msg, &candidates)
}

/// Whether a list of decisions holds `wanted`.
fn contains_decision(
    decisions: &Vec<AfterHalfAcceptance_<Coord>>,
    wanted: AfterHalfAcceptance_<Coord>,
) -> (r: bool)
    ensures
        r == decisions@.contains(wanted),
{
    let mut i: usize = 0;
    while i < decisions.len()
        invariant
            i <= decisions.len(),
            forall|j: int| 0 <= j < i ==> decisions@[j] != wanted,
        decreases decisions.len() - i,
    {
        if same_decision(decisions[i], wanted) {
            return true;
        }
        i += 1;
    }
    false
}

/// Takes the decision of the player whose piece is in flight, now that the
/// sticks have been cast, given the decisions that are open.
pub fn apply_after_half_acceptance_among(
    old_state: &ExcitedState_,
    msg: AfterHalfAcceptance_<Coord>,
    config: Config,
    decisions: &Vec<AfterHalfAcceptance_<Coord>>,
) -> (r: Result<Probabilistic<HandNotResolved_>, &'static str>)
    requires
        old_state@.wf(),
    ensures
        match old_state@.after_half_acceptance_among(msg, config, decisions@) {
            Ok(outcomes) => r is Ok && pending_outcomes(r->Ok_0) == outcomes,
            Err(reason) => r is Err && r->Err_0 == reason,
        },
{
    let stepped_on_tam2 = holds_tam2(Some(old_state.piece_at_flying_piece_step()));
    let nothing_happened = HandNotResolved_ {
        previous_a_side_hop1zuo1: hop1zuo1_of(AbsoluteSide::ASide, &old_state.c.f),
        previous_ia_side_hop1zuo1: hop1zuo1_of(AbsoluteSide::IASide, &old_state.c.f),
        kut2tam2_happened: false,
        rate: old_state.c.rate,
        i_have_moved_tam_in_this_turn: false,
        season: old_state.c.season,
        scores: old_state.c.scores,
        whose_turn: old_state.c.whose_turn,
        f: old_state.c.f.clone(),
        tam2tysak2_will_trigger_taxottymok: false,
        tam2tysak2_raw_penalty: 0,
    };
    if !contains_decision(decisions, msg) {
        return Err(
            "The provided InfAfterStep was rejected either by the crate `cetkaik_yhuap_move_candidates`, or because the ciurl limit was exceeded.",
        );
    }
    if let Some(dest) = msg.dest {
        complete_nontam_move(
            nothing_happened,
            old_state.c.flying_piece_src,
            dest,
            stepped_on_tam2,
            config,
        )
    } else {
        // The piece has not moved, so that no water-entry cast is due; all
        // that can remain of the move is that it stepped over Tam2.
        let mut passed = nothing_happened;
        passed.kut2tam2_happened = stepped_on_tam2
            && !config.failure_to_complete_the_move_means_exempt_from_kut2_tam2;
        Ok(Probabilistic::Pure(passed))
    }
}

/// Takes the decision of the player whose piece is in flight, now that the
/// sticks have been cast.
pub fn apply_after_half_acceptance(
    old_state: &ExcitedState_,
    msg: AfterHalfAcceptance_<Coord>,
    config: Config,
) -> (r: Result<Probabilistic<HandNotResolved_>, &'static str>)
    requires
        old_state@.wf(),
    ensures
        match old_state@.after_half_acceptance_applied(msg, config) {
            Ok(outcomes) => r is Ok && pending_outcomes(r->Ok_0) == outcomes,
            Err(reason) => r is Err && r->Err_0 == reason,
        },
{
    let candidates = old_state.get_candidates(config);
    apply_after_half_acceptance_among(old_state, msg, config, &candidates)
}

} // verus!
