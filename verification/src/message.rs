//! What a player can submit: ordinary moves, the declaration of a step that
//! is to be followed by an unbounded run, and the decision after the cast.

use cetkaik_fundamental::{Color, Profession, PureMove_};
use cetkaik_naive_representation::absolute::Coord;
use vstd::prelude::*;
use vstd::std_specs::convert::FromSpecImpl;

use crate::pieces::{same_color, same_coord, same_profession};

verus! {

/// `cetkaik_fundamental::PureMove_`, with its seven variants and their fields.
#[verifier::external_type_specification]
#[verifier::reject_recursive_types(T)]
pub struct ExPureMove<T>(PureMove_<T>);

/// Any move that a player can submit at the start of a turn.
#[derive(Eq, PartialEq, Clone, Debug, Copy, Hash)]
pub enum PureMove__<T> {
    InfAfterStep(InfAfterStep_<T>),
    NormalMove(NormalMove_<T>),
}

/// A move that steps over a piece and is then to run without bound, so that
/// the sticks must be cast before it can be completed.
#[derive(Clone, Debug, Copy, PartialEq, Eq, Hash)]
pub struct InfAfterStep_<T> {
    pub src: T,
    pub step: T,
    pub planned_direction: T,
}

/// The decision that follows the cast.
#[derive(Clone, Debug, Copy, PartialEq, Eq, Hash)]
pub struct AfterHalfAcceptance_<T> {
    /// The square to move to; `None` gives the move up and passes the turn.
    pub dest: Option<T>,
}

/// Every move that needs no cast before it is made.
#[derive(Clone, Debug, Copy, PartialEq, Eq, Hash)]
pub enum NormalMove_<T> {
    NonTamMoveSrcDst { src: T, dest: T },
    NonTamMoveSrcStepDstFinite { src: T, step: T, dest: T },
    NonTamMoveFromHopZuo { color: Color, prof: Profession, dest: T },
    TamMoveNoStep { src: T, first_dest: T, second_dest: T },
    TamMoveStepsDuringFormer { src: T, step: T, first_dest: T, second_dest: T },
    TamMoveStepsDuringLatter { src: T, step: T, first_dest: T, second_dest: T },
}

/// The message that stands for a candidate move: the same move without the
/// note on whether it needs a water-entry cast.
pub open spec fn message_of<T>(candidate: PureMove_<T>) -> PureMove__<T> {
    match candidate {
        PureMove_::TamMoveNoStep { src, first_dest, second_dest } => PureMove__::NormalMove(
            NormalMove_::TamMoveNoStep { src, first_dest, second_dest },
        ),
        PureMove_::TamMoveStepsDuringFormer {
            src,
            step,
            first_dest,
            second_dest,
        } => PureMove__::NormalMove(
            NormalMove_::TamMoveStepsDuringFormer { src, step, first_dest, second_dest },
        ),
        PureMove_::TamMoveStepsDuringLatter {
            src,
            step,
            first_dest,
            second_dest,
        } => PureMove__::NormalMove(
            NormalMove_::TamMoveStepsDuringLatter { src, step, first_dest, second_dest },
        ),
        PureMove_::NonTamMoveSrcStepDstFinite {
            src,
            step,
            dest,
            is_water_entry_ciurl,
        } => PureMove__::NormalMove(NormalMove_::NonTamMoveSrcStepDstFinite { src, step, dest }),
        PureMove_::InfAfterStep { src, step, planned_direction } => PureMove__::InfAfterStep(
            InfAfterStep_ { src, step, planned_direction },
        ),
        PureMove_::NonTamMoveFromHopZuo { color, prof, dest } => PureMove__::NormalMove(
            NormalMove_::NonTamMoveFromHopZuo { color, prof, dest },
        ),
        PureMove_::NonTamMoveSrcDst { src, dest, is_water_entry_ciurl } => PureMove__::NormalMove(
            NormalMove_::NonTamMoveSrcDst { src, dest },
        ),
    }
}

impl<T> From<PureMove_<T>> for PureMove__<T> {
    fn from(candidate: PureMove_<T>) -> (r: Self) {
        match candidate {
            PureMove_::TamMoveNoStep { src, first_dest, second_dest } => PureMove__::NormalMove(
                NormalMove_::TamMoveNoStep { src, first_dest, second_dest },
            ),
            PureMove_::TamMoveStepsDuringFormer {
                src,
                step,
                first_dest,
                second_dest,
            } => PureMove__::NormalMove(
                NormalMove_::TamMoveStepsDuringFormer { src, step, first_dest, second_dest },
            ),
            PureMove_::TamMoveStepsDuringLatter {
                src,
                step,
                first_dest,
                second_dest,
            } => PureMove__::NormalMove(
                NormalMove_::TamMoveStepsDuringLatter { src, step, first_dest, second_dest },
            ),
            PureMove_::NonTamMoveSrcStepDstFinite {
                src,
                step,
                dest,
                is_water_entry_ciurl: _,
            } => PureMove__::NormalMove(
                NormalMove_::NonTamMoveSrcStepDstFinite { src, step, dest },
            ),
            PureMove_::InfAfterStep { src, step, planned_direction } => PureMove__::InfAfterStep(
                InfAfterStep_ { src, step, planned_direction },
            ),
            PureMove_::NonTamMoveFromHopZuo { color, prof, dest } => PureMove__::NormalMove(
                NormalMove_::NonTamMoveFromHopZuo { color, prof, dest },
            ),
            PureMove_::NonTamMoveSrcDst {
                src,
                dest,
                is_water_entry_ciurl: _,
            } => PureMove__::NormalMove(NormalMove_::NonTamMoveSrcDst { src, dest }),
        }
    }
}

impl<T> FromSpecImpl<PureMove_<T>> for PureMove__<T> {
    open spec fn obeys_from_spec() -> bool {
        true
    }

    open spec fn from_spec(candidate: PureMove_<T>) -> Self {
        message_of(candidate)
    }
}

/// Whether two moves on the board are the same move.
pub fn same_normal_move(a: NormalMove_<Coord>, b: NormalMove_<Coord>) -> (r: bool)
    ensures
        r == (a == b),
{
    match (a, b) {
        (
            NormalMove_::NonTamMoveSrcDst { src: s1, dest: d1 },
            NormalMove_::NonTamMoveSrcDst { src: s2, dest: d2 },
        ) => same_coord(s1, s2) && same_coord(d1, d2),
        (
            NormalMove_::NonTamMoveSrcStepDstFinite { src: s1, step: t1, dest: d1 },
            NormalMove_::NonTamMoveSrcStepDstFinite { src: s2, step: t2, dest: d2 },
        ) => same_coord(s1, s2) && same_coord(t1, t2) && same_coord(d1, d2),
        (
            NormalMove_::NonTamMoveFromHopZuo { color: c1, prof: p1, dest: d1 },
            NormalMove_::NonTamMoveFromHopZuo { color: c2, prof: p2, dest: d2 },
        ) => same_color(c1, c2) && same_profession(p1, p2) && same_coord(d1, d2),
        (
            NormalMove_::TamMoveNoStep { src: s1, first_dest: f1, second_dest: d1 },
            NormalMove_::TamMoveNoStep { src: s2, first_dest: f2, second_dest: d2 },
        ) => same_coord(s1, s2) && same_coord(f1, f2) && same_coord(d1, d2),
        (
            NormalMove_::TamMoveStepsDuringFormer {
                src: s1,
                step: t1,
                first_dest: f1,
                second_dest: d1,
            },
            NormalMove_::TamMoveStepsDuringFormer {
                src: s2,
                step: t2,
                first_dest: f2,
                second_dest: d2,
            },
        ) => same_coord(s1, s2) && same_coord(t1, t2) && same_coord(f1, f2) && same_coord(d1, d2),
        (
            NormalMove_::TamMoveStepsDuringLatter {
                src: s1,
                step: t1,
                first_dest: f1,
                second_dest: d1,
            },
            NormalMove_::TamMoveStepsDuringLatter {
                src: s2,
                step: t2,
                first_dest: f2,
                second_dest: d2,
            },
        ) => same_coord(s1, s2) && same_coord(t1, t2) && same_coord(f1, f2) && same_coord(d1, d2),
        _ => false,
    }
}

/// Whether two submissions are the same.
pub fn same_pure_move(a: PureMove__<Coord>, b: PureMove__<Coord>) -> (r: bool)
    ensures
        r == (a == b),
{
    match (a, b) {
        (PureMove__::InfAfterStep(x), PureMove__::InfAfterStep(y)) => same_coord(x.src, y.src)
            && same_coord(x.step, y.step) && same_coord(
            x.planned_direction,
            y.planned_direction,
        ),
        (PureMove__::NormalMove(x), PureMove__::NormalMove(y)) => same_normal_move(x, y),
        _ => false,
    }
}

/// Whether two decisions after the cast are the same.
pub fn same_decision(a: AfterHalfAcceptance_<Coord>, b: AfterHalfAcceptance_<Coord>) -> (r: bool)
    ensures
        r == (a == b),
{
    match (a.dest, b.dest) {
        (None, None) => true,
        (Some(x), Some(y)) => same_coord(x, y),
        _ => false,
    }
}

} // verus!
