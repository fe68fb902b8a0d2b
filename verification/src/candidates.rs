//! The legal moves, as `cetkaik_yhuap_move_candidates` lists them.

use cetkaik_fundamental::{AbsoluteSide, ColorAndProf, PureMove_};
use cetkaik_naive_representation::absolute::{Coord, Field};
use cetkaik_naive_representation::CetkaikNaive;
use cetkaik_yhuap_move_candidates::AllowKut2Tam2;
use vstd::prelude::*;

use crate::field::{contents_of, FieldModel};
use crate::message::{message_of, PureMove__};

verus! {

/// The moves from the reserve that
/// `cetkaik_yhuap_move_candidates::from_hop1zuo1_candidates_vec` lists for a
/// side on a field, in its order.
pub uninterp spec fn from_hop1zuo1_candidates(whose_turn: AbsoluteSide, f: FieldModel) -> Seq<
    PureMove_<Coord>,
>;

/// The moves on the board that
/// `cetkaik_yhuap_move_candidates::not_from_hop1zuo1_candidates_vec` lists
/// for a side on a field, in its order.
pub uninterp spec fn not_from_hop1zuo1_candidates(
    allow_kut2tam2: bool,
    tam_itself_is_tam_hue: bool,
    whose_turn: AbsoluteSide,
    f: FieldModel,
) -> Seq<PureMove_<Coord>>;

/// Whether setting a piece of that color and profession on `dest` out of
/// the reserve of `whose_turn` is a move on `f`: the reserve holds such a
/// piece and the square is empty.
pub open spec fn can_parachute(
    whose_turn: AbsoluteSide,
    f: FieldModel,
    candidate: PureMove_<Coord>,
) -> bool {
    match candidate {
        PureMove_::NonTamMoveFromHopZuo { color, prof, dest } => f.hop1zuo1(whose_turn).contains(
            ColorAndProf { color, prof },
        ) && !f.board.contains_key(dest),
        _ => false,
    }
}

/// `cetkaik_yhuap_move_candidates::from_hop1zuo1_candidates_vec` for
/// `CetkaikNaive`: for each piece of the reserve and each empty square of
/// the board, the move that sets the piece on the square, and no other.
#[verifier::external_body]
pub(crate) fn from_hop1zuo1_candidates_vec(whose_turn: AbsoluteSide, field: &Field) -> (r: Vec<
    PureMove_<Coord>,
>)
    ensures
        r@ == from_hop1zuo1_candidates(whose_turn, contents_of(*field)),
        forall|candidate: PureMove_<Coord>| #[trigger]
            r@.contains(candidate) <==> can_parachute(whose_turn, contents_of(*field), candidate),
{
    cetkaik_yhuap_move_candidates::from_hop1zuo1_candidates_vec::<CetkaikNaive>(whose_turn, field)
}

/// `cetkaik_yhuap_move_candidates::not_from_hop1zuo1_candidates_vec` for
/// `CetkaikNaive`: the moves of the pieces on the board.
#[verifier::external_body]
pub(crate) fn not_from_hop1zuo1_candidates_vec(
    allow_kut2tam2: bool,
    tam_itself_is_tam_hue: bool,
    whose_turn: AbsoluteSide,
    f: &Field,
) -> (r: Vec<PureMove_<Coord>>)
    ensures
        r@ == not_from_hop1zuo1_candidates(
            allow_kut2tam2,
            tam_itself_is_tam_hue,
            whose_turn,
            contents_of(*f),
        ),
{
    cetkaik_yhuap_move_candidates::not_from_hop1zuo1_candidates_vec::<CetkaikNaive>(
        &AllowKut2Tam2 { allow_kut2tam2 },
        tam_itself_is_tam_hue,
        whose_turn,
        f,
    )
}

/// Whether a list of moves holds `wanted`.
pub fn contains_move(moves: &Vec<PureMove__<Coord>>, wanted: PureMove__<Coord>) -> (r: bool)
    ensures
        r == moves@.contains(wanted),
{
    let mut i: usize = 0;
    while i < moves.len()
        invariant
            i <= moves.len(),
            forall|j: int| 0 <= j < i ==> moves@[j] != wanted,
        decreases moves.len() - i,
    {
        if crate::message::same_pure_move(moves[i], wanted) {
            return true;
        }
        i += 1;
    }
    false
}

/// The messages that stand for a list of candidates, in its order.
pub fn to_messages(candidates: Vec<PureMove_<Coord>>) -> (r: Vec<PureMove__<Coord>>)
    ensures
        r@ == candidates@.map_values(|candidate: PureMove_<Coord>| message_of(candidate)),
{
    let mut out: Vec<PureMove__<Coord>> = Vec::new();
    let mut i: usize = 0;
    while i < candidates.len()
        invariant
            i <= candidates.len(),
            out@ == candidates@.take(i as int).map_values(
                |candidate: PureMove_<Coord>| message_of(candidate),
            ),
        decreases candidates.len() - i,
    {
        out.push(PureMove__::from(candidates[i]));
        proof {
            assert(out@ =~= candidates@.take(i + 1).map_values(
                |candidate: PureMove_<Coord>| message_of(candidate),
            ));
        }
        i += 1;
    }
    proof {
        assert(candidates@.take(i as int) =~= candidates@);
    }
    out
}

} // verus!
