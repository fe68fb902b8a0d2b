//! The board with both reserves, as `cetkaik_naive_representation` holds it,
//! and the primitive operations on it.

use cetkaik_fundamental::{AbsoluteSide, Color, ColorAndProf, Profession};
use cetkaik_naive_representation::absolute::{Board, Column, Coord, Field, Piece, Row};
use cetkaik_naive_representation::CetkaikNaive;
use cetkaik_traits::{CetkaikRepresentation, IsAbsoluteField, IsBoard, IsField};
use vstd::prelude::*;

verus! {

/// `cetkaik_naive_representation::absolute::Board`: a map from squares to pieces.
#[verifier::external_type_specification]
pub struct ExBoard(Board);

/// `cetkaik_naive_representation::absolute::Field`: a board and two reserves.
#[verifier::external_type_specification]
pub struct ExField(Field);

/// What a field holds: the pieces on the board by their squares, and the
/// reserve of each side in the order in which its pieces were taken.
pub ghost struct FieldModel {
    pub board: Map<Coord, Piece>,
    pub a_side_hop1zuo1: Seq<ColorAndProf>,
    pub ia_side_hop1zuo1: Seq<ColorAndProf>,
}

/// The contents of a field.
pub open spec fn contents_of(f: Field) -> FieldModel {
    FieldModel {
        board: f.board.0@,
        a_side_hop1zuo1: f.a_side_hop1zuo1@,
        ia_side_hop1zuo1: f.ia_side_hop1zuo1@,
    }
}

/// What a square of a board holds.
pub open spec fn lookup(board: Map<Coord, Piece>, c: Coord) -> Option<Piece> {
    if board.contains_key(c) {
        Some(board[c])
    } else {
        None
    }
}

impl FieldModel {
    /// The piece on square `c`, if there is one.
    pub open spec fn piece_at(self, c: Coord) -> Option<Piece> {
        lookup(self.board, c)
    }

    /// The reserve of `side`.
    pub open spec fn hop1zuo1(self, side: AbsoluteSide) -> Seq<ColorAndProf> {
        match side {
            AbsoluteSide::ASide => self.a_side_hop1zuo1,
            AbsoluteSide::IASide => self.ia_side_hop1zuo1,
        }
    }

    /// The same field with another board.
    pub open spec fn with_board(self, board: Map<Coord, Piece>) -> FieldModel {
        FieldModel { board, ..self }
    }

    /// The same field with `reserve` as the reserve of `side`.
    pub open spec fn with_hop1zuo1(
        self,
        side: AbsoluteSide,
        reserve: Seq<ColorAndProf>,
    ) -> FieldModel {
        match side {
            AbsoluteSide::ASide => FieldModel { a_side_hop1zuo1: reserve, ..self },
            AbsoluteSide::IASide => FieldModel { ia_side_hop1zuo1: reserve, ..self },
        }
    }

    /// The field after the piece of `whose_turn` on `src` has moved to
    /// `dest` and taken what stood there. It fails where `src` is empty,
    /// holds Tam2 or holds a piece of the other side, and where `dest`
    /// holds Tam2 or a piece of `whose_turn`; Tam2 is looked for on `dest`
    /// after the piece has left `src`.
    pub open spec fn moved_nontam(
        self,
        src: Coord,
        dest: Coord,
        whose_turn: AbsoluteSide,
    ) -> Result<FieldModel, &'static str> {
        match self.piece_at(src) {
            None => Err("src does not contain a piece"),
            Some(Piece::Tam2) => Err(
                "Expected a NonTam2Piece to be present at the src, but found a Tam2",
            ),
            Some(Piece::NonTam2Piece { color, prof, side }) => if side != whose_turn {
                Err("Found the opponent piece at the src")
            } else {
                let lifted = self.board.remove(src);
                let landed = lifted.insert(dest, Piece::NonTam2Piece { color, prof, side });
                match lookup(lifted, dest) {
                    None => Ok(self.with_board(landed)),
                    Some(Piece::Tam2) => Err("Tried to capture a Tam2"),
                    Some(
                        Piece::NonTam2Piece { color: taken_color, prof: taken_prof, side: owner },
                    ) => if owner == whose_turn {
                        Err("Tried to capture an ally")
                    } else {
                        Ok(
                            self.with_board(landed).with_hop1zuo1(
                                whose_turn,
                                self.hop1zuo1(whose_turn).push(
                                    ColorAndProf { color: taken_color, prof: taken_prof },
                                ),
                            ),
                        )
                    },
                }
            },
        }
    }

    /// The field after `side` has taken the first piece of that color and
    /// profession out of its reserve and set it on `dest`; `None` where the
    /// reserve holds no such piece or `dest` is occupied.
    pub open spec fn parachuted(
        self,
        color: Color,
        prof: Profession,
        side: AbsoluteSide,
        dest: Coord,
    ) -> Option<FieldModel> {
        let wanted = ColorAndProf { color, prof };
        if !self.hop1zuo1(side).contains(wanted) || self.board.contains_key(dest) {
            None
        } else {
            Some(
                self.with_board(
                    self.board.insert(dest, Piece::NonTam2Piece { color, prof, side }),
                ).with_hop1zuo1(side, self.hop1zuo1(side).remove_value(wanted)),
            )
        }
    }
}

/// The piece that stands on `c` when a season begins.
pub open spec fn starting_piece(c: Coord) -> Option<Piece> {
    match c {
        Coord(Row::A, Column::K) => Some(
            Piece::NonTam2Piece {
                color: Color::Huok2,
                prof: Profession::Kua2,
                side: AbsoluteSide::ASide,
            },
        ),
        Coord(Row::A, Column::L) => Some(
            Piece::NonTam2Piece {
                color: Color::Huok2,
                prof: Profession::Maun1,
                side: AbsoluteSide::ASide,
            },
        ),
        Coord(Row::A, Column::N) => Some(
            Piece::NonTam2Piece {
                color: Color::Huok2,
                prof: Profession::Kaun1,
                side: AbsoluteSide::ASide,
            },
        ),
        Coord(Row::A, Column::T) => Some(
            Piece::NonTam2Piece {
                color: Color::Huok2,
                prof: Profession::Uai1,
                side: AbsoluteSide::ASide,
            },
        ),
        Coord(Row::A, Column::Z) => Some(
            Piece::NonTam2Piece {
                color: Color::Kok1,
                prof: Profession::Io,
                side: AbsoluteSide::ASide,
            },
        ),
        Coord(Row::A, Column::X) => Some(
            Piece::NonTam2Piece {
                color: Color::Kok1,
                prof: Profession::Uai1,
                side: AbsoluteSide::ASide,
            },
        ),
        Coord(Row::A, Column::C) => Some(
            Piece::NonTam2Piece {
                color: Color::Kok1,
                prof: Profession::Kaun1,
                side: AbsoluteSide::ASide,
            },
        ),
        Coord(Row::A, Column::M) => Some(
            Piece::NonTam2Piece {
                color: Color::Kok1,
                prof: Profession::Maun1,
                side: AbsoluteSide::ASide,
            },
        ),
        Coord(Row::A, Column::P) => Some(
            Piece::NonTam2Piece {
                color: Color::Kok1,
                prof: Profession::Kua2,
                side: AbsoluteSide::ASide,
            },
        ),
        Coord(Row::E, Column::K) => Some(
            Piece::NonTam2Piece {
                color: Color::Kok1,
                prof: Profession::Tuk2,
                side: AbsoluteSide::ASide,
            },
        ),
        Coord(Row::E, Column::L) => Some(
            Piece::NonTam2Piece {
                color: Color::Kok1,
                prof: Profession::Gua2,
                side: AbsoluteSide::ASide,
            },
        ),
        Coord(Row::E, Column::T) => Some(
            Piece::NonTam2Piece {
                color: Color::Kok1,
                prof: Profession::Dau2,
                side: AbsoluteSide::ASide,
            },
        ),
        Coord(Row::E, Column::X) => Some(
            Piece::NonTam2Piece {
                color: Color::Huok2,
                prof: Profession::Dau2,
                side: AbsoluteSide::ASide,
            },
        ),
        Coord(Row::E, Column::M) => Some(
            Piece::NonTam2Piece {
                color: Color::Huok2,
                prof: Profession::Gua2,
                side: AbsoluteSide::ASide,
            },
        ),
        Coord(Row::E, Column::P) => Some(
            Piece::NonTam2Piece {
                color: Color::Huok2,
                prof: Profession::Tuk2,
                side: AbsoluteSide::ASide,
            },
        ),
        Coord(Row::I, Column::K) => Some(
            Piece::NonTam2Piece {
                color: Color::Huok2,
                prof: Profession::Kauk2,
                side: AbsoluteSide::ASide,
            },
        ),
        Coord(Row::I, Column::L) => Some(
            Piece::NonTam2Piece {
                color: Color::Kok1,
                prof: Profession::Kauk2,
                side: AbsoluteSide::ASide,
            },
        ),
        Coord(Row::I, Column::N) => Some(
            Piece::NonTam2Piece {
                color: Color::Huok2,
                prof: Profession::Kauk2,
                side: AbsoluteSide::ASide,
            },
        ),
        Coord(Row::I, Column::T) => Some(
            Piece::NonTam2Piece {
                color: Color::Kok1,
                prof: Profession::Kauk2,
                side: AbsoluteSide::ASide,
            },
        ),
        Coord(Row::I, Column::Z) => Some(
            Piece::NonTam2Piece {
                color: Color::Kok1,
                prof: Profession::Nuak1,
                side: AbsoluteSide::ASide,
            },
        ),
        Coord(Row::I, Column::X) => Some(
            Piece::NonTam2Piece {
                color: Color::Kok1,
                prof: Profession::Kauk2,
                side: AbsoluteSide::ASide,
            },
        ),
        Coord(Row::I, Column::C) => Some(
            Piece::NonTam2Piece {
                color: Color::Huok2,
                prof: Profession::Kauk2,
                side: AbsoluteSide::ASide,
            },
        ),
        Coord(Row::I, Column::M) => Some(
            Piece::NonTam2Piece {
                color: Color::Kok1,
                prof: Profession::Kauk2,
                side: AbsoluteSide::ASide,
            },
        ),
        Coord(Row::I, Column::P) => Some(
            Piece::NonTam2Piece {
                color: Color::Huok2,
                prof: Profession::Kauk2,
                side: AbsoluteSide::ASide,
            },
        ),
        Coord(Row::O, Column::Z) => Some(Piece::Tam2),
        Coord(Row::AI, Column::K) => Some(
            Piece::NonTam2Piece {
                color: Color::Huok2,
                prof: Profession::Kauk2,
                side: AbsoluteSide::IASide,
            },
        ),
        Coord(Row::AI, Column::L) => Some(
            Piece::NonTam2Piece {
                color: Color::Kok1,
                prof: Profession::Kauk2,
                side: AbsoluteSide::IASide,
            },
        ),
        Coord(Row::AI, Column::N) => Some(
            Piece::NonTam2Piece {
                color: Color::Huok2,
                prof: Profession::Kauk2,
                side: AbsoluteSide::IASide,
            },
        ),
        Coord(Row::AI, Column::T) => Some(
            Piece::NonTam2Piece {
                color: Color::Kok1,
                prof: Profession::Kauk2,
                side: AbsoluteSide::IASide,
            },
        ),
        Coord(Row::AI, Column::Z) => Some(
            Piece::NonTam2Piece {
                color: Color::Huok2,
                prof: Profession::Nuak1,
                side: AbsoluteSide::IASide,
            },
        ),
        Coord(Row::AI, Column::X) => Some(
            Piece::NonTam2Piece {
                color: Color::Kok1,
                prof: Profession::Kauk2,
                side: AbsoluteSide::IASide,
            },
        ),
        Coord(Row::AI, Column::C) => Some(
            Piece::NonTam2Piece {
                color: Color::Huok2,
                prof: Profession::Kauk2,
                side: AbsoluteSide::IASide,
            },
        ),
        Coord(Row::AI, Column::M) => Some(
            Piece::NonTam2Piece {
                color: Color::Kok1,
                prof: Profession::Kauk2,
                side: AbsoluteSide::IASide,
            },
        ),
        Coord(Row::AI, Column::P) => Some(
            Piece::NonTam2Piece {
                color: Color::Huok2,
                prof: Profession::Kauk2,
                side: AbsoluteSide::IASide,
            },
        ),
        Coord(Row::AU, Column::K) => Some(
            Piece::NonTam2Piece {
                color: Color::Huok2,
                prof: Profession::Tuk2,
                side: AbsoluteSide::IASide,
            },
        ),
        Coord(Row::AU, Column::L) => Some(
            Piece::NonTam2Piece {
                color: Color::Huok2,
                prof: Profession::Gua2,
                side: AbsoluteSide::IASide,
            },
        ),
        Coord(Row::AU, Column::T) => Some(
            Piece::NonTam2Piece {
                color: Color::Huok2,
                prof: Profession::Dau2,
                side: AbsoluteSide::IASide,
            },
        ),
        Coord(Row::AU, Column::X) => Some(
            Piece::NonTam2Piece {
                color: Color::Kok1,
                prof: Profession::Dau2,
                side: AbsoluteSide::IASide,
            },
        ),
        Coord(Row::AU, Column::M) => Some(
            Piece::NonTam2Piece {
                color: Color::Kok1,
                prof: Profession::Gua2,
                side: AbsoluteSide::IASide,
            },
        ),
        Coord(Row::AU, Column::P) => Some(
            Piece::NonTam2Piece {
                color: Color::Kok1,
                prof: Profession::Tuk2,
                side: AbsoluteSide::IASide,
            },
        ),
        Coord(Row::IA, Column::K) => Some(
            Piece::NonTam2Piece {
                color: Color::Kok1,
                prof: Profession::Kua2,
                side: AbsoluteSide::IASide,
            },
        ),
        Coord(Row::IA, Column::L) => Some(
            Piece::NonTam2Piece {
                color: Color::Kok1,
                prof: Profession::Maun1,
                side: AbsoluteSide::IASide,
            },
        ),
        Coord(Row::IA, Column::N) => Some(
            Piece::NonTam2Piece {
                color: Color::Kok1,
                prof: Profession::Kaun1,
                side: AbsoluteSide::IASide,
            },
        ),
        Coord(Row::IA, Column::T) => Some(
            Piece::NonTam2Piece {
                color: Color::Kok1,
                prof: Profession::Uai1,
                side: AbsoluteSide::IASide,
            },
        ),
        Coord(Row::IA, Column::Z) => Some(
            Piece::NonTam2Piece {
                color: Color::Huok2,
                prof: Profession::Io,
                side: AbsoluteSide::IASide,
            },
        ),
        Coord(Row::IA, Column::X) => Some(
            Piece::NonTam2Piece {
                color: Color::Huok2,
                prof: Profession::Uai1,
                side: AbsoluteSide::IASide,
            },
        ),
        Coord(Row::IA, Column::C) => Some(
            Piece::NonTam2Piece {
                color: Color::Huok2,
                prof: Profession::Kaun1,
                side: AbsoluteSide::IASide,
            },
        ),
        Coord(Row::IA, Column::M) => Some(
            Piece::NonTam2Piece {
                color: Color::Huok2,
                prof: Profession::Maun1,
                side: AbsoluteSide::IASide,
            },
        ),
        Coord(Row::IA, Column::P) => Some(
            Piece::NonTam2Piece {
                color: Color::Huok2,
                prof: Profession::Kua2,
                side: AbsoluteSide::IASide,
            },
        ),
        _ => None,
    }
}

/// The board as it is set up when a season begins.
pub open spec fn starting_board() -> Map<Coord, Piece> {
    Map::new(|c: Coord| starting_piece(c) is Some, |c: Coord| starting_piece(c)->0)
}

/// The field with which a season begins: the starting board, and nothing
/// in either reserve.
pub open spec fn starting_field() -> FieldModel {
    FieldModel {
        board: starting_board(),
        a_side_hop1zuo1: Seq::empty(),
        ia_side_hop1zuo1: Seq::empty(),
    }
}

/// `Field::clone`, derived in `cetkaik_naive_representation`: a field with
/// the same contents.
pub assume_specification[ <Field as Clone>::clone ](f: &Field) -> (r: Field)
    ensures
        contents_of(r) == contents_of(*f),
;

/// `IsBoard::peek` of `Board`: the piece that the board's map holds for `c`.
#[verifier::external_body]
pub(crate) fn peek(board: &Board, c: Coord) -> (r: Option<Piece>)
    ensures
        r == lookup(board.0@, c),
{
    board.peek(c)
}

/// `IsBoard::pop` of `Board`: takes the entry for `c` out of the board's
/// map and returns the piece that it held.
#[verifier::external_body]
pub(crate) fn pop(board: &mut Board, c: Coord) -> (r: Option<Piece>)
    ensures
        r == lookup(old(board).0@, c),
        final(board).0@ == old(board).0@.remove(c),
{
    board.pop(c)
}

/// `IsBoard::put` of `Board`: sets the entry for `c` to the piece given, or
/// takes the entry out where `None` is given.
#[verifier::external_body]
pub(crate) fn put(board: &mut Board, c: Coord, p: Option<Piece>)
    ensures
        final(board).0@ == (match p {
            Some(piece) => old(board).0@.insert(c, piece),
            None => old(board).0@.remove(c),
        }),
{
    board.put(c, p)
}

/// `IsField::move_nontam_piece_from_src_to_dest_while_taking_opponent_piece_if_needed`
/// of `Field`: a new field in which the piece has moved and what it took has
/// been appended to the mover's reserve, or the reason why it cannot move.
#[verifier::external_body]
pub(crate) fn move_nontam_piece_from_src_to_dest_while_taking_opponent_piece_if_needed(
    f: &Field,
    src: Coord,
    dest: Coord,
    whose_turn: AbsoluteSide,
) -> (r: Result<Field, &'static str>)
    ensures
        match contents_of(*f).moved_nontam(src, dest, whose_turn) {
            Ok(moved) => r is Ok && contents_of(r->Ok_0) == moved,
            Err(reason) => r is Err && r->Err_0 == reason,
        },
{
    f.move_nontam_piece_from_src_to_dest_while_taking_opponent_piece_if_needed(src, dest, whose_turn)
}

/// `IsField::search_from_hop1zuo1_and_parachute_at` of `Field`: a new field
/// in which the first such piece of the reserve stands on `dest`, or `None`.
#[verifier::external_body]
pub(crate) fn search_from_hop1zuo1_and_parachute_at(
    f: &Field,
    color: Color,
    prof: Profession,
    side: AbsoluteSide,
    dest: Coord,
) -> (r: Option<Field>)
    ensures
        match contents_of(*f).parachuted(color, prof, side, dest) {
            Some(placed) => r is Some && contents_of(r->0) == placed,
            None => r is None,
        },
{
    f.search_from_hop1zuo1_and_parachute_at(color, prof, side, dest)
}

/// `CetkaikRepresentation::hop1zuo1_of` of `CetkaikNaive`: a copy of the
/// reserve of `side`, in the field's order.
#[verifier::external_body]
pub(crate) fn hop1zuo1_of(side: AbsoluteSide, f: &Field) -> (r: Vec<ColorAndProf>)
    ensures
        r@ == contents_of(*f).hop1zuo1(side),
{
    #[allow(deprecated)]
    CetkaikNaive::hop1zuo1_of(side, f)
}

/// `IsAbsoluteField::yhuap_initial` of `Field`: the board as it is set up
/// when a season begins, and two empty reserves.
#[verifier::external_body]
pub(crate) fn yhuap_initial() -> (r: Field)
    ensures
        contents_of(r) == starting_field(),
{
    <Field as IsAbsoluteField>::yhuap_initial()
}

/// The piece that stands on `coord`, if any.
pub fn piece_on_field_at(f: &Field, coord: Coord) -> (r: Option<Piece>)
    ensures
        r == contents_of(*f).piece_at(coord),
{
    peek(&f.board, coord)
}

/// Whether no piece stands on `coord`.
pub fn field_is_empty_at(f: &Field, coord: Coord) -> (r: bool)
    ensures
        r == !contents_of(*f).board.contains_key(coord),
{
    peek(&f.board, coord).is_none()
}

/// Whether a piece stands on `coord`.
pub fn field_is_occupied_at(f: &Field, coord: Coord) -> (r: bool)
    ensures
        r == contents_of(*f).board.contains_key(coord),
{
    peek(&f.board, coord).is_some()
}

} // verus!
