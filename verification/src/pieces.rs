//! Sides, pieces and squares, as `cetkaik_fundamental` and
//! `cetkaik_naive_representation` define them, with equality tests that the
//! verifier can follow and the geometry of the board.

use cetkaik_fundamental::{AbsoluteSide, Color, ColorAndProf, Profession};
use cetkaik_naive_representation::absolute::{Column, Coord, Piece, Row};
use cetkaik_naive_representation::CetkaikNaive;
use cetkaik_traits::CetkaikRepresentation;
use vstd::prelude::*;

verus! {

/// `cetkaik_fundamental::AbsoluteSide`, with its two variants.
#[verifier::external_type_specification]
pub struct ExAbsoluteSide(AbsoluteSide);

/// `cetkaik_fundamental::Color`, with its two variants.
#[verifier::external_type_specification]
pub struct ExColor(Color);

/// `cetkaik_fundamental::Profession`, with its ten variants.
#[verifier::external_type_specification]
pub struct ExProfession(Profession);

/// `cetkaik_fundamental::ColorAndProf`, with its two fields.
#[verifier::external_type_specification]
pub struct ExColorAndProf(ColorAndProf);

/// `cetkaik_naive_representation::absolute::Row`, with its nine variants.
#[verifier::external_type_specification]
pub struct ExRow(Row);

/// `cetkaik_naive_representation::absolute::Column`, with its nine variants.
#[verifier::external_type_specification]
pub struct ExColumn(Column);

/// `cetkaik_naive_representation::absolute::Coord`: a row and a column.
#[verifier::external_type_specification]
pub struct ExCoord(Coord);

/// `cetkaik_naive_representation::absolute::Piece`: Tam2, or a piece of a side.
#[verifier::external_type_specification]
pub struct ExPiece(Piece);

/// `Color::clone`, which `cetkaik_fundamental` derives for a `Copy` type:
/// the same color.
pub assume_specification[ <Color as Clone>::clone ](color: &Color) -> (r: Color)
    ensures
        r == *color,
;

/// `Profession::clone`, which `cetkaik_fundamental` derives for a `Copy`
/// type: the same profession.
pub assume_specification[ <Profession as Clone>::clone ](prof: &Profession) -> (r: Profession)
    ensures
        r == *prof,
;

/// `ColorAndProf::clone`, which `cetkaik_fundamental` derives for a `Copy`
/// type: the same color and profession.
pub assume_specification[ <ColorAndProf as Clone>::clone ](piece: &ColorAndProf) -> (r:
    ColorAndProf)
    ensures
        r == *piece,
;

/// The side that plays against `side`.
pub open spec fn opponent_of(side: AbsoluteSide) -> AbsoluteSide {
    match side {
        AbsoluteSide::ASide => AbsoluteSide::IASide,
        AbsoluteSide::IASide => AbsoluteSide::ASide,
    }
}

/// Rows counted from the row `A`, from zero.
pub open spec fn row_number(row: Row) -> int {
    match row {
        Row::A => 0,
        Row::E => 1,
        Row::I => 2,
        Row::U => 3,
        Row::O => 4,
        Row::Y => 5,
        Row::AI => 6,
        Row::AU => 7,
        Row::IA => 8,
    }
}

/// Columns counted from the column `K`, from zero.
pub open spec fn column_number(column: Column) -> int {
    match column {
        Column::K => 0,
        Column::L => 1,
        Column::N => 2,
        Column::T => 3,
        Column::Z => 4,
        Column::X => 5,
        Column::C => 6,
        Column::M => 7,
        Column::P => 8,
    }
}

/// Professions in the order in which they are declared, from zero.
pub open spec fn profession_number(prof: Profession) -> int {
    match prof {
        Profession::Nuak1 => 0,
        Profession::Kauk2 => 1,
        Profession::Gua2 => 2,
        Profession::Kaun1 => 3,
        Profession::Dau2 => 4,
        Profession::Maun1 => 5,
        Profession::Kua2 => 6,
        Profession::Tuk2 => 7,
        Profession::Uai1 => 8,
        Profession::Io => 9,
    }
}

/// Whether `c` lies in the water: the middle row from `N` to `C`, and the
/// middle column from `I` to `AI`.
pub open spec fn in_water(c: Coord) -> bool {
    let row = row_number(c.0);
    let column = column_number(c.1);
    (row == 4 && 2 <= column <= 6) || (column == 4 && 2 <= row <= 6)
}

pub open spec fn abs_diff(x: int, y: int) -> int {
    if x >= y {
        x - y
    } else {
        y - x
    }
}

/// The number of king's steps between two squares.
pub open spec fn distance_between(a: Coord, b: Coord) -> int {
    let rows = abs_diff(row_number(a.0), row_number(b.0));
    let columns = abs_diff(column_number(a.1), column_number(b.1));
    if rows >= columns {
        rows
    } else {
        columns
    }
}

/// Whether `a` and `b` lie on one ray that starts at `origin`: the two
/// displacements are parallel and point the same way.
pub open spec fn on_one_ray(origin: Coord, a: Coord, b: Coord) -> bool {
    let a_u = row_number(a.0) - row_number(origin.0);
    let a_v = column_number(a.1) - column_number(origin.1);
    let b_u = row_number(b.0) - row_number(origin.0);
    let b_v = column_number(b.1) - column_number(origin.1);
    a_u * b_u + a_v * b_v > 0 && a_u * b_v - a_v * b_u == 0
}

/// Whether `piece` is a piece of profession `prof`; Tam2 has no profession.
pub open spec fn of_profession(piece: Piece, prof: Profession) -> bool {
    match piece {
        Piece::Tam2 => false,
        Piece::NonTam2Piece { prof: p, .. } => p == prof,
    }
}

pub fn other_side(side: AbsoluteSide) -> (r: AbsoluteSide)
    ensures
        r == opponent_of(side),
{
    match side {
        AbsoluteSide::ASide => AbsoluteSide::IASide,
        AbsoluteSide::IASide => AbsoluteSide::ASide,
    }
}

pub fn same_color(a: Color, b: Color) -> (r: bool)
    ensures
        r == (a == b),
{
    match (a, b) {
        (Color::Kok1, Color::Kok1) => true,
        (Color::Huok2, Color::Huok2) => true,
        _ => false,
    }
}

pub fn row_index(row: Row) -> (r: u8)
    ensures
        r == row_number(row),
{
    match row {
        Row::A => 0,
        Row::E => 1,
        Row::I => 2,
        Row::U => 3,
        Row::O => 4,
        Row::Y => 5,
        Row::AI => 6,
        Row::AU => 7,
        Row::IA => 8,
    }
}

pub fn column_index(column: Column) -> (r: u8)
    ensures
        r == column_number(column),
{
    match column {
        Column::K => 0,
        Column::L => 1,
        Column::N => 2,
        Column::T => 3,
        Column::Z => 4,
        Column::X => 5,
        Column::C => 6,
        Column::M => 7,
        Column::P => 8,
    }
}

pub fn profession_index(prof: Profession) -> (r: u8)
    ensures
        r == profession_number(prof),
{
    match prof {
        Profession::Nuak1 => 0,
        Profession::Kauk2 => 1,
        Profession::Gua2 => 2,
        Profession::Kaun1 => 3,
        Profession::Dau2 => 4,
        Profession::Maun1 => 5,
        Profession::Kua2 => 6,
        Profession::Tuk2 => 7,
        Profession::Uai1 => 8,
        Profession::Io => 9,
    }
}

pub fn same_profession(a: Profession, b: Profession) -> (r: bool)
    ensures
        r == (a == b),
{
    profession_index(a) == profession_index(b)
}

pub fn same_color_and_prof(a: ColorAndProf, b: ColorAndProf) -> (r: bool)
    ensures
        r == (a == b),
{
    same_color(a.color, b.color) && same_profession(a.prof, b.prof)
}

pub fn same_coord(a: Coord, b: Coord) -> (r: bool)
    ensures
        r == (a == b),
{
    row_index(a.0) == row_index(b.0) && column_index(a.1) == column_index(b.1)
}

/// Whether the square holds Tam2.
pub fn holds_tam2(square: Option<Piece>) -> (r: bool)
    ensures
        r == (square == Some(Piece::Tam2)),
{
    match square {
        Some(Piece::Tam2) => true,
        _ => false,
    }
}

/// Whether two reserves hold the same pieces in the same order.
pub fn same_hop1zuo1(a: &Vec<ColorAndProf>, b: &Vec<ColorAndProf>) -> (r: bool)
    ensures
        r == (a@ == b@),
{
    if a.len() != b.len() {
        return false;
    }
    let mut i: usize = 0;
    while i < a.len()
        invariant
            a.len() == b.len(),
            i <= a.len(),
            forall|j: int| 0 <= j < i ==> a@[j] == b@[j],
        decreases a.len() - i,
    {
        if !same_color_and_prof(a[i], b[i]) {
            return false;
        }
        i += 1;
    }
    assert(a@ =~= b@);
    true
}

/// `CetkaikRepresentation::is_water_absolute` of `CetkaikNaive`: whether the
/// square belongs to the water.
#[verifier::external_body]
pub(crate) fn is_water_absolute(c: Coord) -> (r: bool)
    ensures
        r == in_water(c),
{
    CetkaikNaive::is_water_absolute(c)
}

/// `CetkaikRepresentation::absolute_distance` of `CetkaikNaive`: the larger
/// of the two differences, of rows and of columns.
#[verifier::external_body]
pub(crate) fn absolute_distance(a: Coord, b: Coord) -> (r: i32)
    ensures
        r == distance_between(a, b),
{
    CetkaikNaive::absolute_distance(a, b)
}

/// `CetkaikRepresentation::absolute_same_direction` of `CetkaikNaive`:
/// whether the displacements from `origin` to `a` and to `b` have a positive
/// inner product and a zero cross product.
#[verifier::external_body]
pub(crate) fn absolute_same_direction(origin: Coord, a: Coord, b: Coord) -> (r: bool)
    ensures
        r == on_one_ray(origin, a, b),
{
    CetkaikNaive::absolute_same_direction(origin, a, b)
}

/// `CetkaikRepresentation::has_prof_absolute` of `CetkaikNaive`: whether the
/// piece is no Tam2 and has the profession asked for.
#[verifier::external_body]
pub(crate) fn has_prof_absolute(piece: Piece, prof: Profession) -> (r: bool)
    ensures
        r == of_profession(piece, prof),
{
    #[allow(deprecated)]
    CetkaikNaive::has_prof_absolute(piece, prof)
}

} // verus!
