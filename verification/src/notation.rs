//! How a move is written down.

use cetkaik_fundamental::{Color, Profession};
use cetkaik_naive_representation::absolute::{Column, Coord, Row};
use vstd::prelude::*;
use vstd::string::StringExecFns;

use crate::message::{InfAfterStep_, NormalMove_, PureMove__};

verus! {

/// The sign for a color.
pub open spec fn color_text(color: Color) -> Seq<char> {
    match color {
        Color::Huok2 => "黒"@,
        Color::Kok1 => "赤"@,
    }
}

/// The sign for a profession.
pub open spec fn profession_text(prof: Profession) -> Seq<char> {
    match prof {
        Profession::Nuak1 => "船"@,
        Profession::Kauk2 => "兵"@,
        Profession::Gua2 => "弓"@,
        Profession::Kaun1 => "車"@,
        Profession::Dau2 => "虎"@,
        Profession::Maun1 => "馬"@,
        Profession::Kua2 => "筆"@,
        Profession::Tuk2 => "巫"@,
        Profession::Uai1 => "将"@,
        Profession::Io => "王"@,
    }
}

/// The name of a column.
pub open spec fn column_text(column: Column) -> Seq<char> {
    match column {
        Column::K => "K"@,
        Column::L => "L"@,
        Column::M => "M"@,
        Column::N => "N"@,
        Column::P => "P"@,
        Column::Z => "Z"@,
        Column::X => "X"@,
        Column::C => "C"@,
        Column::T => "T"@,
    }
}

/// The name of a row.
pub open spec fn row_text(row: Row) -> Seq<char> {
    match row {
        Row::A => "A"@,
        Row::E => "E"@,
        Row::I => "I"@,
        Row::O => "O"@,
        Row::U => "U"@,
        Row::Y => "Y"@,
        Row::IA => "IA"@,
        Row::AI => "AI"@,
        Row::AU => "AU"@,
    }
}

/// The name of a square: its column, then its row.
pub open spec fn coord_text(c: Coord) -> Seq<char> {
    column_text(c.1) + row_text(c.0)
}

/// A move as it is written down. A piece other than Tam2 is written with
/// the sign 片 between the square that it leaves and the squares that it
/// passes, and the sign 心 before the square towards which it is to run; a
/// piece out of the reserve by its color, its profession and its square;
/// Tam2 with the sign 皇, and its first destination in square brackets.
pub open spec fn move_text(m: PureMove__<Coord>) -> Seq<char> {
    match m {
        PureMove__::InfAfterStep(InfAfterStep_ { src, step, planned_direction }) => coord_text(src)
            + "片"@ + coord_text(step) + "心"@ + coord_text(planned_direction),
        PureMove__::NormalMove(
            NormalMove_::NonTamMoveFromHopZuo { color, prof, dest },
        ) => color_text(color) + profession_text(prof) + coord_text(dest),
        PureMove__::NormalMove(NormalMove_::NonTamMoveSrcDst { src, dest }) => coord_text(src)
            + "片"@ + coord_text(dest),
        PureMove__::NormalMove(
            NormalMove_::NonTamMoveSrcStepDstFinite { src, step, dest },
        ) => coord_text(src) + "片"@ + coord_text(step) + coord_text(dest),
        PureMove__::NormalMove(
            NormalMove_::TamMoveNoStep { src, first_dest, second_dest },
        ) => coord_text(src) + "皇["@ + coord_text(first_dest) + "]"@ + coord_text(second_dest),
        PureMove__::NormalMove(
            NormalMove_::TamMoveStepsDuringFormer { src, step, first_dest, second_dest },
        ) => coord_text(src) + "皇"@ + coord_text(step) + "["@ + coord_text(first_dest) + "]"@
            + coord_text(second_dest),
        PureMove__::NormalMove(
            NormalMove_::TamMoveStepsDuringLatter { src, step, first_dest, second_dest },
        ) => coord_text(src) + "皇["@ + coord_text(first_dest) + "]"@ + coord_text(step)
            + coord_text(second_dest),
    }
}

/// `cetkaik_fundamental::serialize_color`: the sign for the color.
#[verifier::external_body]
pub(crate) fn serialize_color(color: Color) -> (r: &'static str)
    ensures
        r@ == color_text(color),
{
    cetkaik_fundamental::serialize_color(color)
}

/// `cetkaik_fundamental::serialize_prof`: the sign for the profession.
#[verifier::external_body]
pub(crate) fn serialize_prof(prof: Profession) -> (r: &'static str)
    ensures
        r@ == profession_text(prof),
{
    cetkaik_fundamental::serialize_prof(prof)
}

/// `cetkaik_naive_representation::absolute::serialize_coord`: the name of
/// the column followed by the name of the row.
#[verifier::external_body]
pub(crate) fn serialize_coord(c: Coord) -> (r: String)
    ensures
        r@ == coord_text(c),
{
    cetkaik_naive_representation::absolute::serialize_coord(c)
}

/// The texts written one after the other.
fn concat(parts: Vec<String>) -> (r: String)
    ensures
        r@ == parts@.fold_left(Seq::<char>::empty(), |text: Seq<char>, part: String| text + part@),
{
    let mut text = String::new();
    let mut i: usize = 0;
    while i < parts.len()
        invariant
            i <= parts.len(),
            text@ == parts@.take(i as int).fold_left(
                Seq::<char>::empty(),
                |text: Seq<char>, part: String| text + part@,
            ),
        decreases parts.len() - i,
    {
        proof {
            assert(parts@.take(i + 1).drop_last() =~= parts@.take(i as int));
        }
        text.append(parts[i].as_str());
        i += 1;
    }
    proof {
        assert(parts@.take(i as int) =~= parts@);
    }
    text
}

impl PureMove__<Coord> {
    /// Writes the move down.
    pub fn to_string(&self) -> (r: String)
        ensures
            r@ == move_text(*self),
    {
        let parts = match *self {
            PureMove__::InfAfterStep(InfAfterStep_ { src, step, planned_direction }) => vec![
                serialize_coord(src),
                String::from_str("片"),
                serialize_coord(step),
                String::from_str("心"),
                serialize_coord(planned_direction),
            ],
            PureMove__::NormalMove(NormalMove_::NonTamMoveFromHopZuo { color, prof, dest }) => vec![
                String::from_str(serialize_color(color)),
                String::from_str(serialize_prof(prof)),
                serialize_coord(dest),
            ],
            PureMove__::NormalMove(NormalMove_::NonTamMoveSrcDst { src, dest }) => vec![
                serialize_coord(src),
                String::from_str("片"),
                serialize_coord(dest),
            ],
            PureMove__::NormalMove(
                NormalMove_::NonTamMoveSrcStepDstFinite { src, step, dest },
            ) => vec![
                serialize_coord(src),
                String::from_str("片"),
                serialize_coord(step),
                serialize_coord(dest),
            ],
            PureMove__::NormalMove(
                NormalMove_::TamMoveNoStep { src, first_dest, second_dest },
            ) => vec![
                serialize_coord(src),
                String::from_str("皇["),
                serialize_coord(first_dest),
                String::from_str("]"),
                serialize_coord(second_dest),
            ],
            PureMove__::NormalMove(
                NormalMove_::TamMoveStepsDuringFormer { src, step, first_dest, second_dest },
            ) => vec![
                serialize_coord(src),
                String::from_str("皇"),
                serialize_coord(step),
                String::from_str("["),
                serialize_coord(first_dest),
                String::from_str("]"),
                serialize_coord(second_dest),
            ],
            PureMove__::NormalMove(
                NormalMove_::TamMoveStepsDuringLatter { src, step, first_dest, second_dest },
            ) => vec![
                serialize_coord(src),
                String::from_str("皇["),
                serialize_coord(first_dest),
                String::from_str("]"),
                serialize_coord(step),
                serialize_coord(second_dest),
            ],
        };
        proof {
            reveal_with_fuel(Seq::fold_left, 8);
            assert(parts@.fold_left(
                Seq::<char>::empty(),
                |text: Seq<char>, part: String| text + part@,
            ) =~= move_text(*self));
        }
        concat(parts)
    }
}

} // verus!
