//! Hands: the scoring combinations that the pieces of a reserve form, as
//! `cetkaik_calculate_hand` finds them.

use cetkaik_fundamental::{ColorAndProf, Profession};
use vstd::prelude::*;

use crate::pieces::same_hop1zuo1;

verus! {

/// The score of the hands that `pieces` form, and the names of those hands,
/// as `cetkaik_calculate_hand::calculate_hands_and_score_from_pieces`
/// reports them for a reserve that it accepts.
pub uninterp spec fn hands_and_score(pieces: Seq<ColorAndProf>) -> (int, Set<Seq<char>>);

/// How many pieces of one color and profession a set of pieces holds.
pub open spec fn upper_limit(prof: Profession) -> int {
    match prof {
        Profession::Kauk2 => 8,
        Profession::Io | Profession::Nuak1 => 1,
        _ => 2,
    }
}

/// Whether `pieces` holds more pieces of one color and profession than a
/// set of pieces has.
pub open spec fn too_many(pieces: Seq<ColorAndProf>) -> bool {
    exists|piece: ColorAndProf| #[trigger]
        pieces.to_multiset().count(piece) > upper_limit(piece.prof)
}

/// The names that a list of names holds.
pub open spec fn names_in(names: Seq<String>) -> Set<Seq<char>> {
    Set::new(|name: Seq<char>| exists|i: int| 0 <= i < names.len() && #[trigger] names[i]@ == name)
}

/// The score of the hands in `current`, where `current` differs from
/// `previous` and forms a hand that `previous` does not form.
pub open spec fn newly_acquired_score(
    previous: Seq<ColorAndProf>,
    current: Seq<ColorAndProf>,
) -> Option<int> {
    if previous == current {
        None
    } else if !hands_and_score(current).1.subset_of(hands_and_score(previous).1) {
        Some(hands_and_score(current).0)
    } else {
        None
    }
}

/// `cetkaik_calculate_hand::calculate_hands_and_score_from_pieces`: the
/// score and the names of the hands, each name once and in no stated order;
/// `None` where a color and profession occurs more often than it can.
#[verifier::external_body]
pub(crate) fn calculate_hands_and_score_from_pieces(ps: &Vec<ColorAndProf>) -> (r: Option<
    (i32, Vec<String>),
>)
    ensures
        match r {
            Some((score, names)) => !too_many(ps@) && score == hands_and_score(ps@).0 && names_in(
                names@,
            ) == hands_and_score(ps@).1,
            None => too_many(ps@),
        },
{
    match cetkaik_calculate_hand::calculate_hands_and_score_from_pieces(ps) {
        Ok(found) => Some((found.score, found.hands.into_iter().collect())),
        Err(_) => None,
    }
}

/// Whether the hand detector accepts `pieces`.
pub fn within_limits(pieces: &Vec<ColorAndProf>) -> (r: bool)
    ensures
        r == !too_many(pieces@),
{
    calculate_hands_and_score_from_pieces(pieces).is_some()
}

/// Whether `names` holds `name`.
pub fn holds_name(names: &Vec<String>, name: &String) -> (r: bool)
    ensures
        r == names_in(names@).contains(name@),
{
    let mut j: usize = 0;
    while j < names.len()
        invariant
            j <= names.len(),
            forall|k: int| 0 <= k < j ==> names@[k]@ != name@,
        decreases names.len() - j,
    {
        if names[j] == *name {
            return true;
        }
        j += 1;
    }
    false
}

/// Whether `new_hands` holds a hand that `old_hands` does not hold.
pub fn holds_new_hand(new_hands: &Vec<String>, old_hands: &Vec<String>) -> (r: bool)
    ensures
        r == !names_in(new_hands@).subset_of(names_in(old_hands@)),
{
    let mut i: usize = 0;
    while i < new_hands.len()
        invariant
            i <= new_hands.len(),
            forall|k: int| 0 <= k < i ==> names_in(old_hands@).contains(#[trigger] new_hands@[k]@),
        decreases new_hands.len() - i,
    {
        if !holds_name(old_hands, &new_hands[i]) {
            assert(names_in(new_hands@).contains(new_hands@[i as int]@));
            return true;
        }
        i += 1;
    }
    false
}

/// The score of the hands that the reserve `current` forms, where it is not
/// the reserve `previous` and forms a hand that `previous` did not form.
pub fn newly_acquired(previous: &Vec<ColorAndProf>, current: &Vec<ColorAndProf>) -> (r: Option<i32>)
    requires
        previous@ != current@ ==> !too_many(previous@) && !too_many(current@),
    ensures
        match r {
            Some(score) => newly_acquired_score(previous@, current@) == Some(score as int),
            None => newly_acquired_score(previous@, current@) is None,
        },
{
    if same_hop1zuo1(previous, current) {
        None
    } else {
        let old = calculate_hands_and_score_from_pieces(previous).unwrap();
        let new = calculate_hands_and_score_from_pieces(current).unwrap();
        if holds_new_hand(&new.1, &old.1) {
            Some(new.0)
        } else {
            None
        }
    }
}

} // verus!
