//! Seasons, stake rates and the rule-variant descriptor.

use vstd::prelude::*;

verus! {

/// One of the four seasons of a game, in the order in which they are played.
#[derive(Clone, Copy, Debug, PartialEq, Eq, Hash, Structural)]
pub enum Season {
    /// Spring.
    Iei2,
    /// Summer.
    Xo1,
    /// Autumn.
    Kat2,
    /// Winter.
    Iat1,
}

impl Season {
    /// Position of the season in the year, counted from zero.
    pub open spec fn index(self) -> int {
        match self {
            Season::Iei2 => 0,
            Season::Xo1 => 1,
            Season::Kat2 => 2,
            Season::Iat1 => 3,
        }
    }

    /// The season that follows, or `None` after winter.
    pub open spec fn successor(self) -> Option<Season> {
        match self {
            Season::Iei2 => Some(Season::Xo1),
            Season::Xo1 => Some(Season::Kat2),
            Season::Kat2 => Some(Season::Iat1),
            Season::Iat1 => None,
        }
    }

    #[must_use]
    pub fn next(self) -> (r: Option<Season>)
        ensures
            r == self.successor(),
            self == Season::Iat1 <==> r is None,
            r is Some ==> r->0.index() == self.index() + 1,
    {
        match self {
            Season::Iei2 => Some(Season::Xo1),
            Season::Xo1 => Some(Season::Kat2),
            Season::Kat2 => Some(Season::Iat1),
            Season::Iat1 => None,
        }
    }

    #[must_use]
    pub fn to_index(self) -> (r: usize)
        ensures
            r == self.index(),
    {
        match self {
            Season::Iei2 => 0,
            Season::Xo1 => 1,
            Season::Kat2 => 2,
            Season::Iat1 => 3,
        }
    }
}

/// The stake multiplier. Thirty-two and sixty-four are kept apart because a
/// single point can be scored, so that winning thirty-two points does not
/// always end the game while winning sixty-four does.
#[derive(Clone, Copy, Debug, PartialEq, Eq, Hash, Structural)]
pub enum Rate {
    X1,
    X2,
    X4,
    X8,
    X16,
    X32,
    X64,
}

impl Rate {
    /// The multiplier as a number.
    pub open spec fn value(self) -> int {
        match self {
            Rate::X1 => 1,
            Rate::X2 => 2,
            Rate::X4 => 4,
            Rate::X8 => 8,
            Rate::X16 => 16,
            Rate::X32 => 32,
            Rate::X64 => 64,
        }
    }

    /// The rate after the stake has been doubled; sixty-four is the ceiling.
    pub open spec fn doubled(self) -> Rate {
        match self {
            Rate::X1 => Rate::X2,
            Rate::X2 => Rate::X4,
            Rate::X4 => Rate::X8,
            Rate::X8 => Rate::X16,
            Rate::X16 => Rate::X32,
            Rate::X32 => Rate::X64,
            Rate::X64 => Rate::X64,
        }
    }

    #[must_use]
    pub fn next(self) -> (r: Rate)
        ensures
            r == self.doubled(),
            self != Rate::X64 ==> r.value() == 2 * self.value(),
            self == Rate::X64 ==> r == Rate::X64,
    {
        match self {
            Rate::X1 => Rate::X2,
            Rate::X2 => Rate::X4,
            Rate::X4 => Rate::X8,
            Rate::X8 => Rate::X16,
            Rate::X16 => Rate::X32,
            Rate::X32 | Rate::X64 => Rate::X64,
        }
    }

    #[must_use]
    pub fn num(self) -> (r: i32)
        ensures
            r == self.value(),
    {
        match self {
            Rate::X1 => 1,
            Rate::X2 => 2,
            Rate::X4 => 4,
            Rate::X8 => 8,
            Rate::X16 => 16,
            Rate::X32 => 32,
            Rate::X64 => 64,
        }
    }
}

/// What must be declared before the sticks are cast for a move that steps
/// over a piece and then runs on without bound.
#[derive(Clone, Copy, Debug, PartialEq, Eq, Hash, Structural)]
pub enum Plan {
    /// The direction of the run.
    Direction,
    /// The very square on which the run is to end.
    ExactDestination,
}

/// Whether an action is allowed freely, allowed at a price, or forbidden.
#[derive(Clone, Copy, Debug, PartialEq, Eq, Hash, Structural)]
pub enum Consequence {
    Allowed,
    Penalized { penalty: i32, is_a_hand: bool },
    Forbidden,
}

impl Consequence {
    /// The raw penalty that the action costs; zero unless it is penalized.
    pub open spec fn penalty_of(self) -> int {
        match self {
            Consequence::Penalized { penalty, .. } => penalty as int,
            _ => 0,
        }
    }

    /// Whether paying the penalty counts as a hand.
    pub open spec fn counts_as_hand(self) -> bool {
        match self {
            Consequence::Penalized { is_a_hand, .. } => is_a_hand,
            _ => false,
        }
    }
}

/// The differences between rule variants. A value is bound once per game
/// and handed to every transition.
#[derive(Clone, Copy, Debug, PartialEq, Eq, Hash)]
pub struct Config {
    /// Whether stepping over Tam2 is a hand, which takes five points off the
    /// raw score of the turn and offers the choice. Where it is none, the
    /// step is noted and has no part in the resolution.
    pub step_tam_is_a_hand: bool,
    /// Whether the square on which Tam2 stands is itself a tam2 hue.
    pub tam_itself_is_tam_hue: bool,
    /// Moving Tam2 in the turn right after the opponent has moved it.
    pub moving_tam_immediately_after_tam_has_moved: Consequence,
    /// Moving Tam2 so that it ends on the square from which it set out.
    pub tam_mun_mok: Consequence,
    /// Whether a move that fails its cast is excused from having stepped
    /// over Tam2.
    pub failure_to_complete_the_move_means_exempt_from_kut2_tam2: bool,
    /// Whether the variant lets a penalty that is no hand use up a score and
    /// so end the game with no choice offered. The resolution does not
    /// consult it: a penalty that uses up a score ends the game.
    pub game_can_end_without_tymok_taxot_because_of_negative_hand: bool,
    /// What is declared before the sticks are cast; `None` for nothing.
    pub what_to_say_before_casting_sticks: Option<Plan>,
}

impl Config {
    /// The two penalties for the way in which Tam2 is moved can be added
    /// up in an `i32`.
    pub open spec fn penalties_fit(self) -> bool {
        i32::MIN <= self.moving_tam_immediately_after_tam_has_moved.penalty_of()
            + self.tam_mun_mok.penalty_of() <= i32::MAX
    }

    /// Whether the two penalties can be added up.
    pub fn penalties_add_up(&self) -> (r: bool)
        ensures
            r == self.penalties_fit(),
    {
        let first: i32 = match self.moving_tam_immediately_after_tam_has_moved {
            Consequence::Penalized { penalty, .. } => penalty,
            _ => 0,
        };
        let second: i32 = match self.tam_mun_mok {
            Consequence::Penalized { penalty, .. } => penalty,
            _ => 0,
        };
        first.checked_add(second).is_some()
    }

    /// The lenient variant played online.
    pub open spec fn online() -> Config {
        Config {
            step_tam_is_a_hand: false,
            tam_itself_is_tam_hue: true,
            moving_tam_immediately_after_tam_has_moved: Consequence::Forbidden,
            tam_mun_mok: Consequence::Allowed,
            failure_to_complete_the_move_means_exempt_from_kut2_tam2: false,
            game_can_end_without_tymok_taxot_because_of_negative_hand: true,
            what_to_say_before_casting_sticks: Some(Plan::Direction),
        }
    }

    /// The strict reading of the standard rules.
    pub open spec fn strict() -> Config {
        Config {
            step_tam_is_a_hand: true,
            tam_itself_is_tam_hue: false,
            moving_tam_immediately_after_tam_has_moved: Consequence::Penalized {
                penalty: -3i32,
                is_a_hand: true,
            },
            tam_mun_mok: Consequence::Penalized { penalty: -3i32, is_a_hand: true },
            failure_to_complete_the_move_means_exempt_from_kut2_tam2: false,
            game_can_end_without_tymok_taxot_because_of_negative_hand: false,
            what_to_say_before_casting_sticks: Some(Plan::ExactDestination),
        }
    }

    #[must_use]
    pub fn cerke_online_alpha() -> (r: Config)
        ensures
            r == Config::online(),
    {
        Config {
            step_tam_is_a_hand: false,
            tam_itself_is_tam_hue: true,
            moving_tam_immediately_after_tam_has_moved: Consequence::Forbidden,
            tam_mun_mok: Consequence::Allowed,
            failure_to_complete_the_move_means_exempt_from_kut2_tam2: false,
            game_can_end_without_tymok_taxot_because_of_negative_hand: true,
            what_to_say_before_casting_sticks: Some(Plan::Direction),
        }
    }

    #[must_use]
    pub fn strict_y1_huap1() -> (r: Config)
        ensures
            r == Config::strict(),
    {
        Config {
            step_tam_is_a_hand: true,
            tam_itself_is_tam_hue: false,
            moving_tam_immediately_after_tam_has_moved: Consequence::Penalized {
                penalty: -3,
                is_a_hand: true,
            },
            tam_mun_mok: Consequence::Penalized { penalty: -3, is_a_hand: true },
            failure_to_complete_the_move_means_exempt_from_kut2_tam2: false,
            game_can_end_without_tymok_taxot_because_of_negative_hand: false,
            what_to_say_before_casting_sticks: Some(Plan::ExactDestination),
        }
    }
}

} // verus!
