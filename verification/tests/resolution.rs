use std::collections::HashMap;

use cetkaik_full_state_transition::probabilistic::Probabilistic;
use cetkaik_full_state_transition::state::{GroundState_, HandNotResolved_, HandResolved_};
use cetkaik_full_state_transition::message::NormalMove_;
use cetkaik_full_state_transition::{
    apply_normal_move, can_resolve, no_move_possible_at_all, resolve, resolve_with, Config,
    IfTaxot_, Rate, Scores, Season, Victor,
};
use cetkaik_fundamental::{AbsoluteSide, Color, ColorAndProf, Profession};
use cetkaik_naive_representation::absolute::{
    yhuap_initial_board, Board, Column, Coord, Field, Piece, Row,
};

fn cp(color: Color, prof: Profession) -> ColorAndProf {
    ColorAndProf { color, prof }
}

fn field(squares: Vec<(Coord, Piece)>) -> Field {
    Field {
        board: Board(squares.into_iter().collect::<HashMap<_, _>>()),
        a_side_hop1zuo1: vec![],
        ia_side_hop1zuo1: vec![],
    }
}

fn quiet(whose_turn: AbsoluteSide) -> HandNotResolved_ {
    HandNotResolved_ {
        f: Field {
            board: yhuap_initial_board(),
            a_side_hop1zuo1: vec![],
            ia_side_hop1zuo1: vec![],
        },
        whose_turn,
        season: Season::Iei2,
        scores: Scores::new(),
        rate: Rate::X1,
        i_have_moved_tam_in_this_turn: false,
        previous_a_side_hop1zuo1: vec![],
        previous_ia_side_hop1zuo1: vec![],
        kut2tam2_happened: false,
        tam2tysak2_raw_penalty: 0,
        tam2tysak2_will_trigger_taxottymok: false,
    }
}

fn scores(ia: i32) -> Scores {
    Scores::new()
        .edit(ia - 20, AbsoluteSide::IASide, Rate::X1)
        .unwrap()
}

fn passes(r: HandResolved_) -> GroundState_ {
    match r {
        HandResolved_::NeitherTymokNorTaxot(s) => s,
        _ => panic!("the turn was to pass"),
    }
}

fn choice(r: HandResolved_) -> (GroundState_, IfTaxot_) {
    match r {
        HandResolved_::HandExists { if_tymok, if_taxot } => (if_tymok, if_taxot),
        _ => panic!("a hand was to exist"),
    }
}

fn next_season(t: IfTaxot_) -> (GroundState_, GroundState_) {
    match t {
        IfTaxot_::NextSeason(Probabilistic::WhoGoesFirst { ia_first, a_first }) => {
            (ia_first, a_first)
        }
        _ => panic!("a season was to follow"),
    }
}

fn victor(t: IfTaxot_) -> Victor {
    match t {
        IfTaxot_::VictoriousSide(v) => v,
        _ => panic!("the game was to end"),
    }
}

#[test]
fn a_quiet_turn_passes() {
    let state = quiet(AbsoluteSide::IASide);
    let next = passes(resolve(&state, Config::cerke_online_alpha()));
    assert_eq!(next.whose_turn, AbsoluteSide::ASide);
    assert_eq!(next.season, Season::Iei2);
    assert_eq!(next.scores, Scores::new());
    assert_eq!(next.rate, Rate::X1);
    assert!(!next.tam_has_moved_previously);
    assert_eq!(next.f, state.f);
    let next = passes(resolve(&quiet(AbsoluteSide::ASide), Config::strict_y1_huap1()));
    assert_eq!(next.whose_turn, AbsoluteSide::IASide);
}

#[test]
fn a_penalty_that_is_no_hand_is_entered_once() {
    let mut state = quiet(AbsoluteSide::IASide);
    state.tam2tysak2_raw_penalty = -3;
    state.i_have_moved_tam_in_this_turn = true;
    state.rate = Rate::X4;
    let next = passes(resolve(&state, Config::cerke_online_alpha()));
    assert_eq!(next.scores.ia(), 8);
    assert_eq!(next.scores.a(), 32);
    assert_eq!(next.rate, Rate::X4);
    assert!(next.tam_has_moved_previously);

    state.whose_turn = AbsoluteSide::ASide;
    let next = passes(resolve(&state, Config::cerke_online_alpha()));
    assert_eq!(next.scores.ia(), 32);
    assert_eq!(next.scores.a(), 8);
}

#[test]
fn a_penalty_that_uses_up_a_score_ends_the_game() {
    let mut state = quiet(AbsoluteSide::IASide);
    state.tam2tysak2_raw_penalty = -3;
    state.rate = Rate::X8;
    match resolve(&state, Config::cerke_online_alpha()) {
        HandResolved_::GameEndsWithoutTymokTaxot(v) => {
            assert_eq!(v, Victor(Some(AbsoluteSide::ASide)))
        }
        _ => panic!("the game was to end"),
    }
    state.whose_turn = AbsoluteSide::ASide;
    match resolve(&state, Config::cerke_online_alpha()) {
        HandResolved_::GameEndsWithoutTymokTaxot(v) => {
            assert_eq!(v, Victor(Some(AbsoluteSide::IASide)))
        }
        _ => panic!("the game was to end"),
    }
}

#[test]
fn stepping_over_tam2_is_a_hand_only_where_the_rules_say_so() {
    let mut state = quiet(AbsoluteSide::IASide);
    state.kut2tam2_happened = true;
    state.rate = Rate::X2;
    let next = passes(resolve(&state, Config::cerke_online_alpha()));
    assert_eq!(next.scores, Scores::new());

    let (if_tymok, if_taxot) = choice(resolve(&state, Config::strict_y1_huap1()));
    assert_eq!(if_tymok.rate, Rate::X4);
    assert_eq!(if_tymok.scores, Scores::new());
    assert_eq!(if_tymok.whose_turn, AbsoluteSide::ASide);
    assert_eq!(if_tymok.season, Season::Iei2);
    assert_eq!(if_tymok.f, state.f);
    let (ia_first, a_first) = next_season(if_taxot);
    assert_eq!(ia_first.whose_turn, AbsoluteSide::IASide);
    assert_eq!(a_first.whose_turn, AbsoluteSide::ASide);
    for s in [ia_first, a_first] {
        assert_eq!(s.scores.ia(), 10);
        assert_eq!(s.scores.a(), 30);
        assert_eq!(s.season, Season::Xo1);
        assert_eq!(s.rate, Rate::X1);
        assert!(!s.tam_has_moved_previously);
        assert_eq!(s.f.board, yhuap_initial_board());
        assert!(s.f.a_side_hop1zuo1.is_empty());
        assert!(s.f.ia_side_hop1zuo1.is_empty());
    }
}

#[test]
fn a_penalty_that_is_a_hand_offers_the_choice() {
    let mut state = quiet(AbsoluteSide::ASide);
    state.tam2tysak2_raw_penalty = -3;
    state.tam2tysak2_will_trigger_taxottymok = true;
    state.i_have_moved_tam_in_this_turn = true;
    state.season = Season::Kat2;
    let (if_tymok, if_taxot) = choice(resolve(&state, Config::strict_y1_huap1()));
    assert_eq!(if_tymok.rate, Rate::X2);
    assert_eq!(if_tymok.scores, Scores::new());
    assert!(if_tymok.tam_has_moved_previously);
    let (ia_first, _) = next_season(if_taxot);
    assert_eq!(ia_first.season, Season::Iat1);
    assert_eq!(ia_first.scores.ia(), 23);
    assert_eq!(ia_first.scores.a(), 17);
}

#[test]
fn a_new_hand_in_the_reserve_offers_the_choice() {
    let src = Coord(Row::AI, Column::K);
    let dest = Coord(Row::Y, Column::K);
    let mut f = field(vec![
        (
            src,
            Piece::NonTam2Piece {
                color: Color::Huok2,
                prof: Profession::Kauk2,
                side: AbsoluteSide::IASide,
            },
        ),
        (
            dest,
            Piece::NonTam2Piece {
                color: Color::Huok2,
                prof: Profession::Maun1,
                side: AbsoluteSide::ASide,
            },
        ),
    ]);
    f.ia_side_hop1zuo1 = vec![cp(Color::Huok2, Profession::Dau2)];
    let ground = GroundState_ {
        f,
        whose_turn: AbsoluteSide::IASide,
        season: Season::Iei2,
        scores: Scores::new(),
        rate: Rate::X2,
        tam_has_moved_previously: false,
    };
    let pending = match apply_normal_move(
        &ground,
        NormalMove_::NonTamMoveSrcDst { src, dest },
        Config::cerke_online_alpha(),
    )
    .unwrap()
    {
        Probabilistic::Pure(s) => s,
        _ => panic!("the outcome is not certain"),
    };
    assert!(can_resolve(&pending));
    let (if_tymok, if_taxot) = choice(resolve(&pending, Config::cerke_online_alpha()));
    assert_eq!(if_tymok.rate, Rate::X4);
    assert_eq!(if_tymok.scores, Scores::new());
    assert_eq!(if_tymok.f, pending.f);
    let (ia_first, _) = next_season(if_taxot);
    // Tiger and horse of one color: five points, at twice the stake.
    assert_eq!(ia_first.scores.ia(), 30);
    assert_eq!(ia_first.scores.a(), 10);
    assert_eq!(ia_first.season, Season::Xo1);
}

#[test]
fn a_reserve_that_grows_without_a_new_hand_lets_the_turn_pass() {
    let mut state = quiet(AbsoluteSide::IASide);
    state.previous_ia_side_hop1zuo1 = vec![cp(Color::Huok2, Profession::Dau2)];
    state.f.ia_side_hop1zuo1 = vec![
        cp(Color::Huok2, Profession::Dau2),
        cp(Color::Kok1, Profession::Kauk2),
    ];
    let next = passes(resolve(&state, Config::cerke_online_alpha()));
    assert_eq!(next.scores, Scores::new());

    // A hand that was there before is no new hand.
    state.previous_ia_side_hop1zuo1 = vec![
        cp(Color::Huok2, Profession::Dau2),
        cp(Color::Huok2, Profession::Maun1),
    ];
    state.f.ia_side_hop1zuo1 = vec![
        cp(Color::Huok2, Profession::Dau2),
        cp(Color::Huok2, Profession::Maun1),
        cp(Color::Kok1, Profession::Kauk2),
    ];
    let next = passes(resolve(&state, Config::cerke_online_alpha()));
    assert_eq!(next.scores, Scores::new());

    // The reserve of the other side is not looked at.
    let mut state = quiet(AbsoluteSide::IASide);
    state.f.a_side_hop1zuo1 = vec![
        cp(Color::Huok2, Profession::Dau2),
        cp(Color::Huok2, Profession::Maun1),
    ];
    let next = passes(resolve(&state, Config::cerke_online_alpha()));
    assert_eq!(next.scores, Scores::new());
}

#[test]
fn the_hands_add_up_in_the_raw_score() {
    let mut state = quiet(AbsoluteSide::ASide);
    state.f.a_side_hop1zuo1 = vec![
        cp(Color::Huok2, Profession::Dau2),
        cp(Color::Kok1, Profession::Maun1),
    ];
    state.previous_a_side_hop1zuo1 = vec![cp(Color::Huok2, Profession::Dau2)];
    state.kut2tam2_happened = true;
    state.tam2tysak2_raw_penalty = -3;
    // Tiger and horse of two colors: three points; less five for Tam2, less
    // three for the penalty.
    let (_, if_taxot) = choice(resolve(&state, Config::strict_y1_huap1()));
    let (ia_first, _) = next_season(if_taxot);
    assert_eq!(ia_first.scores.ia(), 25);
    assert_eq!(ia_first.scores.a(), 15);
    // Where stepping over Tam2 is no hand, it takes nothing off here.
    let (_, if_taxot) = choice(resolve(&state, Config::cerke_online_alpha()));
    let (ia_first, _) = next_season(if_taxot);
    assert_eq!(ia_first.scores.ia(), 20);
}

#[test]
fn resolve_with_takes_the_score_of_the_new_hand_as_given() {
    let mut state = quiet(AbsoluteSide::IASide);
    state.rate = Rate::X2;
    let (if_tymok, if_taxot) =
        choice(resolve_with(&state, Config::cerke_online_alpha(), Some(7)));
    assert_eq!(if_tymok.rate, Rate::X4);
    let (ia_first, a_first) = next_season(if_taxot);
    assert_eq!(ia_first.scores.ia(), 34);
    assert_eq!(a_first.scores.a(), 6);
    let next = passes(resolve_with(&state, Config::cerke_online_alpha(), None));
    assert_eq!(next.rate, Rate::X2);
    let (_, if_taxot) = choice(resolve_with(&state, Config::cerke_online_alpha(), Some(0)));
    let (ia_first, _) = next_season(if_taxot);
    assert_eq!(ia_first.scores, Scores::new());
}

#[test]
fn ending_the_season_ends_the_game_where_a_score_is_used_up() {
    let mut state = quiet(AbsoluteSide::IASide);
    state.rate = Rate::X4;
    let (if_tymok, if_taxot) =
        choice(resolve_with(&state, Config::cerke_online_alpha(), Some(5)));
    assert_eq!(if_tymok.scores, Scores::new());
    assert_eq!(victor(if_taxot), Victor(Some(AbsoluteSide::IASide)));
    state.whose_turn = AbsoluteSide::ASide;
    let (_, if_taxot) = choice(resolve_with(&state, Config::cerke_online_alpha(), Some(5)));
    assert_eq!(victor(if_taxot), Victor(Some(AbsoluteSide::ASide)));
}

#[test]
fn ending_winter_ends_the_game() {
    let mut state = quiet(AbsoluteSide::IASide);
    state.season = Season::Iat1;
    let (if_tymok, if_taxot) =
        choice(resolve_with(&state, Config::cerke_online_alpha(), Some(3)));
    assert_eq!(if_tymok.season, Season::Iat1);
    assert_eq!(victor(if_taxot), Victor(Some(AbsoluteSide::IASide)));

    state.whose_turn = AbsoluteSide::ASide;
    let (_, if_taxot) = choice(resolve_with(&state, Config::cerke_online_alpha(), Some(3)));
    assert_eq!(victor(if_taxot), Victor(Some(AbsoluteSide::ASide)));

    let (_, if_taxot) = choice(resolve_with(&state, Config::cerke_online_alpha(), Some(0)));
    assert_eq!(victor(if_taxot), Victor(None));

    state.scores = scores(23);
    let (_, if_taxot) = choice(resolve_with(&state, Config::cerke_online_alpha(), Some(3)));
    assert_eq!(victor(if_taxot), Victor(None));
}

#[test]
fn the_rate_doubles_up_to_sixty_four() {
    let mut state = quiet(AbsoluteSide::IASide);
    state.kut2tam2_happened = true;
    let mut rates = vec![];
    for rate in [
        Rate::X1,
        Rate::X2,
        Rate::X4,
        Rate::X8,
        Rate::X16,
        Rate::X32,
        Rate::X64,
    ] {
        state.rate = rate;
        let (if_tymok, _) = choice(resolve(&state, Config::strict_y1_huap1()));
        assert!(if_tymok.rate.num() >= rate.num());
        rates.push(if_tymok.rate);
    }
    assert_eq!(
        rates,
        vec![
            Rate::X2,
            Rate::X4,
            Rate::X8,
            Rate::X16,
            Rate::X32,
            Rate::X64,
            Rate::X64
        ]
    );
}

#[test]
fn a_reserve_with_too_many_pieces_cannot_be_resolved() {
    let mut state = quiet(AbsoluteSide::IASide);
    state.f.ia_side_hop1zuo1 = vec![
        cp(Color::Huok2, Profession::Io),
        cp(Color::Huok2, Profession::Io),
    ];
    assert!(!can_resolve(&state));
    state.previous_ia_side_hop1zuo1 = state.f.ia_side_hop1zuo1.clone();
    assert!(can_resolve(&state));
    state.previous_ia_side_hop1zuo1 = vec![cp(Color::Huok2, Profession::Io)];
    state.f.ia_side_hop1zuo1 = vec![
        cp(Color::Huok2, Profession::Io),
        cp(Color::Kok1, Profession::Io),
    ];
    assert!(can_resolve(&state));
    state.whose_turn = AbsoluteSide::ASide;
    state.f.a_side_hop1zuo1 = vec![
        cp(Color::Kok1, Profession::Gua2),
        cp(Color::Kok1, Profession::Gua2),
        cp(Color::Kok1, Profession::Gua2),
    ];
    assert!(!can_resolve(&state));
}

#[test]
fn a_player_with_no_move_ends_the_game() {
    let stuck = GroundState_ {
        f: field(vec![]),
        whose_turn: AbsoluteSide::IASide,
        season: Season::Iei2,
        scores: scores(25),
        rate: Rate::X1,
        tam_has_moved_previously: false,
    };
    match no_move_possible_at_all(&stuck, Config::cerke_online_alpha()).unwrap() {
        HandResolved_::GameEndsWithoutTymokTaxot(v) => {
            assert_eq!(v, Victor(Some(AbsoluteSide::IASide)))
        }
        _ => panic!("the game was to end"),
    }
    let free = GroundState_ {
        f: Field {
            board: yhuap_initial_board(),
            a_side_hop1zuo1: vec![],
            ia_side_hop1zuo1: vec![],
        },
        whose_turn: AbsoluteSide::IASide,
        season: Season::Iei2,
        scores: Scores::new(),
        rate: Rate::X1,
        tam_has_moved_previously: false,
    };
    assert_eq!(
        no_move_possible_at_all(&free, Config::cerke_online_alpha()).unwrap_err(),
        "At least one valid move exists"
    );
    let mut with_reserve = stuck.clone();
    with_reserve.f.ia_side_hop1zuo1 = vec![cp(Color::Kok1, Profession::Kauk2)];
    assert!(no_move_possible_at_all(&with_reserve, Config::cerke_online_alpha()).is_err());
}
