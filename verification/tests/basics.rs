use cetkaik_full_state_transition::field::{
    field_is_empty_at, field_is_occupied_at, piece_on_field_at,
};
use cetkaik_full_state_transition::hand::{holds_name, holds_new_hand, newly_acquired, within_limits};
use cetkaik_full_state_transition::message::{
    same_decision, same_normal_move, same_pure_move, AfterHalfAcceptance_, InfAfterStep_,
    NormalMove_, PureMove__,
};
use cetkaik_full_state_transition::pieces::{
    column_index, holds_tam2, other_side, profession_index, row_index, same_color,
    same_color_and_prof, same_coord, same_hop1zuo1, same_profession,
};
use cetkaik_full_state_transition::probabilistic::{Prob, Probabilistic};
use cetkaik_full_state_transition::{Config, Consequence, Plan, Rate, Scores, Season, Victor};
use cetkaik_fundamental::{AbsoluteSide, Color, ColorAndProf, Profession, PureMove_};
use cetkaik_naive_representation::absolute::{
    yhuap_initial_board, Column, Coord, Field, Piece, Row,
};

fn cp(color: Color, prof: Profession) -> ColorAndProf {
    ColorAndProf { color, prof }
}

fn weights<T: Clone>(p: Probabilistic<T>) -> Vec<(Option<usize>, u32)> {
    p.flatten()
        .0
        .iter()
        .map(|((_, cast), weight)| (*cast, *weight))
        .collect()
}

fn all_shapes() -> Vec<Probabilistic<u8>> {
    vec![
        Probabilistic::Pure(7),
        Probabilistic::Water {
            failure: 0,
            success: 1,
        },
        Probabilistic::Sticks {
            s0: 10,
            s1: 11,
            s2: 12,
            s3: 13,
            s4: 14,
            s5: 15,
        },
        Probabilistic::WhoGoesFirst {
            ia_first: 20,
            a_first: 21,
        },
    ]
}

#[test]
fn seasons_follow_each_other() {
    assert_eq!(Season::Iei2.next(), Some(Season::Xo1));
    assert_eq!(Season::Xo1.next(), Some(Season::Kat2));
    assert_eq!(Season::Kat2.next(), Some(Season::Iat1));
    assert_eq!(Season::Iat1.next(), None);
    assert_eq!(Season::Iei2.to_index(), 0);
    assert_eq!(Season::Xo1.to_index(), 1);
    assert_eq!(Season::Kat2.to_index(), 2);
    assert_eq!(Season::Iat1.to_index(), 3);
}

#[test]
fn rates_double() {
    assert_eq!(Rate::X1.next(), Rate::X2);
    assert_eq!(Rate::X2.next(), Rate::X4);
    assert_eq!(Rate::X4.next(), Rate::X8);
    assert_eq!(Rate::X8.next(), Rate::X16);
    assert_eq!(Rate::X16.next(), Rate::X32);
    assert_eq!(Rate::X32.next(), Rate::X64);
    assert_eq!(Rate::X64.next(), Rate::X64);
    let nums: Vec<i32> = [
        Rate::X1,
        Rate::X2,
        Rate::X4,
        Rate::X8,
        Rate::X16,
        Rate::X32,
        Rate::X64,
    ]
    .iter()
    .map(|r| r.num())
    .collect();
    assert_eq!(nums, vec![1, 2, 4, 8, 16, 32, 64]);
}

#[test]
fn the_two_presets() {
    let online = Config::cerke_online_alpha();
    assert!(!online.step_tam_is_a_hand);
    assert!(online.tam_itself_is_tam_hue);
    assert_eq!(
        online.moving_tam_immediately_after_tam_has_moved,
        Consequence::Forbidden
    );
    assert_eq!(online.tam_mun_mok, Consequence::Allowed);
    assert!(!online.failure_to_complete_the_move_means_exempt_from_kut2_tam2);
    assert!(online.game_can_end_without_tymok_taxot_because_of_negative_hand);
    assert_eq!(online.what_to_say_before_casting_sticks, Some(Plan::Direction));
    assert!(online.penalties_add_up());

    let strict = Config::strict_y1_huap1();
    assert!(strict.step_tam_is_a_hand);
    assert!(!strict.tam_itself_is_tam_hue);
    assert_eq!(
        strict.moving_tam_immediately_after_tam_has_moved,
        Consequence::Penalized {
            penalty: -3,
            is_a_hand: true
        }
    );
    assert_eq!(
        strict.tam_mun_mok,
        Consequence::Penalized {
            penalty: -3,
            is_a_hand: true
        }
    );
    assert!(!strict.failure_to_complete_the_move_means_exempt_from_kut2_tam2);
    assert!(!strict.game_can_end_without_tymok_taxot_because_of_negative_hand);
    assert_eq!(
        strict.what_to_say_before_casting_sticks,
        Some(Plan::ExactDestination)
    );
    assert!(strict.penalties_add_up());

    let mut huge = strict;
    huge.tam_mun_mok = Consequence::Penalized {
        penalty: i32::MIN,
        is_a_hand: false,
    };
    assert!(!huge.penalties_add_up());
}

#[test]
fn the_ledger_starts_even() {
    assert_eq!(Scores::new().ia(), 20);
    assert_eq!(Scores::new().a(), 20);
    assert_eq!(Scores::default(), Scores::new());
    assert_eq!(Scores::new().which_side_is_winning(), Victor(None));
}

#[test]
fn an_edit_moves_points_at_the_rate() {
    let s = Scores::new()
        .edit(3, AbsoluteSide::IASide, Rate::X2)
        .unwrap();
    assert_eq!((s.ia(), s.a()), (26, 14));
    assert_eq!(s.which_side_is_winning(), Victor(Some(AbsoluteSide::IASide)));
    let s = s.edit(5, AbsoluteSide::ASide, Rate::X4).unwrap();
    assert_eq!((s.ia(), s.a()), (6, 34));
    assert_eq!(s.which_side_is_winning(), Victor(Some(AbsoluteSide::ASide)));
    let s = s.edit(-1, AbsoluteSide::ASide, Rate::X8).unwrap();
    assert_eq!((s.ia(), s.a()), (14, 26));
    let s = s.edit(-3, AbsoluteSide::IASide, Rate::X1).unwrap();
    assert_eq!((s.ia(), s.a()), (11, 29));
    let s = s.edit(0, AbsoluteSide::IASide, Rate::X64).unwrap();
    assert_eq!((s.ia(), s.a()), (11, 29));
}

#[test]
fn the_two_scores_make_forty_after_every_edit() {
    let mut s = Scores::new();
    for (raw, side, rate) in [
        (3, AbsoluteSide::IASide, Rate::X1),
        (-5, AbsoluteSide::ASide, Rate::X2),
        (7, AbsoluteSide::ASide, Rate::X1),
        (1, AbsoluteSide::IASide, Rate::X8),
        (-3, AbsoluteSide::IASide, Rate::X4),
    ] {
        s = s.edit(raw, side, rate).unwrap();
        assert_eq!(s.ia() + s.a(), 40);
        assert!(0 < s.ia() && s.ia() < 40);
    }
    assert_eq!(s.ia(), 22);
}

#[test]
fn an_edit_that_uses_up_a_score_names_the_winner() {
    let even = Scores::new();
    assert_eq!(
        even.edit(20, AbsoluteSide::IASide, Rate::X1),
        Err(Victor(Some(AbsoluteSide::IASide)))
    );
    assert_eq!(
        even.edit(21, AbsoluteSide::IASide, Rate::X1),
        Err(Victor(Some(AbsoluteSide::IASide)))
    );
    assert_eq!(
        even.edit(1, AbsoluteSide::IASide, Rate::X32),
        Err(Victor(Some(AbsoluteSide::IASide)))
    );
    assert_eq!(
        even.edit(-20, AbsoluteSide::IASide, Rate::X1),
        Err(Victor(Some(AbsoluteSide::ASide)))
    );
    assert_eq!(
        even.edit(5, AbsoluteSide::ASide, Rate::X4),
        Err(Victor(Some(AbsoluteSide::ASide)))
    );
    assert_eq!(
        even.edit(-50, AbsoluteSide::ASide, Rate::X64),
        Err(Victor(Some(AbsoluteSide::IASide)))
    );
    assert_eq!(
        even.edit(i32::MAX, AbsoluteSide::ASide, Rate::X64),
        Err(Victor(Some(AbsoluteSide::ASide)))
    );
    assert_eq!(
        even.edit(i32::MIN, AbsoluteSide::ASide, Rate::X64),
        Err(Victor(Some(AbsoluteSide::IASide)))
    );
    let s = even.edit(19, AbsoluteSide::IASide, Rate::X1).unwrap();
    assert_eq!((s.ia(), s.a()), (39, 1));
    let s = even.edit(19, AbsoluteSide::ASide, Rate::X1).unwrap();
    assert_eq!((s.ia(), s.a()), (1, 39));
}

#[test]
fn the_weights_of_every_shape_make_the_whole() {
    for p in all_shapes() {
        let total: u32 = weights(p).iter().map(|(_, w)| *w).sum();
        assert_eq!(total, 32);
    }
    assert_eq!(weights(Probabilistic::Pure(0u8)), vec![(None, 32)]);
    assert_eq!(
        weights(Probabilistic::WhoGoesFirst {
            ia_first: 0u8,
            a_first: 1u8
        }),
        vec![(None, 16), (None, 16)]
    );
    let sticks = vec![
        (Some(0), 1),
        (Some(1), 5),
        (Some(2), 10),
        (Some(3), 10),
        (Some(4), 5),
        (Some(5), 1),
    ];
    assert_eq!(
        weights(Probabilistic::Water {
            failure: 0u8,
            success: 1u8
        }),
        sticks
    );
    assert_eq!(
        weights(Probabilistic::Sticks {
            s0: 0u8,
            s1: 1u8,
            s2: 2u8,
            s3: 3u8,
            s4: 4u8,
            s5: 5u8
        }),
        sticks
    );
}

#[test]
fn the_outcomes_are_listed_in_order() {
    let water: Vec<u8> = Probabilistic::Water {
        failure: 0u8,
        success: 1u8,
    }
    .flatten()
    .0
    .iter()
    .map(|((t, _), _)| *t)
    .collect();
    assert_eq!(water, vec![0, 0, 0, 1, 1, 1]);
    let first: Vec<u8> = Prob::from(Probabilistic::WhoGoesFirst {
        ia_first: 20u8,
        a_first: 21u8,
    })
    .0
    .iter()
    .map(|((t, _), _)| *t)
    .collect();
    assert_eq!(first, vec![20, 21]);
}

#[test]
fn a_ticket_picks_the_entry_in_whose_share_it_falls() {
    let sticks = || {
        Probabilistic::Sticks {
            s0: 10u8,
            s1: 11u8,
            s2: 12u8,
            s3: 13u8,
            s4: 14u8,
            s5: 15u8,
        }
        .flatten()
    };
    let picked: Vec<(u8, Option<usize>)> = (0..32)
        .map(|rand| sticks().choose_by_uniform_random_variable(rand))
        .collect();
    let mut expected = vec![(10u8, Some(0usize))];
    expected.extend(vec![(11, Some(1)); 5]);
    expected.extend(vec![(12, Some(2)); 10]);
    expected.extend(vec![(13, Some(3)); 10]);
    expected.extend(vec![(14, Some(4)); 5]);
    expected.push((15, Some(5)));
    assert_eq!(picked, expected);

    let lopsided = || Prob(vec![('a', 0), ('b', 31), ('c', 1), ('d', 0)]);
    assert_eq!(lopsided().choose_by_uniform_random_variable(0), 'b');
    assert_eq!(lopsided().choose_by_uniform_random_variable(30), 'b');
    assert_eq!(lopsided().choose_by_uniform_random_variable(31), 'c');
}

#[test]
fn a_draw_gives_one_of_the_outcomes() {
    for _ in 0..200 {
        assert_eq!(Probabilistic::Pure(7u8).choose_at_random(), (7, None));
        assert_eq!(Probabilistic::Pure(7u8).choose_when_no_ciurl(), 7);
        let (who, cast) = Probabilistic::WhoGoesFirst {
            ia_first: 20u8,
            a_first: 21u8,
        }
        .choose_at_random();
        assert!(who == 20 || who == 21);
        assert_eq!(cast, None);
        let who = Probabilistic::WhoGoesFirst {
            ia_first: 20u8,
            a_first: 21u8,
        }
        .choose_when_no_ciurl();
        assert!(who == 20 || who == 21);
        let (outcome, cast) = Probabilistic::Water {
            failure: 0u8,
            success: 1u8,
        }
        .choose_at_random();
        let cast = cast.unwrap();
        assert!(cast < 6);
        assert_eq!(outcome == 1, cast >= 3);
        let (outcome, cast) = Probabilistic::Sticks {
            s0: 10u8,
            s1: 11u8,
            s2: 12u8,
            s3: 13u8,
            s4: 14u8,
            s5: 15u8,
        }
        .choose_at_random();
        assert_eq!(usize::from(outcome), 10 + cast.unwrap());
        let drawn = Prob(vec![('a', 0), ('b', 31), ('c', 1)]).choose_at_random();
        assert!(drawn == 'b' || drawn == 'c');
    }
}

#[test]
fn the_draw_is_not_always_the_same() {
    let mut seen = [false; 2];
    for _ in 0..400 {
        let who = Probabilistic::WhoGoesFirst {
            ia_first: 0usize,
            a_first: 1usize,
        }
        .choose_when_no_ciurl();
        seen[who] = true;
    }
    assert!(seen[0] && seen[1]);
}

#[test]
fn a_candidate_becomes_the_message_without_the_note_on_water() {
    let a = Coord(Row::A, Column::Z);
    let b = Coord(Row::E, Column::T);
    let c = Coord(Row::E, Column::N);
    let d = Coord(Row::I, Column::N);
    assert_eq!(
        PureMove__::from(PureMove_::NonTamMoveSrcDst {
            src: a,
            dest: b,
            is_water_entry_ciurl: true
        }),
        PureMove__::NormalMove(NormalMove_::NonTamMoveSrcDst { src: a, dest: b })
    );
    assert_eq!(
        PureMove__::from(PureMove_::NonTamMoveSrcStepDstFinite {
            src: a,
            step: b,
            dest: c,
            is_water_entry_ciurl: false
        }),
        PureMove__::NormalMove(NormalMove_::NonTamMoveSrcStepDstFinite {
            src: a,
            step: b,
            dest: c
        })
    );
    assert_eq!(
        PureMove__::from(PureMove_::InfAfterStep {
            src: a,
            step: b,
            planned_direction: c
        }),
        PureMove__::InfAfterStep(InfAfterStep_ {
            src: a,
            step: b,
            planned_direction: c
        })
    );
    assert_eq!(
        PureMove__::from(PureMove_::NonTamMoveFromHopZuo {
            color: Color::Huok2,
            prof: Profession::Gua2,
            dest: a
        }),
        PureMove__::NormalMove(NormalMove_::NonTamMoveFromHopZuo {
            color: Color::Huok2,
            prof: Profession::Gua2,
            dest: a
        })
    );
    assert_eq!(
        PureMove__::from(PureMove_::TamMoveNoStep {
            src: a,
            first_dest: b,
            second_dest: c
        }),
        PureMove__::NormalMove(NormalMove_::TamMoveNoStep {
            src: a,
            first_dest: b,
            second_dest: c
        })
    );
    assert_eq!(
        PureMove__::from(PureMove_::TamMoveStepsDuringFormer {
            src: a,
            step: b,
            first_dest: c,
            second_dest: d
        }),
        PureMove__::NormalMove(NormalMove_::TamMoveStepsDuringFormer {
            src: a,
            step: b,
            first_dest: c,
            second_dest: d
        })
    );
    assert_eq!(
        PureMove__::from(PureMove_::TamMoveStepsDuringLatter {
            src: a,
            step: b,
            first_dest: c,
            second_dest: d
        }),
        PureMove__::NormalMove(NormalMove_::TamMoveStepsDuringLatter {
            src: a,
            step: b,
            first_dest: c,
            second_dest: d
        })
    );
}

#[test]
fn messages_are_compared_field_by_field() {
    let a = Coord(Row::A, Column::Z);
    let b = Coord(Row::E, Column::T);
    let c = Coord(Row::E, Column::N);
    let moves = vec![
        NormalMove_::NonTamMoveSrcDst { src: a, dest: b },
        NormalMove_::NonTamMoveSrcDst { src: b, dest: a },
        NormalMove_::NonTamMoveSrcStepDstFinite {
            src: a,
            step: b,
            dest: c,
        },
        NormalMove_::NonTamMoveFromHopZuo {
            color: Color::Huok2,
            prof: Profession::Gua2,
            dest: a,
        },
        NormalMove_::NonTamMoveFromHopZuo {
            color: Color::Kok1,
            prof: Profession::Gua2,
            dest: a,
        },
        NormalMove_::NonTamMoveFromHopZuo {
            color: Color::Kok1,
            prof: Profession::Io,
            dest: a,
        },
        NormalMove_::TamMoveNoStep {
            src: a,
            first_dest: b,
            second_dest: c,
        },
        NormalMove_::TamMoveStepsDuringFormer {
            src: a,
            step: a,
            first_dest: b,
            second_dest: c,
        },
        NormalMove_::TamMoveStepsDuringLatter {
            src: a,
            step: a,
            first_dest: b,
            second_dest: c,
        },
        NormalMove_::TamMoveStepsDuringLatter {
            src: a,
            step: a,
            first_dest: b,
            second_dest: a,
        },
    ];
    for x in &moves {
        for y in &moves {
            assert_eq!(same_normal_move(*x, *y), x == y);
            assert_eq!(
                same_pure_move(PureMove__::NormalMove(*x), PureMove__::NormalMove(*y)),
                x == y
            );
        }
    }
    let run = PureMove__::InfAfterStep(InfAfterStep_ {
        src: a,
        step: b,
        planned_direction: c,
    });
    let other_run = PureMove__::InfAfterStep(InfAfterStep_ {
        src: a,
        step: b,
        planned_direction: a,
    });
    assert!(same_pure_move(run, run));
    assert!(!same_pure_move(run, other_run));
    assert!(!same_pure_move(run, PureMove__::NormalMove(moves[0])));
    assert!(same_decision(
        AfterHalfAcceptance_ { dest: Some(a) },
        AfterHalfAcceptance_ { dest: Some(a) }
    ));
    assert!(!same_decision(
        AfterHalfAcceptance_ { dest: Some(a) },
        AfterHalfAcceptance_ { dest: Some(b) }
    ));
    assert!(!same_decision(
        AfterHalfAcceptance_ { dest: None },
        AfterHalfAcceptance_ { dest: Some(b) }
    ));
    assert!(same_decision(
        AfterHalfAcceptance_::<Coord> { dest: None },
        AfterHalfAcceptance_ { dest: None }
    ));
}

#[test]
fn pieces_and_squares_are_compared_by_what_they_hold() {
    let rows = [
        Row::A,
        Row::E,
        Row::I,
        Row::U,
        Row::O,
        Row::Y,
        Row::AI,
        Row::AU,
        Row::IA,
    ];
    let columns = [
        Column::K,
        Column::L,
        Column::N,
        Column::T,
        Column::Z,
        Column::X,
        Column::C,
        Column::M,
        Column::P,
    ];
    let profs = [
        Profession::Nuak1,
        Profession::Kauk2,
        Profession::Gua2,
        Profession::Kaun1,
        Profession::Dau2,
        Profession::Maun1,
        Profession::Kua2,
        Profession::Tuk2,
        Profession::Uai1,
        Profession::Io,
    ];
    for (i, row) in rows.iter().enumerate() {
        assert_eq!(usize::from(row_index(*row)), i);
    }
    for (i, column) in columns.iter().enumerate() {
        assert_eq!(usize::from(column_index(*column)), i);
    }
    for (i, prof) in profs.iter().enumerate() {
        assert_eq!(usize::from(profession_index(*prof)), i);
        for other in &profs {
            assert_eq!(same_profession(*prof, *other), prof == other);
        }
    }
    for r1 in &rows {
        for c1 in &columns {
            assert!(same_coord(Coord(*r1, *c1), Coord(*r1, *c1)));
            assert_eq!(
                same_coord(Coord(*r1, *c1), Coord(Row::O, Column::Z)),
                Coord(*r1, *c1) == Coord(Row::O, Column::Z)
            );
        }
    }
    assert!(same_color(Color::Kok1, Color::Kok1));
    assert!(!same_color(Color::Kok1, Color::Huok2));
    assert_eq!(other_side(AbsoluteSide::ASide), AbsoluteSide::IASide);
    assert_eq!(other_side(AbsoluteSide::IASide), AbsoluteSide::ASide);
    assert!(same_color_and_prof(
        cp(Color::Kok1, Profession::Io),
        cp(Color::Kok1, Profession::Io)
    ));
    assert!(!same_color_and_prof(
        cp(Color::Kok1, Profession::Io),
        cp(Color::Huok2, Profession::Io)
    ));
    assert!(!same_color_and_prof(
        cp(Color::Kok1, Profession::Io),
        cp(Color::Kok1, Profession::Uai1)
    ));
    let pawn = Piece::NonTam2Piece {
        color: Color::Kok1,
        prof: Profession::Kauk2,
        side: AbsoluteSide::ASide,
    };
    assert!(holds_tam2(Some(Piece::Tam2)));
    assert!(!holds_tam2(Some(pawn)));
    assert!(!holds_tam2(None));
    let reserve = vec![cp(Color::Kok1, Profession::Io), cp(Color::Huok2, Profession::Gua2)];
    let swapped = vec![cp(Color::Huok2, Profession::Gua2), cp(Color::Kok1, Profession::Io)];
    assert!(same_hop1zuo1(&reserve, &reserve.clone()));
    assert!(!same_hop1zuo1(&reserve, &swapped));
    assert!(!same_hop1zuo1(&reserve, &reserve[..1].to_vec()));
    assert!(same_hop1zuo1(&vec![], &vec![]));
}

#[test]
fn the_squares_of_a_field_are_looked_up() {
    let f = Field {
        board: yhuap_initial_board(),
        a_side_hop1zuo1: vec![],
        ia_side_hop1zuo1: vec![],
    };
    assert_eq!(
        piece_on_field_at(&f, Coord(Row::O, Column::Z)),
        Some(Piece::Tam2)
    );
    assert_eq!(
        piece_on_field_at(&f, Coord(Row::IA, Column::Z)),
        Some(Piece::NonTam2Piece {
            color: Color::Huok2,
            prof: Profession::Io,
            side: AbsoluteSide::IASide
        })
    );
    assert_eq!(piece_on_field_at(&f, Coord(Row::O, Column::K)), None);
    assert!(field_is_empty_at(&f, Coord(Row::O, Column::K)));
    assert!(!field_is_occupied_at(&f, Coord(Row::O, Column::K)));
    assert!(field_is_occupied_at(&f, Coord(Row::A, Column::K)));
    assert!(!field_is_empty_at(&f, Coord(Row::A, Column::K)));
}

#[test]
fn new_hands_are_found_by_their_names() {
    let names = |v: &[&str]| v.iter().map(|s| s.to_string()).collect::<Vec<String>>();
    assert!(holds_name(&names(&["a", "b"]), &"b".to_string()));
    assert!(!holds_name(&names(&["a", "b"]), &"c".to_string()));
    assert!(!holds_name(&names(&[]), &"c".to_string()));
    assert!(holds_new_hand(&names(&["a", "b"]), &names(&["a"])));
    assert!(!holds_new_hand(&names(&["a", "b"]), &names(&["b", "a", "c"])));
    assert!(!holds_new_hand(&names(&[]), &names(&["a"])));
    assert!(holds_new_hand(&names(&["a"]), &names(&[])));
}

#[test]
fn the_score_of_a_new_hand_is_that_of_the_whole_reserve() {
    let tiger = cp(Color::Huok2, Profession::Dau2);
    let horse = cp(Color::Huok2, Profession::Maun1);
    let red_horse = cp(Color::Kok1, Profession::Maun1);
    let pawn = cp(Color::Kok1, Profession::Kauk2);
    let king = cp(Color::Kok1, Profession::Io);
    assert_eq!(newly_acquired(&vec![tiger], &vec![tiger, horse]), Some(5));
    assert_eq!(newly_acquired(&vec![tiger], &vec![tiger, red_horse]), Some(3));
    assert_eq!(newly_acquired(&vec![tiger], &vec![tiger, pawn]), None);
    assert_eq!(newly_acquired(&vec![tiger, horse], &vec![tiger, horse]), None);
    assert_eq!(
        newly_acquired(&vec![tiger, horse], &vec![tiger, horse, pawn]),
        None
    );
    assert_eq!(newly_acquired(&vec![], &vec![king]), Some(5));
    // The same pieces in another order form no new hand.
    assert_eq!(newly_acquired(&vec![tiger, horse], &vec![horse, tiger]), None);
    // From two colors to one: the hand of one color is new.
    assert_eq!(
        newly_acquired(&vec![tiger, red_horse], &vec![tiger, red_horse, horse]),
        Some(5)
    );
}

#[test]
fn a_reserve_holds_no_more_pieces_of_a_kind_than_there_are() {
    assert!(within_limits(&vec![]));
    assert!(within_limits(&vec![cp(Color::Kok1, Profession::Kauk2); 8]));
    assert!(!within_limits(&vec![cp(Color::Kok1, Profession::Kauk2); 9]));
    assert!(within_limits(&vec![cp(Color::Kok1, Profession::Gua2); 2]));
    assert!(!within_limits(&vec![cp(Color::Kok1, Profession::Gua2); 3]));
    assert!(within_limits(&vec![
        cp(Color::Kok1, Profession::Io),
        cp(Color::Huok2, Profession::Io)
    ]));
    assert!(!within_limits(&vec![cp(Color::Kok1, Profession::Io); 2]));
    assert!(!within_limits(&vec![cp(Color::Huok2, Profession::Nuak1); 2]));
}

#[test]
fn moves_are_written_down() {
    let za = Coord(Row::A, Column::Z);
    let te = Coord(Row::E, Column::T);
    let ne = Coord(Row::E, Column::N);
    let ke = Coord(Row::E, Column::K);
    let ki = Coord(Row::I, Column::K);
    let li = Coord(Row::I, Column::L);
    let le = Coord(Row::E, Column::L);
    assert_eq!(
        PureMove__::InfAfterStep(InfAfterStep_ {
            src: za,
            step: te,
            planned_direction: ne
        })
        .to_string(),
        "ZA片TE心NE"
    );
    assert_eq!(
        PureMove__::NormalMove(NormalMove_::NonTamMoveFromHopZuo {
            color: Color::Huok2,
            prof: Profession::Gua2,
            dest: Coord(Row::IA, Column::L)
        })
        .to_string(),
        "黒弓LIA"
    );
    assert_eq!(
        PureMove__::NormalMove(NormalMove_::NonTamMoveFromHopZuo {
            color: Color::Kok1,
            prof: Profession::Nuak1,
            dest: Coord(Row::AU, Column::C)
        })
        .to_string(),
        "赤船CAU"
    );
    assert_eq!(
        PureMove__::NormalMove(NormalMove_::NonTamMoveSrcDst { src: za, dest: ne }).to_string(),
        "ZA片NE"
    );
    assert_eq!(
        PureMove__::NormalMove(NormalMove_::NonTamMoveSrcStepDstFinite {
            src: za,
            step: te,
            dest: ne
        })
        .to_string(),
        "ZA片TENE"
    );
    assert_eq!(
        PureMove__::NormalMove(NormalMove_::TamMoveStepsDuringFormer {
            src: ke,
            step: li,
            first_dest: ki,
            second_dest: le
        })
        .to_string(),
        "KE皇LI[KI]LE"
    );
    assert_eq!(
        PureMove__::NormalMove(NormalMove_::TamMoveNoStep {
            src: ke,
            first_dest: ki,
            second_dest: ke
        })
        .to_string(),
        "KE皇[KI]KE"
    );
    assert_eq!(
        PureMove__::NormalMove(NormalMove_::TamMoveStepsDuringLatter {
            src: ke,
            first_dest: ki,
            step: li,
            second_dest: le
        })
        .to_string(),
        "KE皇[KI]LILE"
    );
    let signs: Vec<String> = [
        Profession::Nuak1,
        Profession::Kauk2,
        Profession::Gua2,
        Profession::Kaun1,
        Profession::Dau2,
        Profession::Maun1,
        Profession::Kua2,
        Profession::Tuk2,
        Profession::Uai1,
        Profession::Io,
    ]
    .iter()
    .map(|prof| {
        PureMove__::NormalMove(NormalMove_::NonTamMoveFromHopZuo {
            color: Color::Kok1,
            prof: *prof,
            dest: Coord(Row::Y, Column::X),
        })
        .to_string()
    })
    .collect();
    assert_eq!(
        signs,
        vec![
            "赤船XY", "赤兵XY", "赤弓XY", "赤車XY", "赤虎XY", "赤馬XY", "赤筆XY", "赤巫XY", "赤将XY",
            "赤王XY"
        ]
    );
}
