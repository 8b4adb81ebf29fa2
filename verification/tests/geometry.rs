use iotcs::{Direction, Object, Pos};

#[test]
fn pos_keeps_its_coordinates() {
    for x in 0..7 {
        for y in 0..7 {
            assert_eq!(Pos::new(x, y).xy(), (x, y));
        }
    }
}

#[test]
fn step_north_lowers_the_first_coordinate() {
    assert_eq!(Pos::new(3, 4).step(Direction::North), Some(Pos::new(2, 4)));
    assert_eq!(Pos::new(1, 0).step(Direction::North), Some(Pos::new(0, 0)));
}

#[test]
fn step_south_raises_the_first_coordinate() {
    assert_eq!(Pos::new(3, 4).step(Direction::South), Some(Pos::new(4, 4)));
    assert_eq!(Pos::new(5, 6).step(Direction::South), Some(Pos::new(6, 6)));
}

#[test]
fn step_west_lowers_the_second_coordinate() {
    assert_eq!(Pos::new(3, 4).step(Direction::West), Some(Pos::new(3, 3)));
    assert_eq!(Pos::new(0, 1).step(Direction::West), Some(Pos::new(0, 0)));
}

#[test]
fn step_east_raises_the_second_coordinate() {
    assert_eq!(Pos::new(3, 4).step(Direction::East), Some(Pos::new(3, 5)));
    assert_eq!(Pos::new(6, 5).step(Direction::East), Some(Pos::new(6, 6)));
}

#[test]
fn step_off_each_edge_gives_nothing() {
    for k in 0..7 {
        assert_eq!(Pos::new(0, k).step(Direction::North), None);
        assert_eq!(Pos::new(6, k).step(Direction::South), None);
        assert_eq!(Pos::new(k, 0).step(Direction::West), None);
        assert_eq!(Pos::new(k, 6).step(Direction::East), None);
    }
}

#[test]
fn every_step_is_one_unit_and_stays_on_the_farm() {
    for p in Pos::values() {
        let (x, y) = p.xy();
        for d in Direction::values() {
            match p.step(d) {
                Some(q) => {
                    let (qx, qy) = q.xy();
                    assert!(qx <= 6 && qy <= 6);
                    let dx = if qx > x { qx - x } else { x - qx };
                    let dy = if qy > y { qy - y } else { y - qy };
                    assert_eq!(dx + dy, 1);
                }
                None => {
                    let at_edge = match d {
                        Direction::North => x == 0,
                        Direction::South => x == 6,
                        Direction::West => y == 0,
                        Direction::East => y == 6,
                    };
                    assert!(at_edge);
                }
            }
        }
    }
}

#[test]
fn step_there_and_back_returns() {
    let p = Pos::new(3, 3);
    let back = [
        (Direction::North, Direction::South),
        (Direction::South, Direction::North),
        (Direction::West, Direction::East),
        (Direction::East, Direction::West),
    ];
    for (there, home) in back {
        assert_eq!(p.step(there).unwrap().step(home), Some(p));
    }
}

#[test]
fn values_lists_all_positions_line_by_line() {
    let all = Pos::values();
    assert_eq!(all.len(), 49);
    assert_eq!(all[0], Pos::new(0, 0));
    assert_eq!(all[1], Pos::new(0, 1));
    assert_eq!(all[6], Pos::new(0, 6));
    assert_eq!(all[7], Pos::new(1, 0));
    assert_eq!(all[8], Pos::new(1, 1));
    assert_eq!(all[48], Pos::new(6, 6));
    for (k, p) in all.iter().enumerate() {
        assert_eq!(*p, Pos::new(k / 7, k % 7));
        assert_eq!(p.xy(), (k / 7, k % 7));
    }
}

#[test]
fn values_moves_east_along_a_line_and_south_between_lines() {
    let all = Pos::values();
    for k in 0..48 {
        if k % 7 == 6 {
            assert_eq!(all[k].step(Direction::East), None);
            assert_eq!(all[k - 6].step(Direction::South), Some(all[k + 1]));
        } else {
            assert_eq!(all[k].step(Direction::East), Some(all[k + 1]));
        }
    }
}

#[test]
fn values_holds_no_position_twice() {
    let all = Pos::values();
    for i in 0..all.len() {
        for j in 0..i {
            assert_ne!(all[i], all[j]);
        }
    }
}

#[test]
fn pos_to_string_shows_both_coordinates() {
    assert_eq!(Pos::new(0, 0).to_string(), "(0,0)");
    assert_eq!(Pos::new(2, 5).to_string(), "(2,5)");
    assert_eq!(Pos::new(6, 1).to_string(), "(6,1)");
}

#[test]
fn direction_values_are_north_south_west_east() {
    assert_eq!(
        Direction::values(),
        [Direction::North, Direction::South, Direction::West, Direction::East]
    );
}

#[test]
fn direction_to_string_is_an_arrow() {
    assert_eq!(Direction::North.to_string(), "\u{2191}");
    assert_eq!(Direction::South.to_string(), "\u{2193}");
    assert_eq!(Direction::West.to_string(), "\u{2190}");
    assert_eq!(Direction::East.to_string(), "\u{2192}");
}

fn all_objects() -> [Object; 15] {
    [
        Object::UFO,
        Object::AzureCow,
        Object::YellowCow,
        Object::PurpleCow,
        Object::OrangeCow,
        Object::RedBull,
        Object::Barn,
        Object::Crop,
        Object::Hay,
        Object::Fence,
        Object::Silo,
        Object::Wall1,
        Object::Wall2,
        Object::Corner,
        Object::Empty,
    ]
}

#[test]
fn is_cow_holds_of_the_four_cows_only() {
    for o in all_objects() {
        let expected = matches!(
            o,
            Object::AzureCow | Object::YellowCow | Object::PurpleCow | Object::OrangeCow
        );
        assert_eq!(o.is_cow(), expected);
    }
}

#[test]
fn is_bull_holds_of_the_red_bull_only() {
    for o in all_objects() {
        assert_eq!(o.is_bull(), o == Object::RedBull);
    }
}

#[test]
fn is_ufo_holds_of_the_ufo_only() {
    for o in all_objects() {
        assert_eq!(o.is_ufo(), o == Object::UFO);
    }
}

#[test]
fn is_wall_holds_of_the_four_walls_only() {
    for o in all_objects() {
        let expected = matches!(o, Object::Barn | Object::Crop | Object::Fence | Object::Hay);
        assert_eq!(o.is_wall(), expected);
    }
    assert!(!Object::Wall1.is_wall());
    assert!(!Object::Wall2.is_wall());
    assert!(!Object::Corner.is_wall());
}

#[test]
fn object_to_string_is_its_glyph() {
    let glyphs = ["U", "A", "Y", "P", "O", "R", "B", "C", "H", "F", "S", "|", "-", "+", " "];
    for (o, g) in all_objects().iter().zip(glyphs) {
        assert_eq!(o.to_string(), g);
    }
}
