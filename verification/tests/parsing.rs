use iotcs::{Farm, FarmParseError, Object, Pos};

fn text(rows: [&str; 7]) -> String {
    let mut s = String::new();
    for row in rows {
        s.push_str(row);
        s.push('\n');
    }
    s
}

const MEADOW: [&str; 7] = [
    "+B+C+H+",
    "FHAHFHY",
    "+B+C+H+",
    "F U S P",
    "+B+C+H+",
    "FHOHFHR",
    "+B+C+HF",
];

fn census(farm: &Farm, wanted: fn(&Object) -> bool) -> usize {
    let mut n = 0;
    for p in Pos::values() {
        if let Some(o) = farm.get(p) {
            if wanted(&o) {
                n += 1;
            }
        }
    }
    n
}

#[test]
fn parse_reads_every_cell() {
    let farm = Farm::parse(&text(MEADOW)).unwrap();
    assert_eq!(farm.get(Pos::new(0, 0)), Some(Object::Corner));
    assert_eq!(farm.get(Pos::new(0, 1)), Some(Object::Barn));
    assert_eq!(farm.get(Pos::new(0, 3)), Some(Object::Crop));
    assert_eq!(farm.get(Pos::new(0, 5)), Some(Object::Hay));
    assert_eq!(farm.get(Pos::new(1, 0)), Some(Object::Fence));
    assert_eq!(farm.get(Pos::new(1, 1)), Some(Object::Hay));
    assert_eq!(farm.get(Pos::new(3, 1)), Some(Object::Empty));
    assert_eq!(farm.get(Pos::new(1, 2)), Some(Object::AzureCow));
    assert_eq!(farm.get(Pos::new(1, 6)), Some(Object::YellowCow));
    assert_eq!(farm.get(Pos::new(3, 2)), Some(Object::UFO));
    assert_eq!(farm.get(Pos::new(3, 4)), Some(Object::Silo));
    assert_eq!(farm.get(Pos::new(3, 6)), Some(Object::PurpleCow));
    assert_eq!(farm.get(Pos::new(5, 2)), Some(Object::OrangeCow));
    assert_eq!(farm.get(Pos::new(5, 6)), Some(Object::RedBull));
    assert_eq!(farm.get(Pos::new(6, 6)), Some(Object::Fence));
}

#[test]
fn parse_line_is_first_coordinate() {
    let farm = Farm::parse(&text(MEADOW)).unwrap();
    let rows = MEADOW;
    for p in Pos::values() {
        let (x, y) = p.xy();
        let glyph = rows[x].chars().nth(y).unwrap().to_string();
        assert_eq!(farm.get(p).unwrap().to_string(), glyph);
    }
}

#[test]
fn values_follows_the_text_of_a_farm() {
    let farm = Farm::parse(&text(MEADOW)).unwrap();
    let glyphs: String = MEADOW.concat();
    let read: String = Pos::values()
        .iter()
        .map(|p| farm.get(*p).unwrap().to_string())
        .collect();
    assert_eq!(read, glyphs);
}

#[test]
fn parse_records_where_the_ufo_starts() {
    let farm = Farm::parse(&text(MEADOW)).unwrap();
    assert_eq!(farm.current_ufo_pos(), Pos::new(3, 2));
    assert_eq!(farm.get(farm.current_ufo_pos()), Some(Object::UFO));
}

#[test]
fn parse_counts_the_cows_not_the_bull() {
    let farm = Farm::parse(&text(MEADOW)).unwrap();
    assert_eq!(farm.get_cow_count(), 4);
}

#[test]
fn from_str_is_parse() {
    let by_trait: Result<Farm, FarmParseError> = text(MEADOW).parse();
    assert_eq!(by_trait.unwrap(), Farm::parse(&text(MEADOW)).unwrap());
    let bad: Result<Farm, FarmParseError> = "".parse();
    assert!(bad.is_err());
}

#[test]
fn parsed_farm_holds_one_of_each_singleton_and_24_walls() {
    let farm = Farm::parse(&text(MEADOW)).unwrap();
    assert_eq!(census(&farm, Object::is_ufo), 1);
    assert_eq!(census(&farm, Object::is_bull), 1);
    assert_eq!(census(&farm, |o| *o == Object::Silo), 1);
    assert_eq!(census(&farm, |o| *o == Object::AzureCow), 1);
    assert_eq!(census(&farm, |o| *o == Object::YellowCow), 1);
    assert_eq!(census(&farm, |o| *o == Object::PurpleCow), 1);
    assert_eq!(census(&farm, |o| *o == Object::OrangeCow), 1);
    assert_eq!(census(&farm, Object::is_wall), 24);
}

#[test]
fn cow_count_matches_a_scan_of_the_cells() {
    let boards = [
        MEADOW,
        [
            "BBB BBB", "CCC CCC", "FFFRFFF", "HHH HHH", "   U   ", "       ", "       ",
        ],
        [
            "BBBBBBB", "CCCCCCC", "FFFFFFF", "HHH    ", " U A R ", "   P   ", "       ",
        ],
    ];
    let cows = [4, 0, 2];
    for (rows, expected) in boards.iter().zip(cows) {
        let farm = Farm::parse(&text(*rows)).unwrap();
        assert_eq!(census(&farm, Object::is_cow), expected);
        assert_eq!(farm.get_cow_count(), census(&farm, Object::is_cow));
    }
}

#[test]
fn parse_accepts_a_farm_without_cows_or_silo() {
    let rows = [
        "BBB BBB", "CCC CCC", "FFFRFFF", "HHH HHH", "   U   ", "       ", "       ",
    ];
    let farm = Farm::parse(&text(rows)).unwrap();
    assert_eq!(farm.get_cow_count(), 0);
    assert_eq!(farm.current_ufo_pos(), Pos::new(4, 3));
    assert_eq!(census(&farm, |o| *o == Object::Silo), 0);
}

#[test]
fn parse_rejects_the_empty_text() {
    assert!(Farm::parse("").is_err());
}

#[test]
fn parse_rejects_a_missing_line() {
    let whole = text(MEADOW);
    assert!(Farm::parse(&whole[..48]).is_err());
}

#[test]
fn parse_rejects_a_short_line() {
    let mut rows = MEADOW;
    rows[2] = "+B+C+H";
    assert!(Farm::parse(&text(rows)).is_err());
}

#[test]
fn parse_rejects_a_long_line() {
    let mut rows = MEADOW;
    rows[2] = "+B+C+H+ ";
    assert!(Farm::parse(&text(rows)).is_err());
}

#[test]
fn parse_rejects_a_missing_last_line_feed() {
    let whole = text(MEADOW);
    assert!(Farm::parse(&whole[..55]).is_err());
}

#[test]
fn parse_rejects_text_after_the_last_line() {
    let mut whole = text(MEADOW);
    whole.push('\n');
    assert!(Farm::parse(&whole).is_err());
    let mut whole = text(MEADOW);
    whole.push(' ');
    assert!(Farm::parse(&whole).is_err());
}

#[test]
fn parse_rejects_an_unknown_glyph() {
    let mut rows = MEADOW;
    rows[3] = "FxU S P";
    assert!(Farm::parse(&text(rows)).is_err());
    rows[3] = "F\u{e9}U S P";
    assert!(Farm::parse(&text(rows)).is_err());
    rows[3] = "F u S P";
    assert!(Farm::parse(&text(rows)).is_err());
}

#[test]
fn parse_rejects_a_second_ufo() {
    let mut rows = MEADOW;
    rows[3] = "FUU S P";
    assert!(Farm::parse(&text(rows)).is_err());
}

#[test]
fn parse_rejects_a_second_red_bull() {
    let mut rows = MEADOW;
    rows[3] = "FRU S P";
    assert!(Farm::parse(&text(rows)).is_err());
}

#[test]
fn parse_rejects_a_second_silo() {
    let mut rows = MEADOW;
    rows[3] = "FSU S P";
    assert!(Farm::parse(&text(rows)).is_err());
}

#[test]
fn parse_rejects_a_cow_colour_twice() {
    for cow in ["A", "Y", "P", "O"] {
        let mut rows = MEADOW;
        let line = format!("F{}U S P", cow);
        rows[3] = &line;
        assert!(Farm::parse(&text(rows)).is_err());
    }
}

#[test]
fn parse_rejects_a_farm_without_ufo() {
    let mut rows = MEADOW;
    rows[3] = "F   S P";
    assert!(Farm::parse(&text(rows)).is_err());
}

#[test]
fn parse_rejects_a_farm_without_red_bull() {
    let mut rows = MEADOW;
    rows[5] = "FHOHFH ";
    assert!(Farm::parse(&text(rows)).is_err());
}

#[test]
fn parse_rejects_23_walls() {
    let mut rows = MEADOW;
    rows[6] = "+B+C+H ";
    assert!(Farm::parse(&text(rows)).is_err());
}

#[test]
fn parse_rejects_25_walls() {
    let mut rows = MEADOW;
    rows[6] = "+BBC+HF";
    assert!(Farm::parse(&text(rows)).is_err());
}

#[test]
fn edge_glyphs_are_no_walls() {
    let mut rows = MEADOW;
    rows[6] = "|B-C+HF";
    assert!(Farm::parse(&text(rows)).is_ok());
    rows[6] = "+B+C+H|";
    assert!(Farm::parse(&text(rows)).is_err());
    rows[6] = "+B+C+H-";
    assert!(Farm::parse(&text(rows)).is_err());
}

#[test]
fn parse_error_is_one_value() {
    assert_eq!(Farm::parse("").unwrap_err(), FarmParseError);
    assert_eq!(Farm::parse("U").unwrap_err(), FarmParseError);
}

#[test]
fn farm_to_string_lists_first_coordinate_along_the_line() {
    let farm = Farm::parse(&text(MEADOW)).unwrap();
    let picture = farm.to_string();
    let lines: Vec<&str> = picture.split('\n').collect();
    assert_eq!(lines.len(), 8);
    assert_eq!(lines[7], "");
    assert_eq!(picture.chars().count(), 56);
    for p in Pos::values() {
        let (x, y) = p.xy();
        let shown = lines[y].chars().nth(x).unwrap().to_string();
        assert_eq!(shown, farm.get(p).unwrap().to_string());
    }
    assert_eq!(lines[0], "+F+F+F+");
    assert_eq!(lines[2], "+A+U+O+");
    assert_eq!(lines[6], "+Y+P+RF");
}
