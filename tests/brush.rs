use chat_brush::{
    byte_values_of, chars_of, interpret, interpret_given, is_whitespace, parse_color_triple, Anchor, BrushSize, BrushState,
    BrushVariant, Command, Direction, Pointer, Primitive, Rgb, Segment,
};

fn origin() -> Pointer {
    Pointer { x: 0, y: 0 }
}

fn after(texts: &[&str]) -> BrushState {
    let mut s = BrushState::new();
    for t in texts {
        s.apply_text(t, origin());
    }
    s
}

#[test]
fn initial_brush() {
    let s = BrushState::new();
    assert_eq!(s.variant, BrushVariant::Line);
    assert_eq!(s.size, BrushSize { twos: 0, threes: 0 });
    assert_eq!(s.color, Rgb::new(100, 149, 237));
    assert_eq!(s.segment.start, Anchor::TopLeft);
    assert_eq!(s.segment.end, Anchor::BottomRight);
}

#[test]
fn unknown_words_change_nothing() {
    for t in ["dance", "Ball", "ball ", "1 2", "1 2 3 4", "300 0 0", "-1 2 3", "bigger"] {
        assert_eq!(after(&[t]), BrushState::new(), "{t}");
    }
}

#[test]
fn ball_then_bigball_twice() {
    let s = after(&["ball", "bigball", "bigball"]);
    assert_eq!(s.variant, BrushVariant::Ball);
    // 1.5 * 1.5 = 9/4: two more threes, two fewer twos
    assert_eq!(s.size, BrushSize { twos: -2, threes: 2 });
}

#[test]
fn numeric_triples() {
    assert_eq!(after(&["255 0 0"]).color, Rgb::new(255, 0, 0));
    assert_eq!(after(&["2 255 dog 255"]).color, Rgb::new(2, 255, 255));
    assert_eq!(after(&["1 2"]).color, BrushState::new().color);
    let v = byte_values_of(&chars_of("2 255 dog 255"));
    assert_eq!(v, vec![2, 255, 255]);
}

#[test]
fn numeric_triple_edges() {
    assert_eq!(parse_color_triple(&chars_of("+5 006 7")), Some(Rgb::new(5, 6, 7)));
    assert_eq!(parse_color_triple(&chars_of("256 1 2 3")), Some(Rgb::new(1, 2, 3)));
    assert_eq!(parse_color_triple(&chars_of("1\u{a0}2\u{3000}3")), Some(Rgb::new(1, 2, 3)));
    assert_eq!(parse_color_triple(&chars_of("\t9\n8  7 ")), Some(Rgb::new(9, 8, 7)));
    assert_eq!(parse_color_triple(&chars_of("+ 1 2 3x")), None);
    assert_eq!(parse_color_triple(&chars_of("")), None);
}

#[test]
fn plum_regardless_of_color() {
    let s = after(&["255 0 0", "plum"]);
    assert_eq!(s.color, Rgb::new(221, 160, 221));
    assert_eq!(after(&["plum"]).color, Rgb::new(221, 160, 221));
}

#[test]
fn named_colors() {
    assert_eq!(after(&["255 255 255", "red"]).color, Rgb::new(255, 0, 0));
    assert_eq!(after(&["red", "cornflowerblue"]).color, Rgb::new(100, 149, 237));
    assert_eq!(interpret("olive"), Command::Paint(Rgb::new(128, 128, 0)));
    // the table's names are lower case and matched as written
    assert_eq!(interpret("Red"), Command::Ignore);
    assert_eq!(interpret(" red"), Command::Ignore);
}

#[test]
fn keywords_win_over_colors() {
    assert_eq!(interpret("ball"), Command::Shape(BrushVariant::Ball));
    assert_eq!(interpret("line"), Command::Shape(BrushVariant::Line));
    assert_eq!(interpret("funline"), Command::Shape(BrushVariant::FunLine));
    assert_eq!(interpret("funball"), Command::Shape(BrushVariant::FunBall));
    assert_eq!(interpret("big"), Command::Grow);
    assert_eq!(interpret("small"), Command::Shrink);
    assert_eq!(interpret("smallball"), Command::SmallBall);
}

#[test]
fn size_commands() {
    let s = after(&["big", "big", "small"]);
    assert_eq!(s.size, BrushSize { twos: 1, threes: 0 });
    assert_eq!(s.variant, BrushVariant::Line);
    let s = after(&["smallball"]);
    assert_eq!(s.size, BrushSize { twos: -1, threes: 0 });
    assert_eq!(s.variant, BrushVariant::Ball);
}

#[test]
fn size_has_a_floor_and_a_ceiling() {
    let mut s = BrushState::new();
    for _ in 0..100 {
        s.apply_text("small", origin());
    }
    assert_eq!(s.size, BrushSize { twos: -24, threes: 0 });
    for _ in 0..100 {
        s.apply_text("big", origin());
    }
    assert_eq!(s.size, BrushSize { twos: 24, threes: 0 });
    let mut s = BrushState::new();
    for _ in 0..100 {
        s.apply_text("bigball", origin());
    }
    assert_eq!(s.size, BrushSize { twos: -24, threes: 24 });
}

#[test]
fn directions_take_the_pointer() {
    let p = Pointer { x: 3, y: -2 };
    let cases = [
        ("v", Anchor::MidTop, Anchor::MidBottom),
        ("h", Anchor::MidLeft, Anchor::MidRight),
        ("fs", Anchor::TopRight, Anchor::BottomLeft),
        ("bs", Anchor::TopLeft, Anchor::BottomRight),
    ];
    for (t, start, end) in cases {
        let mut s = BrushState::new();
        s.apply_text(t, p);
        assert_eq!(s.segment, Segment { start, start_scale: 3, end, end_scale: -2 });
        assert_eq!(interpret(t), Command::Aim(match t {
            "v" => Direction::Vertical,
            "h" => Direction::Horizontal,
            "fs" => Direction::ForwardSlash,
            _ => Direction::BackSlash,
        }));
    }
}

#[test]
fn odd_input_is_harmless() {
    let long = "9 ".repeat(10_000);
    for t in ["", " ", "\t\n\r", "\u{0}\u{7}\u{1b}[31m", "ball\u{0}", "💥 1 2", long.as_str()] {
        assert_eq!(after(&[t]), BrushState::new());
    }
}

#[test]
fn messages_read_their_second_parameter() {
    let mut s = BrushState::new();
    s.apply_message(&vec!["#channel".to_string()], origin());
    assert_eq!(s, BrushState::new());
    s.apply_message(&vec![], origin());
    assert_eq!(s, BrushState::new());
    s.apply_message(&vec!["#channel".to_string(), "ball".to_string()], origin());
    assert_eq!(s.variant, BrushVariant::Ball);
}

#[test]
fn one_primitive_per_variant() {
    let s = after(&["ball"]);
    assert_eq!(s.frame_primitive(), Primitive::Disc { color: s.color, size: s.size, pulsing: false });
    let s = after(&["funball"]);
    assert_eq!(s.frame_primitive(), Primitive::Disc { color: s.color, size: s.size, pulsing: true });
    let s = BrushState::new();
    assert_eq!(
        s.frame_primitive(),
        Primitive::Stroke { color: s.color, size: s.size, segment: s.segment }
    );
    let s = after(&["funline"]);
    assert_eq!(s.frame_primitive(), Primitive::Wave { color: s.color });
}

#[test]
fn keyword_shadows_a_color_of_the_same_name() {
    assert_eq!(interpret_given("ball", Some((1, 2, 3))), Command::Shape(BrushVariant::Ball));
    assert_eq!(interpret_given("plum", Some((1, 2, 3))), Command::Paint(Rgb::new(221, 160, 221)));
    assert_eq!(interpret_given("zzz", Some((1, 2, 3))), Command::Paint(Rgb::new(1, 2, 3)));
    assert_eq!(interpret_given("4 5 6", Some((1, 2, 3))), Command::Paint(Rgb::new(1, 2, 3)));
    assert_eq!(interpret_given("4 5 6", None), Command::Paint(Rgb::new(4, 5, 6)));
    assert_eq!(interpret_given("zzz", None), Command::Ignore);
}

#[test]
fn whitespace_is_unicode_white_space() {
    for c in [' ', '\t', '\n', '\u{b}', '\u{c}', '\r', '\u{85}', '\u{a0}', '\u{2003}', '\u{3000}'] {
        assert!(is_whitespace(c), "{c:?}");
        assert_eq!(is_whitespace(c), c.is_whitespace());
    }
    for c in ['a', '0', '\u{0}', '\u{200b}', '\u{feff}'] {
        assert!(!is_whitespace(c), "{c:?}");
        assert_eq!(is_whitespace(c), c.is_whitespace());
    }
}
