use badgen::path::{rounded, steps_per_unit};
use badgen::truetype::{font_metrics, glyph_request};
use badgen::{GlyphRequest, PathSink, Scale, Segment, TrueTypeFont};

fn sink(numer: u32, denom: u32, precision: u8) -> PathSink {
    PathSink::new(Scale::new(numer, denom).unwrap(), precision, String::new())
}

/// Reads the numbers of the path data `path`, each with the command letter before it.
fn operands(path: &str) -> Vec<(char, f64)> {
    let mut numbers = Vec::new();
    let mut command = ' ';
    let mut number = String::new();
    for c in path.chars() {
        let begins = c == '-' || c == ' ' || c.is_ascii_alphabetic();
        if begins && !number.is_empty() {
            numbers.push((command, number.parse().unwrap()));
            number.clear();
        }
        if c.is_ascii_alphabetic() {
            command = c;
        } else if c != ' ' {
            number.push(c);
        }
    }
    if !number.is_empty() {
        numbers.push((command, number.parse().unwrap()));
    }
    numbers
}

#[test]
fn scale_needs_a_denominator() {
    assert!(Scale::new(1, 0).is_none());
    let scale = Scale::new(11, 10).unwrap();
    assert_eq!((scale.numer(), scale.denom()), (11, 10));
    assert_eq!((Scale::one().numer(), Scale::one().denom()), (1, 1));
    assert_eq!(Scale::new(0, 5).unwrap().numer(), 0);
}

#[test]
fn rounding_is_to_the_nearest_away_from_zero() {
    assert_eq!(rounded(11, 2), 6);
    assert_eq!(rounded(-11, 2), -6);
    assert_eq!(rounded(5, 2), 3);
    assert_eq!(rounded(-5, 2), -3);
    assert_eq!(rounded(4, 3), 1);
    assert_eq!(rounded(5, 3), 2);
    assert_eq!(rounded(-4, 3), -1);
    assert_eq!(rounded(0, 7), 0);
    assert_eq!(rounded(49, 100), 0);
    assert_eq!(rounded(50, 100), 1);
    assert_eq!(rounded(-49, 100), 0);
}

#[test]
fn precision_gives_the_steps() {
    assert_eq!(steps_per_unit(0), 1);
    assert_eq!(steps_per_unit(1), 10);
    assert_eq!(steps_per_unit(2), 20);
    assert_eq!(steps_per_unit(255), 2550);
}

#[test]
fn rectangle_outline_is_traced_by_its_path() {
    let corners = [(100, 200), (700, 200), (700, 900), (100, 900)];
    let mut sink = sink(1, 1, 0);
    sink.move_to(corners[0].0, corners[0].1);
    sink.line_to(corners[1].0, corners[1].1);
    sink.line_to(corners[2].0, corners[2].1);
    sink.line_to(corners[3].0, corners[3].1);
    sink.close();
    let path = sink.into_path();
    assert_eq!(path, "m100-200l600 0l0-700l-600 0Z");
    let numbers = operands(&path);
    assert_eq!(numbers.len(), 8);
    let (mut x, mut y) = (0.0, 0.0);
    for (i, corner) in corners.iter().enumerate() {
        x += numbers[2 * i].1;
        y -= numbers[2 * i + 1].1;
        assert_eq!((x, y), (corner.0 as f64, corner.1 as f64));
    }
}

#[test]
fn scaled_rectangle_is_traced_within_the_rounding() {
    let corners = [(3, 7), (508, 7), (508, 333), (3, 333)];
    for precision in [0u8, 1, 2, 3] {
        let mut sink = sink(11, 10, precision);
        let segs = [
            Segment::MoveTo { x: 3, y: 7 },
            Segment::LineTo { x: 508, y: 7 },
            Segment::LineTo { x: 508, y: 333 },
            Segment::LineTo { x: 3, y: 333 },
            Segment::Close,
        ];
        sink.outline(&segs);
        let numbers = operands(&sink.into_path());
        assert_eq!(numbers.len(), 8);
        let step = if precision == 0 { 1.0 } else { 1.0 / (precision as f64 * 10.0) };
        let (mut x, mut y) = (0.0, 0.0);
        for (i, corner) in corners.iter().enumerate() {
            x += numbers[2 * i].1;
            y -= numbers[2 * i + 1].1;
            let slack = (i + 1) as f64 * step / 2.0 + 1e-6;
            assert!((x - corner.0 as f64 * 1.1).abs() <= slack, "{} {}", precision, i);
            assert!((y - corner.1 as f64 * 1.1).abs() <= slack, "{} {}", precision, i);
        }
    }
}

#[test]
fn operands_are_rounded_to_the_precision() {
    let mut whole = sink(11, 10, 0);
    whole.line_to(5, -5);
    whole.line_to(4, -5);
    assert_eq!(whole.into_path(), "l6 6l-1 0");
    let mut tenths = sink(11, 10, 1);
    tenths.line_to(5, -5);
    tenths.line_to(15, -5);
    tenths.line_to(15, 5);
    assert_eq!(tenths.into_path(), "l5.5 5.5l11 0l0-11");
    let mut twentieths = sink(1, 3, 2);
    twentieths.move_to(1, 1);
    assert_eq!(twentieths.into_path(), "m0.35-0.35");
    let mut thirtieths = sink(1, 3, 3);
    thirtieths.move_to(1, -2);
    assert_eq!(thirtieths.into_path(), "m0.33333333 0.66666666");
}

#[test]
fn curves_take_all_their_points_from_the_last_position() {
    let mut sink = sink(1, 1, 0);
    sink.move_to(10, 10);
    sink.quad_to(11, 8, 13, 6);
    sink.curve_to(14, 6, 12, 7, 10, 10);
    sink.close();
    sink.line_to(10, 11);
    assert_eq!(sink.into_path(), "m10-10q1 2 3 4c1 0-1-1-3-4Zl0-1");
}

#[test]
fn absolute_move_is_written_in_screen_units() {
    let mut sink = sink(11, 10, 0);
    sink.write_move_to_abs(500, 1550, 1);
    sink.write_move_to_abs(11, -7, 2);
    sink.write_str("x");
    sink.write_value(-3, 2, false);
    sink.write_value(1, 4, false);
    sink.write_value(3, 4, true);
    assert_eq!(sink.into_path(), "M500 1550M6-4x-2 01");
    let mut fine = PathSink::new(Scale::one(), 1, String::from(">"));
    fine.write_move_to_abs(11, -7, 2);
    assert_eq!(fine.into_path(), ">M5.5-3.5");
}

#[test]
fn segment_by_segment_is_the_outline() {
    let segs = [
        Segment::MoveTo { x: 64, y: 128 },
        Segment::QuadTo { x1: 0, y1: 0, x: -64, y: 64 },
        Segment::CurveTo { x1: 1, y1: 2, x2: 3, y2: 4, x: 640, y: 0 },
        Segment::Close,
        Segment::LineTo { x: 0, y: 0 },
    ];
    let mut one = sink(1, 64, 1);
    for seg in segs {
        one.segment(seg);
    }
    let mut all = sink(1, 64, 1);
    all.outline(&segs);
    let path = all.into_path();
    assert_eq!(one.into_path(), path);
    assert_eq!(path, "m1-2q-1 2-2 1c1 1 1 0.9 11 1Zl-10 0");
}

#[test]
fn font_metrics_follow_the_em() {
    let (scale, outline_scale, height) = font_metrics(1100, 1000, -293);
    assert_eq!((scale.numer(), scale.denom()), (1100, 1000));
    assert_eq!((outline_scale.numer(), outline_scale.denom()), (1100, 64000));
    assert_eq!(height, 777);
    assert_eq!(font_metrics(1100, 2048, -512).2, 825);
    assert_eq!(font_metrics(1100, 1000, 0).2, 1100);
    assert_eq!(font_metrics(1100, 16, -16).2, 0);
    assert_eq!(font_metrics(1100, 16, -32768).2, 0);
    assert_eq!(font_metrics(0, 1000, -200).2, 0);
    assert_eq!(font_metrics(4_000_000_000, 16, 32767).2, u32::MAX);
}

#[test]
fn glyph_request_needs_a_glyph_and_an_advance() {
    assert_eq!(glyph_request(Some(3), Some(600)), Some(GlyphRequest { glyph_id: 3, hor_advance: 600 }));
    assert_eq!(glyph_request(Some(3), None), None);
    assert_eq!(glyph_request(None, Some(600)), None);
    assert_eq!(glyph_request(None, None), None);
}

/// A font file of two glyphs: the letter `A` has the glyph 1, which advances by 600 of the
/// 1000 units of the em; the descender lies 200 units below the baseline.
fn font_data() -> Vec<u8> {
    let mut head = vec![0u8; 54];
    head[18..20].copy_from_slice(&1000u16.to_be_bytes());
    let mut hhea = vec![0u8; 36];
    hhea[6..8].copy_from_slice(&(-200i16).to_be_bytes());
    hhea[34..36].copy_from_slice(&2u16.to_be_bytes());
    let maxp = vec![0, 0, 0x50, 0, 0, 2];
    let hmtx = vec![0x01, 0xf4, 0, 0, 0x02, 0x58, 0, 0];
    let mut cmap = vec![0, 0, 0, 1, 0, 0, 0, 3, 0, 0, 0, 12, 0, 0, 1, 6, 0, 0];
    let mut glyphs = vec![0u8; 256];
    glyphs[b'A' as usize] = 1;
    cmap.extend_from_slice(&glyphs);
    let tables: [(&[u8; 4], Vec<u8>); 5] =
        [(b"cmap", cmap), (b"head", head), (b"hhea", hhea), (b"hmtx", hmtx), (b"maxp", maxp)];
    let mut data = vec![0, 1, 0, 0, 0, 5, 0, 0, 0, 0, 0, 0];
    let mut offset = 12 + 16 * tables.len();
    for (tag, table) in &tables {
        data.extend_from_slice(&tag[..]);
        data.extend_from_slice(&[0, 0, 0, 0]);
        data.extend_from_slice(&(offset as u32).to_be_bytes());
        data.extend_from_slice(&(table.len() as u32).to_be_bytes());
        offset += table.len();
    }
    for (_, table) in &tables {
        data.extend_from_slice(table);
    }
    data
}

#[test]
fn true_type_font_reads_the_face() {
    let data = font_data();
    let face = ttf_parser::Face::parse(&data, 0).unwrap();
    let font = TrueTypeFont::new(&face, 1100, 2);
    assert_eq!(font.height(), 880);
    assert_eq!((font.scale().numer(), font.scale().denom()), (1100, 1000));
    assert_eq!(font.precision(), 2);
    assert_eq!(font.glyph('A'), Some(GlyphRequest { glyph_id: 1, hor_advance: 600 }));
    assert_eq!(font.glyph('B'), None);
    assert_eq!(font.glyph('\u{e9}'), None);
}

#[test]
fn true_type_font_renders_outlines() {
    let data = font_data();
    let face = ttf_parser::Face::parse(&data, 0).unwrap();
    let mut font = TrueTypeFont::new(&face, 1100, 0);
    let segs = [
        Segment::MoveTo { x: 640, y: 0 },
        Segment::LineTo { x: 640, y: 6400 },
        Segment::LineTo { x: 672, y: 6400 },
        Segment::Close,
    ];
    let glyph = font.render_outline(600, Some(&segs));
    assert_eq!(glyph.path, Some("m11 0l0-110l1 0Z"));
    assert_eq!(glyph.hor_advance, 600);
    let blank = font.render_outline(250, None);
    assert_eq!(blank.path, None);
    assert_eq!(blank.hor_advance, 250);
    let empty = font.render_outline(0, Some(&[]));
    assert_eq!(empty.path, Some(""));
}
