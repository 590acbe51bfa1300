use badgen::color::is_valid_hex_color;
use badgen::{Color, Gradient, Opacity, Style};

#[test]
fn color_names_parse_in_any_case() {
    assert_eq!(Color::parse("green"), Some(Color::Green));
    assert_eq!(Color::parse("GREEN"), Some(Color::Green));
    assert_eq!(Color::parse("Green"), Some(Color::Green));
    assert_eq!(Color::parse("blue"), Some(Color::Blue));
    assert_eq!(Color::parse("red"), Some(Color::Red));
    assert_eq!(Color::parse("yellow"), Some(Color::Yellow));
    assert_eq!(Color::parse("orange"), Some(Color::Orange));
    assert_eq!(Color::parse("purple"), Some(Color::Purple));
    assert_eq!(Color::parse("pink"), Some(Color::Pink));
    assert_eq!(Color::parse("grey"), Some(Color::Grey));
    assert_eq!(Color::parse("gray"), Some(Color::Grey));
    assert_eq!(Color::parse("GrAy"), Some(Color::Grey));
    assert_eq!(Color::parse("cyan"), Some(Color::Cyan));
    assert_eq!(Color::parse("black"), Some(Color::Black));
}

#[test]
fn hex_colors_round_trip() {
    for hex in ["abc", "ABC", "aBc", "012", "abcdef", "ABCDEF", "09afAF", "fff", "000"] {
        let color = Color::parse(hex);
        assert_eq!(color, Some(Color::Custom(hex)));
        assert_eq!(color.unwrap().as_str(), hex);
    }
}

#[test]
fn other_strings_are_no_colors() {
    for s in ["", "a", "ab", "abcd", "abcde", "abcdefg", "ggg", "12345g", "#fff", "gre en", "greem",
        "\u{e9}\u{e9}\u{e9}", "ab\u{e9}", "greens", " red"]
    {
        assert_eq!(Color::parse(s), None, "{:?}", s);
    }
}

#[test]
fn hex_color_validity() {
    assert!(is_valid_hex_color("abc"));
    assert!(is_valid_hex_color("A1b2C3"));
    assert!(!is_valid_hex_color("ab"));
    assert!(!is_valid_hex_color("abcd"));
    assert!(!is_valid_hex_color("xyz"));
    assert!(!is_valid_hex_color("abcde\u{e9}"));
    assert!(!is_valid_hex_color(""));
}

#[test]
fn named_colors_have_their_hex() {
    assert_eq!(Color::Green.as_str(), "3C1");
    assert_eq!(Color::Blue.as_str(), "08C");
    assert_eq!(Color::Red.as_str(), "E43");
    assert_eq!(Color::Yellow.as_str(), "DB1");
    assert_eq!(Color::Orange.as_str(), "F73");
    assert_eq!(Color::Purple.as_str(), "94E");
    assert_eq!(Color::Pink.as_str(), "E5B");
    assert_eq!(Color::Grey.as_str(), "999");
    assert_eq!(Color::Cyan.as_str(), "1BC");
    assert_eq!(Color::Black.as_str(), "2A2A2A");
    assert_eq!(Color::Custom("a1b2c3").as_str(), "a1b2c3");
}

#[test]
fn color_is_written_after_a_hash() {
    let mut w = String::from("fill=");
    Color::Blue.fmt(&mut w);
    assert_eq!(w, "fill=#08C");
    Color::Custom("fff").fmt(&mut w);
    assert_eq!(w, "fill=#08C#fff");
}

#[test]
fn opacity_is_stored_in_shortest_form() {
    assert_eq!(Opacity::parse("0.0"), Some(Opacity::raw("0")));
    assert_eq!(Opacity::parse(".50"), Some(Opacity::raw(".5")));
    assert_eq!(Opacity::parse("0.50"), Some(Opacity::raw(".5")));
    assert_eq!(Opacity::parse(".05"), Some(Opacity::raw(".05")));
    assert_eq!(Opacity::parse("0.05"), Some(Opacity::raw(".05")));
    assert_eq!(Opacity::parse(".99"), Some(Opacity::raw(".99")));
    assert_eq!(Opacity::parse("0.9"), Some(Opacity::raw(".9")));
    for s in ["", ".", "00", "01", "1.1", "1.01", "1.000", "0.000", "..1", "0..", "-.1", "+1", "1,0",
        "\u{e9}", ".\u{e9}", "0.\u{661}", " 1", "1 ", "0.1a"]
    {
        assert_eq!(Opacity::parse(s), None, "{:?}", s);
    }
}

#[test]
fn opacity_parsing_is_idempotent() {
    for s in ["0", "1", ".0", ".5", ".00", ".50", ".05", ".55", "0.0", "0.5", "0.00", "0.50", "0.05",
        "0.55", "1.0", "1.00"]
    {
        let first = Opacity::parse(s).unwrap();
        let again = Opacity::parse(first.as_str());
        assert_eq!(again, Some(first), "{:?}", s);
    }
}

#[test]
fn opacity_knows_its_ends() {
    assert!(Opacity::parse("1.00").unwrap().is_opaque());
    assert!(!Opacity::parse("1.00").unwrap().is_transparent());
    assert!(Opacity::parse(".0").unwrap().is_transparent());
    assert!(!Opacity::parse(".0").unwrap().is_opaque());
    assert!(!Opacity::parse(".5").unwrap().is_opaque());
    assert!(!Opacity::parse(".5").unwrap().is_transparent());
    assert!(!Opacity::raw("1.0").is_opaque());
    assert!(!Opacity::raw("\u{e9}").is_opaque());
}

#[test]
fn opacity_is_written_as_it_is() {
    let opacity = Opacity::parse("0.25").unwrap();
    assert_eq!(opacity.as_str(), ".25");
    let mut w = String::from("opacity=");
    opacity.fmt(&mut w);
    assert_eq!(w, "opacity=.25");
    assert_eq!(Opacity::raw("anything").as_str(), "anything");
}

#[test]
fn classic_style_has_its_values() {
    let style = Style::classic();
    assert_eq!(style.height, 20);
    assert_eq!(style.border_radius, 3);
    assert_eq!(style.background, Color::Blue);
    assert_eq!(style.text_color, Color::Custom("fff"));
    assert_eq!(style.text_shadow_color, Color::Custom("000"));
    assert_eq!(style.text_shadow_opacity, Opacity::raw(".25"));
    assert_eq!(style.text_shadow_offset, 1);
    assert_eq!(style.label_background, Some(Color::Custom("555")));
    assert_eq!(style.label_text_color, None);
    let gradient: Gradient<'_> = style.gradient.unwrap();
    assert_eq!(gradient.start, Color::Custom("eee"));
    assert_eq!(gradient.end, None);
    assert_eq!(gradient.opacity, Opacity::raw(".1"));
}

#[test]
fn flat_style_has_its_values() {
    let style = Style::flat();
    assert_eq!(style.height, 20);
    assert_eq!(style.border_radius, 0);
    assert_eq!(style.background, Color::Blue);
    assert_eq!(style.text_color, Color::Custom("fff"));
    assert_eq!(style.text_shadow_color, Color::Custom("000"));
    assert_eq!(style.text_shadow_opacity, Opacity::raw(".1"));
    assert_eq!(style.text_shadow_offset, 1);
    assert_eq!(style.label_background, Some(Color::Custom("555")));
    assert_eq!(style.label_text_color, None);
    assert!(style.gradient.is_none());
}

#[test]
fn styles_are_named() {
    assert_eq!(Style::parse("classic").unwrap().border_radius, 3);
    assert!(Style::parse("classic").unwrap().gradient.is_some());
    assert_eq!(Style::parse("flat").unwrap().border_radius, 0);
    assert!(Style::parse("flat").unwrap().gradient.is_none());
    for name in ["", "Classic", "FLAT", "flat ", "plastic", "classi", "fl\u{e4}t"] {
        assert!(Style::parse(name).is_none(), "{:?}", name);
    }
}
