use badgen::num::{push_decimal, write_int};
use badgen::util::escape_char;
use badgen::{Escape, SvgWrite};

#[test]
fn escape_replaces_bad_characters() {
    let mut w = String::from(">");
    Escape("a&b<c>d\"e'f").fmt(&mut w);
    assert_eq!(w, ">a&amp;b&ltc&gtd&quote&#39f");
}

#[test]
fn escape_keeps_other_text() {
    let mut w = String::new();
    Escape("").fmt(&mut w);
    assert_eq!(w, "");
    Escape("plain t\u{e9}xt \u{1f600}").fmt(&mut w);
    assert_eq!(w, "plain t\u{e9}xt \u{1f600}");
    Escape("&&").fmt(&mut w);
    assert_eq!(w, "plain t\u{e9}xt \u{1f600}&amp;&amp;");
}

#[test]
fn escape_of_each_character() {
    assert_eq!(escape_char('&'), Some("&amp;"));
    assert_eq!(escape_char('<'), Some("&lt"));
    assert_eq!(escape_char('>'), Some("&gt"));
    assert_eq!(escape_char('"'), Some("&quot"));
    assert_eq!(escape_char('\''), Some("&#39"));
    assert_eq!(escape_char('a'), None);
    assert_eq!(escape_char(';'), None);
}

#[test]
fn writer_writes_elements() {
    let mut svg = SvgWrite::start(String::from("<!---->"));
    svg.attr_str("xmlns", "ns");
    svg.open("defs");
    svg.open("path");
    svg.attr_str("id", "s");
    svg.attr_int("width", 42);
    svg.attr_int("x", -7);
    svg.close_inline();
    svg.close("defs");
    svg.open("g");
    svg.close("g");
    assert_eq!(
        svg.finish(),
        "<!----><svg xmlns=\"ns\"><defs><path id=\"s\" width=\"42\" x=\"-7\"/></defs><g></g></svg>"
    );
}

#[test]
fn writer_closes_an_open_root() {
    assert_eq!(SvgWrite::start(String::new()).finish(), "<svg></svg>");
}

#[test]
fn writer_takes_a_value_from_a_function() {
    let mut svg = SvgWrite::start(String::new());
    svg.attr_fn("viewBox", |mut w: String| {
        w.push_str("0 0 ");
        w.push_str("1 2");
        w
    });
    svg.close_inline();
    assert_eq!(svg.finish(), "<svg viewBox=\"0 0 1 2\"/></svg>");
}

#[test]
fn writer_writes_a_value_before_the_end_of_the_tag() {
    let mut svg = SvgWrite::start(String::new());
    svg.open("text");
    svg.write_value("a<b");
    svg.write_value("&");
    svg.close("text");
    assert_eq!(svg.finish(), "<svg><texta&ltb>&amp;</text></svg>");
}

#[test]
fn integers_are_written_in_decimal() {
    let mut w = String::from("n=");
    write_int(&mut w, 0);
    w.push(' ');
    write_int(&mut w, 9300);
    w.push(' ');
    write_int(&mut w, -15);
    w.push(' ');
    write_int(&mut w, 170141183460469231731687303715884105727);
    assert_eq!(w, "n=0 9300 -15 170141183460469231731687303715884105727");
}

#[test]
fn fractions_are_written_in_decimal() {
    let cases: [(i128, u32, &str); 16] = [
        (0, 10, "0"),
        (5, 10, "0.5"),
        (-5, 10, "-0.5"),
        (6281, 10, "628.1"),
        (-6281, 10, "-628.1"),
        (20, 10, "2"),
        (-30, 10, "-3"),
        (21, 20, "1.05"),
        (1, 20, "0.05"),
        (1, 30, "0.03333333"),
        (31, 30, "1.03333333"),
        (-2, 30, "-0.06666666"),
        (1, 1280, "0.00078125"),
        (7, 1, "7"),
        (1, 2550, "0.00039215"),
        (1001, 1000, "1.001"),
    ];
    for (q, m, text) in cases {
        let mut w = String::new();
        push_decimal(&mut w, q, m);
        assert_eq!(w, text, "{} / {}", q, m);
    }
}
