use badgen::badge::{is_markup_safe, layout};
use badgen::{write_badge_with_font, BadgeError, CachedFont, Color, Font, FontGlyph, Opacity, Scale, Style};

/// A font of letters and digits that are all 600 units wide.
struct BoxFont {
    height: u32,
    advance: u32,
}

const BOX: &str = "m0 0l500 0l0-800l-500 0Z";

impl Font for BoxFont {
    fn height(&self) -> u32 {
        self.height
    }

    fn render_glyph(&mut self, c: char) -> Option<FontGlyph<'_>> {
        if c.is_ascii_alphanumeric() || c == '&' || c == '<' {
            Some(FontGlyph { path: Some(BOX), hor_advance: self.advance })
        } else if c == ' ' {
            Some(FontGlyph { path: None, hor_advance: self.advance / 2 })
        } else {
            None
        }
    }

    fn scale(&self) -> Scale {
        Scale::one()
    }

    fn precision(&self) -> u8 {
        0
    }
}

fn box_font() -> BoxFont {
    BoxFont { height: 800, advance: 600 }
}

/// The path of `count` boxes, the first of them at `x`.
fn boxes(x: u32, count: u32) -> String {
    (0..count).map(|i| format!("M{} 1400{}", x + 600 * i, BOX)).collect()
}

fn badge(style: &Style<'_>, status: &str, label: Option<&str>) -> Result<String, BadgeError> {
    let mut font = CachedFont::new(box_font());
    let mut scratch = String::from("left over");
    let mut out = String::new();
    write_badge_with_font(&mut out, style, status, label, &mut font, &mut scratch)?;
    Ok(out)
}

fn count(document: &str, part: &str) -> usize {
    document.matches(part).count()
}

#[test]
fn flat_badge_with_label() {
    let document = badge(&Style::parse("flat").unwrap(), "build", Some("passing")).unwrap();
    let expected = format!(
        "<svg width=\"93\" height=\"20\" viewBox=\"0 0 9300 2000\" \
         xmlns=\"http://www.w3.org/2000/svg\">\
         <defs><path id=\"s\" d=\"{}\"/><path id=\"l\" d=\"{}\"/></defs>\
         <path d=\"M0 0h5250v2000H0z\" fill=\"#555\"/>\
         <path d=\"M5250 0h4050v2000H5250z\" fill=\"#08C\"/>\
         <use href=\"#l\" fill=\"#000\" opacity=\".1\" transform=\"translate(100,100)\"/>\
         <use href=\"#l\" fill=\"#fff\"/>\
         <use href=\"#s\" fill=\"#000\" opacity=\".1\" transform=\"translate(100,100)\"/>\
         <use href=\"#s\" fill=\"#fff\"/></svg>",
        boxes(5800, 5),
        boxes(500, 7)
    );
    assert_eq!(document, expected);
    // The declared width is that of both backgrounds, in pixels.
    let mut font = box_font();
    let mut path = String::new();
    let origin = badgen::Point { x: 0, y: 0 };
    let skip = badgen::MissingGlyph::Skip;
    let label_width = badgen::render_text_path(&mut font, origin, "passing", 0, skip, &mut path);
    let status_width = badgen::render_text_path(&mut font, origin, "build", 0, skip, &mut path);
    let sizes = layout(20, label_width, status_width.unwrap()).unwrap();
    assert_eq!(sizes.label_rect_width, label_width.unwrap() + 500 + 550);
    assert_eq!(sizes.status_rect_width, status_width.unwrap() + 500 + 550);
    assert_eq!(sizes.image_size.x, ((sizes.label_rect_width + sizes.status_rect_width) / 100) as u64);
    assert!(document.starts_with(&format!("<svg width=\"{}\" height=\"20\"", sizes.image_size.x)));
    assert_eq!(count(&document, "<path d=\"M"), 2);
    assert_eq!(count(&document, "<mask"), 0);
    assert_eq!(count(&document, "<g"), 0);
    assert_eq!(count(&document, "linearGradient"), 0);
}

#[test]
fn classic_badge_without_label() {
    let document = badge(&Style::parse("classic").unwrap(), "42", None).unwrap();
    let expected = format!(
        "<svg width=\"22\" height=\"20\" viewBox=\"0 0 2200 2000\" \
         xmlns=\"http://www.w3.org/2000/svg\">\
         <defs><path id=\"s\" d=\"{}\"/></defs>\
         <linearGradient id=\"g\" x2=\"0\" y2=\"100%\">\
         <stop offset=\"0\" stop-opacity=\".1\" stop-color=\"#eee\"/>\
         <stop offset=\"1\" stop-opacity=\".1\"/></linearGradient>\
         <mask id=\"m\"><rect width=\"2200\" height=\"2000\" fill=\"#fff\" rx=\"300\"/></mask>\
         <g mask=\"url(#m)\">\
         <path d=\"M0 0h2200v2000H0z\" fill=\"#08C\"/>\
         <path d=\"M0 0h2200v2000H0z\" fill=\"url(#g)\"/></g>\
         <use href=\"#s\" fill=\"#000\" opacity=\".25\" transform=\"translate(100,100)\"/>\
         <use href=\"#s\" fill=\"#fff\"/></svg>",
        boxes(500, 2)
    );
    assert_eq!(document, expected);
    assert_eq!(count(&document, "fill=\"#08C\""), 1);
    assert_eq!(count(&document, "<mask id=\"m\">"), 1);
    assert_eq!(count(&document, "fill=\"url(#g)\""), 1);
}

#[test]
fn classic_badge_with_label() {
    let document = badge(&Style::classic(), "ok", Some("a b")).unwrap();
    let label = format!("M500 1400{}M1400 1400{}", BOX, BOX);
    let expected = format!(
        "<svg width=\"48\" height=\"20\" viewBox=\"0 0 4800 2000\" \
         xmlns=\"http://www.w3.org/2000/svg\">\
         <defs><path id=\"s\" d=\"{}\"/><path id=\"l\" d=\"{}\"/></defs>\
         <linearGradient id=\"g\" x2=\"0\" y2=\"100%\">\
         <stop offset=\"0\" stop-opacity=\".1\" stop-color=\"#eee\"/>\
         <stop offset=\"1\" stop-opacity=\".1\"/></linearGradient>\
         <mask id=\"m\"><rect width=\"4800\" height=\"2000\" fill=\"#fff\" rx=\"300\"/></mask>\
         <g mask=\"url(#m)\">\
         <path d=\"M0 0h2550v2000H0z\" fill=\"#555\"/>\
         <path d=\"M2550 0h2250v2000H2550z\" fill=\"#08C\"/>\
         <path d=\"M0 0h4800v2000H0z\" fill=\"url(#g)\"/></g>\
         <use href=\"#l\" fill=\"#000\" opacity=\".25\" transform=\"translate(100,100)\"/>\
         <use href=\"#l\" fill=\"#fff\"/>\
         <use href=\"#s\" fill=\"#000\" opacity=\".25\" transform=\"translate(100,100)\"/>\
         <use href=\"#s\" fill=\"#fff\"/></svg>",
        boxes(3100, 2),
        label
    );
    assert_eq!(document, expected);
}

#[test]
fn style_fields_shape_the_badge() {
    let mut style = Style::flat();
    style.height = 40;
    style.border_radius = 5;
    style.background = Color::Green;
    style.text_color = Color::Black;
    style.text_shadow_color = Color::Custom("123");
    style.text_shadow_opacity = Opacity::parse("0.50").unwrap();
    style.text_shadow_offset = 2;
    style.label_background = None;
    style.label_text_color = Some(Color::Red);
    let document = badge(&style, "1", Some("")).unwrap();
    let expected = format!(
        "<svg width=\"54\" height=\"40\" viewBox=\"0 0 2700 2000\" \
         xmlns=\"http://www.w3.org/2000/svg\">\
         <defs><path id=\"s\" d=\"{}\"/><path id=\"l\" d=\"\"/></defs>\
         <mask id=\"m\"><rect width=\"2700\" height=\"2000\" fill=\"#fff\" rx=\"500\"/></mask>\
         <g mask=\"url(#m)\">\
         <path d=\"M0 0h1050v2000H0z\"/>\
         <path d=\"M1050 0h1650v2000H1050z\" fill=\"#3C1\"/></g>\
         <use href=\"#l\" fill=\"#123\" opacity=\".5\" transform=\"translate(200,200)\"/>\
         <use href=\"#l\" fill=\"#E43\"/>\
         <use href=\"#s\" fill=\"#123\" opacity=\".5\" transform=\"translate(200,200)\"/>\
         <use href=\"#s\" fill=\"#2A2A2A\"/></svg>",
        boxes(1600, 1)
    );
    assert_eq!(document, expected);
    let mut style = Style::classic();
    style.border_radius = 0;
    style.gradient.as_mut().unwrap().end = Some(Color::Custom("abc"));
    style.gradient.as_mut().unwrap().opacity = Opacity::raw(".7");
    let document = badge(&style, "1", None).unwrap();
    assert!(document.contains(
        "<stop offset=\"1\" stop-opacity=\".7\" stop-color=\"#abc\"/></linearGradient>\
         <mask id=\"m\"><rect width=\"1600\" height=\"2000\" fill=\"#fff\"/></mask><g mask=\"url(#m)\">"
    ));
}

#[test]
fn badge_is_written_after_what_is_there() {
    let mut font = box_font();
    let mut scratch = String::new();
    let mut out = String::from("<?xml?>");
    let style = Style::flat();
    assert_eq!(write_badge_with_font(&mut out, &style, "a", None, &mut font, &mut scratch), Ok(()));
    assert!(out.starts_with("<?xml?><svg width=\"16\" height=\"20\" viewBox=\"0 0 1600 2000\""));
    assert!(out.ends_with("</svg>"));
    assert_eq!(scratch, boxes(500, 1));
    let first = out.clone();
    assert_eq!(write_badge_with_font(&mut out, &style, "b", Some("c"), &mut font, &mut scratch), Ok(()));
    assert!(out.starts_with(&first));
    assert_eq!(scratch, boxes(500, 1) + &boxes(2200, 1));
}

#[test]
fn text_must_be_safe_for_markup() {
    assert!(is_markup_safe("build passing > 90% \"ok\""));
    assert!(is_markup_safe(""));
    assert!(!is_markup_safe("a&b"));
    assert!(!is_markup_safe("<"));
    assert!(!is_markup_safe("t\u{e9}<"));
    let style = Style::flat();
    assert_eq!(badge(&style, "a&b", None), Err(BadgeError::InvalidCharacter));
    assert_eq!(badge(&style, "ok", Some("a<b")), Err(BadgeError::InvalidCharacter));
    assert_eq!(badge(&style, "<", Some("&")), Err(BadgeError::InvalidCharacter));
    let mut font = BoxFont { height: 2001, advance: 600 };
    let mut scratch = String::from("left over");
    let mut out = String::from("kept");
    let result = write_badge_with_font(&mut out, &style, "&", None, &mut font, &mut scratch);
    assert_eq!(result, Err(BadgeError::InvalidCharacter));
    assert_eq!(out, "kept");
    assert_eq!(scratch, "left over");
}

#[test]
fn font_must_fit_the_viewbox() {
    let style = Style::flat();
    let mut scratch = String::new();
    let mut out = String::from("kept");
    let mut font = BoxFont { height: 2001, advance: 600 };
    let result = write_badge_with_font(&mut out, &style, "a", None, &mut font, &mut scratch);
    assert_eq!(result, Err(BadgeError::FontTooTall));
    assert_eq!(out, "kept");
    let mut font = BoxFont { height: 2000, advance: 600 };
    let result = write_badge_with_font(&mut out, &style, "a", None, &mut font, &mut scratch);
    assert_eq!(result, Ok(()));
    assert_eq!(scratch, format!("M500 2000{}", BOX));
    let mut font = BoxFont { height: 0, advance: 600 };
    let result = write_badge_with_font(&mut out, &style, "a", None, &mut font, &mut scratch);
    assert_eq!(result, Ok(()));
    assert_eq!(scratch, format!("M500 1000{}", BOX));
    let mut font = BoxFont { height: 777, advance: 600 };
    let result = write_badge_with_font(&mut out, &style, "a", None, &mut font, &mut scratch);
    assert_eq!(result, Ok(()));
    assert_eq!(scratch, format!("M500 1389{}", BOX));
}

#[test]
fn texts_must_fit_the_coordinates() {
    let style = Style::flat();
    let mut scratch = String::new();
    let mut out = String::from("kept");
    let mut font = BoxFont { height: 800, advance: u32::MAX - 1000 };
    let result = write_badge_with_font(&mut out, &style, "a", None, &mut font, &mut scratch);
    assert_eq!(result, Ok(()));
    assert!(out.starts_with("kept<svg width=\"42949672\" height=\"20\" viewBox=\"0 0 4294967295 2000\""));
    let mut out = String::from("kept");
    let mut font = BoxFont { height: 800, advance: u32::MAX - 999 };
    let result = write_badge_with_font(&mut out, &style, "a", None, &mut font, &mut scratch);
    assert_eq!(result, Err(BadgeError::TextTooWide));
    assert_eq!(out, "kept");
    let mut font = BoxFont { height: 800, advance: u32::MAX - 2100 };
    let result = write_badge_with_font(&mut out, &style, "", Some("a"), &mut font, &mut scratch);
    assert_eq!(result, Ok(()));
    let mut out = String::from("kept");
    let mut font = BoxFont { height: 800, advance: u32::MAX - 2099 };
    let result = write_badge_with_font(&mut out, &style, "", Some("a"), &mut font, &mut scratch);
    assert_eq!(result, Err(BadgeError::TextTooWide));
    let mut font = BoxFont { height: 800, advance: u32::MAX / 2 };
    let result = write_badge_with_font(&mut out, &style, "a", Some("a"), &mut font, &mut scratch);
    assert_eq!(result, Err(BadgeError::TextTooWide));
    let result = write_badge_with_font(&mut out, &style, "aaa", None, &mut font, &mut scratch);
    assert_eq!(result, Err(BadgeError::TextTooWide));
    assert_eq!(out, "kept");
}

#[test]
fn sizes_follow_the_widths_of_the_texts() {
    let sizes = layout(20, Some(4200), 3000).unwrap();
    assert_eq!(sizes.label_rect_width, 5250);
    assert_eq!(sizes.status_rect_width, 4050);
    assert_eq!((sizes.viewbox_size.x, sizes.viewbox_size.y), (9300, 2000));
    assert_eq!((sizes.image_size.x, sizes.image_size.y), (93, 20));
    let sizes = layout(20, None, 1200).unwrap();
    assert_eq!(sizes.label_rect_width, 0);
    assert_eq!(sizes.status_rect_width, 2200);
    assert_eq!((sizes.viewbox_size.x, sizes.viewbox_size.y), (2200, 2000));
    assert_eq!((sizes.image_size.x, sizes.image_size.y), (22, 20));
    let sizes = layout(30, None, 1234).unwrap();
    assert_eq!((sizes.image_size.x, sizes.image_size.y), (33, 30));
    let sizes = layout(0, Some(0), 0).unwrap();
    assert_eq!((sizes.viewbox_size.x, sizes.image_size.x, sizes.image_size.y), (2100, 0, 0));
    let sizes = layout(65535, None, u32::MAX - 1000).unwrap();
    assert_eq!(sizes.viewbox_size.x, u32::MAX);
    assert_eq!(sizes.image_size.x, 140735340838);
    assert!(layout(20, None, u32::MAX - 999).is_none());
    assert!(layout(20, Some(u32::MAX), 0).is_none());
    assert!(layout(20, Some(u32::MAX - 2100), 0).is_some());
    assert!(layout(20, Some(u32::MAX - 2100), 1).is_none());
}
