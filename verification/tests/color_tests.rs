use vide::color::Color;
use vide::fx::{Fx, FX_ONE_RAW};

#[test]
fn parse_reads_long_hexadecimal_colors() {
    let c = Color::parse("#ff0000").unwrap();
    assert_eq!(c.r.raw, FX_ONE_RAW);
    assert_eq!(c.g.raw, 0);
    assert_eq!(c.b.raw, 0);
    assert_eq!(c.a.raw, FX_ONE_RAW);

    let grey = Color::parse("#808080").unwrap();
    // 128/255 scaled by 2^16, truncated: (128 * 65536) / 255 = 32896.
    assert_eq!(grey.r.raw, 32896);
    assert_eq!(grey.g.raw, 32896);
    assert_eq!(grey.b.raw, 32896);
}

#[test]
fn parse_expands_short_hexadecimal_digits() {
    let c = Color::parse("#f00").unwrap();
    assert_eq!(c.r.raw, FX_ONE_RAW);
    assert_eq!(c.g.raw, 0);

    let with_alpha = Color::parse("#0f08").unwrap();
    assert_eq!(with_alpha.g.raw, FX_ONE_RAW);
    // The alpha digit 8 expands to 0x88 = 136: (136 * 65536) / 255 = 34952.
    assert_eq!(with_alpha.a.raw, 34952);
}

#[test]
fn parse_reads_an_eight_digit_color() {
    let c = Color::parse("#ff000080").unwrap();
    assert_eq!(c.r.raw, FX_ONE_RAW);
    assert_eq!(c.a.raw, 32896);
}

#[test]
fn parse_knows_the_named_colors() {
    assert_eq!(Color::parse("black").unwrap(), Color::black());
    assert_eq!(Color::parse("white").unwrap(), Color::white());
    assert_eq!(Color::parse("red").unwrap(), Color::red());
    assert_eq!(Color::parse("green").unwrap(), Color::green());
    assert_eq!(Color::parse("blue").unwrap(), Color::blue());
    assert_eq!(Color::parse("transparent").unwrap(), Color::transparent());
    assert_eq!(Color::parse("transparent_white").unwrap(), Color::transparent());
    assert_eq!(Color::parse("transparent black").unwrap(), Color::transparent());
}

#[test]
fn parse_rejects_what_it_does_not_know() {
    assert!(Color::parse("#xyz").is_none());
    assert!(Color::parse("#12345").is_none());
    assert!(Color::parse("fuchsia").is_none());
    assert!(Color::parse("").is_none());
}
