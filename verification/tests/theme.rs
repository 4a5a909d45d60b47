use leftwm_theme_dark_nord::theme::{ColorScheme, Colors, Rgba, Theme, Value};

#[test]
fn test_rgba_from_hex_str() {
    let yellow = Rgba::from("#00FF00FF");
    let blue = Rgba::from("#0000ff");
    let transparent = Rgba::from("#00000000"); // black with 0 opacity
    let default = Rgba::from("unknown"); // black with 0 opacity
    assert_eq!(yellow, Rgba::new(0, 255, 0, 255));
    assert_eq!(blue, Rgba::new(0, 0, 255, 255));
    assert_eq!(transparent, Rgba::new(0, 0, 0, 0));
    assert_eq!(default, Rgba::default());
}

#[test]
fn test_rgba_into_hex_string() {
    let yellow = Rgba::from("#00FF00");
    let yellow: String = yellow.into();
    let red_semi_transparent = Rgba::from("#FF000090");
    let red_semi_transparent: String = red_semi_transparent.into();
    assert_eq!(yellow, "#00ff00ff".to_string());
    assert_eq!(red_semi_transparent, "#ff000090".to_string());
}

#[test]
fn new_packs_channels_red_first() {
    let c = Rgba::new(0x12, 0x34, 0x56, 0x78);
    assert_eq!(c.as_u32(), 0x1234_5678);
    assert_eq!(u32::from(c), 0x1234_5678);
}

#[test]
fn new_lets_wide_channels_spill() {
    // Bits beyond a channel's byte land in the next channel up, or fall off.
    assert_eq!(Rgba::new(0, 0, 0x1ff, 0).as_u32(), 0x0001_ff00);
    assert_eq!(Rgba::new(0x1ff, 0, 0, 0).as_u32(), 0xff00_0000);
}

#[test]
fn channels_read_back_what_new_packed() {
    let c = Rgba::new(191, 97, 106, 200);
    assert_eq!(c.red(), 191);
    assert_eq!(c.green(), 97);
    assert_eq!(c.blue(), 106);
    assert_eq!(c.alpha(), 200);
}

#[test]
fn new_of_channels_gives_colour_back() {
    let c = Rgba::from(0xdead_beefu32);
    let d = Rgba::new(c.red() as u32, c.green() as u32, c.blue() as u32, c.alpha() as u32);
    assert_eq!(c, d);
}

#[test]
fn component_reads_any_shift() {
    let c = Rgba::from(0x8765_4321u32);
    assert_eq!(c.component(0), 0x21);
    assert_eq!(c.component(4), 0x32);
    assert_eq!(c.component(28), 0x08);
    assert_eq!(c.component(31), 0x01);
}

#[test]
fn default_is_opaque_black() {
    let d = Rgba::default();
    assert_eq!(d, Rgba::new(0, 0, 0, 255));
    assert_eq!(d.as_u32(), 255);
}

#[test]
fn u32_round_trip() {
    for raw in [0u32, 1, 255, 0x8000_0000, u32::MAX] {
        assert_eq!(u32::from(Rgba::from(raw)), raw);
    }
}

#[test]
fn text_round_trip() {
    for raw in [0u32, 0x0102_0304, 0xabcd_ef01, 0xffff_ffff, 0x00ff_00ff] {
        let c = Rgba::from(raw);
        let text: String = c.into();
        assert_eq!(Rgba::from(text.as_str()), c);
    }
}

#[test]
fn hex_text_is_lower_case_and_zero_padded() {
    let text: String = Rgba::from(0x0000_000au32).into();
    assert_eq!(text, "#0000000a");
    let text: String = Rgba::from(0xABCD_EF12u32).into();
    assert_eq!(text, "#abcdef12");
}

#[test]
fn six_digits_are_opaque() {
    let c = Rgba::from("#bf616a");
    assert_eq!(c, Rgba::new(0xbf, 0x61, 0x6a, 0xff));
    assert_eq!(c.alpha(), 255);
}

#[test]
fn invalid_texts_give_the_default() {
    for text in ["", "#", "bf616a", "#bf616g", "#+", "# bf616a", "#123456789", "#-1", "#é"] {
        assert_eq!(Rgba::from(text), Rgba::default(), "{:?}", text);
    }
}

#[test]
fn only_six_or_eight_digits_are_colours() {
    // Short, long, signed or padded numbers are not colour texts.
    for text in ["#FFF", "#+ff", "#1", "#0000000001", "#+fffff", "#+ffffff", "#1234567"] {
        assert_eq!(Rgba::from(text), Rgba::default(), "{:?}", text);
    }
    assert_eq!(Rgba::from("#ABCDEF").as_u32(), 0xabcd_efff);
    assert_eq!(Rgba::from("#abcdef01").as_u32(), 0xabcd_ef01);
}

#[test]
fn multi_byte_first_character_gives_the_default() {
    assert_eq!(Rgba::from("é#00ff"), Rgba::default());
}

#[test]
fn theme_types_default_to_black() {
    let theme = Theme::default();
    assert!(theme.vars.is_empty());
    assert_eq!(theme.colors, Colors::default());
    assert_eq!(theme.colors.fg, Rgba::default());
    assert_eq!(ColorScheme::default().white, Rgba::default());
    let v = Value::Rgba(Rgba::from("#2e3440"));
    assert_eq!(v.clone(), v);
    assert_ne!(Value::ColorName("red".into()), Value::Ref("red".into()));
}
