use roko::color::Color;

#[test]
fn color_new_keeps_channels_and_opaque_alpha() {
    assert_eq!(Color::new(1, 2, 3).rgba(), [1, 2, 3, 255]);
}

#[test]
fn color_from_tuple() {
    let c: Color = Color::from((7, 8, 9));
    assert_eq!(c.rgba(), [7, 8, 9, 255]);
}

#[test]
fn color_add_channel_by_channel() {
    let c = Color::new(10, 20, 30).add(Color::new(5, 100, 225));
    assert_eq!(c.rgba(), [15, 120, 255, 255]);
}

#[test]
fn color_multiply_blends_and_rescales() {
    let c = Color::new(255, 100, 0).multiply(Color::new(128, 200, 255));
    assert_eq!(c.rgba(), [128, 78, 0, 255]);
}

#[test]
fn color_multiply_by_white_is_identity() {
    let c = Color::new(12, 34, 56).multiply(Color::new(255, 255, 255));
    assert_eq!(c.rgba(), [12, 34, 56, 255]);
}

#[test]
fn color_parse_short_hex_doubles_digits() {
    assert_eq!(Color::parse("#fff").unwrap().rgba(), [255, 255, 255, 255]);
    assert_eq!(Color::parse("#0a3").unwrap().rgba(), [0, 170, 51, 255]);
}

#[test]
fn color_parse_long_hex() {
    assert_eq!(Color::parse("#abc123").unwrap().rgba(), [0xab, 0xc1, 0x23, 255]);
}

#[test]
fn color_parse_hex_is_case_insensitive() {
    assert_eq!(Color::parse("#ABC123").unwrap().rgba(), [0xab, 0xc1, 0x23, 255]);
}

#[test]
fn color_parse_rgb_notation() {
    assert_eq!(Color::parse("rgb(10,20,30)").unwrap().rgba(), [10, 20, 30, 255]);
    assert_eq!(Color::parse("rgb(255,0,7)").unwrap().rgba(), [255, 0, 7, 255]);
}

#[test]
fn color_parse_ignores_spaces() {
    assert_eq!(Color::parse(" rgb( 1, 2 , 3 ) ").unwrap().rgba(), [1, 2, 3, 255]);
    assert_eq!(Color::parse("# f 0 0").unwrap().rgba(), [255, 0, 0, 255]);
}

#[test]
fn color_parse_rejects_malformed_text() {
    for text in [
        "", "fff", "#ff", "#ggg", "#abcd", "#12345g", "rgb(256,0,0)", "rgb(1,2)", "rgb(1,2,3,4)",
        "rgb(,2,3)", "rgb(1,2,3", "rgba(1,2,3)", "rgb(-1,2,3)",
    ] {
        let err = Color::parse(text).unwrap_err();
        assert_eq!(err.input(), text);
    }
}
