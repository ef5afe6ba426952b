use corylus::sprites::{
    background_to_pos, build_sprite_sheet, css_to_sprite, px_to_u16, split_on, ParseError, Sprite,
};

#[test]
fn px_parses_plain_pixel_counts() {
    assert_eq!(px_to_u16("800px"), Ok(800));
    assert_eq!(px_to_u16("0px"), Ok(0));
    assert_eq!(px_to_u16("0800px"), Ok(800));
    assert_eq!(px_to_u16("65535px"), Ok(65535));
    assert_eq!(px_to_u16("+150px"), Ok(150));
}

#[test]
fn px_reports_empty_digits() {
    assert_eq!(px_to_u16("px"), Err(ParseError::Empty));
}

#[test]
fn px_reports_invalid_digits() {
    assert_eq!(px_to_u16("12a4px"), Err(ParseError::InvalidDigit));
    assert_eq!(px_to_u16("+px"), Err(ParseError::InvalidDigit));
    assert_eq!(px_to_u16("-12px"), Err(ParseError::InvalidDigit));
}

#[test]
fn px_reports_overflow() {
    assert_eq!(px_to_u16("65536px"), Err(ParseError::Overflow));
    assert_eq!(px_to_u16("99999999px"), Err(ParseError::Overflow));
}

#[test]
fn background_extracts_offsets() {
    assert_eq!(background_to_pos("url(sheet.png) -32px -64px"), Ok((32, 64)));
    assert_eq!(background_to_pos("url(sheet.png) 00px 07px"), Ok((0, 7)));
}

#[test]
fn background_reports_first_failing_field() {
    assert_eq!(
        background_to_pos("url(sheet.png) -a2px -64px"),
        Err(ParseError::InvalidDigit)
    );
    assert_eq!(
        background_to_pos("url(sheet.png) -99999px -x4px"),
        Err(ParseError::Overflow)
    );
}

#[test]
fn split_keeps_fields_in_order() {
    let parts = split_on("url(a.png) -1px -2px", ' ');
    assert_eq!(parts, vec!["url(a.png)", "-1px", "-2px"]);
    assert_eq!(split_on("abc", ' '), vec!["abc"]);
    assert_eq!(split_on("a  b", ' '), vec!["a", "", "b"]);
}

#[test]
fn css_entry_converts_to_sprite() {
    assert_eq!(
        css_to_sprite("800px", "150px", "url(a.png) -5px -7px"),
        Ok(Sprite { width: 800, height: 150, x: 5, y: 7 })
    );
    assert_eq!(
        css_to_sprite("800px", "150px", "url(a.png) -zpx -7px"),
        Err(ParseError::InvalidDigit)
    );
}

#[test]
fn sheet_extent_is_the_maximum_reach() {
    let sprites = vec![
        Sprite { width: 10, height: 20, x: 5, y: 7 },
        Sprite { width: 3, height: 2, x: 50, y: 1 },
    ];
    let sheet = build_sprite_sheet(sprites.clone());
    assert_eq!(sheet.texture_width, 53);
    assert_eq!(sheet.texture_height, 27);
    assert_eq!(sheet.sprites, sprites);
}

#[test]
fn empty_sheet_has_zero_extent() {
    let sheet = build_sprite_sheet(Vec::new());
    assert_eq!(sheet.texture_width, 0);
    assert_eq!(sheet.texture_height, 0);
    assert!(sheet.sprites.is_empty());
}
