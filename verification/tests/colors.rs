use dwbhk::{parse_hex_color, EmbedBuilder, ValidationError, MAX_COLOR};

#[test]
fn hex_with_hash_in_upper_case() {
    let embed = EmbedBuilder::new().set_color_hex("#FF0000").build().unwrap();
    assert_eq!(embed.color, Some(16711680));
}

#[test]
fn hex_without_hash_in_lower_case() {
    let embed = EmbedBuilder::new().set_color_hex("ff0000").build().unwrap();
    assert_eq!(embed.color, Some(16711680));
    assert_eq!(embed.color, Some(0xFF0000));
}

#[test]
fn hex_with_other_letters_is_refused() {
    let result = EmbedBuilder::new().set_color_hex("zz0000").build();
    assert_eq!(result.err(), Some(ValidationError::InvalidColor));
}

#[test]
fn parse_reads_every_digit() {
    assert_eq!(parse_hex_color("0"), Some(0));
    assert_eq!(parse_hex_color("9"), Some(9));
    assert_eq!(parse_hex_color("a"), Some(10));
    assert_eq!(parse_hex_color("F"), Some(15));
    assert_eq!(parse_hex_color("10"), Some(16));
    assert_eq!(parse_hex_color("#123abc"), Some(0x123ABC));
    assert_eq!(parse_hex_color("AbCdEf"), Some(0xABCDEF));
    assert_eq!(parse_hex_color("#0123456789abcdef".get(0..7).unwrap()), Some(0x012345));
}

#[test]
fn parse_takes_the_whole_range_and_no_more() {
    assert_eq!(MAX_COLOR, 16777215);
    assert_eq!(parse_hex_color("ffffff"), Some(16777215));
    assert_eq!(parse_hex_color("#FFFFFF"), Some(16777215));
    assert_eq!(parse_hex_color("000000"), Some(0));
    assert_eq!(parse_hex_color("1000000"), None);
    assert_eq!(parse_hex_color("#1000000"), None);
    assert_eq!(parse_hex_color("ffffffff"), None);
    assert_eq!(parse_hex_color("ffffffffffffffffffffffffffffffff"), None);
}

#[test]
fn parse_takes_leading_zeros() {
    assert_eq!(parse_hex_color("0000000000ff"), Some(255));
    assert_eq!(parse_hex_color("#00000000000000000000000000000001"), Some(1));
}

#[test]
fn parse_refuses_empty_text() {
    assert_eq!(parse_hex_color(""), None);
    assert_eq!(parse_hex_color("#"), None);
}

#[test]
fn parse_strips_one_leading_hash_only() {
    assert_eq!(parse_hex_color("##ff0000"), None);
    assert_eq!(parse_hex_color("ff#0000"), None);
    assert_eq!(parse_hex_color("ff0000#"), None);
}

#[test]
fn parse_refuses_signs_blanks_and_prefixes() {
    assert_eq!(parse_hex_color("+ff"), None);
    assert_eq!(parse_hex_color("-ff"), None);
    assert_eq!(parse_hex_color(" ff"), None);
    assert_eq!(parse_hex_color("ff "), None);
    assert_eq!(parse_hex_color("0xff"), None);
    assert_eq!(parse_hex_color("g"), None);
    assert_eq!(parse_hex_color("G0"), None);
    assert_eq!(parse_hex_color("/"), None);
    assert_eq!(parse_hex_color(":"), None);
    assert_eq!(parse_hex_color("@"), None);
    assert_eq!(parse_hex_color("`"), None);
}

#[test]
fn parse_refuses_letters_beyond_ascii() {
    assert_eq!(parse_hex_color("ｆｆ"), None);
    assert_eq!(parse_hex_color("ff\u{660}"), None);
    assert_eq!(parse_hex_color("é"), None);
}

#[test]
fn decimal_color_is_kept() {
    let embed = EmbedBuilder::new().set_color_decimal(16711680).build().unwrap();
    assert_eq!(embed.color, Some(16711680));
    let embed = EmbedBuilder::new().set_color_decimal(0).build().unwrap();
    assert_eq!(embed.color, Some(0));
    let embed = EmbedBuilder::new().set_color_decimal(MAX_COLOR).build().unwrap();
    assert_eq!(embed.color, Some(MAX_COLOR));
}

#[test]
fn decimal_color_beyond_24_bits_is_refused() {
    let result = EmbedBuilder::new().set_color_decimal(MAX_COLOR + 1).build();
    assert_eq!(result.err(), Some(ValidationError::InvalidColor));
    let result = EmbedBuilder::new().set_color_decimal(-1).build();
    assert_eq!(result.err(), Some(ValidationError::InvalidColor));
    let result = EmbedBuilder::new().set_color_decimal(i64::MAX).build();
    assert_eq!(result.err(), Some(ValidationError::InvalidColor));
    let result = EmbedBuilder::new().set_color_decimal(i64::MIN).build();
    assert_eq!(result.err(), Some(ValidationError::InvalidColor));
}

#[test]
fn the_last_color_wins() {
    let embed =
        EmbedBuilder::new().set_color_hex("zz0000").set_color_decimal(255).build().unwrap();
    assert_eq!(embed.color, Some(255));
    let embed = EmbedBuilder::new().set_color_hex("zz0000").set_color_hex("#00ff00").build();
    assert_eq!(embed.unwrap().color, Some(0x00FF00));
    let result = EmbedBuilder::new().set_color_decimal(255).set_color_hex("nope").build();
    assert_eq!(result.err(), Some(ValidationError::InvalidColor));
    let result = EmbedBuilder::new().set_color_hex("ff").set_color_decimal(-5).build();
    assert_eq!(result.err(), Some(ValidationError::InvalidColor));
}

#[test]
fn a_malformed_color_outlives_other_setters() {
    let result =
        EmbedBuilder::new().set_color_hex("").set_title("late").set_description("later").build();
    assert_eq!(result.err(), Some(ValidationError::InvalidColor));
}

#[test]
fn an_embed_without_color_is_accepted() {
    let embed = EmbedBuilder::new().set_title("plain").build().unwrap();
    assert_eq!(embed.color, None);
}
