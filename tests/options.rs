use rustation_libretro::session::{init_variables, CoreVariables, VariableError};
use rustation_libretro::text::{
    parse_bool, parse_color_depth, parse_numeric, parse_ratio, parse_unsigned, parse_upscale,
    str_eq, trim_non_numeric, ParseNumError,
};

#[test]
fn parse_bool_accepts_each_spelling() {
    assert_eq!(parse_bool("true"), Ok(true));
    assert_eq!(parse_bool("enabled"), Ok(true));
    assert_eq!(parse_bool("on"), Ok(true));
    assert_eq!(parse_bool("false"), Ok(false));
    assert_eq!(parse_bool("disabled"), Ok(false));
    assert_eq!(parse_bool("off"), Ok(false));
}

#[test]
fn parse_bool_rejects_other_words() {
    assert_eq!(parse_bool("yes"), Err(()));
    assert_eq!(parse_bool(""), Err(()));
    assert_eq!(parse_bool("Enabled"), Err(()));
    assert_eq!(parse_bool("enabled "), Err(()));
}

#[test]
fn parse_upscale_reads_label_digits() {
    assert_eq!(parse_upscale("1x (native)"), Ok(1));
    assert_eq!(parse_upscale("2x"), Ok(2));
    assert_eq!(parse_upscale("10x"), Ok(10));
}

#[test]
fn parse_color_depth_reads_label_digits() {
    assert_eq!(parse_color_depth("dithered 16bpp (native)"), Ok(16));
    assert_eq!(parse_color_depth("32bpp"), Ok(32));
    assert_eq!(parse_color_depth("300bpp"), Err(ParseNumError::PosOverflow));
}

#[test]
fn parse_numeric_errors() {
    assert_eq!(parse_numeric("native"), Err(ParseNumError::Empty));
    assert_eq!(parse_numeric(""), Err(ParseNumError::Empty));
    assert_eq!(parse_numeric("1 2"), Err(ParseNumError::InvalidDigit));
    assert_eq!(parse_numeric("4294967296x"), Err(ParseNumError::PosOverflow));
    assert_eq!(parse_numeric("4294967295x"), Ok(4294967295));
}

#[test]
fn parse_unsigned_follows_std_rules() {
    assert_eq!(parse_unsigned("+7", u32::MAX), Ok(7));
    assert_eq!(parse_unsigned("+", u32::MAX), Err(ParseNumError::InvalidDigit));
    assert_eq!(parse_unsigned("-7", u32::MAX), Err(ParseNumError::InvalidDigit));
    assert_eq!(parse_unsigned("0042", u32::MAX), Ok(42));
    assert_eq!(parse_unsigned("256", 255), Err(ParseNumError::PosOverflow));
    assert_eq!(parse_unsigned("255", 255), Ok(255));
    assert_eq!(parse_unsigned("999x", 255), Err(ParseNumError::PosOverflow));
    for s in ["0", "1", "65535", "4294967295", "+12", "12a", "", "a"] {
        let expected = s.parse::<u32>().ok();
        assert_eq!(parse_unsigned(s, u32::MAX).ok(), expected, "{}", s);
    }
}

#[test]
fn trim_non_numeric_keeps_inner_text() {
    assert_eq!(trim_non_numeric("2x"), "2");
    assert_eq!(trim_non_numeric("16:9 (widescreen)"), "16:9");
    assert_eq!(trim_non_numeric("abc"), "");
    assert_eq!(trim_non_numeric("x\u{0663}y"), "\u{0663}");
}

#[test]
fn str_eq_compares_characters() {
    assert!(str_eq("rustation", "rustation"));
    assert!(!str_eq("rustation", "rustatio"));
    assert!(!str_eq("a", "b"));
}

#[test]
fn parse_ratio_reads_both_fields() {
    assert_eq!(parse_ratio("4:3 (original)"), Ok((4, 3)));
    assert_eq!(parse_ratio("16:9"), Ok((16, 9)));
    assert_eq!(parse_ratio("21:9"), Ok((21, 9)));
    assert_eq!(parse_ratio("1:2:3"), Ok((1, 2)));
}

#[test]
fn parse_ratio_rejects_malformed() {
    assert_eq!(parse_ratio("16"), Err(()));
    assert_eq!(parse_ratio("widescreen"), Err(()));
    assert_eq!(parse_ratio("16:"), Err(()));
}

#[test]
fn core_variables_take_frontend_values() {
    let mut v = CoreVariables::new();
    assert_eq!(v.internal_upscale_factor, 1);
    assert_eq!(v.set_variable("rustation_internal_upscale_factor", "4x"), Ok(()));
    assert_eq!(v.internal_upscale_factor, 4);
    assert_eq!(v.set_variable("rustation_internal_color_depth", "32bpp"), Ok(()));
    assert_eq!(v.internal_color_depth, 32);
    assert_eq!(v.set_variable("rustation_bios_menu", "enabled"), Ok(()));
    assert!(v.bios_menu);
    assert_eq!(v.set_variable("rustation_log_bios_calls", "on"), Ok(()));
    assert!(v.log_bios_calls);
    assert_eq!(v.set_variable("rustation_wireframe", "off"), Ok(()));
    assert!(!v.wireframe);
}

#[test]
fn core_variables_refuse_bad_input() {
    let mut v = CoreVariables::new();
    let before = v;
    assert_eq!(v.set_variable("rustation_bios_menu", "maybe"), Err(VariableError::BadValue));
    assert_eq!(v.set_variable("rustation_internal_upscale_factor", "0x"), Err(VariableError::BadValue));
    assert_eq!(v.set_variable("rustation_unknown", "on"), Err(VariableError::UnknownKey));
    assert_eq!(v, before);
}

#[test]
fn variable_definitions_cover_every_option() {
    let defs = init_variables();
    assert_eq!(defs.len(), 13);
    assert_eq!(defs[0].key, "rustation_internal_upscale_factor");
    assert_eq!(defs[12].key, "rustation_log_bios_calls");
    let mut v = CoreVariables::new();
    for d in &defs {
        let first = d.description.split("; ").nth(1).unwrap().split('|').next().unwrap();
        assert_eq!(v.set_variable(d.key, first), Ok(()), "{}", d.key);
    }
    assert_eq!(v, CoreVariables::new());
}
