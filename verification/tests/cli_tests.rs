use qck_prism::cli::{parse_color, parse_light, validate_args};
use qck_prism::codec::Color;
use qck_prism::DriverError;

#[test]
fn light_in_range_accepted() {
    assert_eq!(parse_light("0"), Ok(0));
    assert_eq!(parse_light("128"), Ok(128));
    assert_eq!(parse_light("255"), Ok(255));
    assert_eq!(parse_light("007"), Ok(7));
}

#[test]
fn light_signed_forms() {
    assert_eq!(parse_light("+17"), Ok(17));
    assert_eq!(parse_light("-0"), Ok(0));
    assert_eq!(parse_light("-1"), Err(DriverError::InvalidArgument));
    assert_eq!(parse_light("-128"), Err(DriverError::InvalidArgument));
}

#[test]
fn light_out_of_range_rejected() {
    assert_eq!(parse_light("256"), Err(DriverError::InvalidArgument));
    assert_eq!(parse_light("1000"), Err(DriverError::InvalidArgument));
    assert_eq!(
        parse_light("99999999999999999999"),
        Err(DriverError::InvalidArgument)
    );
}

#[test]
fn light_malformed_rejected() {
    assert_eq!(parse_light(""), Err(DriverError::InvalidArgument));
    assert_eq!(parse_light("-"), Err(DriverError::InvalidArgument));
    assert_eq!(parse_light("+"), Err(DriverError::InvalidArgument));
    assert_eq!(parse_light("12a"), Err(DriverError::InvalidArgument));
    assert_eq!(parse_light("abc"), Err(DriverError::InvalidArgument));
    assert_eq!(parse_light(" 5"), Err(DriverError::InvalidArgument));
    assert_eq!(parse_light("5 "), Err(DriverError::InvalidArgument));
}

#[test]
fn color_six_hex_digits_accepted() {
    assert_eq!(parse_color("FF0000"), Ok(Color { r: 255, g: 0, b: 0 }));
    assert_eq!(parse_color("00FF00"), Ok(Color { r: 0, g: 255, b: 0 }));
    assert_eq!(parse_color("0000ff"), Ok(Color { r: 0, g: 0, b: 255 }));
    assert_eq!(
        parse_color("AbCdEf"),
        Ok(Color {
            r: 0xab,
            g: 0xcd,
            b: 0xef
        })
    );
}

#[test]
fn color_wrong_length_rejected() {
    assert_eq!(parse_color(""), Err(DriverError::InvalidArgument));
    assert_eq!(parse_color("FFF"), Err(DriverError::InvalidArgument));
    assert_eq!(parse_color("FFFF"), Err(DriverError::InvalidArgument));
    assert_eq!(parse_color("FFFFF"), Err(DriverError::InvalidArgument));
    assert_eq!(parse_color("FFFFFFF"), Err(DriverError::InvalidArgument));
    assert_eq!(parse_color("FFFFFFFF"), Err(DriverError::InvalidArgument));
}

#[test]
fn color_non_hex_rejected() {
    assert_eq!(parse_color("GG0000"), Err(DriverError::InvalidArgument));
    assert_eq!(parse_color("12345g"), Err(DriverError::InvalidArgument));
    assert_eq!(parse_color("ÿÿ0000"), Err(DriverError::InvalidArgument));
}

#[test]
fn args_all_valid() {
    let args = validate_args("128", "FF0000", "00FF00").unwrap();
    assert_eq!(args.light_level, 128);
    assert_eq!(args.first_color, Color { r: 255, g: 0, b: 0 });
    assert_eq!(args.second_color, Color { r: 0, g: 255, b: 0 });
}

#[test]
fn args_defaults_valid() {
    let args = validate_args("255", "FFFFFF", "FFFFFF").unwrap();
    assert_eq!(args.light_level, 255);
    assert_eq!(
        args.first_color,
        Color {
            r: 255,
            g: 255,
            b: 255
        }
    );
}

#[test]
fn args_any_invalid_rejected() {
    assert_eq!(
        validate_args("256", "FF0000", "00FF00"),
        Err(DriverError::InvalidArgument)
    );
    assert_eq!(
        validate_args("128", "GG0000", "00FF00"),
        Err(DriverError::InvalidArgument)
    );
    assert_eq!(
        validate_args("128", "FF0000", "00FF0"),
        Err(DriverError::InvalidArgument)
    );
}
