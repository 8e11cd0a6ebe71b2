use imgtool::{
    low_byte_of, parse_color, parse_command, parse_crop_region, parse_i32, parse_u32,
    split_fields, Color, Command, CropRegion, Rotation,
};

fn chars(s: &str) -> Vec<char> {
    s.chars().collect()
}

#[test]
fn split_fields_pieces() {
    assert_eq!(split_fields("1x2x3", 'x'), vec![chars("1"), chars("2"), chars("3")]);
    assert_eq!(split_fields("", 'x'), vec![chars("")]);
    assert_eq!(split_fields("x", 'x'), vec![chars(""), chars("")]);
    assert_eq!(split_fields("ab", 'x'), vec![chars("ab")]);
}

#[test]
fn parse_u32_values() {
    assert_eq!(parse_u32(&chars("42")), Some(42));
    assert_eq!(parse_u32(&chars("+7")), Some(7));
    assert_eq!(parse_u32(&chars("007")), Some(7));
    assert_eq!(parse_u32(&chars("4294967295")), Some(u32::MAX));
    assert_eq!(parse_u32(&chars("4294967296")), None);
    assert_eq!(parse_u32(&chars("99999999999999999999")), None);
    assert_eq!(parse_u32(&chars("")), None);
    assert_eq!(parse_u32(&chars("+")), None);
    assert_eq!(parse_u32(&chars("-1")), None);
    assert_eq!(parse_u32(&chars("1a")), None);
    assert_eq!(parse_u32(&chars(" 1")), None);
}

#[test]
fn parse_i32_values() {
    assert_eq!(parse_i32(&chars("-2147483648")), Some(i32::MIN));
    assert_eq!(parse_i32(&chars("2147483647")), Some(i32::MAX));
    assert_eq!(parse_i32(&chars("2147483648")), None);
    assert_eq!(parse_i32(&chars("-2147483649")), None);
    assert_eq!(parse_i32(&chars("-0")), Some(0));
    assert_eq!(parse_i32(&chars("+15")), Some(15));
    assert_eq!(parse_i32(&chars("-")), None);
    assert_eq!(parse_i32(&chars("--1")), None);
    for s in ["0", "-17", "+300", "12345678", "-99999"] {
        assert_eq!(parse_i32(&chars(s)), s.parse::<i32>().ok());
    }
}

#[test]
fn crop_region_parsing() {
    assert_eq!(
        parse_crop_region("10x20x30x40"),
        Some(CropRegion { x: 10, y: 20, width: 30, height: 40 })
    );
    assert_eq!(
        parse_crop_region("1x2x3x4x5"),
        Some(CropRegion { x: 1, y: 2, width: 3, height: 4 })
    );
    assert_eq!(parse_crop_region("10x20x30"), None);
    assert_eq!(parse_crop_region("10x20xx40"), None);
    assert_eq!(parse_crop_region("10x-20x30x40"), None);
}

#[test]
fn color_parsing_keeps_low_bytes() {
    assert_eq!(parse_color("255x0x128"), Some(Color { red: 255, green: 0, blue: 128 }));
    assert_eq!(parse_color("256x-1x511"), Some(Color { red: 0, green: 255, blue: 255 }));
    assert_eq!(parse_color("1x2x3x9"), Some(Color { red: 1, green: 2, blue: 3 }));
    assert_eq!(parse_color("1x2"), None);
    assert_eq!(parse_color("1xtwox3"), None);
}

#[test]
fn low_byte_matches_cast() {
    for v in [0i32, 1, -1, 255, 256, -256, -257, i32::MIN, i32::MAX, 1000] {
        assert_eq!(low_byte_of(v), v as u8);
    }
}

#[test]
fn rotation_angles() {
    assert_eq!(Rotation::from_degrees(90), Some(Rotation::Quarter));
    assert_eq!(Rotation::from_degrees(180), Some(Rotation::Half));
    assert_eq!(Rotation::from_degrees(270), Some(Rotation::ThreeQuarters));
    assert_eq!(Rotation::from_degrees(0), None);
    assert_eq!(Rotation::from_degrees(-90), None);
    assert_eq!(Rotation::from_degrees(360), None);
}

fn args(list: &[&str]) -> Vec<String> {
    list.iter().map(|s| s.to_string()).collect()
}

#[test]
fn command_dispatch() {
    match parse_command(&args(&["fractal", "out.png"])) {
        Some(Command::Fractal { outfile }) => assert_eq!(outfile, "out.png"),
        other => panic!("unexpected {:?}", other),
    }
    match parse_command(&args(&["blur", "2.5", "in.png", "out.png"])) {
        Some(Command::Blur { sigma, infile, outfile }) => {
            assert_eq!((sigma.as_str(), infile.as_str(), outfile.as_str()), ("2.5", "in.png", "out.png"))
        }
        other => panic!("unexpected {:?}", other),
    }
    match parse_command(&args(&["generate", "1x2x3", "out.png"])) {
        Some(Command::Generate { color, outfile }) => {
            assert_eq!((color.as_str(), outfile.as_str()), ("1x2x3", "out.png"))
        }
        other => panic!("unexpected {:?}", other),
    }
    match parse_command(&args(&["invert", "a.png"])) {
        Some(Command::Invert { file }) => assert_eq!(file, "a.png"),
        other => panic!("unexpected {:?}", other),
    }
    assert!(parse_command(&args(&[])).is_none());
    assert!(parse_command(&args(&["fractal"])).is_none());
    assert!(parse_command(&args(&["fractal", "a.png", "b.png"])).is_none());
    assert!(parse_command(&args(&["invert", "a.png", "b.png"])).is_none());
    assert!(parse_command(&args(&["sharpen", "a.png", "b.png"])).is_none());
    assert!(parse_command(&args(&["Fractal", "a.png"])).is_none());
}
