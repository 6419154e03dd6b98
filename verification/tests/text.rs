use shadow_provider::text::{decimal_i32, decimal_u32, join_path, parse_u16};

#[test]
fn decimal_renders_numbers() {
    assert_eq!(decimal_u32(0), "0");
    assert_eq!(decimal_u32(7), "7");
    assert_eq!(decimal_u32(10), "10");
    assert_eq!(decimal_u32(3000), "3000");
    assert_eq!(decimal_u32(u32::MAX), u32::MAX.to_string());
}

#[test]
fn signed_decimal_renders_negative_numbers() {
    assert_eq!(decimal_i32(0), "0");
    assert_eq!(decimal_i32(-1), "-1");
    assert_eq!(decimal_i32(127), "127");
    assert_eq!(decimal_i32(i32::MIN), "-2147483648");
    assert_eq!(decimal_i32(i32::MAX), "2147483647");
}

#[test]
fn parse_u16_agrees_with_std() {
    let samples = [
        "", "+", "-", "0", "+0", "-0", "3000", "+3000", "03000", "65535", "65536", "99999",
        "123456789", " 1", "1 ", "1a", "a1", "++1", "+-1", "٣", "00000000000000000001",
    ];
    for s in samples {
        assert_eq!(parse_u16(s), s.parse::<u16>().ok(), "sample {:?}", s);
    }
}

#[test]
fn parse_reads_back_every_rendered_port() {
    for port in [0u16, 1, 9, 10, 99, 100, 3000, 8080, 65534, 65535] {
        let text = decimal_u32(port as u32);
        assert_eq!(parse_u16(&text), Some(port));
    }
}

#[test]
fn join_path_agrees_with_path_buf() {
    let samples = [
        ("/tmp", "zombie-1"),
        ("/tmp/", "zombie-1"),
        ("", "alice"),
        ("/tmp", "/abs"),
        ("base", ""),
        ("rel/dir", "alice.log"),
    ];
    for (base, part) in samples {
        let expected = std::path::PathBuf::from_iter([base, part]);
        assert_eq!(join_path(base, part), expected.to_string_lossy(), "{base} + {part}");
    }
    assert_eq!(join_path("/tmp", "zombie-1"), "/tmp/zombie-1");
}
