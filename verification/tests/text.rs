use mqtt_device::text::{as_string, parse_i16, parse_u16};

#[test]
fn u16_reads_digits_behind_an_optional_plus() {
    assert_eq!(parse_u16("0"), Some(0));
    assert_eq!(parse_u16("1883"), Some(1883));
    assert_eq!(parse_u16("+1883"), Some(1883));
    assert_eq!(parse_u16("65535"), Some(65535));
    assert_eq!(parse_u16("000000000000000065535"), Some(65535));
}

#[test]
fn u16_refuses_everything_else() {
    for text in ["", "+", "-", "-0", "-1", "++1", "65536", "99999999999999999999", " 1", "1 ", "1_0", "0x10", "\u{0661}"] {
        assert_eq!(parse_u16(text), None, "{text:?}");
    }
}

#[test]
fn i16_reads_digits_behind_an_optional_sign() {
    assert_eq!(parse_i16("0"), Some(0));
    assert_eq!(parse_i16("-0"), Some(0));
    assert_eq!(parse_i16("+7"), Some(7));
    assert_eq!(parse_i16("-7"), Some(-7));
    assert_eq!(parse_i16("32767"), Some(i16::MAX));
    assert_eq!(parse_i16("-32768"), Some(i16::MIN));
    assert_eq!(parse_i16("-00032768"), Some(i16::MIN));
}

#[test]
fn i16_refuses_everything_else() {
    for text in ["", "+", "-", "32768", "-32769", "+-1", "--1", "1.5", "1e3", " 1", "1;"] {
        assert_eq!(parse_i16(text), None, "{text:?}");
    }
}

#[test]
fn integers_are_read_as_the_standard_library_reads_them() {
    for text in ["", "+", "-", "+0", "-0", "12", "-12", "+12", "65535", "65536", "32767", "32768", "-32768", "-32769", "a", "1a"] {
        assert_eq!(parse_u16(text), text.parse::<u16>().ok(), "{text:?}");
        assert_eq!(parse_i16(text), text.parse::<i16>().ok(), "{text:?}");
    }
}

#[test]
fn bytes_are_text_only_where_they_are_utf8() {
    assert_eq!(as_string(&None), None);
    assert_eq!(as_string(&Some(vec![])), Some(String::new()));
    assert_eq!(as_string(&Some(b"abc".to_vec())), Some("abc".to_string()));
    assert_eq!(as_string(&Some("h\u{e9}llo".as_bytes().to_vec())), Some("h\u{e9}llo".to_string()));
    assert_eq!(as_string(&Some(vec![b'a', 0xff])), None);
    assert_eq!(as_string(&Some(vec![0xc0, 0x80])), None);
    assert_eq!(as_string(&Some(vec![0xed, 0xa0, 0x80])), None);
}
