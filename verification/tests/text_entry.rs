use vis_taskbar::text::{parse_edit_u32, parse_u32, u32_to_wide};

fn wide(s: &str) -> Vec<u16> {
    s.encode_utf16().collect()
}

#[test]
fn parses_plain_and_signed_numbers() {
    assert_eq!(parse_u32(&wide("123")), Some(123));
    assert_eq!(parse_u32(&wide("+7")), Some(7));
    assert_eq!(parse_u32(&wide("007")), Some(7));
    assert_eq!(parse_u32(&wide("4294967295")), Some(u32::MAX));
}

#[test]
fn rejects_what_is_not_a_u32() {
    assert_eq!(parse_u32(&wide("")), None);
    assert_eq!(parse_u32(&wide("+")), None);
    assert_eq!(parse_u32(&wide("-1")), None);
    assert_eq!(parse_u32(&wide("12a")), None);
    assert_eq!(parse_u32(&wide(" 1")), None);
    assert_eq!(parse_u32(&wide("4294967296")), None);
    assert_eq!(parse_u32(&wide("99999999999999")), None);
    assert_eq!(parse_u32(&wide("٣")), None);
}

#[test]
fn agrees_with_std_parse() {
    for s in ["0", "15", "+15", "-15", "", "+", "1e3", "4294967295", "4294967296", "00000000000000000001"] {
        assert_eq!(parse_u32(&wide(s)), s.parse::<u32>().ok(), "text {s:?}");
    }
}

#[test]
fn edit_box_falls_back_to_one() {
    assert_eq!(parse_edit_u32(&wide("20")), 20);
    assert_eq!(parse_edit_u32(&wide("abc")), 1);
    assert_eq!(parse_edit_u32(&wide("")), 1);
}

#[test]
fn writes_decimal_text_with_terminator() {
    assert_eq!(u32_to_wide(0), vec![b'0' as u16, 0]);
    assert_eq!(u32_to_wide(15), vec![b'1' as u16, b'5' as u16, 0]);
    let max = u32_to_wide(u32::MAX);
    assert_eq!(max[..max.len() - 1], wide("4294967295")[..]);
}

#[test]
fn written_text_reads_back() {
    for v in [0u32, 1, 9, 10, 15, 18000, 65535, u32::MAX] {
        let w = u32_to_wide(v);
        assert_eq!(parse_u32(&w[..w.len() - 1]), Some(v));
    }
}
