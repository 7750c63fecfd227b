use thermalnote::hex::parse_hex_u16;

#[test]
fn reads_the_example_identifiers() {
    assert_eq!(parse_hex_u16("0ed6"), Some(0x0ed6));
    assert_eq!(parse_hex_u16("06a6"), Some(0x06a6));
    assert_eq!(parse_hex_u16("0525"), Some(0x0525));
    assert_eq!(parse_hex_u16("a700"), Some(0xa700));
}

#[test]
fn reads_digits_of_either_case() {
    assert_eq!(parse_hex_u16("abcd"), Some(0xabcd));
    assert_eq!(parse_hex_u16("ABCD"), Some(0xabcd));
    assert_eq!(parse_hex_u16("aBcD"), Some(0xabcd));
    assert_eq!(parse_hex_u16("f"), Some(15));
    assert_eq!(parse_hex_u16("F"), Some(15));
    assert_eq!(parse_hex_u16("10"), Some(16));
    assert_eq!(parse_hex_u16("9"), Some(9));
    assert_eq!(parse_hex_u16("0"), Some(0));
}

#[test]
fn reads_up_to_sixteen_bits() {
    assert_eq!(parse_hex_u16("ffff"), Some(0xffff));
    assert_eq!(parse_hex_u16("FFFF"), Some(65535));
    assert_eq!(parse_hex_u16("10000"), None);
    assert_eq!(parse_hex_u16("fffff"), None);
    assert_eq!(parse_hex_u16("123456789abcdef0123456789abcdef"), None);
}

#[test]
fn leading_zeros_do_not_count() {
    assert_eq!(parse_hex_u16("0000"), Some(0));
    assert_eq!(parse_hex_u16("00000000000000000001"), Some(1));
    assert_eq!(parse_hex_u16("0000ffff"), Some(0xffff));
    assert_eq!(parse_hex_u16("000010000"), None);
}

#[test]
fn a_plus_sign_may_lead() {
    assert_eq!(parse_hex_u16("+1f"), Some(0x1f));
    assert_eq!(parse_hex_u16("+0"), Some(0));
    assert_eq!(parse_hex_u16("+ffff"), Some(0xffff));
    assert_eq!(parse_hex_u16("+10000"), None);
    assert_eq!(parse_hex_u16("+"), None);
    assert_eq!(parse_hex_u16("++1"), None);
    assert_eq!(parse_hex_u16("1+"), None);
    assert_eq!(parse_hex_u16("1+1"), None);
}

#[test]
fn refuses_what_is_not_a_number() {
    assert_eq!(parse_hex_u16(""), None);
    assert_eq!(parse_hex_u16("zz"), None);
    assert_eq!(parse_hex_u16("g"), None);
    assert_eq!(parse_hex_u16("G"), None);
    assert_eq!(parse_hex_u16("12g4"), None);
    assert_eq!(parse_hex_u16("0x1f"), None);
    assert_eq!(parse_hex_u16("0X1F"), None);
    assert_eq!(parse_hex_u16("-1"), None);
    assert_eq!(parse_hex_u16("-0"), None);
    assert_eq!(parse_hex_u16(" 1f"), None);
    assert_eq!(parse_hex_u16("1f "), None);
    assert_eq!(parse_hex_u16("1f\n"), None);
    assert_eq!(parse_hex_u16("1_f"), None);
    assert_eq!(parse_hex_u16("1.0"), None);
    assert_eq!(parse_hex_u16("/"), None);
    assert_eq!(parse_hex_u16(":"), None);
    assert_eq!(parse_hex_u16("@"), None);
    assert_eq!(parse_hex_u16("`"), None);
}

#[test]
fn refuses_digits_from_outside_ascii() {
    assert_eq!(parse_hex_u16("\u{ff11}\u{ff12}"), None);
    assert_eq!(parse_hex_u16("1\u{e9}"), None);
    assert_eq!(parse_hex_u16("\u{e9}1"), None);
    assert_eq!(parse_hex_u16("+\u{661}"), None);
    assert_eq!(parse_hex_u16("\u{ff0b}1"), None);
}

#[test]
fn reads_back_every_identifier() {
    for id in 0..=u16::MAX {
        assert_eq!(parse_hex_u16(&format!("{:x}", id)), Some(id));
        assert_eq!(parse_hex_u16(&format!("{:X}", id)), Some(id));
        assert_eq!(parse_hex_u16(&format!("{:04x}", id)), Some(id));
        assert_eq!(parse_hex_u16(&format!("+{:06X}", id)), Some(id));
    }
}

#[test]
fn agrees_with_the_standard_library_on_short_texts() {
    let alphabet: [char; 14] =
        ['0', '1', '9', 'a', 'f', 'g', 'A', 'F', 'G', '+', '-', '_', ' ', '\u{e9}'];
    let mut texts: Vec<String> = vec![String::new()];
    let mut start: usize = 0;
    for _ in 0..5 {
        let end: usize = texts.len();
        for i in start..end {
            for c in alphabet {
                let mut longer = texts[i].clone();
                longer.push(c);
                texts.push(longer);
            }
        }
        start = end;
    }
    assert_eq!(texts.len(), 1 + 14 + 196 + 2744 + 38416 + 537824);
    for text in &texts {
        assert_eq!(parse_hex_u16(text), u16::from_str_radix(text, 16).ok(), "{:?}", text);
    }
}
