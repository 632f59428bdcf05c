use sandbox_rs::text::{decimal_string, parse_unsigned_chars, trim_chars, IntErrorKind};

fn chars(s: &str) -> Vec<char> {
    s.chars().collect()
}

#[test]
fn decimal_forms() {
    assert_eq!(decimal_string(0), "0");
    assert_eq!(decimal_string(9), "9");
    assert_eq!(decimal_string(10), "10");
    assert_eq!(decimal_string(65536), "65536");
    assert_eq!(decimal_string(u128::MAX), u128::MAX.to_string());
}

#[test]
fn decimal_forms_read_back() {
    for n in [0u64, 7, 10, 99, 100, 65536, u64::MAX] {
        assert_eq!(parse_unsigned_chars(&chars(&decimal_string(n as u128)), u64::MAX), Ok(n));
    }
}

#[test]
fn parsing_agrees_with_std() {
    for s in ["", "+", "-", "+5", "-5", "007", "12a", "a12", "4294967295", "4294967296", "99999999999x", " 1"] {
        let ours = parse_unsigned_chars(&chars(s), u32::MAX as u64);
        let std = s.parse::<u32>();
        match (ours, std) {
            (Ok(a), Ok(b)) => assert_eq!(a, b as u64),
            (Err(k), Err(e)) => {
                assert_eq!(k.text(), e.to_string());
                match k {
                    IntErrorKind::Empty => assert_eq!(e.to_string(), "cannot parse integer from empty string"),
                    IntErrorKind::InvalidDigit => assert_eq!(e.to_string(), "invalid digit found in string"),
                    IntErrorKind::PosOverflow => assert_eq!(e.to_string(), "number too large to fit in target type"),
                }
            }
            (a, b) => panic!("{:?} differs from {:?} on {:?}", a, b, s),
        }
    }
}

#[test]
fn trimming_agrees_with_std() {
    for s in ["", "   ", " a ", "\u{85}x\u{2028}", "\u{200B}x", "a b", "\t\n\r\u{0B}\u{0C}x"] {
        let t: String = trim_chars(&chars(s)).into_iter().collect();
        assert_eq!(t, s.trim());
    }
}
