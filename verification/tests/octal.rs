use thin_pool_docker_volume::octal::{de_octal_mode, OctalModeError};

fn mode(text: &str) -> Result<Option<u32>, OctalModeError> {
    de_octal_mode(Some(text.to_string()))
}

#[test]
fn modes_are_read_base_eight() {
    assert_eq!(mode("1777"), Ok(Some(0o1777)));
    assert_eq!(mode("1777"), Ok(Some(1023)));
    assert_eq!(mode("0755"), Ok(Some(493)));
    assert_eq!(mode("0"), Ok(Some(0)));
    assert_eq!(mode("+7"), Ok(Some(7)));
    assert_eq!(mode("37777777777"), Ok(Some(u32::MAX)));
}

#[test]
fn an_absent_mode_stays_absent() {
    assert_eq!(de_octal_mode(None), Ok(None));
}

#[test]
fn the_octal_prefix_is_dropped() {
    assert_eq!(mode("0o1777"), Ok(Some(0o1777)));
    assert_eq!(mode("0o0o755"), Ok(Some(0o755)));
    assert_eq!(mode("0o+7"), Ok(Some(7)));
}

#[test]
fn what_is_no_octal_number_is_refused() {
    assert_eq!(mode(""), Err(OctalModeError::Empty));
    assert_eq!(mode("0o"), Err(OctalModeError::Empty));
    assert_eq!(mode("+"), Err(OctalModeError::InvalidDigit));
    assert_eq!(mode("-7"), Err(OctalModeError::InvalidDigit));
    assert_eq!(mode("++7"), Err(OctalModeError::InvalidDigit));
    assert_eq!(mode("0789"), Err(OctalModeError::InvalidDigit));
    assert_eq!(mode(" 7"), Err(OctalModeError::InvalidDigit));
    assert_eq!(mode("7\u{e9}"), Err(OctalModeError::InvalidDigit));
    assert_eq!(mode("40000000000"), Err(OctalModeError::Overflow));
}

#[test]
fn the_first_fault_is_reported() {
    assert_eq!(mode("777777777777x"), Err(OctalModeError::Overflow));
    assert_eq!(mode("x777777777777"), Err(OctalModeError::InvalidDigit));
    assert_eq!(mode("37777777777x"), Err(OctalModeError::InvalidDigit));
}

#[test]
fn octal_agrees_with_the_standard_library() {
    for text in ["", "+", "-", "+0", "17", "8", "0x7", "37777777777", "40000000000", "99999999999"] {
        let expected = u32::from_str_radix(text, 8);
        match (mode(text), expected) {
            (Ok(Some(a)), Ok(b)) => assert_eq!(a, b),
            (Err(a), Err(b)) => assert_eq!(a.message(), b.to_string()),
            (a, b) => panic!("{:?} and {:?} for {:?}", a, b, text),
        }
    }
}

#[test]
fn a_written_mode_is_read_back() {
    for value in [0u32, 7, 8, 0o644, 0o1777, u32::MAX] {
        assert_eq!(mode(&format!("{:o}", value)), Ok(Some(value)));
        assert_eq!(mode(&format!("{:#o}", value)), Ok(Some(value)));
    }
}

#[test]
fn octal_errors_have_texts() {
    assert_eq!(OctalModeError::Empty.message(), "cannot parse integer from empty string");
    assert_eq!(OctalModeError::InvalidDigit.message(), "invalid digit found in string");
    assert_eq!(OctalModeError::Overflow.message(), "number too large to fit in target type");
}
