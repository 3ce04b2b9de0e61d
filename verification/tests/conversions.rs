use curdk::{
    activation, check_handle, check_status, checked_c_int, flags, key_char, key_code,
    matrix_cell_index, matrix_position, one_based_ints, one_based_repeat, one_based_strings,
    owned_c_string, Activation, Border, CStringArray, CText, Error, NulError, TerminalEvent,
    TerminalState,
};

const BIG: u32 = 0x8000_0000;

#[test]
fn c_text_keeps_the_bytes_of_a_clean_string() {
    let text = CText::new("héllo").unwrap();
    assert_eq!(text.as_bytes(), "héllo".as_bytes());
    assert_eq!(text.into_bytes(), "héllo".as_bytes().to_vec());
}

#[test]
fn c_text_reports_the_first_nul_byte() {
    let error = CText::new("a\0b\0").unwrap_err();
    assert_eq!(error.nul_position(), 1);
    assert_eq!(error.message(), "nul byte found in provided data at position: 1");
    assert_eq!(error.into_vec(), b"a\0b\0".to_vec());
}

#[test]
fn empty_string_is_a_valid_c_text() {
    assert!(CText::new("").unwrap().as_bytes().is_empty());
}

#[test]
fn error_messages_name_their_values() {
    assert_eq!(
        Error::ValueOutOfRange("width", 2147483648).message(),
        "width value 2147483648 exceeds the C integer range"
    );
    assert_eq!(
        Error::ValueOutOfRange("item count", 0).message(),
        "item count value 0 exceeds the C integer range"
    );
    assert_eq!(
        Error::InvalidActivation(-2).message(),
        "CDK returned an invalid activation value -2"
    );
    assert_eq!(
        Error::InvalidActivation(i32::MIN).message(),
        "CDK returned an invalid activation value -2147483648"
    );
    assert_eq!(
        Error::InvalidActivation(17).message(),
        "CDK returned an invalid activation value 17"
    );
    assert_eq!(
        Error::LengthMismatch("menu locations", 2, 1).message(),
        "menu locations has length 1, expected 2"
    );
    assert_eq!(
        Error::InteriorNul(NulError::new(3, b"abc\0".to_vec())).message(),
        "nul byte found in provided data at position: 3"
    );
}

#[test]
fn utf8_error_message_is_the_standard_one() {
    let bytes = vec![0x61, 0xff];
    let std_error = std::str::from_utf8(&bytes).unwrap_err();
    let error = owned_c_string(Some(&bytes), "value").unwrap_err();
    assert!(matches!(error, Error::InvalidUtf8(u) if u == std_error && u.valid_up_to() == 1));
    assert_eq!(error.message(), std_error.to_string());
}

#[test]
fn errors_convert_from_their_causes() {
    let nul = CText::new("x\0").unwrap_err();
    assert!(matches!(Error::from(nul), Error::InteriorNul(n) if n.nul_position() == 1));
    let utf8 = std::str::from_utf8(&[0xc3]).unwrap_err();
    assert!(matches!(Error::from(utf8), Error::InvalidUtf8(_)));
}

#[test]
fn checked_c_int_accepts_exactly_the_c_range() {
    assert_eq!(checked_c_int(0, "x").unwrap(), 0);
    assert_eq!(checked_c_int(12345, "x").unwrap(), 12345);
    assert!(matches!(
        checked_c_int(u64::MAX, "height"),
        Err(Error::ValueOutOfRange("height", u64::MAX))
    ));
}

#[test]
fn activation_codes_round_trip() {
    for index in [0usize, 1, 7, i32::MAX as usize] {
        assert_eq!(activation(index as i32).unwrap(), Activation::Selected(index));
    }
    assert_eq!(activation(-1).unwrap(), Activation::Cancelled);
    assert!(matches!(activation(i32::MIN), Err(Error::InvalidActivation(i32::MIN))));
}

#[test]
fn status_and_handle_checks() {
    assert!(check_status(0).is_ok());
    assert!(check_status(5).is_ok());
    assert!(matches!(check_status(-1), Err(Error::InvalidActivation(-1))));
    assert!(check_handle(true, "Label").is_ok());
    assert!(matches!(check_handle(false, "Label"), Err(Error::NullHandle("Label"))));
}

#[test]
fn string_arrays_keep_order_and_stop_at_the_first_nul() {
    let array = CStringArray::new(&["one", "two", ""]).unwrap();
    assert_eq!(array.len(), 3);
    let bytes: Vec<&[u8]> = array.as_slice().iter().map(|t| t.as_bytes()).collect();
    assert_eq!(bytes, vec![b"one".as_slice(), b"two".as_slice(), b"".as_slice()]);
    match CStringArray::new(&["ok", "b\0ad", "\0worse"]) {
        Err(Error::InteriorNul(n)) => {
            assert_eq!(n.nul_position(), 1);
            assert_eq!(n.into_vec(), b"b\0ad".to_vec());
        }
        other => panic!("unexpected {other:?}"),
    }
}

#[test]
fn one_based_lists_start_with_a_placeholder() {
    let strings = one_based_strings(&["R1", "R2"]).unwrap();
    let bytes: Vec<&[u8]> = strings.as_slice().iter().map(|t| t.as_bytes()).collect();
    assert_eq!(bytes, vec![b"".as_slice(), b"R1".as_slice(), b"R2".as_slice()]);
    assert!(matches!(one_based_strings(&["\0"]), Err(Error::InteriorNul(_))));
    assert_eq!(one_based_ints(&[8, 12], "column width").unwrap(), vec![0, 8, 12]);
    assert!(matches!(
        one_based_ints(&[8, BIG, BIG + 1], "column width"),
        Err(Error::ValueOutOfRange("column width", 0x8000_0000))
    ));
    assert_eq!(one_based_ints(&[], "column width").unwrap(), vec![0]);
    assert_eq!(one_based_repeat(5, 3), vec![0, 5, 5, 5]);
    assert_eq!(one_based_repeat(5, 0), vec![0]);
}

#[test]
fn strings_from_cdk_are_decoded() {
    assert!(matches!(owned_c_string(None, "Entry value"), Err(Error::NullHandle("Entry value"))));
    assert_eq!(owned_c_string(Some("grüß".as_bytes()), "v").unwrap(), "grüß");
    assert_eq!(owned_c_string(Some(b""), "v").unwrap(), "");
    assert!(matches!(owned_c_string(Some(&[0xff]), "v"), Err(Error::InvalidUtf8(_))));
}

#[test]
fn border_flags_and_lists_of_flags() {
    assert_eq!(Border::NONE().shadow_flag(), 0);
    assert_eq!(Border::BOXED().shadow_flag(), 0);
    assert_eq!(Border::SHADOWED().boxed_flag(), 1);
    assert_eq!(flags(&[true, false, true]), vec![1, 0, 1]);
    assert!(flags(&[]).is_empty());
}

#[test]
fn key_bytes_for_label_wait() {
    assert_eq!(key_code('x'), b'x' as i8);
    assert_eq!(key_code('é'), 'é' as u8 as i8);
    assert_eq!(key_code('\u{141}'), 0x41);
    assert_eq!(key_char(b'x' as i32), 'x');
    assert_eq!(key_char(-23), 'é');
    assert_eq!(key_char(0x141), 'A');
}

#[test]
fn matrix_cells_are_one_based_for_cdk() {
    assert_eq!(matrix_cell_index(0, 1).unwrap(), (1, 2));
    assert!(matches!(
        matrix_cell_index(i32::MAX as u32, 0),
        Err(Error::ValueOutOfRange("row", 0x8000_0000))
    ));
    assert!(matches!(
        matrix_cell_index(3, u32::MAX),
        Err(Error::ValueOutOfRange("column", 0x1_0000_0000))
    ));
}

#[test]
fn matrix_positions_are_zero_based_for_callers() {
    assert_eq!(matrix_position(1, 2), (0, 1));
    assert_eq!(matrix_position(0, -5), (0, 0));
    assert_eq!(matrix_position(i32::MIN, i32::MAX), (0, (i32::MAX - 1) as u32));
    for (row, col) in [(0u32, 0u32), (4, 9), (i32::MAX as u32 - 1, 0)] {
        let (r, c) = matrix_cell_index(row, col).unwrap();
        assert_eq!(matrix_position(r, c), (row, col));
    }
}

#[test]
fn curses_is_ended_once() {
    let mut alone = TerminalState::new();
    assert!(alone.close(TerminalEvent::WindowClosed));
    assert!(!alone.close(TerminalEvent::WindowClosed));
    let mut with_screen = TerminalState::new();
    assert!(!with_screen.close(TerminalEvent::ScreenClosed));
    assert!(!with_screen.close(TerminalEvent::WindowClosed));
}
