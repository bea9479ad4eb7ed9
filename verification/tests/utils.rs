use rfid_reader::reader::err::ReaderError;
use rfid_reader::serial::err::SerialError;
use rfid_reader::text::{chars_of, find_first, hex_digit_of, matches_at, push_decimal, string_of};
use rfid_reader::utils::{deadline_reached, millis_u64, StopWatch};

#[test]
fn a_deadline_of_zero_is_reached_at_once() {
    let watch = StopWatch::new(0);
    assert!(watch.timed_out());
}

#[test]
fn a_far_deadline_is_not_reached() {
    let watch = StopWatch::new(3_600_000);
    assert!(watch.elapsed_ms() < 3_600_000);
    assert!(!watch.timed_out());
}

#[test]
fn the_deadline_is_reached_from_its_millisecond_on() {
    assert!(!deadline_reached(999, 1000));
    assert!(deadline_reached(1000, 1000));
    assert!(deadline_reached(1001, 1000));
    assert!(deadline_reached(0, 0));
}

#[test]
fn milliseconds_keep_their_low_64_bits() {
    assert_eq!(millis_u64(0), 0);
    assert_eq!(millis_u64(1234), 1234);
    assert_eq!(millis_u64(u64::MAX as u128), u64::MAX);
    assert_eq!(millis_u64(u64::MAX as u128 + 6), 5);
}

#[test]
fn numbers_are_written_in_decimal() {
    let mut s = String::from("n=");
    push_decimal(&mut s, 0);
    assert_eq!(s, "n=0");
    let mut s = String::new();
    push_decimal(&mut s, 4294967295);
    assert_eq!(s, "4294967295");
    let mut s = String::new();
    push_decimal(&mut s, 1007);
    assert_eq!(s, "1007");
    assert_eq!(ReaderError::BlockIdxTooLarge(256).to_string(), "Block index is too large: 256");
}

#[test]
fn hex_digits_are_upper_case() {
    let digits: String = (0..16).map(hex_digit_of).collect();
    assert_eq!(digits, "0123456789ABCDEF");
}

#[test]
fn the_first_occurrence_is_found() {
    let hay = chars_of("abcabcabd");
    assert_eq!(find_first(&hay, &chars_of("abc")), Some(0));
    assert_eq!(find_first(&hay, &chars_of("abd")), Some(6));
    assert_eq!(find_first(&hay, &chars_of("bd")), Some(7));
    assert_eq!(find_first(&hay, &chars_of("abe")), None);
    assert_eq!(find_first(&hay, &chars_of("")), Some(0));
    assert_eq!(find_first(&hay, &chars_of("abcabcabda")), None);
    assert_eq!(find_first(&chars_of(""), &chars_of("")), Some(0));
    assert!(matches_at(&hay, &chars_of("cab"), 2));
    assert!(!matches_at(&hay, &chars_of("cab"), 3));
    assert_eq!(string_of(&hay, 3, 6), "abc");
    assert_eq!(chars_of("äE0"), vec!['ä', 'E', '0']);
}

#[test]
fn reader_errors_show_what_they_carry() {
    assert_eq!(
        ReaderError::NoMatchingTargets(String::from("[CAFE,FF]")).to_string(),
        "Targets not found, recv: [CAFE,FF]"
    );
    assert_eq!(ReaderError::InvalidRegex(String::from("(")).to_string(), "Invalid regex: (");
    assert_eq!(
        ReaderError::SerialError(SerialError::NoSerialPortsFound).to_string(),
        "No serial ports found. Please ensure device is connected"
    );
    assert_eq!(
        ReaderError::from(SerialError::MultipleSerialPorts),
        ReaderError::SerialError(SerialError::MultipleSerialPorts)
    );
}
