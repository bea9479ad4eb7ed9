use std::sync::{Arc, Mutex};

use rfid_reader::reader::constants::{
    AGC, AGC_RES, AGC_RES_2, AM, AM_RES, AM_RES_2, EXT_ANT, EXT_ANT_RES, INV_REQ, ISO, ISO_RES,
    RF_HALF_DATA, RF_HALF_DATA_RES, SINGLE_BLK_REGEX, UUID_REGEX,
};
use rfid_reader::reader::err::ReaderError;
use rfid_reader::reader::pattern::{first_match, is_pattern};
use rfid_reader::reader::{
    block_in_reply, check_pattern, check_patterns, find_block, find_uuid, get_uuid, reverse_uuid,
    single_block_command, uuid_in_reply, Handshake, Reader, ReaderTraits,
};
use rfid_reader::serial::err::SerialError;
use rfid_reader::serial::RFIDSerialTraits;

/// A link that answers each command with the reply scripted for it, and
/// keeps what it was sent.
struct ScriptedLink {
    replies: Vec<(String, Result<String, SerialError>)>,
    sent: Arc<Mutex<Vec<String>>>,
}

impl ScriptedLink {
    fn new() -> ScriptedLink {
        ScriptedLink { replies: Vec::new(), sent: Arc::new(Mutex::new(Vec::new())) }
    }

    fn expect(&mut self, cmd: &str, reply: Result<String, SerialError>) {
        self.replies.push((String::from(cmd), reply));
    }

    fn sent(&self) -> Arc<Mutex<Vec<String>>> {
        Arc::clone(&self.sent)
    }
}

impl RFIDSerialTraits for ScriptedLink {
    fn send_recv(&mut self, msg: &str) -> Result<String, SerialError> {
        self.sent.lock().unwrap().push(String::from(msg));
        for (cmd, reply) in self.replies.iter() {
            if cmd == msg {
                return reply.clone();
            }
        }
        panic!("no reply scripted for {}", msg);
    }
}

fn ok(text: &str) -> Result<String, SerialError> {
    Ok(String::from(text))
}

fn init_helper(serial: &mut ScriptedLink) {
    serial.expect(ISO, ok(ISO_RES));
    serial.expect(RF_HALF_DATA, ok(RF_HALF_DATA_RES));
    serial.expect(AGC, ok(AGC_RES));
    serial.expect(AM, ok(AM_RES));
    serial.expect(EXT_ANT, ok(EXT_ANT_RES));
}

fn new_reader(serial: ScriptedLink) -> Reader {
    match Reader::new(Box::new(serial)) {
        Ok(reader) => reader,
        Err(e) => panic!("{}", e.to_string()),
    }
}

#[test]
#[should_panic(expected = "Serial device did not respond to read request")]
fn serial_port_error() {
    let mut serial = ScriptedLink::new();
    serial.expect(ISO, Err(SerialError::NoReplyAfterMultipleTries));
    let mut _reader = new_reader(serial);
}

#[test]
#[should_panic(expected = "Targets not found")]
fn mismatch_output() {
    let mut serial = ScriptedLink::new();
    serial.expect(ISO, ok("Gibberish"));
    let mut _reader = new_reader(serial);
}

#[test]
fn agc_res_two_ok() {
    let mut serial = ScriptedLink::new();
    serial.expect(ISO, ok(ISO_RES));
    serial.expect(RF_HALF_DATA, ok(RF_HALF_DATA_RES));
    serial.expect(AGC, ok(AGC_RES_2));
    serial.expect(AM, ok(AM_RES));
    serial.expect(EXT_ANT, ok(EXT_ANT_RES));
    let mut _reader = new_reader(serial);
}

#[test]
fn am_res_two_ok() {
    let mut serial = ScriptedLink::new();
    serial.expect(ISO, ok(ISO_RES));
    serial.expect(RF_HALF_DATA, ok(RF_HALF_DATA_RES));
    serial.expect(AGC, ok(AGC_RES));
    serial.expect(AM, ok(AM_RES_2));
    serial.expect(EXT_ANT, ok(EXT_ANT_RES));
    let mut _reader = new_reader(serial);
}

#[test]
fn init_ok() {
    let mut serial = ScriptedLink::new();
    init_helper(&mut serial);
    let sent = serial.sent();
    let mut _reader = new_reader(serial);
    assert_eq!(*sent.lock().unwrap(), vec![ISO, RF_HALF_DATA, AGC, AM, EXT_ANT]);
}

#[test]
fn init_stops_at_the_step_that_fails() {
    let mut serial = ScriptedLink::new();
    serial.expect(ISO, ok(ISO_RES));
    serial.expect(RF_HALF_DATA, ok(RF_HALF_DATA_RES));
    serial.expect(AGC, ok("Gibberish"));
    let sent = serial.sent();
    match Reader::new(Box::new(serial)) {
        Ok(_) => panic!("the reader must not exist"),
        Err(e) => assert_eq!(e, ReaderError::NoMatchingTargets(String::from("Gibberish"))),
    }
    assert_eq!(*sent.lock().unwrap(), vec![ISO, RF_HALF_DATA, AGC]);
}

#[test]
fn init_fails_on_each_unrecognized_step() {
    let steps = [ISO, RF_HALF_DATA, AGC, AM, EXT_ANT];
    let replies = [ISO_RES, RF_HALF_DATA_RES, AGC_RES, AM_RES, EXT_ANT_RES];
    for bad in 0..steps.len() {
        let mut serial = ScriptedLink::new();
        for i in 0..steps.len() {
            if i == bad {
                serial.expect(steps[i], ok("unrecognized"));
            } else {
                serial.expect(steps[i], ok(replies[i]));
            }
        }
        let sent = serial.sent();
        let made = Reader::new(Box::new(serial));
        assert!(made.is_err());
        assert_eq!(sent.lock().unwrap().len(), bad + 1);
    }
}

#[test]
fn reader_ok() {
    let re = regex::Regex::new(UUID_REGEX).unwrap();
    assert!(re.is_match("[FFFFFFFFFFFFFFFF,00]"))
}

#[test]
fn reader_no_square_brackets() {
    let re = regex::Regex::new(UUID_REGEX).unwrap();
    assert!(!re.is_match("FFFFFFFFFFFFFFFF,00"))
}

#[test]
fn reader_non_hex() {
    let re = regex::Regex::new(UUID_REGEX).unwrap();
    assert!(!re.is_match("[XXXXXXXXXXXXXXXX,XX]"))
}

#[test]
fn reader_insufficient_len() {
    let re = regex::Regex::new(UUID_REGEX).unwrap();
    assert!(!re.is_match("[FFFF,XX]"))
}

#[test]
fn reader_empty() {
    let re = regex::Regex::new(UUID_REGEX).unwrap();
    assert!(!re.is_match(""))
}

#[test]
fn missing_signal() {
    let re = regex::Regex::new(UUID_REGEX).unwrap();
    assert!(!re.is_match("[FFFFFFFFFFFFFFFF, ]"))
}

#[test]
fn reader_chars_infront() {
    let re = regex::Regex::new(UUID_REGEX).unwrap();
    assert!(re.is_match("XXXXXX[FFFFFFFFFFFFFFFF,FF]"))
}

#[test]
fn reader_chars_atback() {
    let re = regex::Regex::new(UUID_REGEX).unwrap();
    assert!(re.is_match("[FFFFFFFFFFFFFFFF,FF]XXXXX"))
}

#[test]
fn reader_chars_frontandback() {
    let re = regex::Regex::new(UUID_REGEX).unwrap();
    assert!(re.is_match("XXXXXX[FFFFFFFFFFFFFFFF,FF]XXXXX"))
}

#[test]
fn single_block_regex_ok() {
    let re = regex::Regex::new(SINGLE_BLK_REGEX).unwrap();
    assert!(re.is_match("[0012345678]"))
}

#[test]
fn single_block_regex_no_square_brackets() {
    let re = regex::Regex::new(SINGLE_BLK_REGEX).unwrap();
    assert!(!re.is_match("0012345678"))
}

#[test]
fn single_block_regex_non_hex() {
    let re = regex::Regex::new(SINGLE_BLK_REGEX).unwrap();
    assert!(!re.is_match("[XXXXXXXXXX]"))
}

#[test]
fn single_block_regex_insufficient_len() {
    let re = regex::Regex::new(SINGLE_BLK_REGEX).unwrap();
    assert!(!re.is_match("[FFFF]"))
}

#[test]
fn single_block_regex_empty() {
    let re = regex::Regex::new(SINGLE_BLK_REGEX).unwrap();
    assert!(!re.is_match(""))
}

#[test]
fn single_block_regex_chars_infront() {
    let re = regex::Regex::new(SINGLE_BLK_REGEX).unwrap();
    assert!(re.is_match("XXXXXX[0012345678]"))
}

#[test]
fn single_block_regex_chars_atback() {
    let re = regex::Regex::new(SINGLE_BLK_REGEX).unwrap();
    assert!(re.is_match("[0012345678]XXXXX"))
}

#[test]
fn single_block_regex_chars_frontandback() {
    let re = regex::Regex::new(SINGLE_BLK_REGEX).unwrap();
    assert!(re.is_match("XXXXXX[0012345678]XXXXX"))
}

#[test]
fn non_matching() {
    let mut serial = ScriptedLink::new();
    init_helper(&mut serial);
    serial.expect(INV_REQ, ok("[CAFE,FF]"));
    let mut reader = new_reader(serial);
    let res = reader.read_uuid();
    assert!(res.is_err());

    if let Err(e) = res {
        assert_eq!(
            e.to_string(),
            ReaderError::NoMatchingTargets(String::from("[CAFE,FF]")).to_string()
        );
        assert_eq!(e.to_string(), "Targets not found, recv: [CAFE,FF]");
    }
}

#[test]
fn serial_error() {
    let mut serial = ScriptedLink::new();
    init_helper(&mut serial);
    serial.expect(INV_REQ, Err(SerialError::NoReplyAfterMultipleTries));
    let mut reader = new_reader(serial);
    let res = reader.read_uuid();
    assert!(res.is_err());

    if let Err(e) = res {
        assert_eq!(
            e.to_string(),
            ReaderError::SerialError(SerialError::NoReplyAfterMultipleTries).to_string()
        );
    }
}

#[test]
fn matching() {
    let mut serial = ScriptedLink::new();
    init_helper(&mut serial);
    serial.expect(INV_REQ, ok("[CAFEBABEDEADBEE0,FF]"));
    let mut reader = new_reader(serial);
    let res = reader.read_uuid();
    assert!(!res.is_err());
    assert_eq!(res.unwrap().to_string(), "E0BEADDEBEBAFECA");
}

#[test]
fn chars_in_front_matching() {
    let mut serial = ScriptedLink::new();
    init_helper(&mut serial);
    serial.expect(INV_REQ, ok("XXXXXXXX[CAFEBABEDEADBEE0,FF]"));
    let mut reader = new_reader(serial);
    let res = reader.read_uuid();
    assert!(!res.is_err());
    assert_eq!(res.unwrap().to_string(), "E0BEADDEBEBAFECA");
}

#[test]
fn chars_at_the_back_matching() {
    let mut serial = ScriptedLink::new();
    init_helper(&mut serial);
    serial.expect(INV_REQ, ok("[CAFEBABEDEADBEE0,FF]XXXXXX"));
    let mut reader = new_reader(serial);
    let res = reader.read_uuid();
    assert!(!res.is_err());
    assert_eq!(res.unwrap().to_string(), "E0BEADDEBEBAFECA");
}

#[test]
fn chars_at_the_front_and_back_matching() {
    let mut serial = ScriptedLink::new();
    init_helper(&mut serial);
    serial.expect(INV_REQ, ok("XXXXXXXX[CAFEBABEDEADBEE0,FF]XXXXXX"));
    let mut reader = new_reader(serial);
    let res = reader.read_uuid();
    assert!(!res.is_err());
    assert_eq!(res.unwrap().to_string(), "E0BEADDEBEBAFECA");
}

#[test]
fn every_bracketed_uuid_is_read() {
    let replies = [
        ("[FFFFFFFFFFFFFFFF,00]", "FFFFFFFFFFFFFFFF"),
        ("[CAFE0ABEDEADBEE0,FF]", "E0BEADDEBE0AFECA"),
        ("[E0FEBABEDEADBEE0,FF]", "E0BEADDEBEBAFEE0"),
        ("[0123456789abcdef,E0]", "efcdab8967452301"),
        ("E0[CAFEBABEDEADBEE0,E0]E0", "E0BEADDEBEBAFECA"),
        ("[[CAFEBABEDEADBEE0,FF]", "E0BEADDEBEBAFECA"),
    ];
    for (reply, reported) in replies {
        let mut serial = ScriptedLink::new();
        init_helper(&mut serial);
        serial.expect(INV_REQ, ok(reply));
        let mut reader = new_reader(serial);
        assert_eq!(reader.read_uuid(), Ok(String::from(reported)));
    }
}

#[test]
fn a_block_is_read_of_a_uuid_that_holds_the_marker_early() {
    let mut serial = ScriptedLink::new();
    init_helper(&mut serial);
    serial.expect(INV_REQ, ok("[CAFE0ABEDEADBEE0,FF]"));
    serial.expect("0113000304182220CAFE0ABEDEADBEE0070000", ok("[00DEADBEEF]"));
    let mut reader = new_reader(serial);
    assert_eq!(reader.read_single_block(7), Ok(String::from("DEADBEEF")));
}

#[test]
fn a_handshake_that_succeeds_gives_the_reader() {
    let mut serial = ScriptedLink::new();
    init_helper(&mut serial);
    serial.expect(INV_REQ, ok("[CAFEBABEDEADBEE0,FF]"));
    let sent = serial.sent();
    let handshake = match Handshake::begin(Box::new(serial)) {
        Ok(handshake) => handshake,
        Err(e) => panic!("{}", e.to_string()),
    };
    assert_eq!(sent.lock().unwrap().len(), 0);
    let mut reader = match handshake.initialize() {
        Ok(reader) => reader,
        Err(refused) => panic!("{}", refused.into_error().to_string()),
    };
    assert_eq!(*sent.lock().unwrap(), vec![ISO, RF_HALF_DATA, AGC, AM, EXT_ANT]);
    assert_eq!(reader.read_uuid(), Ok(String::from("E0BEADDEBEBAFECA")));
}

#[test]
fn a_handshake_fails_with_the_reply_that_was_not_accepted() {
    let steps = [ISO, RF_HALF_DATA, AGC, AM, EXT_ANT];
    let replies = [ISO_RES, RF_HALF_DATA_RES, AGC_RES, AM_RES, EXT_ANT_RES];
    for bad in 0..steps.len() {
        let mut serial = ScriptedLink::new();
        for i in 0..steps.len() {
            if i == bad {
                serial.expect(steps[i], ok("unrecognized"));
            } else {
                serial.expect(steps[i], ok(replies[i]));
            }
        }
        let sent = serial.sent();
        let handshake = Handshake::begin(Box::new(serial)).ok().unwrap();
        match handshake.initialize() {
            Ok(_) => panic!("the reader must not exist"),
            Err(refused) => assert_eq!(
                refused.into_error(),
                ReaderError::NoMatchingTargets(String::from("unrecognized"))
            ),
        }
        assert_eq!(*sent.lock().unwrap(), steps[..bad + 1]);
    }
}

#[test]
fn a_handshake_fails_with_the_error_of_the_link() {
    let mut serial = ScriptedLink::new();
    serial.expect(ISO, ok(ISO_RES));
    serial.expect(RF_HALF_DATA, Err(SerialError::NoReplyAfterMultipleTries));
    let sent = serial.sent();
    let handshake = Handshake::begin(Box::new(serial)).ok().unwrap();
    match handshake.initialize() {
        Ok(_) => panic!("the reader must not exist"),
        Err(refused) => assert_eq!(
            refused.into_error(),
            ReaderError::SerialError(SerialError::NoReplyAfterMultipleTries)
        ),
    }
    assert_eq!(*sent.lock().unwrap(), vec![ISO, RF_HALF_DATA]);
}

#[test]
fn serial_error_on_data_call() {
    let expected_cmd = "0113000304182220CAFEDEADBEEFB0E0FF0000";

    let mut serial = ScriptedLink::new();
    init_helper(&mut serial);
    serial.expect(INV_REQ, ok("[CAFEDEADBEEFB0E0,FF]"));
    serial.expect(expected_cmd, Err(SerialError::NoReplyAfterMultipleTries));

    let mut reader = new_reader(serial);
    let block_idx = 255;
    let res = reader.read_single_block(block_idx);

    assert!(res.is_err());
    if let Err(e) = res {
        assert_eq!(
            e.to_string(),
            ReaderError::SerialError(SerialError::NoReplyAfterMultipleTries).to_string()
        );
    }
}

#[test]
fn non_matching_uuid_on_data_call() {
    let expected_cmd = "0113000304182220CAFEDEADBEEFB0E0FF0000";

    let mut serial = ScriptedLink::new();
    init_helper(&mut serial);
    serial.expect(INV_REQ, ok("[00E0,FF]"));
    serial.expect(expected_cmd, Err(SerialError::NoReplyAfterMultipleTries));

    let mut reader = new_reader(serial);
    let block_idx = 255;
    let res = reader.read_single_block(block_idx);

    assert!(res.is_err());
    if let Err(e) = res {
        assert_eq!(
            e.to_string(),
            ReaderError::NoMatchingTargets(String::from("[00E0,FF]")).to_string()
        );
    }
}

#[test]
fn non_matching_data_on_data_calll() {
    let expected_cmd = "0113000304182220CAFEDEADBEEFB0E0FF0000";

    let mut serial = ScriptedLink::new();
    init_helper(&mut serial);
    serial.expect(INV_REQ, ok("[CAFEDEADBEEFB0E0,FF]"));
    serial.expect(expected_cmd, ok("[00]"));

    let mut reader = new_reader(serial);
    let block_idx = 255;
    let res = reader.read_single_block(block_idx);

    assert!(res.is_err());
    if let Err(e) = res {
        assert_eq!(
            e.to_string(),
            ReaderError::NoMatchingTargets(String::from("[00]")).to_string()
        );
    }
}

#[test]
fn single_block_ok() {
    let expected_cmd = "0113000304182220CAFEDEADBEEFB0E0FF0000";

    let mut serial = ScriptedLink::new();
    init_helper(&mut serial);
    serial.expect(INV_REQ, ok("[CAFEDEADBEEFB0E0,FF]"));
    serial.expect(expected_cmd, ok("[0012345678]"));
    let sent = serial.sent();

    let mut reader = new_reader(serial);
    let block_idx = 255;
    let res = reader.read_single_block(block_idx);
    assert!(!res.is_err());
    assert_eq!(res.unwrap(), "12345678");
    assert_eq!(sent.lock().unwrap()[5..], [INV_REQ, expected_cmd]);
}

#[test]
fn block_index_above_255_sends_no_block_command() {
    let mut serial = ScriptedLink::new();
    init_helper(&mut serial);
    serial.expect(INV_REQ, ok("[CAFEDEADBEEFB0E0,FF]"));
    let sent = serial.sent();

    let mut reader = new_reader(serial);
    assert_eq!(reader.read_single_block(256), Err(ReaderError::BlockIdxTooLarge(256)));
    assert_eq!(sent.lock().unwrap()[5..], [INV_REQ]);
    assert_eq!(
        ReaderError::BlockIdxTooLarge(4096).to_string(),
        "Block index is too large: 4096"
    );
}

#[test]
fn read_multiple_block_is_not_supported() {
    let mut serial = ScriptedLink::new();
    init_helper(&mut serial);
    let sent = serial.sent();
    let mut reader = new_reader(serial);
    assert_eq!(
        reader.read_multiple_block(0, 2),
        Err(ReaderError::SerialError(SerialError::NoSerialPortsFound))
    );
    assert_eq!(sent.lock().unwrap().len(), 5);
}

#[test]
fn block_index_is_two_upper_case_hex_digits() {
    let uuid = "CAFEDEADBEEFB0E0";
    assert_eq!(
        single_block_command(uuid, 255),
        Ok(String::from("0113000304182220CAFEDEADBEEFB0E0FF0000"))
    );
    assert_eq!(
        single_block_command(uuid, 0),
        Ok(String::from("0113000304182220CAFEDEADBEEFB0E0000000"))
    );
    assert_eq!(
        single_block_command(uuid, 10),
        Ok(String::from("0113000304182220CAFEDEADBEEFB0E00A0000"))
    );
    assert_eq!(
        single_block_command(uuid, 0x9C),
        Ok(String::from("0113000304182220CAFEDEADBEEFB0E09C0000"))
    );
    assert_eq!(single_block_command(uuid, 256), Err(ReaderError::BlockIdxTooLarge(256)));
    assert_eq!(
        single_block_command(uuid, u32::MAX),
        Err(ReaderError::BlockIdxTooLarge(u32::MAX))
    );
}

#[test]
fn reverse_is_its_own_inverse() {
    let wire = "CAFEBABEDEADBEE0";
    let reported = reverse_uuid(wire);
    assert_eq!(reported, "E0BEADDEBEBAFECA");
    assert_eq!(reverse_uuid(&reported), wire);
    assert_eq!(reverse_uuid("0123456789ABCDEF"), "EFCDAB8967452301");
}

#[test]
fn uuid_follows_the_opening_bracket() {
    assert_eq!(get_uuid("[CAFEBABEDEADBEE0,FF]"), "CAFEBABEDEADBEE0");
    assert_eq!(get_uuid("noise[CAFEBABEDEADBEE0,FF]"), "CAFEBABEDEADBEE0");
    assert_eq!(get_uuid("[CAFEBABEDEADBEE0"), "CAFEBABEDEADBEE0");
    assert_eq!(find_uuid("[CAFEBABEDEADBEEF,E0]"), Some(String::from("CAFEBABEDEADBEEF")));
    assert_eq!(find_uuid("[E0FEBABEDEADBEE0,FF]"), Some(String::from("E0FEBABEDEADBEE0")));
    assert_eq!(find_uuid("[CAFE0ABEDEADBEE0,FF]"), Some(String::from("CAFE0ABEDEADBEE0")));
    assert_eq!(find_uuid("[FFFFFFFFFFFFFFFF,00]"), Some(String::from("FFFFFFFFFFFFFFFF")));
    assert_eq!(find_uuid("[CAFEBABEDEADBEE"), None);
    assert_eq!(find_uuid("CAFEBABEDEADBEE0,FF]"), None);
    assert_eq!(find_uuid(""), None);
}

#[test]
fn payload_follows_the_marker_digits() {
    assert_eq!(find_block("[0012345678]"), Some(String::from("12345678")));
    assert_eq!(find_block("xx[00ABCDEF01]yy"), Some(String::from("ABCDEF01")));
    assert_eq!(find_block("[001234567"), None);
    assert_eq!(find_block("0012345678"), None);
}

#[test]
fn replies_are_searched_for_the_pattern() {
    assert_eq!(uuid_in_reply("XX[CAFEBABEDEADBEE0,FF]YY"), Ok(String::from("CAFEBABEDEADBEE0")));
    assert_eq!(
        uuid_in_reply("CAFEBABEDEADBEE0,FF"),
        Err(ReaderError::NoMatchingTargets(String::from("CAFEBABEDEADBEE0,FF")))
    );
    assert_eq!(block_in_reply("XX[0012345678]YY"), Ok(String::from("12345678")));
    assert_eq!(
        block_in_reply("[0112345678]"),
        Err(ReaderError::NoMatchingTargets(String::from("[0112345678]")))
    );
}

#[test]
fn patterns_are_tried_in_order() {
    assert_eq!(
        first_match("AGC Toggle", &vec![AGC_RES, AGC_RES_2]),
        Ok(String::from("AGC Toggle"))
    );
    assert_eq!(first_match(AGC, &vec![AGC_RES, AGC_RES_2]), Ok(String::from(AGC)));
    assert_eq!(first_match("abcabc", &vec!["x+", "b.", "abc"]), Ok(String::from("bc")));
    assert_eq!(
        first_match("xx Register write request! yy", &vec![ISO_RES]),
        Ok(String::from("Register write request!"))
    );
    assert_eq!(
        first_match("Gibberish", &vec![AGC_RES, AGC_RES_2]),
        Err(ReaderError::NoMatchingTargets(String::from("Gibberish")))
    );
    assert_eq!(
        first_match("Gibberish", &vec![]),
        Err(ReaderError::NoMatchingTargets(String::from("Gibberish")))
    );
}

#[test]
fn a_pattern_that_is_no_regular_expression_is_reported() {
    assert_eq!(
        first_match("anything", &vec!["(unclosed"]),
        Err(ReaderError::InvalidRegex(String::from("(unclosed")))
    );
    assert_eq!(
        first_match("anything", &vec!["none", "(unclosed", "any"]),
        Err(ReaderError::InvalidRegex(String::from("(unclosed")))
    );
    assert_eq!(first_match("anything", &vec!["any", "(unclosed"]), Ok(String::from("any")));
}

#[test]
fn the_command_set_holds_regular_expressions_only() {
    assert!(check_patterns().is_ok());
    assert!(is_pattern(UUID_REGEX));
    assert!(is_pattern(SINGLE_BLK_REGEX));
    assert!(is_pattern(""));
    assert!(!is_pattern("[a-"));
    assert!(check_pattern(ISO_RES).is_ok());
    assert_eq!(check_pattern("a{2,1}"), Err(ReaderError::InvalidRegex(String::from("a{2,1}"))));
}
