use jdw_suite::osc::{encode, OscArg, OscMessage};

#[test]
fn encodes_a_message_without_arguments() {
    let msg = OscMessage { addr: "/some/addr".to_string(), args: vec![] };
    let mut expected = b"/some/addr\0\0".to_vec();
    expected.extend_from_slice(b",\0\0\0");
    assert_eq!(encode(&msg), expected);
}

#[test]
fn pads_an_address_whose_length_is_a_multiple_of_four() {
    let msg = OscMessage { addr: "/abc".to_string(), args: vec![] };
    assert_eq!(encode(&msg), b"/abc\0\0\0\0,\0\0\0".to_vec());
}

#[test]
fn encodes_string_and_int_arguments() {
    let msg = OscMessage {
        addr: "/subscribe".to_string(),
        args: vec![
            OscArg::Str("/bundle".to_string()),
            OscArg::Str("127.0.0.1".to_string()),
            OscArg::Int(13331),
        ],
    };
    let mut expected = b"/subscribe\0\0".to_vec();
    expected.extend_from_slice(b",ssi\0\0\0\0");
    expected.extend_from_slice(b"/bundle\0");
    expected.extend_from_slice(b"127.0.0.1\0\0\0");
    expected.extend_from_slice(&[0x00, 0x00, 0x34, 0x13]);
    assert_eq!(encode(&msg), expected);
}

#[test]
fn encodes_negative_ints_in_twos_complement() {
    let msg = OscMessage { addr: "/n".to_string(), args: vec![OscArg::Int(-2)] };
    let mut expected = b"/n\0\0".to_vec();
    expected.extend_from_slice(b",i\0\0");
    expected.extend_from_slice(&[0xff, 0xff, 0xff, 0xfe]);
    assert_eq!(encode(&msg), expected);
}

#[test]
fn encodes_non_ascii_strings_as_utf8() {
    let msg = OscMessage { addr: "/é".to_string(), args: vec![OscArg::Str(String::new())] };
    let mut expected = vec![b'/', 0xc3, 0xa9, 0];
    expected.extend_from_slice(b",s\0\0");
    expected.extend_from_slice(&[0, 0, 0, 0]);
    assert_eq!(encode(&msg), expected);
}
