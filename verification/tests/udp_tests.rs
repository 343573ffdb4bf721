use lamper::udp::{
    dev_status, init, parse_discovery, scan_request, status_request, trimmer, Cmd, CmdErr,
    InitErr, Lamp, LampAddr, State, Turn,
};

fn test_lamp() -> Lamp {
    let addr = LampAddr { octets: [192, 168, 1, 42], port: 4003 };
    let state = State { pwr: Turn::On, bright: 80, color: [1, 2, 3], temp: 4000 };
    Lamp::new(addr, state)
}

fn padded(reply: &[u8]) -> Vec<u8> {
    let mut buf = reply.to_vec();
    buf.resize(256, 0);
    buf
}

// An over-range brightness is rejected locally: no datagram is produced,
// so nothing can reach the network.
#[test]
fn over_range_brightness_is_rejected_without_output() {
    let lamp = test_lamp();
    assert_eq!(
        lamp.send_cmd(Cmd::Brightness(150)),
        Err(CmdErr::InvalidBrightnessErr)
    );
    assert_eq!(
        lamp.send_cmd(Cmd::Brightness(101)),
        Err(CmdErr::InvalidBrightnessErr)
    );
}

#[test]
fn brightness_datagram_text() {
    let lamp = test_lamp();
    assert_eq!(
        lamp.send_cmd(Cmd::Brightness(100)).unwrap(),
        "{\"msg\":{\"cmd\":\"brightness\",\"data\":{\"value\":100}}}"
    );
    assert_eq!(
        lamp.send_cmd(Cmd::Brightness(0)).unwrap(),
        "{\"msg\":{\"cmd\":\"brightness\",\"data\":{\"value\":0}}}"
    );
}

#[test]
fn turn_datagram_text() {
    let lamp = test_lamp();
    assert_eq!(
        lamp.send_cmd(Cmd::OnOff(Turn::On)).unwrap(),
        "{\"msg\":{\"cmd\":\"turn\",\"data\":{\"value\":1}}}"
    );
    assert_eq!(
        lamp.send_cmd(Cmd::OnOff(Turn::Off)).unwrap(),
        "{\"msg\":{\"cmd\":\"turn\",\"data\":{\"value\":0}}}"
    );
}

#[test]
fn color_datagram_text() {
    let lamp = test_lamp();
    assert_eq!(
        lamp.send_cmd(Cmd::Color([255, 0, 17])).unwrap(),
        "{\"msg\":{\"cmd\":\"colorwc\",\"data\":{\"color\":{\"r\":255,\"g\":0,\"b\":17}}}}"
    );
}

#[test]
fn scan_and_status_datagram_text() {
    assert_eq!(
        scan_request(),
        "{\"msg\":{\"cmd\":\"scan\",\"data\":{\"account_topic\":\"reserve\"}}}"
    );
    assert_eq!(status_request(), "{\"msg\":{\"cmd\":\"devStatus\",\"data\":{}}}");
}

// Restoration re-issues power, brightness, and color-with-temperature from
// the connect-time snapshot.
#[test]
fn restore_datagram_texts() {
    let lamp = test_lamp();
    let msgs = lamp.restore();
    assert_eq!(msgs.len(), 3);
    assert_eq!(msgs[0], "{\"msg\":{\"cmd\":\"turn\",\"data\":{\"value\":1}}}");
    assert_eq!(msgs[1], "{\"msg\":{\"cmd\":\"brightness\",\"data\":{\"value\":80}}}");
    assert_eq!(
        msgs[2],
        "{\"msg\":{\"cmd\":\"colorwc\",\"data\":{\"color\":{\"r\":1,\"g\":2,\"b\":3},\"colorTemInKelvin\":4000}}}"
    );
}

#[test]
fn trimmer_removes_trailing_zeros_only() {
    assert_eq!(trimmer(&vec![123, 125, 0, 0, 0]), vec![123, 125]);
    assert_eq!(trimmer(&vec![0, 0, 0]), Vec::<u8>::new());
    assert_eq!(trimmer(&vec![1, 0, 2]), vec![1, 0, 2]);
    assert_eq!(trimmer(&Vec::new()), Vec::<u8>::new());
}

// A zero-padded discovery reply with a valid ip field yields the exact
// address string and its octets.
#[test]
fn discovery_reply_yields_exact_address() {
    let buf = padded(b"{\"msg\":{\"data\":{\"ip\":\"192.168.1.42\"}}}");
    let (ip, octets) = parse_discovery(&buf).unwrap();
    assert_eq!(ip, "192.168.1.42");
    assert_eq!(octets, [192, 168, 1, 42]);
}

#[test]
fn discovery_reply_missing_ip_is_an_error() {
    let buf = padded(b"{\"msg\":{\"data\":{}}}");
    assert_eq!(parse_discovery(&buf).unwrap_err(), InitErr::AddrParseErr);
}

#[test]
fn discovery_reply_bad_ip_is_an_error() {
    let buf = padded(b"{\"msg\":{\"data\":{\"ip\":\"not-an-address\"}}}");
    assert_eq!(parse_discovery(&buf).unwrap_err(), InitErr::AddrParseErr);
    let buf = padded(b"{\"msg\":{\"data\":{\"ip\":7}}}");
    assert_eq!(parse_discovery(&buf).unwrap_err(), InitErr::AddrParseErr);
}

#[test]
fn discovery_reply_malformed_json_is_an_error() {
    let buf = padded(b"{\"msg\":");
    assert_eq!(parse_discovery(&buf).unwrap_err(), InitErr::SerdeErr);
}

const GOOD_STATUS: &[u8] = b"{\"msg\":{\"data\":{\"onOff\":1,\"brightness\":\"87\",\"color\":{\"r\":10,\"g\":20,\"b\":30},\"colorTemInKelvin\":4000}}}";

#[test]
fn status_reply_parses_into_state() {
    let st = dev_status(&padded(GOOD_STATUS)).unwrap();
    assert_eq!(st.pwr, Turn::On);
    assert_eq!(st.bright, 87);
    assert_eq!(st.color, [10, 20, 30]);
    assert_eq!(st.temp, 4000);
}

#[test]
fn status_reply_power_off() {
    let buf = padded(
        b"{\"msg\":{\"data\":{\"onOff\":0,\"brightness\":\"0\",\"color\":{\"r\":0,\"g\":0,\"b\":0},\"colorTemInKelvin\":0}}}",
    );
    let st = dev_status(&buf).unwrap();
    assert_eq!(st.pwr, Turn::Off);
}

#[test]
fn status_reply_bad_power_flag_is_an_error() {
    let buf = padded(
        b"{\"msg\":{\"data\":{\"onOff\":5,\"brightness\":\"0\",\"color\":{\"r\":0,\"g\":0,\"b\":0},\"colorTemInKelvin\":0}}}",
    );
    assert_eq!(dev_status(&buf).unwrap_err(), CmdErr::RecvErr);
}

#[test]
fn status_reply_unparsable_brightness_is_an_error() {
    let buf = padded(
        b"{\"msg\":{\"data\":{\"onOff\":1,\"brightness\":\"300\",\"color\":{\"r\":0,\"g\":0,\"b\":0},\"colorTemInKelvin\":0}}}",
    );
    assert_eq!(dev_status(&buf).unwrap_err(), CmdErr::ParseIntErr);
    let buf = padded(
        b"{\"msg\":{\"data\":{\"onOff\":1,\"brightness\":\"abc\",\"color\":{\"r\":0,\"g\":0,\"b\":0},\"colorTemInKelvin\":0}}}",
    );
    assert_eq!(dev_status(&buf).unwrap_err(), CmdErr::ParseIntErr);
}

#[test]
fn status_reply_missing_field_is_an_error() {
    let buf = padded(b"{\"msg\":{\"data\":{\"onOff\":1}}}");
    assert_eq!(dev_status(&buf).unwrap_err(), CmdErr::RecvErr);
    let buf = padded(
        b"{\"msg\":{\"data\":{\"onOff\":1,\"brightness\":\"1\",\"color\":{\"r\":\"x\",\"g\":0,\"b\":0},\"colorTemInKelvin\":0}}}",
    );
    assert_eq!(dev_status(&buf).unwrap_err(), CmdErr::RecvErr);
}

#[test]
fn status_reply_malformed_json_is_an_error() {
    assert_eq!(dev_status(&padded(b"hello")).unwrap_err(), CmdErr::SerdeErr);
}

#[test]
fn init_builds_lamp_from_discovery_and_status() {
    let lamp = init([10, 0, 0, 7], &padded(GOOD_STATUS)).unwrap();
    assert_eq!(lamp.addr.octets, [10, 0, 0, 7]);
    assert_eq!(lamp.addr.port, 4003);
    assert_eq!(lamp.init.pwr, Turn::On);
    assert_eq!(lamp.init.bright, 87);
    assert_eq!(lamp.init.color, [10, 20, 30]);
    assert_eq!(lamp.init.temp, 4000);
    assert_eq!(lamp.maxb(), 0);
}

#[test]
fn init_with_bad_status_is_an_error() {
    assert_eq!(
        init([10, 0, 0, 7], &padded(b"{}")).unwrap_err(),
        InitErr::DevStatusErr
    );
}

#[test]
fn check_mirrors_status_parse() {
    let lamp = test_lamp();
    assert!(lamp.check(&padded(GOOD_STATUS)).is_ok());
    assert_eq!(lamp.check(&padded(b"{}")).unwrap_err(), CmdErr::RecvErr);
    assert_eq!(lamp.check(&padded(b"nope")).unwrap_err(), CmdErr::SerdeErr);
}

#[test]
fn set_maxb_updates_the_session_maximum() {
    let mut lamp = test_lamp();
    assert_eq!(lamp.maxb(), 0);
    lamp.set_maxb(70);
    assert_eq!(lamp.maxb(), 70);
}
