use kinton_agent::modules::yeelight::headers::HeaderField;
use kinton_agent::modules::yeelight::parser::{Field, ProtocolError};
use kinton_agent::modules::yeelight::{ColorMode, Model, Power, YeelightBulb};
use kinton_agent::modules::Device;

fn line(name: &str, value: &str) -> HeaderField {
    HeaderField { name: String::from(name), value: Vec::from(value) }
}

fn reply(lines: &[(&str, &str)]) -> Vec<u8> {
    let mut text = String::from("HTTP/1.1 200 OK\r\n");
    for (name, value) in lines {
        text.push_str(&format!("{}: {}\r\n", name, value));
    }
    text.into_bytes()
}

#[test]
fn parse_fills_the_descriptor_from_header_lines() {
    let headers = vec![
        line("id", "X"),
        line("model", "mono"),
        line("power", "on"),
        line("bright", "50"),
        line("color_mode", "1"),
        line("rgb", "16711680"),
        line("name", "Lamp"),
    ];
    let bulb = YeelightBulb::from_headers(&headers).unwrap();
    assert_eq!(bulb.id(), "X");
    assert_eq!(bulb.model(), Model::White);
    assert_eq!(bulb.power(), Power::On);
    assert_eq!(bulb.bright(), 50);
    assert_eq!(bulb.color_mode(), ColorMode::Color);
    assert_eq!(bulb.rgb(), 16711680);
    assert_eq!(bulb.name(), "Lamp");
    assert_eq!(bulb.fw_version(), "");
    assert_eq!(bulb.ct(), 0);
    assert_eq!(bulb.hue(), 0);
    assert_eq!(bulb.sat(), 0);
}

#[test]
fn parse_reads_the_same_from_a_datagram() {
    let datagram = reply(&[
        ("id", "X"),
        ("model", "mono"),
        ("power", "on"),
        ("bright", "50"),
        ("color_mode", "1"),
        ("rgb", "16711680"),
        ("name", "Lamp"),
    ]);
    let bulb = YeelightBulb::parse(&datagram).unwrap();
    assert_eq!(bulb.get_id(), Ok(String::from("X")));
    assert_eq!(bulb.model(), Model::White);
    assert_eq!(bulb.power(), Power::On);
    assert_eq!(bulb.bright(), 50);
    assert_eq!(bulb.color_mode(), ColorMode::Color);
    assert_eq!(bulb.rgb(), 16711680);
    assert_eq!(bulb.name(), "Lamp");
}

#[test]
fn parse_reads_a_whole_announcement() {
    let datagram = b"HTTP/1.1 200 OK\r\n\
        Cache-Control: max-age=3600\r\n\
        Date: \r\n\
        Ext: \r\n\
        Location: yeelight://192.168.1.239:55443\r\n\
        Server: POSIX UPnP/1.0 YGLC/1\r\n\
        id: 0x000000000015243f\r\n\
        model: color\r\n\
        fw_ver: 18\r\n\
        support: get_prop set_default set_power toggle\r\n\
        power: off\r\n\
        bright: 100\r\n\
        color_mode: 2\r\n\
        ct: 4000\r\n\
        rgb: 16711680\r\n\
        hue: 359\r\n\
        sat: 35\r\n\
        name: my_bulb\r\n";
    let bulb = YeelightBulb::parse(datagram).unwrap();
    assert_eq!(bulb.id(), "0x000000000015243f");
    assert_eq!(bulb.model(), Model::Color);
    assert_eq!(bulb.fw_version(), "18");
    assert_eq!(bulb.power(), Power::Off);
    assert_eq!(bulb.bright(), 100);
    assert_eq!(bulb.color_mode(), ColorMode::Temperature);
    assert_eq!(bulb.ct(), 4000);
    assert_eq!(bulb.rgb(), 16711680);
    assert_eq!(bulb.hue(), 359);
    assert_eq!(bulb.sat(), 35);
    assert_eq!(bulb.name(), "my_bulb");
}

#[test]
fn parse_accepts_a_closing_blank_line() {
    let mut datagram = reply(&[("id", "X"), ("color_mode", "3"), ("hue", "120"), ("sat", "0")]);
    datagram.extend_from_slice(b"\r\n");
    let bulb = YeelightBulb::parse(&datagram).unwrap();
    assert_eq!(bulb.id(), "X");
    assert_eq!(bulb.color_mode(), ColorMode::HSV);
    assert_eq!(bulb.hue(), 120);
    assert_eq!(bulb.sat(), 0);
}

#[test]
fn parse_reads_a_reply_that_breaks_off_as_far_as_it_is_whole() {
    let bulb = YeelightBulb::parse(b"HTTP/1.1 200 OK\r\nid: X\r\nbright: 5").unwrap();
    assert_eq!(bulb.id(), "X");
    assert_eq!(bulb.bright(), 0);
}

#[test]
fn unknown_power_text_is_no_error() {
    let bulb = YeelightBulb::parse(&reply(&[("id", "X"), ("power", "maybe")])).unwrap();
    assert_eq!(bulb.power(), Power::Unknown);
    assert_eq!(bulb.id(), "X");
}

#[test]
fn unknown_model_and_color_mode_text_is_no_error() {
    let bulb =
        YeelightBulb::parse(&reply(&[("model", "stripe"), ("color_mode", "9")])).unwrap();
    assert_eq!(bulb.model(), Model::Unknown);
    assert_eq!(bulb.color_mode(), ColorMode::Unknown);
    let bulb = YeelightBulb::parse(&reply(&[("model", "Mono"), ("power", "ON")])).unwrap();
    assert_eq!(bulb.model(), Model::Unknown);
    assert_eq!(bulb.power(), Power::Unknown);
}

#[test]
fn bad_brightness_is_a_protocol_error() {
    let r = YeelightBulb::parse(&reply(&[("id", "X"), ("bright", "abc")]));
    assert_eq!(r, Err(ProtocolError::NotANumber(Field::Bright)));
}

#[test]
fn each_numeric_field_names_itself_in_its_error() {
    for (key, field) in [
        ("bright", Field::Bright),
        ("ct", Field::Ct),
        ("rgb", Field::Rgb),
        ("hue", Field::Hue),
        ("sat", Field::Sat),
    ] {
        assert_eq!(
            YeelightBulb::parse(&reply(&[(key, "12x")])),
            Err(ProtocolError::NotANumber(field))
        );
        assert_eq!(
            YeelightBulb::parse(&reply(&[(key, "-1")])),
            Err(ProtocolError::NotANumber(field))
        );
        assert_eq!(
            YeelightBulb::from_headers(&[line(key, "")]),
            Err(ProtocolError::NotANumber(field))
        );
        assert_eq!(
            YeelightBulb::parse(&reply(&[(key, "99999999999999999999")])),
            Err(ProtocolError::OutOfRange(field))
        );
    }
}

#[test]
fn numbers_outside_their_range_are_refused() {
    let parse = |key: &str, value: &str| YeelightBulb::parse(&reply(&[(key, value)]));
    assert_eq!(parse("bright", "0"), Err(ProtocolError::OutOfRange(Field::Bright)));
    assert_eq!(parse("bright", "101"), Err(ProtocolError::OutOfRange(Field::Bright)));
    assert_eq!(parse("bright", "1").unwrap().bright(), 1);
    assert_eq!(parse("bright", "100").unwrap().bright(), 100);
    assert_eq!(parse("hue", "360"), Err(ProtocolError::OutOfRange(Field::Hue)));
    assert_eq!(parse("hue", "359").unwrap().hue(), 359);
    assert_eq!(parse("sat", "101"), Err(ProtocolError::OutOfRange(Field::Sat)));
    assert_eq!(parse("sat", "100").unwrap().sat(), 100);
    assert_eq!(parse("ct", "65536"), Err(ProtocolError::OutOfRange(Field::Ct)));
    assert_eq!(parse("ct", "65535").unwrap().ct(), 65535);
    assert_eq!(parse("rgb", "4294967296"), Err(ProtocolError::OutOfRange(Field::Rgb)));
    assert_eq!(parse("rgb", "4294967295").unwrap().rgb(), 4294967295);
    assert_eq!(parse("rgb", "+0016").unwrap().rgb(), 16);
}

#[test]
fn text_fields_must_be_text() {
    let bad = vec![0xffu8, 0xfe];
    for (key, field) in [("id", Field::Id), ("fw_ver", Field::FwVer), ("name", Field::Name)] {
        let headers = vec![HeaderField { name: String::from(key), value: bad.clone() }];
        assert_eq!(YeelightBulb::from_headers(&headers), Err(ProtocolError::NotText(field)));
    }
    let mut datagram = Vec::from("HTTP/1.1 200 OK\r\nname: ");
    datagram.extend_from_slice(&[0xc3, 0xa9, 0xc3]);
    datagram.extend_from_slice(b"\r\n");
    assert_eq!(YeelightBulb::parse(&datagram), Err(ProtocolError::NotText(Field::Name)));
    let mut datagram = Vec::from("HTTP/1.1 200 OK\r\nname: ");
    datagram.extend_from_slice("caf\u{e9}".as_bytes());
    datagram.extend_from_slice(b"\r\n");
    assert_eq!(YeelightBulb::parse(&datagram).unwrap().name(), "caf\u{e9}");
}

#[test]
fn a_name_has_at_most_64_bytes() {
    let longest = "n".repeat(64);
    let bulb = YeelightBulb::parse(&reply(&[("name", &longest)])).unwrap();
    assert_eq!(bulb.name(), &longest);
    let too_long = "n".repeat(65);
    assert_eq!(
        YeelightBulb::parse(&reply(&[("name", &too_long)])),
        Err(ProtocolError::TooLong(Field::Name))
    );
}

#[test]
fn unknown_keys_are_passed_over() {
    let bulb = YeelightBulb::parse(&reply(&[
        ("Location", "yeelight://10.0.0.2:55443"),
        ("support", "toggle"),
        ("ID", "upper"),
        ("bright ness", "x"),
    ]));
    assert_eq!(bulb, Err(ProtocolError::Malformed));
    let bulb =
        YeelightBulb::parse(&reply(&[("Location", "yeelight://10.0.0.2:55443"), ("ID", "upper")]))
            .unwrap();
    assert_eq!(bulb, YeelightBulb::blank());
}

#[test]
fn a_later_line_counts_over_an_earlier_one() {
    let bulb = YeelightBulb::parse(&reply(&[("bright", "10"), ("bright", "20")])).unwrap();
    assert_eq!(bulb.bright(), 20);
}

#[test]
fn the_first_line_in_error_is_reported() {
    let r = YeelightBulb::parse(&reply(&[("hue", "400"), ("sat", "x"), ("bright", "7")]));
    assert_eq!(r, Err(ProtocolError::OutOfRange(Field::Hue)));
}

#[test]
fn what_is_no_header_block_is_malformed() {
    assert_eq!(YeelightBulb::parse(b"hello"), Err(ProtocolError::Malformed));
    assert_eq!(YeelightBulb::parse(b"HTTP/1.1 200 OK\r\n\x01: x\r\n"), Err(ProtocolError::Malformed));
    assert_eq!(YeelightBulb::parse(b"GET / HTTP/1.1\r\n\r\n"), Err(ProtocolError::Malformed));
}

#[test]
fn a_reply_holds_at_most_17_header_lines() {
    let mut lines: Vec<(&str, &str)> = vec![("x", "y"); 16];
    lines.push(("id", "last"));
    assert_eq!(YeelightBulb::parse(&reply(&lines)).unwrap().id(), "last");
    lines.push(("x", "y"));
    assert_eq!(YeelightBulb::parse(&reply(&lines)), Err(ProtocolError::Malformed));
}

#[test]
fn an_empty_datagram_describes_a_blank_bulb() {
    let bulb = YeelightBulb::parse(b"").unwrap();
    assert_eq!(bulb, YeelightBulb::blank());
    assert_eq!(bulb.model(), Model::Unknown);
    assert_eq!(bulb.power(), Power::Unknown);
    assert_eq!(bulb.color_mode(), ColorMode::Unknown);
    assert_eq!(bulb.id(), "");
    assert_eq!(bulb.bright(), 0);
}

#[test]
fn new_gives_the_device_or_none() {
    let device = YeelightBulb::new(reply(&[("id", "X"), ("power", "off")]));
    match device {
        Device::YeelightBulb(bulb) => {
            assert_eq!(bulb.get_id().unwrap(), "X");
            assert_eq!(bulb.power(), Power::Off);
        },
        Device::Absent => panic!("a bulb was described"),
    }
    assert_eq!(YeelightBulb::new(reply(&[("bright", "abc")])), Device::Absent);
    assert_eq!(YeelightBulb::new(Vec::from("garbage")), Device::Absent);
}

#[test]
fn a_copy_of_a_descriptor_is_equal_to_it() {
    let bulb = YeelightBulb::parse(&reply(&[("id", "X"), ("name", "Lamp"), ("sat", "3")])).unwrap();
    assert_eq!(bulb.clone(), bulb);
}

#[test]
fn commands_are_not_implemented() {
    let bulb = YeelightBulb::parse(&reply(&[("id", "X")])).unwrap();
    let e = Some("not implemented");
    assert_eq!(bulb.get_id(), Ok(String::from("X")));
    assert_eq!(bulb.get_prop(), Err("not implemented"));
    assert_eq!(bulb.set_ct_abx(1, String::from("smooth"), 1), e);
    assert_eq!(bulb.set_rgb(1, String::from("smooth"), 500), e);
    assert_eq!(bulb.set_hsv(1, 1, String::from("smooth"), 500), e);
    assert_eq!(bulb.set_bright(50, String::from("smooth"), 500), e);
    assert_eq!(bulb.set_power(String::from("on"), String::from("smooth"), 500), e);
    assert_eq!(bulb.toggle(), e);
    assert_eq!(bulb.set_default(), e);
    assert_eq!(bulb.start_cf(1, 1, String::from("1000,2,2700,100")), e);
    assert_eq!(bulb.stop_cf(), e);
    assert_eq!(bulb.set_scene(String::from("color"), 1, 2, 3), e);
    assert_eq!(bulb.cron_add(0, 15), e);
    assert_eq!(bulb.cron_get(), Err("not implemented"));
    assert_eq!(bulb.cron_del(0), e);
    assert_eq!(bulb.set_adjust(String::from("increase"), String::from("ct")), e);
    assert_eq!(bulb.set_music(1, String::from("10.0.0.1"), 5400), e);
    assert_eq!(bulb.set_name(String::from("Lamp")), e);
    assert_eq!(bulb.get_id(), Ok(String::from("X")));
}
