use mcstatus::{parse_address, parse_u16, StatusError, DEFAULT_PORT};

fn parsed(address: &str) -> (String, u16) {
    let target = parse_address(address).expect("the address names a host");
    (target.host().to_string(), target.port())
}

#[test]
fn default_port_is_25565() {
    assert_eq!(DEFAULT_PORT, 25565);
}

#[test]
fn address_without_colon_has_default_port() {
    assert_eq!(parsed("example.com"), ("example.com".to_string(), 25565));
    assert_eq!(parsed("localhost"), ("localhost".to_string(), 25565));
    assert_eq!(parsed("10.0.0.7"), ("10.0.0.7".to_string(), 25565));
    assert_eq!(parsed("x"), ("x".to_string(), 25565));
}

#[test]
fn address_with_port_has_that_port() {
    assert_eq!(parsed("example.com:25566"), ("example.com".to_string(), 25566));
    assert_eq!(parsed("example.com:25565"), ("example.com".to_string(), 25565));
    assert_eq!(parsed("localhost:0"), ("localhost".to_string(), 0));
    assert_eq!(parsed("localhost:1"), ("localhost".to_string(), 1));
    assert_eq!(parsed("localhost:65535"), ("localhost".to_string(), 65535));
    assert_eq!(parsed("h:80"), ("h".to_string(), 80));
}

#[test]
fn every_port_round_trips() {
    let mut port: u32 = 0;
    while port <= 65535 {
        let address = format!("mc.example.org:{}", port);
        assert_eq!(parsed(&address), ("mc.example.org".to_string(), port as u16));
        port += 1;
    }
}

#[test]
fn port_that_is_no_number_falls_back() {
    assert_eq!(parsed("example.com:abc"), ("example.com".to_string(), 25565));
    assert_eq!(parsed("example.com:80a"), ("example.com".to_string(), 25565));
    assert_eq!(parsed("example.com:a80"), ("example.com".to_string(), 25565));
    assert_eq!(parsed("example.com: 80"), ("example.com".to_string(), 25565));
    assert_eq!(parsed("example.com:80 "), ("example.com".to_string(), 25565));
    assert_eq!(parsed("example.com:-1"), ("example.com".to_string(), 25565));
    assert_eq!(parsed("example.com:8.0"), ("example.com".to_string(), 25565));
    assert_eq!(parsed("example.com:0x50"), ("example.com".to_string(), 25565));
    assert_eq!(parsed("example.com:\u{663}"), ("example.com".to_string(), 25565));
}

#[test]
fn empty_port_falls_back() {
    assert_eq!(parsed("example.com:"), ("example.com".to_string(), 25565));
    assert_eq!(parsed("example.com:+"), ("example.com".to_string(), 25565));
}

#[test]
fn out_of_range_port_falls_back() {
    assert_eq!(parsed("example.com:99999"), ("example.com".to_string(), 25565));
    assert_eq!(parsed("example.com:65536"), ("example.com".to_string(), 25565));
    assert_eq!(parsed("example.com:4294967296"), ("example.com".to_string(), 25565));
    assert_eq!(
        parsed("example.com:340282366920938463463374607431768211456"),
        ("example.com".to_string(), 25565)
    );
}

#[test]
fn port_may_have_a_plus_and_leading_zeros() {
    assert_eq!(parsed("h:+80"), ("h".to_string(), 80));
    assert_eq!(parsed("h:00080"), ("h".to_string(), 80));
    assert_eq!(parsed("h:0000000000000000000000065535"), ("h".to_string(), 65535));
    assert_eq!(parsed("h:0000000000000000000000065536"), ("h".to_string(), 25565));
    assert_eq!(parsed("h:++80"), ("h".to_string(), 25565));
    assert_eq!(parsed("h:+-80"), ("h".to_string(), 25565));
}

#[test]
fn only_the_first_two_segments_count() {
    assert_eq!(parsed("h:80:90"), ("h".to_string(), 80));
    assert_eq!(parsed("h:80:"), ("h".to_string(), 80));
    assert_eq!(parsed("h::90"), ("h".to_string(), 25565));
    assert_eq!(parsed("h:x:90"), ("h".to_string(), 25565));
    assert_eq!(parsed("a:1:2:3:4"), ("a".to_string(), 1));
}

#[test]
fn host_is_taken_as_it_is() {
    assert_eq!(parsed("Example.COM:7"), ("Example.COM".to_string(), 7));
    assert_eq!(parsed(" spaced :7"), (" spaced ".to_string(), 7));
    assert_eq!(parsed("m\u{fc}nchen.example:1234"), ("m\u{fc}nchen.example".to_string(), 1234));
    assert_eq!(parsed("\u{1f600}"), ("\u{1f600}".to_string(), 25565));
    assert_eq!(parsed("\u{65e5}\u{672c}:25570"), ("\u{65e5}\u{672c}".to_string(), 25570));
}

#[test]
fn empty_host_is_invalid_input() {
    assert_eq!(parse_address(""), Err(StatusError::InvalidInput));
    assert_eq!(parse_address(":25565"), Err(StatusError::InvalidInput));
    assert_eq!(parse_address(":"), Err(StatusError::InvalidInput));
    assert_eq!(parse_address("::"), Err(StatusError::InvalidInput));
    assert_eq!(parse_address(":abc"), Err(StatusError::InvalidInput));
    assert_eq!(parse_address(":80:example.com"), Err(StatusError::InvalidInput));
}

#[test]
fn target_can_be_cloned_and_compared() {
    let target = parse_address("example.com:7").unwrap();
    let copy = target.clone();
    assert_eq!(copy, target);
    assert_eq!(copy.host(), "example.com");
    assert_eq!(copy.port(), 7);
    assert_ne!(target, parse_address("example.com:8").unwrap());
}

#[test]
fn parse_u16_reads_numbers() {
    assert_eq!(parse_u16("0"), Some(0));
    assert_eq!(parse_u16("7"), Some(7));
    assert_eq!(parse_u16("25565"), Some(25565));
    assert_eq!(parse_u16("65535"), Some(65535));
    assert_eq!(parse_u16("+65535"), Some(65535));
    assert_eq!(parse_u16("007"), Some(7));
}

#[test]
fn parse_u16_refuses_what_is_no_number() {
    assert_eq!(parse_u16(""), None);
    assert_eq!(parse_u16("+"), None);
    assert_eq!(parse_u16("-"), None);
    assert_eq!(parse_u16("-0"), None);
    assert_eq!(parse_u16("65536"), None);
    assert_eq!(parse_u16("655350"), None);
    assert_eq!(parse_u16("12x"), None);
    assert_eq!(parse_u16("x12"), None);
    assert_eq!(parse_u16(" 12"), None);
    assert_eq!(parse_u16("1 2"), None);
    assert_eq!(parse_u16("1_000"), None);
    assert_eq!(parse_u16("\u{ff11}"), None);
}

#[test]
fn parse_u16_agrees_with_the_standard_library() {
    let samples = [
        "", "0", "1", "9", "10", "99", "100", "65534", "65535", "65536", "99999", "+1", "+0",
        "++1", "-1", "+", "-", "00", "0065535", "0065536", "1e3", "٣", "1 ", " 1", "a", "12a",
        "18446744073709551616", "000000000000000000000000000000000000001",
    ];
    for text in samples {
        assert_eq!(parse_u16(text), text.parse::<u16>().ok(), "on {:?}", text);
    }
}
