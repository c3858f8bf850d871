use workpool::cli::parse;
use workpool::cli::parse_octet;

fn ok_parts(r: Result<(String, [u8; 4], u16, String), String>) -> (String, [u8; 4], u16, String) {
    r.expect("a valid configuration")
}

#[test]
fn valid_configuration_is_accepted() {
    let (name, octets, port, log) = ok_parts(parse(
        String::from("edge"),
        "127.0.0.1",
        9000,
        String::from("app.log"),
    ));
    assert_eq!(name, "edge");
    assert_eq!(octets, [127, 0, 0, 1]);
    assert_eq!(port, 9000);
    assert_eq!(log, "app.log");
}

#[test]
fn host_with_wrong_piece_count_is_rejected() {
    let err = parse(String::from("n"), "1.2.3", 9000, String::from("l")).unwrap_err();
    assert_eq!(err, "Host must be an octets splieted by dots like 0.0.0.0");
    let err = parse(String::from("n"), "1.2.3.4.5", 9000, String::from("l")).unwrap_err();
    assert_eq!(err, "Host must be an octets splieted by dots like 0.0.0.0");
    let err = parse(String::from("n"), "", 9000, String::from("l")).unwrap_err();
    assert_eq!(err, "Host must be an octets splieted by dots like 0.0.0.0");
}

#[test]
fn zero_port_is_rejected() {
    let err = parse(String::from("n"), "0.0.0.0", 0, String::from("l")).unwrap_err();
    assert_eq!(err, "Port mustn't be zero");
}

#[test]
fn system_ports_are_rejected() {
    let err = parse(String::from("n"), "0.0.0.0", 8080, String::from("l")).unwrap_err();
    assert_eq!(err, "Cann't bind system port");
    let err = parse(String::from("n"), "0.0.0.0", 80, String::from("l")).unwrap_err();
    assert_eq!(err, "Cann't bind system port");
}

#[test]
fn first_bad_octet_names_the_rejection() {
    let err = parse(String::from("n"), "1.256.bad.4", 9000, String::from("l")).unwrap_err();
    assert_eq!(err, "Uncorrect part of host: 256");
    let err = parse(String::from("n"), "1.2.3.", 9000, String::from("l")).unwrap_err();
    assert_eq!(err, "Uncorrect part of host: ");
}

#[test]
fn octet_parsing_matches_u8_parsing() {
    assert_eq!(parse_octet("0"), Some(0));
    assert_eq!(parse_octet("255"), Some(255));
    assert_eq!(parse_octet("007"), Some(7));
    assert_eq!(parse_octet("+12"), Some(12));
    assert_eq!(parse_octet("256"), None);
    assert_eq!(parse_octet("12345678901234567890"), None);
    assert_eq!(parse_octet(""), None);
    assert_eq!(parse_octet("+"), None);
    assert_eq!(parse_octet("-1"), None);
    assert_eq!(parse_octet("1 2"), None);
    assert_eq!(parse_octet("a"), None);
}

#[test]
fn leading_zero_octets_are_values() {
    let (_, octets, _, _) = ok_parts(parse(
        String::from("n"),
        "001.010.100.200",
        9000,
        String::from("l"),
    ));
    assert_eq!(octets, [1, 10, 100, 200]);
}
