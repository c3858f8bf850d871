use workpool::server::Monitor;
use workpool::server::Server;
use workpool::server::bind_address;
use workpool::server::decimal_string;
use workpool::server::pre_build;

#[test]
fn decimal_rendering_is_exact() {
    assert_eq!(decimal_string(0), "0");
    assert_eq!(decimal_string(7), "7");
    assert_eq!(decimal_string(10), "10");
    assert_eq!(decimal_string(255), "255");
    assert_eq!(decimal_string(9000), "9000");
    assert_eq!(decimal_string(65535), "65535");
}

#[test]
fn bind_address_is_exact() {
    assert_eq!(bind_address(&[127, 0, 0, 1], 9000), "127.0.0.1:9000");
    assert_eq!(bind_address(&[0, 0, 0, 0], 1), "0.0.0.0:1");
    assert_eq!(bind_address(&[255, 255, 255, 255], 65535), "255.255.255.255:65535");
}

#[test]
fn server_keeps_its_configuration() {
    let server = Server::new(String::from("edge"), [192, 168, 0, 1], 9000);
    assert_eq!(server.name().as_str(), "edge");
    assert_eq!(server.host(), [192, 168, 0, 1]);
    assert_eq!(server.port(), 9000);
    assert_eq!(server.bind_address(), "192.168.0.1:9000");
    assert_eq!(server.id(), server.id());
}

#[test]
fn monitor_has_a_stable_identifier() {
    let monitor = Monitor::new();
    assert_eq!(monitor.id(), monitor.id());
}

#[test]
fn pre_build_assembles_both() {
    let (server, monitor) = pre_build(String::from("edge"), [10, 0, 0, 2], 4242);
    assert_eq!(server.name().as_str(), "edge");
    assert_eq!(server.host(), [10, 0, 0, 2]);
    assert_eq!(server.port(), 4242);
    let _ = monitor.id();
}
