use sigil::endpoint::{parse_endpoint, EndpointError};

#[test]
fn plain_address() {
    let ep = parse_endpoint("127.0.0.1:9000").unwrap();
    assert_eq!(ep.host, b"127.0.0.1".to_vec());
    assert_eq!(ep.port, 9000);
}

#[test]
fn host_name() {
    let ep = parse_endpoint("localhost:8080").unwrap();
    assert_eq!(ep.host, b"localhost".to_vec());
    assert_eq!(ep.port, 8080);
}

#[test]
fn bracketed_ipv6() {
    let ep = parse_endpoint("[::1]:5900").unwrap();
    assert_eq!(ep.host, b"::1".to_vec());
    assert_eq!(ep.port, 5900);
}

#[test]
fn largest_and_smallest_port() {
    assert_eq!(parse_endpoint("h:65535").unwrap().port, 65535);
    assert_eq!(parse_endpoint("h:0").unwrap().port, 0);
    assert_eq!(parse_endpoint("h:00080").unwrap().port, 80);
}

#[test]
fn missing_port() {
    assert_eq!(parse_endpoint("127.0.0.1").err(), Some(EndpointError::MissingPort));
    assert_eq!(parse_endpoint("").err(), Some(EndpointError::MissingPort));
}

#[test]
fn bad_port() {
    assert_eq!(parse_endpoint("127.0.0.1:").err(), Some(EndpointError::BadPort));
    assert_eq!(parse_endpoint("127.0.0.1:65536").err(), Some(EndpointError::BadPort));
    assert_eq!(parse_endpoint("127.0.0.1:99999999999").err(), Some(EndpointError::BadPort));
    assert_eq!(parse_endpoint("127.0.0.1:80a").err(), Some(EndpointError::BadPort));
    assert_eq!(parse_endpoint("127.0.0.1:+80").err(), Some(EndpointError::BadPort));
}

#[test]
fn bad_host() {
    assert_eq!(parse_endpoint(":80").err(), Some(EndpointError::BadHost));
    assert_eq!(parse_endpoint("::1:80").err(), Some(EndpointError::BadHost));
    assert_eq!(parse_endpoint("[]:80").err(), Some(EndpointError::BadHost));
    assert_eq!(parse_endpoint("[::1:80").err(), Some(EndpointError::BadHost));
    assert_eq!(parse_endpoint("a]:80").err(), Some(EndpointError::BadHost));
}
