use metrics_pipeline::endpoint::parse_endpoint;
use metrics_pipeline::endpoint::ConfigError;

#[test]
fn plain_endpoint_with_port_parses() {
    let ep = parse_endpoint("http://collector.example:4317").unwrap();
    assert!(!ep.secure);
    assert_eq!(ep.host, "collector.example");
    assert_eq!(ep.port, Some(4317));
}

#[test]
fn tls_endpoint_without_port_parses() {
    let ep = parse_endpoint("https://collector.example").unwrap();
    assert!(ep.secure);
    assert_eq!(ep.host, "collector.example");
    assert_eq!(ep.port, None);
}

#[test]
fn largest_port_parses_and_one_above_does_not() {
    let ep = parse_endpoint("http://h:65535").unwrap();
    assert_eq!(ep.port, Some(65535));
    assert_eq!(parse_endpoint("http://h:65536"), Err(ConfigError::InvalidPort));
}

#[test]
fn missing_scheme_is_rejected() {
    assert_eq!(parse_endpoint("collector.example:4317"), Err(ConfigError::MissingScheme));
    assert_eq!(parse_endpoint(""), Err(ConfigError::MissingScheme));
    assert_eq!(parse_endpoint("ftp://collector.example"), Err(ConfigError::MissingScheme));
    assert_eq!(parse_endpoint("http:/half"), Err(ConfigError::MissingScheme));
}

#[test]
fn empty_or_delimited_host_is_rejected() {
    assert_eq!(parse_endpoint("http://"), Err(ConfigError::InvalidHost));
    assert_eq!(parse_endpoint("http://:4317"), Err(ConfigError::InvalidHost));
    assert_eq!(parse_endpoint("http://a/b"), Err(ConfigError::InvalidHost));
    assert_eq!(parse_endpoint("https://"), Err(ConfigError::InvalidHost));
}

#[test]
fn malformed_port_is_rejected() {
    assert_eq!(parse_endpoint("http://h:"), Err(ConfigError::InvalidPort));
    assert_eq!(parse_endpoint("http://h:12a"), Err(ConfigError::InvalidPort));
    assert_eq!(parse_endpoint("http://h:123456"), Err(ConfigError::InvalidPort));
    assert_eq!(parse_endpoint("http://h:1:2"), Err(ConfigError::InvalidPort));
}

#[test]
fn non_ascii_hosts_are_accepted() {
    let ep = parse_endpoint("http://bücher.example:80").unwrap();
    assert_eq!(ep.host, "bücher.example");
    assert_eq!(ep.port, Some(80));
}
