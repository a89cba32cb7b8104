use veloxid::config::{
    ConnectionType, Direction, Endpoint, LogLevel, Route, VeloxidConfig, level_filter,
};
use veloxid::connection::{ConnectionData, get_connection_data, host_or_default};
use veloxid::encryption::generate_secret_from_string;
use veloxid::error::ConfigError;

fn tunnel_endpoint(secret: Option<&str>) -> Endpoint {
    Endpoint {
        host: None,
        port: 7000,
        kind: ConnectionType::Tunnel,
        direction: Direction::Inbound,
        secret: secret.map(|s| s.to_string()),
    }
}

fn direct_endpoint() -> Endpoint {
    Endpoint {
        host: Some("127.0.0.1".to_string()),
        port: 9000,
        kind: ConnectionType::Direct,
        direction: Direction::Outbound,
        secret: None,
    }
}

fn route(a: &str, b: &str) -> Route {
    Route { endpoints: [a.to_string(), b.to_string()], size: 2 }
}

#[test]
fn route_to_self_is_rejected() {
    let config = VeloxidConfig {
        routes: vec![route("a", "a")],
        endpoints: vec![("a".to_string(), tunnel_endpoint(Some("s")))],
        log_level: None,
    };
    assert!(matches!(config.get_endpoint_map(), Err(ConfigError::RouteToSelf)));
}

#[test]
fn missing_endpoint_is_rejected() {
    let config = VeloxidConfig {
        routes: vec![route("a", "b")],
        endpoints: vec![("a".to_string(), tunnel_endpoint(Some("s")))],
        log_level: None,
    };
    assert!(matches!(config.get_endpoint_map(), Err(ConfigError::EndpointNotFound)));
}

#[test]
fn tunnel_without_secret_is_rejected() {
    let config = VeloxidConfig {
        routes: vec![route("a", "b")],
        endpoints: vec![
            ("a".to_string(), tunnel_endpoint(None)),
            ("b".to_string(), direct_endpoint()),
        ],
        log_level: None,
    };
    assert!(matches!(config.get_endpoint_map(), Err(ConfigError::NoSecret)));
    // The same rule at the single-endpoint level.
    assert!(matches!(get_connection_data(&tunnel_endpoint(None)), Err(ConfigError::NoSecret)));
}

#[test]
fn valid_config_builds_every_referenced_binding() {
    let config = VeloxidConfig {
        routes: vec![route("a", "b")],
        endpoints: vec![
            ("a".to_string(), tunnel_endpoint(Some("s"))),
            ("b".to_string(), direct_endpoint()),
            ("spare".to_string(), direct_endpoint()),
        ],
        log_level: None,
    };
    let map = config.get_endpoint_map().unwrap();
    assert_eq!(map.len(), 2);

    let expected_secret = generate_secret_from_string("s".to_string());
    let a = map.iter().find(|(n, _)| n == "a").expect("binding for a");
    match &a.1 {
        ConnectionData::Inbound { secret_option: Some(secret) } => {
            assert_eq!(*secret, expected_secret)
        },
        _ => panic!("endpoint a must be an inbound tunnel binding"),
    }
    let b = map.iter().find(|(n, _)| n == "b").expect("binding for b");
    assert!(matches!(b.1, ConnectionData::Outbound { secret_option: None }));

    // The spare endpoint is reported unused, and only it.
    let unused = config.warn_unused_endpoints(&map);
    assert_eq!(unused, vec!["spare".to_string()]);
}

#[test]
fn shared_endpoint_across_routes_binds_once() {
    let config = VeloxidConfig {
        routes: vec![route("a", "b"), route("b", "c")],
        endpoints: vec![
            ("a".to_string(), direct_endpoint()),
            ("b".to_string(), direct_endpoint()),
            ("c".to_string(), direct_endpoint()),
        ],
        log_level: None,
    };
    let map = config.get_endpoint_map().unwrap();
    assert_eq!(map.len(), 3);
    let names: Vec<&str> = map.iter().map(|(n, _)| n.as_str()).collect();
    assert!(names.contains(&"a") && names.contains(&"b") && names.contains(&"c"));
}

#[test]
fn log_levels_map_exactly() {
    assert_eq!(level_filter(Some(0)), LogLevel::Off);
    assert_eq!(level_filter(Some(1)), LogLevel::Error);
    assert_eq!(level_filter(Some(2)), LogLevel::Warn);
    assert_eq!(level_filter(Some(3)), LogLevel::Info);
    assert_eq!(level_filter(Some(4)), LogLevel::Debug);
    assert_eq!(level_filter(Some(5)), LogLevel::Trace);
    assert_eq!(level_filter(Some(99)), LogLevel::Info);
    assert_eq!(level_filter(None), LogLevel::Info);
}

#[test]
fn host_defaults_to_all_interfaces() {
    assert_eq!(host_or_default(&direct_endpoint()), "127.0.0.1");
    assert_eq!(host_or_default(&tunnel_endpoint(Some("s"))), "0.0.0.0");
}

#[test]
fn derived_secret_reaches_the_binding() {
    // Would fail if the digest wrapper handed its argument back unchanged.
    let data = get_connection_data(&tunnel_endpoint(Some("s"))).unwrap();
    match data {
        ConnectionData::Inbound { secret_option: Some(secret) } => {
            assert_ne!(&secret[..1], b"s");
            assert_eq!(secret, generate_secret_from_string("s".to_string()));
        },
        _ => panic!("expected an inbound tunnel binding"),
    }
}
