use blogger_webhook::config::{AppConfig, FrontendConfigs, ServerConfig};

fn server(host: &str, port: Option<u16>) -> ServerConfig {
    ServerConfig { host: host.to_string(), port }
}

fn config(
    server_port: Option<u16>,
    web_port: Option<u16>,
    admin_port: Option<u16>,
) -> AppConfig {
    AppConfig {
        server: server("0.0.0.0", server_port),
        frontend: FrontendConfigs {
            web: server("blog.example.com", web_port),
            admin: server("admin.example.com", admin_port),
        },
    }
}

#[test]
fn server_address_joins_host_and_port() {
    assert_eq!(config(Some(8080), None, None).server_address(), "0.0.0.0:8080");
}

#[test]
fn server_address_without_port_is_the_host() {
    assert_eq!(config(None, None, None).server_address(), "0.0.0.0");
}

#[test]
fn server_address_writes_every_width_of_port() {
    assert_eq!(config(Some(0), None, None).server_address(), "0.0.0.0:0");
    assert_eq!(config(Some(7), None, None).server_address(), "0.0.0.0:7");
    assert_eq!(config(Some(10), None, None).server_address(), "0.0.0.0:10");
    assert_eq!(config(Some(100), None, None).server_address(), "0.0.0.0:100");
    assert_eq!(config(Some(9000), None, None).server_address(), "0.0.0.0:9000");
    assert_eq!(config(Some(65535), None, None).server_address(), "0.0.0.0:65535");
}

#[test]
fn server_address_agrees_with_the_standard_rendering_for_every_port() {
    for port in 0..=u16::MAX {
        assert_eq!(
            config(Some(port), None, None).server_address(),
            format!("0.0.0.0:{}", port)
        );
    }
}

#[test]
fn cors_origins_with_ports_lists_host_and_localhost() {
    assert_eq!(
        config(None, Some(3000), Some(3001)).cors_origins(),
        vec![
            "http://blog.example.com:3000".to_string(),
            "http://localhost:3000".to_string(),
            "http://admin.example.com:3001".to_string(),
            "http://localhost:3001".to_string(),
        ]
    );
}

#[test]
fn cors_origins_without_ports_lists_the_hosts_as_written() {
    assert_eq!(
        config(None, None, None).cors_origins(),
        vec!["blog.example.com".to_string(), "admin.example.com".to_string()]
    );
}

#[test]
fn cors_origins_puts_web_before_admin() {
    assert_eq!(
        config(None, None, Some(443)).cors_origins(),
        vec![
            "blog.example.com".to_string(),
            "http://admin.example.com:443".to_string(),
            "http://localhost:443".to_string(),
        ]
    );
    assert_eq!(
        config(None, Some(80), None).cors_origins(),
        vec![
            "http://blog.example.com:80".to_string(),
            "http://localhost:80".to_string(),
            "admin.example.com".to_string(),
        ]
    );
}
