use video_summary_bot::error::Error;
use video_summary_bot::network::dhcp::DhcpServer;
use video_summary_bot::network::llm_proxy::{
    failure_status, forward_headers, select_api_key, select_base_url, upstream_url, ProxyFailure, MAX_BODY_BYTES,
};
use video_summary_bot::network::nat_proxy::NatProxy;
use video_summary_bot::network::{Ipv4, NetworkConfig};

#[test]
fn network_defaults() {
    let c = NetworkConfig::default();
    assert_eq!(c.subnet, "10.0.2.0/24");
    assert_eq!(c.gateway, "10.0.2.3");
    assert_eq!(c.llm_proxy_port, 8080);
}

#[test]
fn nat_and_dhcp() {
    let n = NatProxy::new();
    assert!(n.external_interface.is_none());
    assert_eq!(n.translate(Ipv4(10, 0, 2, 15)), Ipv4(10, 0, 2, 15));
    let d = DhcpServer::new(Ipv4::new(10, 0, 0, 1));
    assert_eq!(d.allocate([0; 6]), Some(Ipv4(10, 0, 0, 100)));
    assert_eq!(d.lease_end, Ipv4(10, 0, 0, 200));
}

#[test]
fn upstream_urls() {
    assert_eq!(upstream_url("https://api.anthropic.com/", Some("/v1/messages?x=1")), "https://api.anthropic.com/v1/messages?x=1");
    assert_eq!(upstream_url("https://h//", None), "https://h/");
    assert_eq!(upstream_url("https://h", Some("/a")), "https://h/a");
}

#[test]
fn keys_and_base() {
    assert_eq!(select_api_key(Some("t".into()), Some("k".into())).unwrap(), "t");
    assert_eq!(select_api_key(None, Some("k".into())).unwrap(), "k");
    match select_api_key(None, None) {
        Err(Error::Agent(m)) => assert_eq!(m, "ANTHROPIC_AUTH_TOKEN not set"),
        other => panic!("{:?}", other),
    }
    assert_eq!(select_base_url(None), "https://api.anthropic.com");
    assert_eq!(select_base_url(Some("http://x".into())), "http://x");
}

#[test]
fn forwarded_headers() {
    let h = vec![
        ("host".to_string(), b"10.0.2.3".to_vec()),
        ("content-type".to_string(), b"application/json".to_vec()),
        ("x-api-key".to_string(), b"guest".to_vec()),
    ];
    let out = forward_headers(&h, "secret");
    assert_eq!(
        out,
        vec![
            ("content-type".to_string(), b"application/json".to_vec()),
            ("x-api-key".to_string(), b"secret".to_vec()),
            ("anthropic-version".to_string(), b"2023-06-01".to_vec()),
        ]
    );
    assert_eq!(failure_status(ProxyFailure::RequestBody), 400);
    assert_eq!(failure_status(ProxyFailure::Upstream), 502);
    assert_eq!(failure_status(ProxyFailure::Response), 500);
    assert_eq!(MAX_BODY_BYTES, 10 * 1024 * 1024);
}
