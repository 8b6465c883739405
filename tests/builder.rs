use venus::builder::{outbouds_builder, proxy_builder, stream_settings_builder};
use venus::config::Node;
use venus::error::{NodeField, VError};

fn node(net: &str, tls: &str) -> Node {
    Node {
        ps: "hk".to_string(),
        add: "1.2.3.4".to_string(),
        port: "443".to_string(),
        id: "uuid-1".to_string(),
        aid: "0".to_string(),
        net: net.to_string(),
        host: "h.example".to_string(),
        path: "/ws".to_string(),
        tls: tls.to_string(),
        ..Node::default()
    }
}

#[test]
fn tls_and_websocket_fragments_follow_the_node() {
    let s = stream_settings_builder(&node("ws", "tls")).unwrap();
    assert_eq!(s.network, "ws");
    assert_eq!(s.security, "tls");
    let tls = s.tls_settings.unwrap();
    assert_eq!(tls.server_name, "h.example");
    assert!(tls.alpn.is_empty() && tls.certificates.is_empty());
    assert!(!tls.allow_insecure && !tls.disable_system_root);
    let ws = s.ws_settings.unwrap();
    assert_eq!(ws.path, "/ws");
    assert_eq!(ws.headers.host, "h.example");
}

#[test]
fn plain_tcp_node_has_no_fragments() {
    let s = stream_settings_builder(&node("tcp", "")).unwrap();
    assert_eq!(s.network, "tcp");
    assert_eq!(s.security, "none");
    assert!(s.tls_settings.is_none());
    assert!(s.ws_settings.is_none());
    assert!(s.tcp_settings.is_none() && s.kcp_settings.is_none() && s.sockopt.is_none());
}

#[test]
fn websocket_without_tls_and_tls_without_websocket() {
    let a = stream_settings_builder(&node("ws", "")).unwrap();
    assert!(a.tls_settings.is_none() && a.ws_settings.is_some());
    let b = stream_settings_builder(&node("grpc", "tls")).unwrap();
    assert!(b.tls_settings.is_some() && b.ws_settings.is_none());
    let c = stream_settings_builder(&node("WS", "")).unwrap();
    assert!(c.ws_settings.is_none());
}

#[test]
fn proxy_outbound_carries_node_numbers() {
    let mut n = node("ws", "tls");
    n.port = "+8443".to_string();
    n.aid = "64".to_string();
    let o = proxy_builder(&n, "proxy".to_string()).unwrap();
    assert_eq!(o.tag, "proxy");
    assert_eq!(o.protocol, "vmess");
    assert_eq!(o.settings.vnext.len(), 1);
    let v = &o.settings.vnext[0];
    assert_eq!(v.address, "1.2.3.4");
    assert_eq!(v.port, 8443);
    assert_eq!(v.users.len(), 1);
    assert_eq!(v.users[0].id, "uuid-1");
    assert_eq!(v.users[0].alter_id, 64);
    assert_eq!(v.users[0].email, "rua@rua.rua");
    assert_eq!(v.users[0].security, "auto");
    assert_eq!(o.stream_settings, Some(stream_settings_builder(&n).unwrap()));
    assert!(o.proxy_setting.is_none() && o.mux.is_none());
}

#[test]
fn unreadable_port_is_named() {
    for bad in ["", "+", "-1", "65536", "44 3", "abc"] {
        let mut n = node("tcp", "");
        n.port = bad.to_string();
        n.aid = "x".to_string();
        assert_eq!(
            proxy_builder(&n, "proxy".to_string()),
            Err(VError::FieldFormatError(NodeField::Port)),
            "port {bad:?}"
        );
    }
}

#[test]
fn unreadable_alter_id_is_named() {
    let mut n = node("tcp", "");
    n.aid = "70000".to_string();
    assert_eq!(
        proxy_builder(&n, "proxy".to_string()),
        Err(VError::FieldFormatError(NodeField::AlterId))
    );
    n.port = "65535".to_string();
    n.aid = "00012".to_string();
    let o = proxy_builder(&n, "speed".to_string()).unwrap();
    assert_eq!(o.settings.vnext[0].port, 65535);
    assert_eq!(o.settings.vnext[0].users[0].alter_id, 12);
}

#[test]
fn full_outbound_list() {
    let v = outbouds_builder(&node("tcp", "")).unwrap();
    assert_eq!(v.len(), 3);
    assert_eq!(v[0].tag, "proxy");
    assert_eq!((v[1].protocol.as_str(), v[1].tag.as_str()), ("freedom", "direct"));
    assert_eq!((v[2].protocol.as_str(), v[2].tag.as_str()), ("blackhole", "blocked"));
    assert!(v[1].settings.vnext.is_empty() && v[2].stream_settings.is_none());
    let mut bad = node("tcp", "");
    bad.port = "x".to_string();
    assert_eq!(outbouds_builder(&bad), Err(VError::FieldFormatError(NodeField::Port)));
}
