use base64::Engine;
use venus::config::{Node, NodeType};
use venus::error::VError;
use venus::subs::{
    complete_node, complete_nodes, decode_link, decode_links, decode_subscription, node_id_source_text,
    split_lines,
};

const NODE_JSON: &str = r#"{"v":"2","ps":"hk","add":"1.2.3.4","port":"443","id":"uuid-1","aid":"0","net":"ws","type":"none","host":"h.example","path":"/ws","tls":"tls","sni":"","alpn":""}"#;

fn b64(s: &str) -> String {
    base64::engine::general_purpose::STANDARD.encode(s.as_bytes())
}

fn parsed_node() -> Node {
    Node {
        v: "2".to_string(),
        ps: "hk".to_string(),
        add: "1.2.3.4".to_string(),
        port: "443".to_string(),
        id: "uuid-1".to_string(),
        aid: "0".to_string(),
        net: "ws".to_string(),
        type_field: "none".to_string(),
        host: "h.example".to_string(),
        path: "/ws".to_string(),
        tls: "tls".to_string(),
        ..Node::default()
    }
}

#[test]
fn duplicate_links_get_distinct_ids() {
    let link = format!("vmess://{}", b64(NODE_JSON));
    let body = b64(&format!("{link}\n{link}\n"));
    let lines = decode_subscription(&body).unwrap();
    assert_eq!(lines, vec![link.clone(), link.clone()]);
    let mut nodes = Vec::new();
    for (index, line) in lines.iter().enumerate() {
        let decoded = decode_link(line).unwrap();
        assert_eq!(decoded.node_type, NodeType::Vmess);
        assert_eq!(decoded.json, NODE_JSON);
        nodes.push(complete_node(parsed_node(), "sub", index, line, decoded.node_type));
    }
    assert_eq!(nodes[0].node_id.as_deref(), Some("1af2f4ee16df9ae6fae6c8ce4d6d07bb"));
    assert_eq!(nodes[1].node_id.as_deref(), Some("37a7706f5842e1678068b76ed3624903"));
    assert_ne!(nodes[0].node_id, nodes[1].node_id);
    assert_eq!(nodes[0].subs.as_deref(), Some("sub"));
    assert_eq!(nodes[0].raw_link.as_deref(), Some(link.as_str()));
    assert_eq!(nodes[0].node_type, Some(NodeType::Vmess));
    assert_eq!(nodes[0].ps, "hk");
}

#[test]
fn id_source_joins_fields_and_position() {
    assert_eq!(node_id_source_text("hk", "1.2.3.4", "443", 12), "hk-1.2.3.4-443-12");
}

#[test]
fn empty_lines_are_dropped() {
    assert_eq!(split_lines("\n\na\n\nb"), vec!["a".to_string(), "b".to_string()]);
    assert!(split_lines("").is_empty());
    assert!(split_lines("\n").is_empty());
    assert_eq!(split_lines("a\r\n"), vec!["a\r".to_string()]);
}

#[test]
fn invalid_utf8_is_replaced() {
    let body = base64::engine::general_purpose::STANDARD.encode([b'a', 0xff, b'\n', b'b']);
    assert_eq!(decode_subscription(&body).unwrap(), vec!["a\u{fffd}".to_string(), "b".to_string()]);
}

#[test]
fn malformed_payloads_are_refused() {
    assert_eq!(decode_subscription("not base64!"), Err(VError::DecodeError));
    assert_eq!(decode_link("vmess:/abc"), Err(VError::LinkFormatError));
    assert_eq!(decode_link("vmess://***"), Err(VError::DecodeError));
}

#[test]
fn scheme_names_any_case() {
    let link = format!("VMess://{}", b64("{}"));
    assert_eq!(decode_link(&link).unwrap().node_type, NodeType::Vmess);
    assert_eq!(NodeType::from("TROJAN-GO"), NodeType::Trojango);
    assert_eq!(NodeType::from("ss"), NodeType::SS);
    assert_eq!(NodeType::from("wireguard"), NodeType::Unknown);
    assert_eq!(NodeType::from_lowercase("SOCKS5"), NodeType::Unknown);
}

#[test]
fn scheme_names_round_trip() {
    for t in [
        NodeType::Vmess,
        NodeType::Vless,
        NodeType::SS,
        NodeType::Ssr,
        NodeType::Trojan,
        NodeType::Trojango,
        NodeType::HttpProxy,
        NodeType::HttpsProxy,
        NodeType::SOCKS5,
        NodeType::HTTP2,
    ] {
        assert_eq!(NodeType::from(t.as_str()), t);
    }
    assert_eq!(NodeType::Unknown.as_str(), "unknown");
    assert_eq!(NodeType::HttpsProxy.as_str(), "https-proxy");
}

#[test]
fn whole_subscription_is_decoded_and_completed_in_order() {
    let link = format!("vmess://{}", b64(NODE_JSON));
    let lines = vec![link.clone(), format!("ss://{}", b64("{}"))];
    let links = decode_links(&lines).unwrap();
    assert_eq!(links[0].node_type, NodeType::Vmess);
    assert_eq!(links[1].node_type, NodeType::SS);
    let nodes = complete_nodes("sub", &lines, &links, vec![parsed_node(), parsed_node()]).unwrap();
    assert_eq!(nodes[0].node_id.as_deref(), Some("1af2f4ee16df9ae6fae6c8ce4d6d07bb"));
    assert_eq!(nodes[1].node_id.as_deref(), Some("37a7706f5842e1678068b76ed3624903"));
    assert_eq!(nodes[1].node_type, Some(NodeType::SS));
    assert_eq!(complete_nodes("sub", &lines, &links, vec![parsed_node()]), None);
}

#[test]
fn one_bad_line_fails_the_subscription() {
    let good = format!("vmess://{}", b64(NODE_JSON));
    let lines = vec![good.clone(), "garbage".to_string(), "vmess://***".to_string()];
    assert_eq!(decode_links(&lines), Err(VError::LinkFormatError));
    let lines = vec![good, "vmess://***".to_string(), "garbage".to_string()];
    assert_eq!(decode_links(&lines), Err(VError::DecodeError));
}
