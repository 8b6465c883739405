//! Turns a subscription node into engine outbounds.
use vstd::prelude::*;
use crate::config::Node;
use crate::engine::{CoreUser, Outbound, OutboundSettings, StreamSettings, TlsSettings, Vmess, WsHeaders, WsSettings};
use crate::error::{NodeField, VError};
use crate::text::{parse_u16, parse_u16_spec, text_eq};

verus! {

/// `s` is the stream settings built for `node`: network and host/path come
/// from the node, TLS is configured exactly when the node names a security
/// layer, and websocket settings exist exactly when the transport is "ws".
pub open spec fn is_stream_settings_for(node: Node, s: StreamSettings) -> bool {
    &&& s.network == node.net
    &&& if node.tls@.len() > 0 {
        &&& s.security == node.tls
        &&& s.tls_settings matches Some(t) && t.server_name == node.host && t.alpn@.len() == 0
            && t.certificates@.len() == 0 && !t.allow_insecure && !t.disable_system_root
    } else {
        s.security@ == "none"@ && s.tls_settings is None
    }
    &&& if node.net@ == "ws"@ {
        s.ws_settings matches Some(w) && w.path == node.path && w.headers.host == node.host
    } else {
        s.ws_settings is None
    }
    &&& s.tcp_settings is None
    &&& s.kcp_settings is None
    &&& s.http_settings is None
    &&& s.ds_settings is None
    &&& s.quic_settings is None
    &&& s.sockopt is None
}

/// Whether both numeric fields of `node` can be read.
pub open spec fn node_numbers_valid(node: Node) -> bool {
    parse_u16_spec(node.port@) is Some && parse_u16_spec(node.aid@) is Some
}

/// `o` is the vmess outbound tagged `tag` that reaches `node`.
pub open spec fn is_outbound_for(node: Node, tag: Seq<char>, o: Outbound) -> bool {
    &&& o.tag@ == tag
    &&& o.protocol@ == "vmess"@
    &&& o.settings.vnext@.len() == 1
    &&& o.settings.vnext@[0].address == node.add
    &&& Some(o.settings.vnext@[0].port) == parse_u16_spec(node.port@)
    &&& o.settings.vnext@[0].users@.len() == 1
    &&& o.settings.vnext@[0].users@[0].id == node.id
    &&& Some(o.settings.vnext@[0].users@[0].alter_id) == parse_u16_spec(node.aid@)
    &&& o.settings.vnext@[0].users@[0].email@ == "rua@rua.rua"@
    &&& o.settings.vnext@[0].users@[0].security@ == "auto"@
    &&& o.stream_settings matches Some(s) && is_stream_settings_for(node, s)
    &&& o.proxy_setting is None
    &&& o.mux is None
}

/// `o` is a settings-free outbound of the given protocol and tag.
pub open spec fn is_plain_outbound(protocol: Seq<char>, tag: Seq<char>, o: Outbound) -> bool {
    &&& o.protocol@ == protocol
    &&& o.tag@ == tag
    &&& o.settings.vnext@.len() == 0
    &&& o.stream_settings is None
    &&& o.proxy_setting is None
    &&& o.mux is None
}

/// The error a node with unreadable numbers is refused with: the port is
/// read first.
pub open spec fn node_number_error(node: Node) -> VError {
    if parse_u16_spec(node.port@) is None {
        VError::FieldFormatError(NodeField::Port)
    } else {
        VError::FieldFormatError(NodeField::AlterId)
    }
}

/// Builds the transport and security part of an outbound for `node`.
pub fn stream_settings_builder(node: &Node) -> (r: Result<StreamSettings, VError>)
    ensures
        r matches Ok(s) && is_stream_settings_for(*node, s),
{
    let tls = !node.tls.as_str().is_empty();
    let ws = text_eq(node.net.as_str(), "ws");
    let setting = StreamSettings {
        network: node.net.clone(),
        security: if tls {
            node.tls.clone()
        } else {
            "none".to_owned()
        },
        tls_settings: if tls {
            Some(
                TlsSettings {
                    alpn: Vec::new(),
                    server_name: node.host.clone(),
                    certificates: Vec::new(),
                    allow_insecure: false,
                    disable_system_root: false,
                },
            )
        } else {
            None
        },
        tcp_settings: None,
        kcp_settings: None,
        ws_settings: if ws {
            Some(WsSettings { path: node.path.clone(), headers: WsHeaders { host: node.host.clone() } })
        } else {
            None
        },
        http_settings: None,
        ds_settings: None,
        quic_settings: None,
        sockopt: None,
    };
    Ok(setting)
}

/// A TLS fragment is present exactly when the node names a security layer,
/// and a websocket fragment exactly when its transport is "ws".
pub proof fn lemma_fragments_follow_node(node: Node, s: StreamSettings)
    requires
        is_stream_settings_for(node, s),
    ensures
        s.tls_settings is Some <==> node.tls@.len() > 0,
        s.ws_settings is Some <==> node.net@ == "ws"@,
        s.tls_settings matches Some(t) ==> t.server_name == node.host,
{
}

/// The builder is deterministic: two outbounds built for the same node and
/// tag agree on every field, text fields by their characters.
pub proof fn lemma_builder_deterministic(node: Node, tag: Seq<char>, a: Outbound, b: Outbound)
    requires
        is_outbound_for(node, tag, a),
        is_outbound_for(node, tag, b),
    ensures
        a.tag@ == b.tag@,
        a.protocol@ == b.protocol@,
        a.settings.vnext@.len() == b.settings.vnext@.len(),
        a.settings.vnext@[0].address == b.settings.vnext@[0].address,
        a.settings.vnext@[0].port == b.settings.vnext@[0].port,
        a.settings.vnext@[0].users@.len() == b.settings.vnext@[0].users@.len(),
        a.settings.vnext@[0].users@[0].id == b.settings.vnext@[0].users@[0].id,
        a.settings.vnext@[0].users@[0].alter_id == b.settings.vnext@[0].users@[0].alter_id,
        a.settings.vnext@[0].users@[0].email@ == b.settings.vnext@[0].users@[0].email@,
        a.settings.vnext@[0].users@[0].security@ == b.settings.vnext@[0].users@[0].security@,
        a.stream_settings->0.network == b.stream_settings->0.network,
        a.stream_settings->0.security@ == b.stream_settings->0.security@,
        a.stream_settings->0.tls_settings is Some == b.stream_settings->0.tls_settings is Some,
        a.stream_settings->0.tls_settings is Some ==> a.stream_settings->0.tls_settings->0.server_name
            == b.stream_settings->0.tls_settings->0.server_name,
        a.stream_settings->0.ws_settings == b.stream_settings->0.ws_settings,
        a.proxy_setting == b.proxy_setting,
        a.mux == b.mux,
{
}

/// Builds the vmess outbound tagged `tag` that reaches `node`.
pub fn proxy_builder(node: &Node, tag: String) -> (r: Result<Outbound, VError>)
    ensures
        r is Ok <==> node_numbers_valid(*node),
        r matches Ok(o) ==> is_outbound_for(*node, tag@, o) && o.tag == tag,
        r matches Err(e) ==> e == node_number_error(*node),
{
    let port = match parse_u16(node.port.as_str()) {
        Some(p) => p,
        None => {
            return Err(VError::FieldFormatError(NodeField::Port));
        },
    };
    let alter_id = match parse_u16(node.aid.as_str()) {
        Some(a) => a,
        None => {
            return Err(VError::FieldFormatError(NodeField::AlterId));
        },
    };
    let user = CoreUser {
        id: node.id.clone(),
        alter_id,
        email: "rua@rua.rua".to_owned(),
        security: "auto".to_owned(),
    };
    let vmess = Vmess { address: node.add.clone(), port, users: vec![user] };
    let stream = match stream_settings_builder(node) {
        Ok(s) => s,
        Err(e) => {
            return Err(e);
        },
    };
    let proxy = Outbound {
        tag,
        protocol: "vmess".to_owned(),
        settings: OutboundSettings { vnext: vec![vmess] },
        stream_settings: Some(stream),
        proxy_setting: None,
        mux: None,
    };
    Ok(proxy)
}

/// A settings-free outbound.
fn plain_outbound(protocol: &str, tag: &str) -> (r: Outbound)
    ensures
        is_plain_outbound(protocol@, tag@, r),
{
    Outbound {
        protocol: protocol.to_owned(),
        settings: OutboundSettings { vnext: Vec::new() },
        tag: tag.to_owned(),
        proxy_setting: None,
        stream_settings: None,
        mux: None,
    }
}

/// Builds a complete outbound list for `node`: its "proxy" outbound, then a
/// "direct" freedom outbound and a "blocked" blackhole outbound.
///
/// Older form; `proxy_builder` replaces only the "proxy" entry and leaves
/// the rest of the list alone.
pub fn outbouds_builder(node: &Node) -> (r: Result<Vec<Outbound>, VError>)
    ensures
        r is Ok <==> node_numbers_valid(*node),
        r matches Ok(v) ==> v@.len() == 3 && is_outbound_for(*node, "proxy"@, v@[0])
            && is_plain_outbound("freedom"@, "direct"@, v@[1])
            && is_plain_outbound("blackhole"@, "blocked"@, v@[2]),
        r matches Err(e) ==> e == node_number_error(*node),
{
    let proxy = match proxy_builder(node, "proxy".to_owned()) {
        Ok(o) => o,
        Err(e) => {
            return Err(e);
        },
    };
    let freedom = plain_outbound("freedom", "direct");
    let blackhole = plain_outbound("blackhole", "blocked");
    Ok(vec![proxy, freedom, blackhole])
}

} // verus!
