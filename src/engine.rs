//! The structured form of the proxy engine's own configuration file.
use vstd::prelude::*;

verus! {

/// Root of the engine configuration.
#[derive(Default, Debug, Clone, PartialEq)]
pub struct CoreConfig {
    pub log: Log,
    pub inbounds: Vec<Inbound>,
    pub outbounds: Vec<Outbound>,
    pub routing: Routing,
    pub dns: Dns,
    pub policy: Policy,
    pub other: Other,
}

#[derive(Default, Debug, Clone, PartialEq)]
pub struct Log {
    pub loglevel: String,
    pub access: Option<String>,
    pub error: Option<String>,
}

#[derive(Default, Debug, Clone, PartialEq)]
pub struct Inbound {
    pub port: u16,
    /// Listen address.
    pub listen: String,
    pub tag: String,
    pub protocol: String,
    pub settings: InboundSettings,
    /// Traffic sniffing.
    pub sniffing: Option<Sniffing>,
}

#[derive(Default, Debug, Clone, PartialEq)]
pub struct InboundSettings {
    pub auth: Option<String>,
    pub udp: bool,
    pub allow_transparent: bool,
}

#[derive(Default, Debug, Clone, PartialEq)]
pub struct Sniffing {
    pub enabled: bool,
    pub dest_override: Vec<String>,
    pub route_only: Option<bool>,
}

#[derive(Default, Debug, Clone, PartialEq)]
pub struct Outbound {
    pub protocol: String,
    pub settings: OutboundSettings,
    pub tag: String,
    pub stream_settings: Option<StreamSettings>,
    pub proxy_setting: Option<ProxySetting>,
    pub mux: Option<Mux>,
}

#[derive(Default, Debug, Clone, PartialEq)]
pub struct StreamSettings {
    pub network: String,
    pub security: String,
    pub tls_settings: Option<TlsSettings>,
    pub tcp_settings: Option<TcpSettings>,
    pub kcp_settings: Option<KcpSettings>,
    pub ws_settings: Option<WsSettings>,
    pub http_settings: Option<HttpSettings>,
    pub ds_settings: Option<DsSettings>,
    pub quic_settings: Option<QuicSettings>,
    pub sockopt: Option<Sockopt>,
}

#[derive(Default, Debug, Clone, PartialEq)]
pub struct TlsSettings {
    pub server_name: String,
    pub allow_insecure: bool,
    pub alpn: Vec<String>,
    pub certificates: Vec<String>,
    pub disable_system_root: bool,
}

#[derive(Default, Debug, Clone, PartialEq)]
pub struct TcpSettings {
    pub header: KcpHeader,
    pub request: Option<Request>,
    pub response: Option<Response>,
}

#[derive(Default, Debug, Clone, PartialEq)]
pub struct Request {
    pub version: String,
    pub method: String,
    pub path: Vec<String>,
    pub headers: Headers,
}

#[derive(Default, Debug, Clone, PartialEq)]
pub struct Headers {
    pub host: Vec<String>,
    pub user_agent: Vec<String>,
    pub accept_encoding: Vec<String>,
    pub connection: Vec<String>,
    pub pragma: String,
}

#[derive(Default, Debug, Clone, PartialEq)]
pub struct Response {
    pub version: String,
    pub status: String,
    pub reason: String,
    pub headers: Headers2,
}

#[derive(Default, Debug, Clone, PartialEq)]
pub struct Headers2 {
    pub content_type: Vec<String>,
    pub transfer_encoding: Vec<String>,
    pub connection: Vec<String>,
    pub pragma: String,
}

#[derive(Default, Debug, Clone, PartialEq)]
pub struct KcpSettings {
    pub mtu: i64,
    pub tti: i64,
    pub uplink_capacity: i64,
    pub downlink_capacity: i64,
    pub congestion: bool,
    pub read_buffer_size: i64,
    pub write_buffer_size: i64,
    pub header: KcpHeader,
}

#[derive(Default, Debug, Clone, PartialEq)]
pub struct KcpHeader {
    pub type_field: String,
}

#[derive(Default, Debug, Clone, PartialEq)]
pub struct WsSettings {
    pub path: String,
    pub headers: WsHeaders,
}

#[derive(Default, Debug, Clone, PartialEq)]
pub struct WsHeaders {
    pub host: String,
}

#[derive(Default, Debug, Clone, PartialEq)]
pub struct HttpSettings {
    pub host: Vec<String>,
    pub path: String,
}

#[derive(Default, Debug, Clone, PartialEq)]
pub struct DsSettings {
    pub path: String,
}

#[derive(Default, Debug, Clone, PartialEq)]
pub struct QuicSettings {
    pub security: String,
    pub key: String,
    pub header: KcpHeader,
}

#[derive(Default, Debug, Clone, PartialEq)]
pub struct Sockopt {
    pub mark: i64,
    pub tcp_fast_open: bool,
    pub tproxy: String,
}

#[derive(Default, Debug, Clone, PartialEq)]
pub struct ProxySetting {
    pub tag: String,
}

#[derive(Default, Debug, Clone, PartialEq)]
pub struct Mux {
    pub enabled: bool,
    pub concurrency: u32,
}

#[derive(Default, Debug, Clone, PartialEq)]
pub struct OutboundSettings {
    pub vnext: Vec<Vmess>,
}

#[derive(Default, Debug, Clone, PartialEq)]
pub struct Vmess {
    pub address: String,
    pub port: u16,
    pub users: Vec<CoreUser>,
}

#[derive(Default, Debug, Clone, PartialEq)]
pub struct CoreUser {
    pub id: String,
    pub alter_id: u16,
    pub email: String,
    pub security: String,
}

#[derive(Default, Debug, Clone, PartialEq)]
pub struct Routing {
    /// One of "AsIs", "IPIfNonMatch" or "IPOnDemand".
    pub domain_strategy: String,
    pub rules: Vec<Rule>,
    pub balancers: Vec<Balancers>,
}

#[derive(Default, Debug, Clone, PartialEq)]
pub struct Rule {
    pub type_field: String,
    pub ip: Option<Vec<String>>,
    pub domain: Option<Vec<String>>,
    pub port: Option<String>,
    pub network: Option<String>,
    pub source: Option<Vec<String>>,
    pub user: Option<Vec<String>>,
    pub inbound_tag: Option<Vec<String>>,
    pub protocol: Option<Vec<String>>,
    pub attrs: Option<String>,
    pub outbound_tag: String,
    pub balancer_tag: Option<String>,
}

impl Rule {
    /// A field rule that routes to `outbound_tag` and matches on nothing yet.
    pub fn new(outbound_tag: String) -> (r: Rule)
        ensures
            r.type_field@ == "field"@,
            r.ip is None,
            r.domain is None,
            r.port is None,
            r.network is None,
            r.source is None,
            r.user is None,
            r.inbound_tag is None,
            r.protocol is None,
            r.attrs is None,
            r.outbound_tag == outbound_tag,
            r.balancer_tag is None,
    {
        Rule {
            type_field: "field".to_owned(),
            ip: None,
            domain: None,
            port: None,
            network: None,
            source: None,
            user: None,
            inbound_tag: None,
            protocol: None,
            attrs: None,
            outbound_tag,
            balancer_tag: None,
        }
    }
}

#[derive(Default, Debug, Clone, PartialEq)]
pub struct Balancers {
    pub tag: String,
    pub selector: Vec<String>,
}

#[derive(Default, Debug, Clone, PartialEq)]
pub struct Dns {
    pub hosts: Hosts,
    pub servers: DnsServerList,
}

/// The four entries of the engine's DNS server list: a plain address, a
/// server with its own domains, and two more plain addresses.
#[derive(Default, Debug, Clone, PartialEq)]
pub struct DnsServerList(pub String, pub Servers, pub String, pub String);

#[derive(Default, Debug, Clone, PartialEq)]
pub struct Hosts {
    pub domain_v2fly_org: String,
    pub domain_github_io: String,
    pub domain_wikipedia_org: String,
    pub domain_shadowsocks_org: String,
}

#[derive(Default, Debug, Clone, PartialEq)]
pub struct Servers {
    pub address: String,
    pub port: i64,
    pub domains: Vec<String>,
}

#[derive(Default, Debug, Clone, PartialEq)]
pub struct Policy {
    pub levels: Levels,
    pub system: System,
}

#[derive(Default, Debug, Clone, PartialEq)]
pub struct Levels {
    pub n0: N0,
}

#[derive(Default, Debug, Clone, PartialEq)]
pub struct N0 {
    pub uplink_only: i64,
    pub downlink_only: i64,
}

#[derive(Default, Debug, Clone, PartialEq)]
pub struct System {
    pub stats_inbound_uplink: bool,
    pub stats_inbound_downlink: bool,
    pub stats_outbound_uplink: bool,
    pub stats_outbound_downlink: bool,
}

#[derive(Default, Debug, Clone, PartialEq)]
pub struct Other {}

} // verus!
