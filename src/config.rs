//! The application-level configuration: subscriptions, their nodes, settings,
//! and the aggregate that also holds the engine configuration.
use vstd::prelude::*;
use crate::engine::CoreConfig;
use crate::text::text_eq;

verus! {

/// Version recorded in every application configuration that is loaded.
pub const VERSION: &'static str = "0.1.0";

/// Name of the application, used for its configuration folder.
pub const NAME: &'static str = "venus";

/// Benchmark payload fetched by a speed test unless the settings say otherwise.
pub const DEFAULT_SPEED_URL: &'static str = "https://sabnzbd.org/tests/internetspeed/20MB.bin";

/// A named remote source of nodes.
#[derive(Debug, Clone, PartialEq)]
pub struct Subscription {
    pub name: String,
    pub url: String,
    pub nodes: Vec<Node>,
}

/// When subscriptions are fetched again on their own.
#[derive(Debug, Clone, Copy, PartialEq, Eq)]
pub enum SubsAutoUpdate {
    /// Once, when the application starts.
    Startup,
    /// Every `update_time` minutes.
    Time,
    /// Never.
    Off,
}

/// User settings.
#[derive(Debug, Clone, PartialEq)]
pub struct RUABasicSetting {
    /// URL of the payload downloaded by a speed test.
    pub speed_url: String,
    /// Automatic subscription updates.
    pub update_subs: Option<SubsAutoUpdate>,
    /// Minutes between automatic subscription updates.
    pub update_time: Option<u16>,
}

impl Default for RUABasicSetting {
    fn default() -> (r: Self)
        ensures
            r.speed_url@ == DEFAULT_SPEED_URL@,
            r.update_subs is None,
            r.update_time is None,
    {
        RUABasicSetting {
            speed_url: DEFAULT_SPEED_URL.to_owned(),
            update_subs: None,
            update_time: None,
        }
    }
}

/// Application configuration, also the state shown by the user interface.
#[derive(Debug, Clone, PartialEq)]
pub struct RConfig {
    /// Whether log lines are forwarded to observers.
    pub logging: bool,
    pub version: String,
    /// Id of the selected node.
    pub current_id: String,
    /// Whether window geometry is saved on close.
    pub save_windows: bool,
    pub subscriptions: Vec<Subscription>,
    pub settings: RUABasicSetting,
}

impl Default for RConfig {
    fn default() -> (r: Self)
        ensures
            !r.logging,
            r.version@ == VERSION@,
            r.current_id@.len() == 0,
            r.save_windows,
            r.subscriptions@.len() == 0,
            r.settings.speed_url@ == DEFAULT_SPEED_URL@,
            r.settings.update_subs is None,
            r.settings.update_time is None,
    {
        RConfig {
            logging: false,
            version: VERSION.to_owned(),
            current_id: String::new(),
            save_windows: true,
            subscriptions: Vec::new(),
            settings: RUABasicSetting::default(),
        }
    }
}

/// The configuration aggregate: engine configuration (absent until loaded),
/// application configuration, and the files they are kept in.
#[derive(Debug)]
pub struct VConfig {
    pub core: Option<CoreConfig>,
    pub core_path: String,
    pub rua: RConfig,
    pub rua_path: String,
}

impl Default for VConfig {
    fn default() -> (r: Self)
        ensures
            r.core is None,
            r.rua.version@ == VERSION@,
            r.rua.subscriptions@.len() == 0,
            r.core_path@.len() == 0,
            r.rua_path@.len() == 0,
    {
        VConfig::new()
    }
}

impl VConfig {
    /// An aggregate with default application settings, no engine
    /// configuration and no files yet.
    pub fn new() -> (r: Self)
        ensures
            r.core is None,
            r.rua.version@ == VERSION@,
            !r.rua.logging,
            r.rua.current_id@.len() == 0,
            r.rua.subscriptions@.len() == 0,
            r.core_path@.len() == 0,
            r.rua_path@.len() == 0,
    {
        VConfig { core: None, core_path: String::new(), rua: RConfig::default(), rua_path: String::new() }
    }
}

/// One proxy endpoint of a subscription.
#[derive(Default, Debug, Clone, PartialEq)]
pub struct Node {
    pub v: String,
    /// Node name.
    pub ps: String,
    /// Address.
    pub add: String,
    pub port: String,
    pub id: String,
    /// Alter id.
    pub aid: String,
    /// Transport, the stream settings' network.
    pub net: String,
    /// Protocol type.
    pub type_field: String,
    pub host: String,
    pub path: String,
    /// Security layer; empty for none.
    pub tls: String,
    pub sni: String,
    pub alpn: String,
    /// Name of the subscription the node came from.
    pub subs: Option<String>,
    /// Measured download speed, in hundredths of a megabyte per second.
    pub speed: Option<u64>,
    /// Measured first-byte latency, in milliseconds.
    pub delay: Option<u64>,
    /// Whether the last speed test reached the benchmark.
    pub connectivity: Option<bool>,
    /// Unique id.
    pub node_id: Option<String>,
    /// The subscription line the node was read from.
    pub raw_link: Option<String>,
    pub node_type: Option<NodeType>,
}

/// The link scheme of a node.
#[derive(Debug, Clone, Copy, PartialEq, Eq)]
pub enum NodeType {
    Vmess,
    Vless,
    SS,
    Ssr,
    Trojan,
    Trojango,
    HttpProxy,
    HttpsProxy,
    SOCKS5,
    HTTP2,
    Unknown,
}

/// The scheme name of each node type.
pub open spec fn node_type_name(t: NodeType) -> Seq<char> {
    match t {
        NodeType::Vmess => "vmess"@,
        NodeType::Vless => "vless"@,
        NodeType::SS => "ss"@,
        NodeType::Ssr => "ssr"@,
        NodeType::Trojan => "trojan"@,
        NodeType::Trojango => "trojan-go"@,
        NodeType::HttpProxy => "http-proxy"@,
        NodeType::HttpsProxy => "https-proxy"@,
        NodeType::SOCKS5 => "socks5"@,
        NodeType::HTTP2 => "http2"@,
        NodeType::Unknown => "unknown"@,
    }
}

/// The node type a lower-case scheme name stands for.
pub open spec fn node_type_of(s: Seq<char>) -> NodeType {
    if s == "vmess"@ {
        NodeType::Vmess
    } else if s == "vless"@ {
        NodeType::Vless
    } else if s == "ss"@ {
        NodeType::SS
    } else if s == "ssr"@ {
        NodeType::Ssr
    } else if s == "trojan"@ {
        NodeType::Trojan
    } else if s == "trojan-go"@ {
        NodeType::Trojango
    } else if s == "http-proxy"@ {
        NodeType::HttpProxy
    } else if s == "https-proxy"@ {
        NodeType::HttpsProxy
    } else if s == "socks5"@ {
        NodeType::SOCKS5
    } else if s == "http2"@ {
        NodeType::HTTP2
    } else {
        NodeType::Unknown
    }
}

impl NodeType {
    /// The scheme name of this node type.
    pub fn as_str(&self) -> (r: &'static str)
        ensures
            r@ == node_type_name(*self),
    {
        match self {
            NodeType::Vmess => "vmess",
            NodeType::Vless => "vless",
            NodeType::SS => "ss",
            NodeType::Ssr => "ssr",
            NodeType::Trojan => "trojan",
            NodeType::Trojango => "trojan-go",
            NodeType::HttpProxy => "http-proxy",
            NodeType::HttpsProxy => "https-proxy",
            NodeType::SOCKS5 => "socks5",
            NodeType::HTTP2 => "http2",
            NodeType::Unknown => "unknown",
        }
    }

    /// The node type named by an already lower-cased scheme.
    pub fn from_lowercase(s: &str) -> (r: NodeType)
        ensures
            r == node_type_of(s@),
    {
        if text_eq(s, "vmess") {
            NodeType::Vmess
        } else if text_eq(s, "vless") {
            NodeType::Vless
        } else if text_eq(s, "ss") {
            NodeType::SS
        } else if text_eq(s, "ssr") {
            NodeType::Ssr
        } else if text_eq(s, "trojan") {
            NodeType::Trojan
        } else if text_eq(s, "trojan-go") {
            NodeType::Trojango
        } else if text_eq(s, "http-proxy") {
            NodeType::HttpProxy
        } else if text_eq(s, "https-proxy") {
            NodeType::HttpsProxy
        } else if text_eq(s, "socks5") {
            NodeType::SOCKS5
        } else if text_eq(s, "http2") {
            NodeType::HTTP2
        } else {
            NodeType::Unknown
        }
    }
}

} // verus!
