use venus::release::{find_asset, LatestRelease, ReleaseAsset};
use venus::builder::proxy_builder;
use venus::config::{Node, RConfig, RUABasicSetting, SubsAutoUpdate, Subscription, VConfig, VERSION};
use venus::engine::{CoreConfig, Outbound};
use venus::error::{NodeField, VError};
use venus::store::{find_node, subs_update_plan, SubsUpdatePlan, WhichConfig};

fn node(id: &str, port: &str) -> Node {
    Node {
        ps: format!("name-{id}"),
        add: "10.0.0.1".to_string(),
        port: port.to_string(),
        id: "uuid".to_string(),
        aid: "0".to_string(),
        net: "tcp".to_string(),
        node_id: Some(id.to_string()),
        ..Node::default()
    }
}

fn outbound(tag: &str, protocol: &str) -> Outbound {
    Outbound { tag: tag.to_string(), protocol: protocol.to_string(), ..Outbound::default() }
}

fn store() -> VConfig {
    let mut c = VConfig::new();
    c.rua.subscriptions.push(Subscription {
        name: "one".to_string(),
        url: "https://one.example/sub".to_string(),
        nodes: vec![node("a", "1000"), node("b", "bad")],
    });
    c.rua.subscriptions.push(Subscription {
        name: "two".to_string(),
        url: "https://two.example/sub".to_string(),
        nodes: vec![node("c", "3000"), node("a", "4000")],
    });
    c.core = Some(CoreConfig {
        outbounds: vec![outbound("direct", "freedom"), outbound("blocked", "blackhole")],
        ..CoreConfig::default()
    });
    c
}

#[test]
fn finds_first_node_across_subscriptions() {
    let c = store();
    assert_eq!(find_node(&"a".to_string(), &c.rua).unwrap().port, "1000");
    assert_eq!(find_node(&"c".to_string(), &c.rua).unwrap().port, "3000");
    assert_eq!(
        find_node(&"zz".to_string(), &c.rua),
        Err(VError::NodeNotFound("zz".to_string()))
    );
}

#[test]
fn node_without_id_is_never_found() {
    let mut c = store();
    c.rua.subscriptions[1].nodes[0].node_id = None;
    assert_eq!(find_node(&String::new(), &c.rua), Err(VError::NodeNotFound(String::new())));
    assert_eq!(c.change_connectivity("", true), Err(VError::NodeNotFound(String::new())));
    assert_eq!(c.select_node(""), Err(VError::NodeNotFound(String::new())));
    c.rua.subscriptions[1].nodes[1].node_id = Some(String::new());
    assert_eq!(find_node(&String::new(), &c.rua).unwrap().port, "4000");
}

#[test]
fn change_connectivity_touches_one_node() {
    let mut c = store();
    c.change_connectivity("c", false).unwrap();
    assert_eq!(c.rua.subscriptions[1].nodes[0].connectivity, Some(false));
    assert_eq!(c.rua.subscriptions[1].nodes[1].connectivity, None);
    assert_eq!(c.change_connectivity("zz", true), Err(VError::NodeNotFound("zz".to_string())));
}

#[test]
fn select_inserts_proxy_in_front_then_replaces_it() {
    let mut c = store();
    c.select_node("c").unwrap();
    assert_eq!(c.rua.current_id, "c");
    let outs = &c.core.as_ref().unwrap().outbounds;
    assert_eq!(outs.len(), 3);
    assert_eq!(outs[0], proxy_builder(&node("c", "3000"), "proxy".to_string()).unwrap());
    assert_eq!(outs[1].tag, "direct");

    c.select_node("a").unwrap();
    let outs = &c.core.as_ref().unwrap().outbounds;
    assert_eq!(outs.len(), 3);
    assert_eq!(outs.iter().filter(|o| o.tag == "proxy").count(), 1);
    assert_eq!(outs[0].settings.vnext[0].port, 1000);
    assert_eq!(c.rua.current_id, "a");
}

#[test]
fn selecting_twice_changes_nothing() {
    let mut c = store();
    c.select_node("a").unwrap();
    let once = c.core.clone();
    c.select_node("a").unwrap();
    assert_eq!(c.core, once);
}

#[test]
fn select_replaces_existing_proxy_in_place() {
    let mut c = store();
    c.core.as_mut().unwrap().outbounds.push(outbound("proxy", "shadowsocks"));
    c.select_node("c").unwrap();
    let outs = &c.core.as_ref().unwrap().outbounds;
    assert_eq!(outs.len(), 3);
    assert_eq!(outs[2].tag, "proxy");
    assert_eq!(outs[2].protocol, "vmess");
}

#[test]
fn select_errors_leave_everything_alone() {
    let mut c = store();
    assert_eq!(c.select_node("zz"), Err(VError::NodeNotFound("zz".to_string())));
    assert_eq!(c.select_node("b"), Err(VError::FieldFormatError(NodeField::Port)));
    assert_eq!(c.core, store().core);
    assert_eq!(c.rua, store().rua);
    c.core = None;
    assert_eq!(c.select_node("a"), Err(VError::EmptyConfig));
}

#[test]
fn write_core_needs_a_loaded_config() {
    let mut c = VConfig::new();
    assert_eq!(c.write_core(), Err(VError::EmptyConfig));
    c.reload_core(Ok(CoreConfig::default())).unwrap();
    assert_eq!(c.write_core(), Ok(&CoreConfig::default()));
}

#[test]
fn reload_stops_at_first_error() {
    let mut c = VConfig::new();
    let err = VError::NotFound("/x/config.json".to_string());
    assert_eq!(c.reload(Err(err.clone()), Ok(RConfig::default())), Err(err));
    assert!(c.core.is_none());
    let bad = VError::ParseError("config.toml".to_string());
    assert_eq!(c.reload(Ok(CoreConfig::default()), Err(bad.clone())), Err(bad));
    assert!(c.core.is_some());
    assert_eq!(c.rua, RConfig::default());
}

#[test]
fn reload_keeps_version_as_read() {
    let mut c = VConfig::new();
    let mut r = RConfig::default();
    r.version = "0.0.1".to_string();
    r.logging = true;
    c.reload_rua(Ok(r.clone())).unwrap();
    assert_eq!(c.rua, r);
    assert_eq!(c.rua.version, "0.0.1");
}

#[test]
fn reloading_what_was_written_gives_it_back() {
    let mut c = store();
    c.rua.current_id = "c".to_string();
    c.rua.version = "0.0.9".to_string();
    let written = c.rua.clone();
    c.reload_rua(Ok(written.clone())).unwrap();
    assert_eq!(c.rua, written);
}

#[test]
fn paths_under_home_or_fallback() {
    let mut c = VConfig::new();
    c.set_paths(Some("/home/u"));
    assert_eq!(c.core_path, "/home/u/.config/venus/config.json");
    assert_eq!(c.rua_path, "/home/u/.config/venus/config.toml");
    c.set_paths(Some("/root/"));
    assert_eq!(c.core_path, "/root/.config/venus/config.json");
    c.set_paths(None);
    assert_eq!(c.rua_path, "/usr/local/venus/config.toml");
    assert_eq!(c.config_path(WhichConfig::Core), "/usr/local/venus/config.json");
    assert_eq!(c.config_path(WhichConfig::Rua), "/usr/local/venus/config.toml");
}

#[test]
fn subscriptions_are_added_and_replaced_whole() {
    let mut c = store();
    c.add_subscription("three".to_string(), "u3".to_string(), vec![node("d", "1")]);
    assert_eq!(c.rua.subscriptions.len(), 3);
    assert_eq!(c.find_subscription("u3"), Some(2));
    c.update_sub("https://one.example/sub", vec![node("e", "2")]).unwrap();
    assert_eq!(c.rua.subscriptions[0].nodes, vec![node("e", "2")]);
    assert_eq!(c.rua.subscriptions[0].name, "one");
    assert_eq!(
        c.update_sub("nope", vec![]),
        Err(VError::SubscriptionNotFound("nope".to_string()))
    );
}

#[test]
fn apply_update_replaces_given_parts() {
    let mut c = store();
    let mut r = RConfig::default();
    r.logging = true;
    c.apply_update(None, Some(r.clone()));
    assert_eq!(c.rua, r);
    assert!(c.core.is_some());
    c.apply_update(Some(CoreConfig::default()), None);
    assert_eq!(c.core, Some(CoreConfig::default()));
}

#[test]
fn auto_update_plans() {
    let mut s = RUABasicSetting::default();
    assert_eq!(subs_update_plan(&s), SubsUpdatePlan::Cancel);
    s.update_subs = Some(SubsAutoUpdate::Startup);
    assert_eq!(subs_update_plan(&s), SubsUpdatePlan::UpdateNow);
    s.update_subs = Some(SubsAutoUpdate::Time);
    assert_eq!(subs_update_plan(&s), SubsUpdatePlan::Cancel);
    s.update_time = Some(2000);
    assert_eq!(subs_update_plan(&s), SubsUpdatePlan::Every(120000));
    s.update_subs = Some(SubsAutoUpdate::Off);
    assert_eq!(subs_update_plan(&s), SubsUpdatePlan::Cancel);
}

#[test]
fn defaults() {
    let r = RConfig::default();
    assert!(!r.logging && r.save_windows);
    assert_eq!(r.version, VERSION);
    assert_eq!(r.settings.speed_url, "https://sabnzbd.org/tests/internetspeed/20MB.bin");
    let c = VConfig::default();
    assert!(c.core.is_none() && c.core_path.is_empty());
}

#[test]
fn finds_release_asset_by_name() {
    let mut r = LatestRelease::default();
    for name in ["v2ray-linux-32.zip", "v2ray-linux-64.zip", "v2ray-linux-64.zip"] {
        r.assets.push(ReleaseAsset { name: name.to_string(), ..ReleaseAsset::default() });
    }
    assert_eq!(find_asset(&r, "v2ray-linux-64.zip"), Some(1));
    assert_eq!(find_asset(&r, "v2ray-macos-64.zip"), None);
}
