use venus::config::{Node, Subscription, VConfig};
use venus::engine::{CoreConfig, Inbound, Outbound, Routing, Rule};
use venus::error::VError;
use venus::speed::{
    speed_in_centi_mbps, RuleChange, SpeedOutcome, SpeedProgress, PROGRESS_INTERVAL_MS,
    SPEED_TEST_TIMEOUT_MS,
};
use venus::supervisor::VCore;

fn node(id: &str) -> Node {
    Node {
        ps: "n".to_string(),
        add: "10.0.0.1".to_string(),
        port: "1000".to_string(),
        id: "uuid".to_string(),
        aid: "0".to_string(),
        net: "tcp".to_string(),
        node_id: Some(id.to_string()),
        ..Node::default()
    }
}

fn outbound(tag: &str) -> Outbound {
    Outbound { tag: tag.to_string(), protocol: "freedom".to_string(), ..Outbound::default() }
}

fn store() -> VConfig {
    let mut c = VConfig::new();
    c.rua.subscriptions.push(Subscription {
        name: "s".to_string(),
        url: "u".to_string(),
        nodes: vec![node("a"), node("b")],
    });
    let mut blocked = Rule::new("blocked".to_string());
    blocked.domain = Some(vec!["ads.example".to_string()]);
    c.core = Some(CoreConfig {
        inbounds: vec![
            Inbound { tag: "http".to_string(), listen: "127.0.0.1".to_string(), port: 1081, ..Inbound::default() },
            Inbound { tag: "socks".to_string(), listen: "127.0.0.1".to_string(), port: 1080, ..Inbound::default() },
        ],
        outbounds: vec![outbound("proxy"), outbound("direct")],
        routing: Routing { rules: vec![blocked], ..Routing::default() },
        ..CoreConfig::default()
    });
    c
}

#[test]
fn timed_out_test_marks_node_and_restores_outbounds() {
    let mut c = store();
    let before = c.core.clone().unwrap();
    let mut core = VCore::build();
    core.init("/res".to_string());
    core.spawned(1);

    let plan = c.prepare_speed_test("b", "sabnzbd.org").unwrap();
    assert_eq!(plan.proxy, "socks5://127.0.0.1:1080");
    let during = c.core.clone().unwrap();
    assert_eq!(during.outbounds.len(), 3);
    assert_eq!(during.outbounds[2].tag, "speed");
    assert_eq!(during.routing.rules.len(), 2);
    assert_eq!(during.routing.rules[1].outbound_tag, "speed");
    assert_eq!(during.routing.rules[1].domain, Some(vec!["sabnzbd.org".to_string()]));

    let first = core.restart().unwrap();
    core.spawned(first.kill + 1);
    c.record_speed("b", SpeedOutcome::TimedOut).unwrap();
    c.restore_speed_test(plan);
    let second = core.restart().unwrap();
    core.spawned(second.kill + 1);

    assert_eq!(c.core.clone().unwrap(), before);
    assert_eq!(c.rua.subscriptions[0].nodes[1].connectivity, Some(false));
    assert_eq!(c.rua.subscriptions[0].nodes[0].connectivity, None);
}

#[test]
fn existing_speed_outbound_and_rule_are_reused_then_restored() {
    let mut c = store();
    {
        let core = c.core.as_mut().unwrap();
        core.outbounds.insert(0, outbound("speed"));
        let mut r = Rule::new("speed".to_string());
        r.domain = Some(vec!["old.example".to_string(), "x.example".to_string()]);
        core.routing.rules.push(r);
    }
    let before = c.core.clone().unwrap();
    let plan = c.prepare_speed_test("a", "sabnzbd.org").unwrap();
    assert!(matches!(plan.rule_change, RuleChange::DomainSet(1, _)));
    let during = c.core.clone().unwrap();
    assert_eq!(during.outbounds.len(), 3);
    assert_eq!(during.outbounds[0].protocol, "vmess");
    assert_eq!(during.routing.rules[1].domain, Some(vec!["sabnzbd.org".to_string()]));
    c.restore_speed_test(plan);
    assert_eq!(c.core.unwrap(), before);
}

#[test]
fn prepare_errors_change_nothing() {
    let mut c = store();
    assert!(matches!(c.prepare_speed_test("zz", "h"), Err(VError::NodeNotFound(id)) if id == "zz"));
    c.core.as_mut().unwrap().inbounds.remove(1);
    let before = c.core.clone();
    assert!(matches!(c.prepare_speed_test("a", "h"), Err(VError::NoHttpInbound)));
    assert_eq!(c.core, before);
    c.core = None;
    assert!(matches!(c.prepare_speed_test("a", "h"), Err(VError::EmptyConfig)));
}

#[test]
fn node_speed_routes_benchmark_host() {
    let mut c = store();
    let plan = c.node_speed("a").unwrap();
    let rules = &c.core.as_ref().unwrap().routing.rules;
    assert_eq!(rules[1].domain, Some(vec!["sabnzbd.org".to_string()]));
    c.restore_speed_test(plan);
    c.rua.settings.speed_url = "not a url".to_string();
    let before = c.core.clone();
    assert!(matches!(c.node_speed("a"), Err(VError::InvalidSpeedUrl)));
    assert_eq!(c.core, before);
}

#[test]
fn measured_result_is_recorded() {
    let mut c = store();
    let outcome = SpeedOutcome::Measured { delay_ms: 120, bytes: 20_000_000, elapsed_nanos: 4_000_000_000 };
    c.record_speed("a", outcome).unwrap();
    let n = &c.rua.subscriptions[0].nodes[0];
    assert_eq!(n.delay, Some(120));
    assert_eq!(n.speed, Some(500));
    assert_eq!(n.connectivity, Some(true));
    c.record_speed("a", SpeedOutcome::Failed).unwrap();
    assert_eq!(c.rua.subscriptions[0].nodes[0].connectivity, Some(false));
    assert_eq!(c.rua.subscriptions[0].nodes[0].speed, Some(500));
    assert_eq!(c.record_speed("zz", SpeedOutcome::Failed), Err(VError::NodeNotFound("zz".to_string())));
}

#[test]
fn speed_formula() {
    assert_eq!(speed_in_centi_mbps(1_000_000, 1_000_000_000), Some(100));
    assert_eq!(speed_in_centi_mbps(1_234_567, 1_000_000_000), Some(123));
    assert_eq!(speed_in_centi_mbps(5, 0), None);
    assert_eq!(speed_in_centi_mbps(u64::MAX, 1), Some(u64::MAX));
}

#[test]
fn progress_reports_until_done() {
    assert_eq!(PROGRESS_INTERVAL_MS, 500);
    assert_eq!(SPEED_TEST_TIMEOUT_MS, 20000);
    let mut p = SpeedProgress::new(2_000_000);
    p.add_chunk(500_000);
    let s = p.sample(500_000_000).unwrap();
    assert_eq!(s.percent, 25);
    assert_eq!(s.speed, Some(100));
    p.add_chunk(u64::MAX);
    assert_eq!(p.received, u64::MAX);
    assert_eq!(p.sample(1).unwrap().percent, 100);
    p.finish();
    assert_eq!(p.sample(1), None);
    assert_eq!(SpeedProgress::new(0).sample(1).unwrap().percent, 0);
}
