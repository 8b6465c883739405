//! Speed tests: routing a benchmark through a temporary "speed" outbound,
//! undoing that afterwards, and recording what was measured.
use vstd::prelude::*;
use crate::builder::{is_outbound_for, node_number_error, node_numbers_valid, proxy_builder};
use crate::config::{Node, VConfig};
use crate::engine::{CoreConfig, Inbound, Outbound, Routing, Rule};
use crate::error::VError;
use crate::store::{
    find_node_index, first_match, found_node, found_pos, has_node, has_tagged, first_tagged,
    lemma_first_match_unique, lemma_place_keeps_one, place_outbound, at_most_one_tagged,
    exactly_one_tagged, put_outbound, position_of_tag, same_but_node,
    tagged,
};
use crate::text::{decimal, decimal_text, text_eq};

verus! {

/// Interval at which download progress is sampled, in milliseconds.
pub const PROGRESS_INTERVAL_MS: u64 = 500;

/// Ceiling on a whole speed test, in milliseconds.
pub const SPEED_TEST_TIMEOUT_MS: u64 = 20000;

/// The name of the host of a URL, as the url crate parses it.
pub uninterp spec fn url_host_of(url: Seq<char>) -> Option<Seq<char>>;

/// Relies on url::Url::parse and Url::host_str: the host of a URL that
/// parses and has one.
#[verifier::external_body]
fn url_host(url: &str) -> (r: Option<String>)
    ensures
        match r {
            Some(h) => url_host_of(url@) == Some(h@),
            None => url_host_of(url@) is None,
        },
{
    match url::Url::parse(url) {
        Ok(u) => u.host_str().map(|h| h.to_owned()),
        Err(_) => None,
    }
}

/// What a speed test changed in the outbound list.
#[derive(Debug)]
pub enum OutboundChange {
    /// The outbound at this position was replaced; it is kept here.
    Replaced(usize, Outbound),
    /// An outbound was added at the end.
    Added,
}

/// What a speed test changed in the routing rules.
#[derive(Debug)]
pub enum RuleChange {
    /// The domains of the rule at this position were replaced; the old ones
    /// are kept here.
    DomainSet(usize, Option<Vec<String>>),
    /// A rule was added at the end.
    Added,
}

/// Everything needed to run a speed test and to undo its changes.
#[derive(Debug)]
pub struct SpeedTestPlan {
    pub outbound_change: OutboundChange,
    pub rule_change: RuleChange,
    /// The local proxy the benchmark is fetched through.
    pub proxy: String,
}

/// Rule `k` of `s` exists and routes to `tag`.
pub open spec fn rule_tagged(s: Seq<Rule>, tag: Seq<char>, k: int) -> bool {
    0 <= k < s.len() && s[k].outbound_tag@ == tag
}

/// Rule `k` is the first of `s` that routes to `tag`.
pub open spec fn first_rule_tagged(s: Seq<Rule>, tag: Seq<char>, k: int) -> bool {
    rule_tagged(s, tag, k) && forall|m: int| 0 <= m < k ==> !rule_tagged(s, tag, m)
}

/// Some rule of `s` routes to `tag`.
pub open spec fn has_rule_tagged(s: Seq<Rule>, tag: Seq<char>) -> bool {
    exists|k: int| rule_tagged(s, tag, k)
}

/// `d` is a domain list holding exactly `host`.
pub open spec fn only_domain(d: Option<Vec<String>>, host: Seq<char>) -> bool {
    d matches Some(v) && v@.len() == 1 && v@[0]@ == host
}

/// `r` is the rule that sends `host` through the "speed" outbound.
pub open spec fn is_speed_rule(r: Rule, host: Seq<char>) -> bool {
    &&& r.type_field@ == "field"@
    &&& r.outbound_tag@ == "speed"@
    &&& only_domain(r.domain, host)
    &&& r.ip is None && r.port is None && r.network is None && r.source is None
    &&& r.user is None && r.inbound_tag is None && r.protocol is None && r.attrs is None
    &&& r.balancer_tag is None
}

/// `new` is `old` with the first rule to "speed" now matching exactly
/// `host`, or, where there is none, with such a rule added at the end; `c`
/// records which.
pub open spec fn speed_rules(old: Seq<Rule>, new: Seq<Rule>, host: Seq<char>, c: RuleChange) -> bool {
    if has_rule_tagged(old, "speed"@) {
        exists|k: int|
            #[trigger] first_rule_tagged(old, "speed"@, k) && c == RuleChange::DomainSet(
                k as usize,
                old[k].domain,
            ) && new.len() == old.len() && new[k] == (Rule { domain: new[k].domain, ..old[k] })
                && only_domain(new[k].domain, host) && forall|m: int|
                0 <= m < old.len() && m != k ==> new[m] == old[m]
    } else {
        c == RuleChange::Added && new.len() == old.len() + 1 && new.drop_last() == old
            && is_speed_rule(new.last(), host)
    }
}

/// `c` records how `new` came from `old` by placing `o` at the end.
pub open spec fn speed_outbounds(old: Seq<Outbound>, new: Seq<Outbound>, o: Outbound, c: OutboundChange) -> bool {
    &&& new == place_outbound(old, o, false)
    &&& if has_tagged(old, o.tag@) {
        exists|k: int|
            #[trigger] first_tagged(old, o.tag@, k) && c == OutboundChange::Replaced(k as usize, old[k])
    } else {
        c == OutboundChange::Added
    }
}

/// The outbound list with a speed test's change undone.
pub open spec fn undo_outbounds(s: Seq<Outbound>, c: OutboundChange) -> Seq<Outbound> {
    match c {
        OutboundChange::Replaced(k, o) => if k < s.len() {
            s.update(k as int, o)
        } else {
            s
        },
        OutboundChange::Added => if s.len() > 0 {
            s.drop_last()
        } else {
            s
        },
    }
}

/// The rule list with a speed test's change undone.
pub open spec fn undo_rules(s: Seq<Rule>, c: RuleChange) -> Seq<Rule> {
    match c {
        RuleChange::DomainSet(k, d) => if k < s.len() {
            s.update(k as int, Rule { domain: d, ..s[k as int] })
        } else {
            s
        },
        RuleChange::Added => if s.len() > 0 {
            s.drop_last()
        } else {
            s
        },
    }
}

/// Inbound `k` of `s` exists and is tagged "socks".
pub open spec fn socks_at(s: Seq<Inbound>, k: int) -> bool {
    0 <= k < s.len() && s[k].tag@ == "socks"@
}

/// The first inbound tagged "socks".
pub open spec fn first_socks(s: Seq<Inbound>, k: int) -> bool {
    socks_at(s, k) && forall|m: int| 0 <= m < k ==> !socks_at(s, m)
}

/// The address of the local socks proxy an inbound offers.
pub open spec fn socks_proxy_address(i: Inbound) -> Seq<char> {
    "socks5://"@ + i.listen@ + ":"@ + decimal(i.port as nat)
}

/// The position of the first inbound tagged "socks".
fn socks_inbound(v: &Vec<Inbound>) -> (r: Option<usize>)
    ensures
        match r {
            Some(k) => first_socks(v@, k as int),
            None => forall|k: int| !socks_at(v@, k),
        },
{
    let mut k: usize = 0;
    while k < v.len()
        invariant
            k <= v@.len(),
            forall|m: int| 0 <= m < k ==> !socks_at(v@, m),
        decreases v@.len() - k,
    {
        if text_eq(v[k].tag.as_str(), "socks") {
            return Some(k);
        }
        k = k + 1;
    }
    None
}

/// Renders the socks proxy address of an inbound.
fn proxy_address(i: &Inbound) -> (r: String)
    ensures
        r@ == socks_proxy_address(*i),
{
    let mut r = "socks5://".to_owned();
    r.append(i.listen.as_str());
    r.append(":");
    let port = decimal_text(i.port as u64);
    r.append(port.as_str());
    r
}

/// Points the first rule to "speed" at `host` alone, or adds such a rule.
fn install_speed_rule(rules: &mut Vec<Rule>, host: &str) -> (c: RuleChange)
    ensures
        speed_rules(old(rules)@, final(rules)@, host@, c),
{
    let mut k: usize = 0;
    while k < rules.len()
        invariant
            rules@ == old(rules)@,
            k <= rules@.len(),
            forall|m: int| 0 <= m < k ==> !rule_tagged(rules@, "speed"@, m),
        decreases rules@.len() - k,
    {
        if text_eq(rules[k].outbound_tag.as_str(), "speed") {
            let ghost before = rules@;
            let previous = rules[k].domain.take();
            rules[k].domain = Some(vec![host.to_owned()]);
            let c = RuleChange::DomainSet(k, previous);
            assert(first_rule_tagged(before, "speed"@, k as int));
            assert(rule_tagged(before, "speed"@, k as int));
            assert(rules@[k as int] == (Rule { domain: rules@[k as int].domain, ..before[k as int] }));
            return c;
        }
        k = k + 1;
    }
    let mut rule = Rule::new("speed".to_owned());
    rule.domain = Some(vec![host.to_owned()]);
    rules.push(rule);
    assert(rules@.drop_last() =~= old(rules)@);
    RuleChange::Added
}

/// `new` is what preparing a speed test of the node carrying `node_id` with
/// benchmark host `host` makes of `old`, and `r` what it returns.
pub open spec fn speed_test_prepared(
    old: VConfig,
    new: VConfig,
    node_id: Seq<char>,
    host: Seq<char>,
    r: Result<SpeedTestPlan, VError>,
) -> bool {
    &&& r is Ok <==> old.core is Some && has_node(old.rua, node_id)
            && node_numbers_valid(found_node(old.rua, node_id)) && exists|k: int|
            socks_at(old.core->0.inbounds@, k)
    &&& r matches Err(e) ==> new == old && if old.core is None {
            e == VError::EmptyConfig
        } else if !has_node(old.rua, node_id) {
            e matches VError::NodeNotFound(s) && s@ == node_id
        } else if !node_numbers_valid(found_node(old.rua, node_id)) {
            e == node_number_error(found_node(old.rua, node_id))
        } else {
            e == VError::NoHttpInbound
        }
    &&& r matches Ok(plan) ==> {
            let c0 = old.core->0;
            &&& new.rua == old.rua
            &&& new.core_path == old.core_path
            &&& new.rua_path == old.rua_path
            &&& new.core matches Some(c1) && {
                &&& c1 == (CoreConfig {
                    outbounds: c1.outbounds,
                    routing: (Routing { rules: c1.routing.rules, ..c0.routing }),
                    ..c0
                })
                &&& exists|o: Outbound|
                    is_outbound_for(found_node(old.rua, node_id), "speed"@, o)
                        && #[trigger] speed_outbounds(
                        c0.outbounds@,
                        c1.outbounds@,
                        o,
                        plan.outbound_change,
                    )
                &&& speed_rules(c0.routing.rules@, c1.routing.rules@, host, plan.rule_change)
                &&& exists|k: int|
                    first_socks(c0.inbounds@, k) && plan.proxy@ == socks_proxy_address(
                        c0.inbounds@[k],
                    )
            }
        }
}

impl VConfig {
    /// Prepares a speed test of the node carrying `node_id`: a "speed"
    /// outbound built for the node takes the place of the first outbound so
    /// tagged (or is added at the end), and the first rule to "speed" routes
    /// exactly `host` (or such a rule is added). Nothing else changes. The
    /// returned plan names the local socks proxy to measure through and
    /// records what to undo. On error nothing changes.
    pub fn prepare_speed_test(&mut self, node_id: &str, host: &str) -> (r: Result<SpeedTestPlan, VError>)
        ensures
            speed_test_prepared(*old(self), *final(self), node_id@, host@, r),
    {
        if self.core.is_none() {
            return Err(VError::EmptyConfig);
        }
        let (i, j) = match find_node_index(&self.rua, node_id) {
            Some(p) => p,
            None => {
                return Err(VError::NodeNotFound(node_id.to_owned()));
            },
        };
        proof {
            lemma_first_match_unique(self.rua, node_id@, i as int, j as int);
        }
        let speed = match proxy_builder(&self.rua.subscriptions[i].nodes[j], "speed".to_owned()) {
            Ok(o) => o,
            Err(e) => {
                return Err(e);
            },
        };
        let ghost built = speed;
        let mut core = self.core.take().unwrap();
        let ghost c0 = core;
        let s = match socks_inbound(&core.inbounds) {
            Some(s) => s,
            None => {
                self.core = Some(core);
                return Err(VError::NoHttpInbound);
            },
        };
        let proxy = proxy_address(&core.inbounds[s]);
        let outbound_change = match position_of_tag(&core.outbounds, "speed") {
            Some(k) => {
                let mut slot = speed;
                core.outbounds.set_and_swap(k, &mut slot);
                assert(core.outbounds@ == place_outbound(c0.outbounds@, built, false)) by {
                    crate::store::lemma_first_tagged_unique(c0.outbounds@, "speed"@, k as int);
                }
                assert(first_tagged(c0.outbounds@, built.tag@, k as int));
                OutboundChange::Replaced(k, slot)
            },
            None => {
                core.outbounds.push(speed);
                OutboundChange::Added
            },
        };
        assert(speed_outbounds(c0.outbounds@, core.outbounds@, built, outbound_change));
        assert(first_socks(c0.inbounds@, s as int));
        let rule_change = install_speed_rule(&mut core.routing.rules, host);
        assert(core == (CoreConfig {
            outbounds: core.outbounds,
            routing: (Routing { rules: core.routing.rules, ..c0.routing }),
            ..c0
        }));
        self.core = Some(core);
        Ok(SpeedTestPlan { outbound_change, rule_change, proxy })
    }

    /// Undoes the changes a speed test made to the outbounds and rules.
    pub fn restore_speed_test(&mut self, plan: SpeedTestPlan)
        ensures
            match old(self).core {
                Some(c0) => final(self).core matches Some(c1) && {
                    &&& c1 == (CoreConfig {
                        outbounds: c1.outbounds,
                        routing: (Routing { rules: c1.routing.rules, ..c0.routing }),
                        ..c0
                    })
                    &&& c1.outbounds@ == undo_outbounds(c0.outbounds@, plan.outbound_change)
                    &&& c1.routing.rules@ == undo_rules(c0.routing.rules@, plan.rule_change)
                },
                None => final(self).core is None,
            },
            final(self).rua == old(self).rua,
            final(self).core_path == old(self).core_path,
            final(self).rua_path == old(self).rua_path,
    {
        let mut core = match self.core.take() {
            Some(c) => c,
            None => {
                return;
            },
        };
        match plan.outbound_change {
            OutboundChange::Replaced(k, o) => {
                if k < core.outbounds.len() {
                    core.outbounds.set(k, o);
                }
            },
            OutboundChange::Added => {
                if core.outbounds.len() > 0 {
                    core.outbounds.pop();
                }
            },
        }
        match plan.rule_change {
            RuleChange::DomainSet(k, d) => {
                if k < core.routing.rules.len() {
                    core.routing.rules[k].domain = d;
                }
            },
            RuleChange::Added => {
                if core.routing.rules.len() > 0 {
                    core.routing.rules.pop();
                }
            },
        }
        self.core = Some(core);
    }
}

/// Undoing a speed test's changes gives back exactly the outbounds and the
/// rules that were there before it.
pub proof fn lemma_speed_test_undone(
    old_outbounds: Seq<Outbound>,
    new_outbounds: Seq<Outbound>,
    o: Outbound,
    oc: OutboundChange,
    old_rules: Seq<Rule>,
    new_rules: Seq<Rule>,
    host: Seq<char>,
    rc: RuleChange,
)
    requires
        speed_outbounds(old_outbounds, new_outbounds, o, oc),
        speed_rules(old_rules, new_rules, host, rc),
        new_outbounds.len() <= usize::MAX,
        new_rules.len() <= usize::MAX,
    ensures
        undo_outbounds(new_outbounds, oc) == old_outbounds,
        undo_rules(new_rules, rc) == old_rules,
{
    if has_tagged(old_outbounds, o.tag@) {
        let k = choose|k: int|
            #[trigger] first_tagged(old_outbounds, o.tag@, k) && oc == OutboundChange::Replaced(
                k as usize,
                old_outbounds[k],
            );
        crate::store::lemma_first_tagged_unique(old_outbounds, o.tag@, k);
        assert(new_outbounds.update(k, old_outbounds[k]) =~= old_outbounds);
    } else {
        assert(new_outbounds.drop_last() =~= old_outbounds);
    }
    if has_rule_tagged(old_rules, "speed"@) {
        let k = choose|k: int|
            #[trigger] first_rule_tagged(old_rules, "speed"@, k) && rc == RuleChange::DomainSet(
                k as usize,
                old_rules[k].domain,
            ) && new_rules.len() == old_rules.len() && new_rules[k] == (Rule {
                domain: new_rules[k].domain,
                ..old_rules[k]
            }) && only_domain(new_rules[k].domain, host) && forall|m: int|
                0 <= m < old_rules.len() && m != k ==> new_rules[m] == old_rules[m];
        assert(new_rules.update(k, Rule { domain: old_rules[k].domain, ..new_rules[k] })
            =~= old_rules);
    }
}

/// A prepared speed test leaves exactly one "speed" outbound, the one built
/// for the node, provided there was at most one before.
pub proof fn lemma_one_speed_outbound(old: Seq<Outbound>, new: Seq<Outbound>, o: Outbound, c: OutboundChange)
    requires
        speed_outbounds(old, new, o, c),
        at_most_one_tagged(old, o.tag@),
    ensures
        exactly_one_tagged(new, o.tag@),
        forall|k: int| tagged(new, o.tag@, k) ==> new[k] == o,
{
    lemma_place_keeps_one(old, o, false);
}

/// How a speed test ended.
#[derive(Debug, Clone, Copy, PartialEq, Eq)]
pub enum SpeedOutcome {
    /// The benchmark was fetched: first-byte latency, bytes received and
    /// time spent receiving them.
    Measured { delay_ms: u64, bytes: u64, elapsed_nanos: u64 },
    /// The benchmark could not be fetched.
    Failed,
    /// The test ran past its ceiling.
    TimedOut,
}

/// Download speed in hundredths of a megabyte per second, capped at the
/// largest `u64`; none when no time was measured.
pub open spec fn speed_of(bytes: u64, elapsed_nanos: u64) -> Option<u64> {
    if elapsed_nanos == 0 {
        None
    } else if bytes * 100000 / elapsed_nanos as int > u64::MAX {
        Some(u64::MAX)
    } else {
        Some((bytes * 100000 / elapsed_nanos as int) as u64)
    }
}

/// Computes the download speed of `bytes` received in `elapsed_nanos`.
pub fn speed_in_centi_mbps(bytes: u64, elapsed_nanos: u64) -> (r: Option<u64>)
    ensures
        r == speed_of(bytes, elapsed_nanos),
{
    if elapsed_nanos == 0 {
        return None;
    }
    let scaled: u128 = bytes as u128 * 100000;
    let rate: u128 = scaled / elapsed_nanos as u128;
    if rate > u64::MAX as u128 {
        Some(u64::MAX)
    } else {
        Some(rate as u64)
    }
}

/// The node as a speed test with `outcome` leaves it.
pub open spec fn node_after_test(n: Node, outcome: SpeedOutcome) -> Node {
    match outcome {
        SpeedOutcome::Measured { delay_ms, bytes, elapsed_nanos } => Node {
            delay: Some(delay_ms),
            speed: speed_of(bytes, elapsed_nanos),
            connectivity: Some(true),
            ..n
        },
        _ => Node { connectivity: Some(false), ..n },
    }
}

impl VConfig {
    /// Records the outcome of a speed test on the node carrying `node_id`:
    /// a measurement sets its delay, speed and connectivity; a failure or a
    /// timeout marks it unreachable.
    pub fn record_speed(&mut self, node_id: &str, outcome: SpeedOutcome) -> (r: Result<(), VError>)
        ensures
            r is Ok <==> has_node(old(self).rua, node_id@),
            r matches Err(e) ==> (e matches VError::NodeNotFound(s) && s@ == node_id@)
                && *final(self) == *old(self),
            r is Ok ==> {
                let (i, j) = found_pos(old(self).rua, node_id@);
                &&& same_but_node(old(self).rua, final(self).rua, i, j)
                &&& final(self).rua.subscriptions@[i].nodes@[j] == node_after_test(
                    old(self).rua.subscriptions@[i].nodes@[j],
                    outcome,
                )
                &&& final(self).core == old(self).core
                &&& final(self).core_path == old(self).core_path
                &&& final(self).rua_path == old(self).rua_path
            },
    {
        match find_node_index(&self.rua, node_id) {
            Some((i, j)) => {
                proof {
                    lemma_first_match_unique(self.rua, node_id@, i as int, j as int);
                }
                match outcome {
                    SpeedOutcome::Measured { delay_ms, bytes, elapsed_nanos } => {
                        self.rua.subscriptions[i].nodes[j].delay = Some(delay_ms);
                        self.rua.subscriptions[i].nodes[j].speed = speed_in_centi_mbps(
                            bytes,
                            elapsed_nanos,
                        );
                        self.rua.subscriptions[i].nodes[j].connectivity = Some(true);
                    },
                    _ => {
                        self.rua.subscriptions[i].nodes[j].connectivity = Some(false);
                    },
                }
                Ok(())
            },
            None => Err(VError::NodeNotFound(node_id.to_owned())),
        }
    }

    /// Prepares a speed test of the node carrying `node_id`, routing the
    /// host of the configured benchmark URL through it.
    pub fn node_speed(&mut self, node_id: &str) -> (r: Result<SpeedTestPlan, VError>)
        ensures
            match url_host_of(old(self).rua.settings.speed_url@) {
                Some(host) => speed_test_prepared(*old(self), *final(self), node_id@, host, r),
                None => r == Err::<SpeedTestPlan, VError>(VError::InvalidSpeedUrl) && *final(self)
                    == *old(self),
            },
    {
        match url_host(self.rua.settings.speed_url.as_str()) {
            Some(host) => self.prepare_speed_test(node_id, host.as_str()),
            None => Err(VError::InvalidSpeedUrl),
        }
    }
}

/// Download progress shared between the download and the task that reports
/// it: bytes received, bytes expected, and whether the download is over.
#[derive(Debug, Clone, Copy, PartialEq, Eq)]
pub struct SpeedProgress {
    pub received: u64,
    pub total: u64,
    pub done: bool,
}

/// A progress report: speed so far and share of the payload received.
#[derive(Debug, Clone, Copy, PartialEq, Eq)]
pub struct ProgressSample {
    pub speed: Option<u64>,
    pub percent: u8,
}

/// Share of `total` that `received` makes, in whole percent, at most 100;
/// zero when nothing is expected.
pub open spec fn percent_of(received: u64, total: u64) -> u8 {
    if total == 0 {
        0
    } else if received * 100 / total as int >= 100 {
        100
    } else {
        (received * 100 / total as int) as u8
    }
}

impl SpeedProgress {
    /// Nothing received yet of `total` expected bytes.
    pub fn new(total: u64) -> (r: SpeedProgress)
        ensures
            r == (SpeedProgress { received: 0, total, done: false }),
    {
        SpeedProgress { received: 0, total, done: false }
    }

    /// Counts a chunk of `len` bytes; the counter stops at the largest `u64`.
    pub fn add_chunk(&mut self, len: u64)
        ensures
            final(self).received == if old(self).received + len > u64::MAX {
                u64::MAX
            } else {
                (old(self).received + len) as u64
            },
            final(self).total == old(self).total,
            final(self).done == old(self).done,
    {
        self.received = self.received.saturating_add(len);
    }

    /// Marks the download as over.
    pub fn finish(&mut self)
        ensures
            *final(self) == (SpeedProgress { done: true, ..*old(self) }),
    {
        self.done = true;
    }

    /// The report due after `elapsed_nanos` of downloading; none once the
    /// download is over, which ends the reporting loop.
    pub fn sample(&self, elapsed_nanos: u64) -> (r: Option<ProgressSample>)
        ensures
            r is None <==> self.done,
            r matches Some(p) ==> p.speed == speed_of(self.received, elapsed_nanos) && p.percent
                == percent_of(self.received, self.total),
    {
        if self.done {
            return None;
        }
        let percent: u8 = if self.total == 0 {
            0
        } else {
            let p: u128 = self.received as u128 * 100 / self.total as u128;
            if p >= 100 {
                100
            } else {
                p as u8
            }
        };
        Some(ProgressSample { speed: speed_in_centi_mbps(self.received, elapsed_nanos), percent })
    }
}

} // verus!
