//! Operations of the configuration aggregate: locating nodes, selecting the
//! active node, and keeping the engine's tagged outbounds in order.
use vstd::prelude::*;
use crate::builder::{is_outbound_for, node_number_error, node_numbers_valid, proxy_builder};
use crate::config::{Node, RConfig, Subscription, VConfig, NAME};
use crate::engine::CoreConfig;
use crate::engine::Outbound;
use crate::error::VError;
use crate::text::text_eq;

verus! {

/// Whether `n` carries the id `id`; a node without an id carries none.
pub open spec fn has_id(n: Node, id: Seq<char>) -> bool {
    n.node_id matches Some(s) && s@ == id
}

/// Subscription `i`, node `j` exists and carries `id`.
pub open spec fn matches_at(rua: RConfig, id: Seq<char>, i: int, j: int) -> bool {
    &&& 0 <= i < rua.subscriptions@.len()
    &&& 0 <= j < rua.subscriptions@[i].nodes@.len()
    &&& has_id(rua.subscriptions@[i].nodes@[j], id)
}

/// Some node of some subscription carries `id`.
pub open spec fn has_node(rua: RConfig, id: Seq<char>) -> bool {
    exists|i: int, j: int| matches_at(rua, id, i, j)
}

/// Subscription `i`, node `j` is the first node carrying `id`, subscriptions
/// in order and nodes in order within each.
pub open spec fn first_match(rua: RConfig, id: Seq<char>, i: int, j: int) -> bool {
    &&& matches_at(rua, id, i, j)
    &&& forall|i2: int, j2: int|
        #![trigger matches_at(rua, id, i2, j2)]
        matches_at(rua, id, i2, j2) ==> i < i2 || (i == i2 && j <= j2)
}

/// The position of the first node carrying `id`.
pub open spec fn found_pos(rua: RConfig, id: Seq<char>) -> (int, int) {
    choose|p: (int, int)| first_match(rua, id, p.0, p.1)
}

/// The first node carrying `id`.
pub open spec fn found_node(rua: RConfig, id: Seq<char>) -> Node {
    rua.subscriptions@[found_pos(rua, id).0].nodes@[found_pos(rua, id).1]
}

/// There is only one first match.
pub proof fn lemma_first_match_unique(rua: RConfig, id: Seq<char>, i: int, j: int)
    requires
        first_match(rua, id, i, j),
    ensures
        found_pos(rua, id) == (i, j),
        found_node(rua, id) == rua.subscriptions@[i].nodes@[j],
{
    let w = (i, j);
    assert(first_match(rua, id, w.0, w.1));
    let p = found_pos(rua, id);
    assert(first_match(rua, id, p.0, p.1));
    assert(matches_at(rua, id, i, j));
    assert(matches_at(rua, id, p.0, p.1));
}

/// Whether `n` carries the id `id`.
fn node_has_key(n: &Node, id: &str) -> (r: bool)
    ensures
        r == has_id(*n, id@),
{
    match &n.node_id {
        Some(s) => text_eq(s.as_str(), id),
        None => false,
    }
}

/// Locates the first node carrying `node_id`.
pub fn find_node_index(rua: &RConfig, node_id: &str) -> (r: Option<(usize, usize)>)
    ensures
        match r {
            Some((i, j)) => first_match(*rua, node_id@, i as int, j as int),
            None => !has_node(*rua, node_id@),
        },
{
    let mut i: usize = 0;
    while i < rua.subscriptions.len()
        invariant
            i <= rua.subscriptions@.len(),
            forall|i2: int, j2: int| 0 <= i2 < i ==> !matches_at(*rua, node_id@, i2, j2),
        decreases rua.subscriptions@.len() - i,
    {
        let nodes = &rua.subscriptions[i].nodes;
        let mut j: usize = 0;
        while j < nodes.len()
            invariant
                i < rua.subscriptions@.len(),
                *nodes == rua.subscriptions@[i as int].nodes,
                j <= nodes@.len(),
                forall|i2: int, j2: int| 0 <= i2 < i ==> !matches_at(*rua, node_id@, i2, j2),
                forall|j2: int| 0 <= j2 < j ==> !matches_at(*rua, node_id@, i as int, j2),
            decreases nodes@.len() - j,
        {
            if node_has_key(&nodes[j], node_id) {
                assert forall|i2: int, j2: int| matches_at(*rua, node_id@, i2, j2) implies i < i2 || (
                i == i2 && j <= j2) by {
                    if i2 < i {
                    } else if i2 == i && j2 < j {
                    }
                }
                return Some((i, j));
            }
            j = j + 1;
        }
        i = i + 1;
    }
    None
}

/// The first node carrying `node_id`.
pub fn find_node<'a>(node_id: &String, rua: &'a RConfig) -> (r: Result<&'a Node, VError>)
    ensures
        r is Ok <==> has_node(*rua, node_id@),
        r matches Ok(n) ==> *n == found_node(*rua, node_id@),
        r matches Err(e) ==> e == VError::NodeNotFound(*node_id),
{
    match find_node_index(rua, node_id.as_str()) {
        Some((i, j)) => {
            proof {
                lemma_first_match_unique(*rua, node_id@, i as int, j as int);
            }
            Ok(&rua.subscriptions[i].nodes[j])
        },
        None => Err(VError::NodeNotFound(node_id.clone())),
    }
}

/// `b` is `a` with at most node `j` of subscription `i` changed.
pub open spec fn same_but_node(a: RConfig, b: RConfig, i: int, j: int) -> bool {
    &&& b.logging == a.logging
    &&& b.version == a.version
    &&& b.current_id == a.current_id
    &&& b.save_windows == a.save_windows
    &&& b.settings == a.settings
    &&& b.subscriptions@.len() == a.subscriptions@.len()
    &&& forall|k: int|
        0 <= k < a.subscriptions@.len() && k != i ==> b.subscriptions@[k] == a.subscriptions@[k]
    &&& b.subscriptions@[i].name == a.subscriptions@[i].name
    &&& b.subscriptions@[i].url == a.subscriptions@[i].url
    &&& b.subscriptions@[i].nodes@.len() == a.subscriptions@[i].nodes@.len()
    &&& forall|m: int|
        0 <= m < a.subscriptions@[i].nodes@.len() && m != j ==> b.subscriptions@[i].nodes@[m]
            == a.subscriptions@[i].nodes@[m]
}

impl VConfig {
    /// Records whether the node carrying `id` could be reached.
    pub fn change_connectivity(&mut self, id: &str, connectivity: bool) -> (r: Result<(), VError>)
        ensures
            r is Ok <==> has_node(old(self).rua, id@),
            r matches Err(e) ==> (e matches VError::NodeNotFound(s) && s@ == id@) && *final(self) == *old(self),
            r is Ok ==> {
                let (i, j) = found_pos(old(self).rua, id@);
                &&& same_but_node(old(self).rua, final(self).rua, i, j)
                &&& final(self).rua.subscriptions@[i].nodes@[j] == Node {
                    connectivity: Some(connectivity),
                    ..old(self).rua.subscriptions@[i].nodes@[j]
                }
                &&& final(self).core == old(self).core
                &&& final(self).core_path == old(self).core_path
                &&& final(self).rua_path == old(self).rua_path
            },
    {
        match find_node_index(&self.rua, id) {
            Some((i, j)) => {
                proof {
                    lemma_first_match_unique(self.rua, id@, i as int, j as int);
                }
                self.rua.subscriptions[i].nodes[j].connectivity = Some(connectivity);
                Ok(())
            },
            None => Err(VError::NodeNotFound(id.to_owned())),
        }
    }
}

/// Outbound `k` of `s` exists and carries `tag`.
pub open spec fn tagged(s: Seq<Outbound>, tag: Seq<char>, k: int) -> bool {
    0 <= k < s.len() && s[k].tag@ == tag
}

/// Some outbound of `s` carries `tag`.
pub open spec fn has_tagged(s: Seq<Outbound>, tag: Seq<char>) -> bool {
    exists|k: int| tagged(s, tag, k)
}

/// Outbound `k` is the first of `s` that carries `tag`.
pub open spec fn first_tagged(s: Seq<Outbound>, tag: Seq<char>, k: int) -> bool {
    tagged(s, tag, k) && forall|m: int| 0 <= m < k ==> !tagged(s, tag, m)
}

/// No two outbounds of `s` carry `tag`.
pub open spec fn at_most_one_tagged(s: Seq<Outbound>, tag: Seq<char>) -> bool {
    forall|a: int, b: int| tagged(s, tag, a) && tagged(s, tag, b) ==> a == b
}

/// Exactly one outbound of `s` carries `tag`.
pub open spec fn exactly_one_tagged(s: Seq<Outbound>, tag: Seq<char>) -> bool {
    has_tagged(s, tag) && at_most_one_tagged(s, tag)
}

/// `s` with `o` in place of the first outbound that has `o`'s tag; where
/// there is none, `o` is added in front or at the end.
pub open spec fn place_outbound(s: Seq<Outbound>, o: Outbound, in_front: bool) -> Seq<Outbound> {
    if has_tagged(s, o.tag@) {
        s.update(choose|k: int| first_tagged(s, o.tag@, k), o)
    } else if in_front {
        seq![o] + s
    } else {
        s.push(o)
    }
}

/// The first outbound is the only first one.
pub(crate) proof fn lemma_first_tagged_unique(s: Seq<Outbound>, tag: Seq<char>, k: int)
    requires
        first_tagged(s, tag, k),
    ensures
        (choose|m: int| first_tagged(s, tag, m)) == k,
{
    let m = choose|m: int| first_tagged(s, tag, m);
    assert(first_tagged(s, tag, m));
    if m < k {
        assert(!tagged(s, tag, m));
    } else if k < m {
        assert(!tagged(s, tag, k));
    }
}

/// The position of the first outbound of `v` tagged `tag`.
pub fn position_of_tag(v: &Vec<Outbound>, tag: &str) -> (r: Option<usize>)
    ensures
        match r {
            Some(k) => first_tagged(v@, tag@, k as int),
            None => !has_tagged(v@, tag@),
        },
{
    let mut k: usize = 0;
    while k < v.len()
        invariant
            k <= v@.len(),
            forall|m: int| 0 <= m < k ==> !tagged(v@, tag@, m),
        decreases v@.len() - k,
    {
        if text_eq(v[k].tag.as_str(), tag) {
            return Some(k);
        }
        k = k + 1;
    }
    None
}

/// Puts `o` in place of the first outbound with its tag, or adds it.
pub fn put_outbound(v: &mut Vec<Outbound>, o: Outbound, in_front: bool)
    ensures
        final(v)@ == place_outbound(old(v)@, o, in_front),
{
    match position_of_tag(v, o.tag.as_str()) {
        Some(k) => {
            proof {
                lemma_first_tagged_unique(v@, o.tag@, k as int);
            }
            v.set(k, o);
        },
        None => {
            if in_front {
                v.insert(0, o);
                assert(v@ =~= place_outbound(old(v)@, o, in_front));
            } else {
                v.push(o);
            }
        },
    }
}

impl VConfig {
    /// Makes the node carrying `node_id` the active one: the engine's
    /// "proxy" outbound is replaced by (or, where there is none, preceded by)
    /// the outbound built for the node, and the node's id is recorded as the
    /// current selection. The caller writes both files and asks for a
    /// restart.
    pub fn select_node(&mut self, node_id: &str) -> (r: Result<(), VError>)
        ensures
            r is Ok <==> has_node(old(self).rua, node_id@) && old(self).core is Some
                && node_numbers_valid(found_node(old(self).rua, node_id@)),
            r matches Err(e) ==> *final(self) == *old(self) && if !has_node(old(self).rua, node_id@) {
                e matches VError::NodeNotFound(s) && s@ == node_id@
            } else if old(self).core is None {
                e == VError::EmptyConfig
            } else {
                e == node_number_error(found_node(old(self).rua, node_id@))
            },
            r is Ok ==> {
                let node = found_node(old(self).rua, node_id@);
                let old_core = old(self).core->0;
                &&& final(self).core matches Some(c) && exists|o: Outbound|
                    is_outbound_for(node, "proxy"@, o) && #[trigger] place_outbound(
                        old_core.outbounds@,
                        o,
                        true,
                    ) == c.outbounds@ && c == CoreConfig {
                        outbounds: c.outbounds,
                        ..old_core
                    }
                &&& final(self).rua.current_id@ == node_id@
                &&& final(self).rua == RConfig { current_id: final(self).rua.current_id, ..old(self).rua }
                &&& final(self).core_path == old(self).core_path
                &&& final(self).rua_path == old(self).rua_path
            },
    {
        let (i, j) = match find_node_index(&self.rua, node_id) {
            Some(p) => p,
            None => {
                return Err(VError::NodeNotFound(node_id.to_owned()));
            },
        };
        proof {
            lemma_first_match_unique(self.rua, node_id@, i as int, j as int);
        }
        if self.core.is_none() {
            return Err(VError::EmptyConfig);
        }
        let proxy = match proxy_builder(&self.rua.subscriptions[i].nodes[j], "proxy".to_owned()) {
            Ok(o) => o,
            Err(e) => {
                return Err(e);
            },
        };
        let mut core = self.core.take().unwrap();
        put_outbound(&mut core.outbounds, proxy, true);
        self.core = Some(core);
        self.rua.current_id = node_id.to_owned();
        Ok(())
    }
}

/// Placing an outbound leaves exactly one outbound with its tag, the placed
/// one, provided the list had at most one before; placing it again changes
/// nothing.
pub proof fn lemma_place_keeps_one(s: Seq<Outbound>, o: Outbound, in_front: bool)
    requires
        at_most_one_tagged(s, o.tag@),
    ensures
        exactly_one_tagged(place_outbound(s, o, in_front), o.tag@),
        forall|k: int|
            tagged(place_outbound(s, o, in_front), o.tag@, k) ==> place_outbound(s, o, in_front)[k]
                == o,
        place_outbound(place_outbound(s, o, in_front), o, in_front) == place_outbound(s, o, in_front),
{
    let tag = o.tag@;
    let t = place_outbound(s, o, in_front);
    if has_tagged(s, tag) {
        let w = choose|k: int| tagged(s, tag, k);
        assert(tagged(s, tag, w));
        assert(first_tagged(s, tag, w)) by {
            assert forall|m: int| 0 <= m < w implies !tagged(s, tag, m) by {
                if tagged(s, tag, m) {
                    assert(m == w);
                }
            }
        }
        lemma_first_tagged_unique(s, tag, w);
        assert(t == s.update(w, o));
        assert(tagged(t, tag, w));
        assert forall|a: int, b: int| tagged(t, tag, a) && tagged(t, tag, b) implies a == b by {
            if a != w {
                assert(tagged(s, tag, a));
            }
            if b != w {
                assert(tagged(s, tag, b));
            }
        }
        assert(first_tagged(t, tag, w)) by {
            assert forall|m: int| 0 <= m < w implies !tagged(t, tag, m) by {
                if tagged(t, tag, m) {
                    assert(tagged(s, tag, m));
                }
            }
        }
        lemma_first_tagged_unique(t, tag, w);
        assert(t.update(w, o) =~= t);
    } else if in_front {
        assert(t == seq![o] + s);
        assert(tagged(t, tag, 0));
        assert forall|a: int, b: int| tagged(t, tag, a) && tagged(t, tag, b) implies a == b by {
            if a != 0 {
                assert(s[a - 1] == t[a]);
                assert(tagged(s, tag, a - 1));
            }
            if b != 0 {
                assert(s[b - 1] == t[b]);
                assert(tagged(s, tag, b - 1));
            }
        }
        assert(first_tagged(t, tag, 0));
        lemma_first_tagged_unique(t, tag, 0);
        assert(t.update(0, o) =~= t);
    } else {
        let n = s.len() as int;
        assert(t == s.push(o));
        assert(tagged(t, tag, n));
        assert forall|a: int, b: int| tagged(t, tag, a) && tagged(t, tag, b) implies a == b by {
            if a != n {
                assert(tagged(s, tag, a));
            }
            if b != n {
                assert(tagged(s, tag, b));
            }
        }
        assert(first_tagged(t, tag, n)) by {
            assert forall|m: int| 0 <= m < n implies !tagged(t, tag, m) by {
                if tagged(t, tag, m) {
                    assert(tagged(s, tag, m));
                }
            }
        }
        lemma_first_tagged_unique(t, tag, n);
        assert(t.update(n, o) =~= t);
    }
}

/// Placing a second outbound with the same tag over a first one gives the
/// list that placing the second alone would have given: re-selection adds
/// nothing and moves nothing.
pub proof fn lemma_place_again(s: Seq<Outbound>, o1: Outbound, o2: Outbound, in_front: bool)
    requires
        at_most_one_tagged(s, o1.tag@),
        o2.tag@ == o1.tag@,
    ensures
        place_outbound(place_outbound(s, o1, in_front), o2, in_front) == place_outbound(s, o2, in_front),
{
    let tag = o1.tag@;
    let t = place_outbound(s, o1, in_front);
    lemma_place_keeps_one(s, o1, in_front);
    let w: int = if has_tagged(s, tag) {
        let w = choose|k: int| tagged(s, tag, k);
        assert(tagged(s, tag, w));
        assert(first_tagged(s, tag, w)) by {
            assert forall|m: int| 0 <= m < w implies !tagged(s, tag, m) by {
                if tagged(s, tag, m) {
                    assert(m == w);
                }
            }
        }
        lemma_first_tagged_unique(s, tag, w);
        w
    } else if in_front {
        0
    } else {
        s.len() as int
    };
    assert(tagged(t, tag, w));
    assert(first_tagged(t, tag, w)) by {
        assert forall|m: int| 0 <= m < w implies !tagged(t, tag, m) by {}
    }
    lemma_first_tagged_unique(t, tag, w);
    if has_tagged(s, tag) {
        assert(t.update(w, o2) =~= s.update(w, o2));
    } else if in_front {
        assert(t.update(w, o2) =~= seq![o2] + s);
    } else {
        assert(t.update(w, o2) =~= s.push(o2));
    }
}

/// Selecting a node leaves exactly one "proxy" outbound, the one built for
/// the node, provided the list had at most one before; selecting again
/// changes nothing, and selecting with any newly built "proxy" outbound gives
/// what selecting once with it would have given.
pub proof fn lemma_select_keeps_one_proxy(s: Seq<Outbound>, o: Outbound)
    requires
        at_most_one_tagged(s, "proxy"@),
        o.tag@ == "proxy"@,
    ensures
        exactly_one_tagged(place_outbound(s, o, true), "proxy"@),
        forall|k: int|
            tagged(place_outbound(s, o, true), "proxy"@, k) ==> place_outbound(s, o, true)[k] == o,
        place_outbound(place_outbound(s, o, true), o, true) == place_outbound(s, o, true),
        forall|o2: Outbound|
            o2.tag@ == "proxy"@ ==> #[trigger] place_outbound(place_outbound(s, o, true), o2, true)
                == place_outbound(s, o2, true),
{
    lemma_place_keeps_one(s, o, true);
    assert forall|o2: Outbound| o2.tag@ == "proxy"@ implies #[trigger] place_outbound(
        place_outbound(s, o, true),
        o2,
        true,
    ) == place_outbound(s, o2, true) by {
        lemma_place_again(s, o, o2, true);
    }
}

/// The engine configuration's standing invariant: exactly one "proxy"
/// outbound, and the "direct" and "blocked" fallbacks present.
pub open spec fn outbounds_wf(s: Seq<Outbound>) -> bool {
    &&& exactly_one_tagged(s, "proxy"@)
    &&& has_tagged(s, "direct"@)
    &&& has_tagged(s, "blocked"@)
}

/// Outbounds that keep their tag keep being found under it.
proof fn lemma_tag_kept(s: Seq<Outbound>, t: Seq<Outbound>, tag: Seq<char>, k: int, shift: int)
    requires
        tagged(s, tag, k),
        0 <= k + shift < t.len(),
        t[k + shift] == s[k],
    ensures
        has_tagged(t, tag),
{
    assert(tagged(t, tag, k + shift));
}

/// Selecting a node keeps the invariant.
pub proof fn lemma_select_keeps_outbounds_wf(s: Seq<Outbound>, o: Outbound)
    requires
        outbounds_wf(s),
        o.tag@ == "proxy"@,
    ensures
        outbounds_wf(place_outbound(s, o, true)),
{
    reveal_strlit("proxy");
    reveal_strlit("direct");
    reveal_strlit("blocked");
    lemma_select_keeps_one_proxy(s, o);
    let t = place_outbound(s, o, true);
    let d = choose|k: int| tagged(s, "direct"@, k);
    let b = choose|k: int| tagged(s, "blocked"@, k);
    assert(tagged(s, "direct"@, d));
    assert(tagged(s, "blocked"@, b));
    assert("proxy"@ != "direct"@) by {
        assert("proxy"@[0] != "direct"@[0]);
    }
    assert("proxy"@ != "blocked"@) by {
        assert("proxy"@[0] != "blocked"@[0]);
    }
    if has_tagged(s, "proxy"@) {
        let w = choose|k: int| tagged(s, "proxy"@, k);
        assert(tagged(s, "proxy"@, w));
        assert(first_tagged(s, "proxy"@, w)) by {
            assert forall|m: int| 0 <= m < w implies !tagged(s, "proxy"@, m) by {
                if tagged(s, "proxy"@, m) {
                    assert(m == w);
                }
            }
        }
        lemma_first_tagged_unique(s, "proxy"@, w);
        assert(t == s.update(w, o));
        assert(d != w);
        assert(b != w);
        lemma_tag_kept(s, t, "direct"@, d, 0);
        lemma_tag_kept(s, t, "blocked"@, b, 0);
    } else {
        assert(t == seq![o] + s);
        lemma_tag_kept(s, t, "direct"@, d, 1);
        lemma_tag_kept(s, t, "blocked"@, b, 1);
    }
}

/// `rel` appended to `base` as a path component, with a separator where
/// `base` is non-empty and does not end in one.
pub open spec fn join_path(base: Seq<char>, rel: Seq<char>) -> Seq<char> {
    if base.len() == 0 || base.last() == '/' {
        base + rel
    } else {
        base + "/"@ + rel
    }
}

/// The folder that holds both configuration files.
pub open spec fn config_dir(home: Option<Seq<char>>) -> Seq<char> {
    match home {
        Some(h) => join_path(h, ".config/"@ + NAME@),
        None => "/usr/local/"@ + NAME@,
    }
}

/// Appends `rel` to `base` as a path component.
pub fn join_path_text(base: &str, rel: &str) -> (r: String)
    ensures
        r@ == join_path(base@, rel@),
{
    let n = base.unicode_len();
    let mut r = base.to_owned();
    if n > 0 && base.get_char(n - 1) != '/' {
        r.append("/");
    }
    r.append(rel);
    r
}

/// The folder that holds both configuration files, under the user's home
/// folder when there is one.
pub fn config_dir_text(home: Option<&str>) -> (r: String)
    ensures
        r@ == config_dir(
            match home {
                Some(h) => Some(h@),
                None => None,
            },
        ),
{
    match home {
        Some(h) => {
            let mut rel = ".config/".to_owned();
            rel.append(NAME);
            join_path_text(h, rel.as_str())
        },
        None => {
            let mut r = "/usr/local/".to_owned();
            r.append(NAME);
            r
        },
    }
}

/// Subscription `k` is the first one fetched from `url`.
pub open spec fn first_with_url(rua: RConfig, url: Seq<char>, k: int) -> bool {
    &&& 0 <= k < rua.subscriptions@.len()
    &&& rua.subscriptions@[k].url@ == url
    &&& forall|m: int| 0 <= m < k ==> rua.subscriptions@[m].url@ != url
}

impl VConfig {
    /// Points the aggregate at `config.json` and `config.toml` in the
    /// configuration folder.
    pub fn set_paths(&mut self, home: Option<&str>)
        ensures
            ({
                let dir = config_dir(
                    match home {
                        Some(h) => Some(h@),
                        None => None,
                    },
                );
                &&& final(self).core_path@ == join_path(dir, "config.json"@)
                &&& final(self).rua_path@ == join_path(dir, "config.toml"@)
            }),
            final(self).core == old(self).core,
            final(self).rua == old(self).rua,
    {
        let dir = config_dir_text(home);
        self.core_path = join_path_text(dir.as_str(), "config.json");
        self.rua_path = join_path_text(dir.as_str(), "config.toml");
    }

    /// Takes in the engine configuration read from its file, or the error
    /// met while reading it, which leaves the aggregate as it was.
    pub fn reload_core(&mut self, parsed: Result<CoreConfig, VError>) -> (r: Result<(), VError>)
        ensures
            match parsed {
                Ok(c) => r is Ok && final(self).core == Some(c),
                Err(e) => r == Err::<(), VError>(e) && final(self).core == old(self).core,
            },
            final(self).rua == old(self).rua,
            final(self).core_path == old(self).core_path,
            final(self).rua_path == old(self).rua_path,
    {
        match parsed {
            Ok(c) => {
                self.core = Some(c);
                Ok(())
            },
            Err(e) => Err(e),
        }
    }

    /// Takes in the application configuration read from its file, exactly
    /// as read, or the error met while reading it, which leaves the
    /// aggregate as it was.
    pub fn reload_rua(&mut self, parsed: Result<RConfig, VError>) -> (r: Result<(), VError>)
        ensures
            match parsed {
                Ok(c) => r is Ok && final(self).rua == c,
                Err(e) => r == Err::<(), VError>(e) && final(self).rua == old(self).rua,
            },
            final(self).core == old(self).core,
            final(self).core_path == old(self).core_path,
            final(self).rua_path == old(self).rua_path,
    {
        match parsed {
            Ok(c) => {
                self.rua = c;
                Ok(())
            },
            Err(e) => Err(e),
        }
    }

    /// Takes in both files: the engine configuration first, then the
    /// application configuration; the first error stops the reload.
    pub fn reload(&mut self, core: Result<CoreConfig, VError>, rua: Result<RConfig, VError>) -> (r: Result<(), VError>)
        ensures
            match core {
                Err(e) => r == Err::<(), VError>(e) && *final(self) == *old(self),
                Ok(c) => {
                    &&& final(self).core == Some(c)
                    &&& match rua {
                        Err(e) => r == Err::<(), VError>(e) && final(self).rua == old(self).rua,
                        Ok(a) => r is Ok && final(self).rua == a,
                    }
                },
            },
            final(self).core_path == old(self).core_path,
            final(self).rua_path == old(self).rua_path,
    {
        match self.reload_core(core) {
            Ok(()) => {},
            Err(e) => {
                return Err(e);
            },
        }
        self.reload_rua(rua)
    }

    /// The engine configuration to be written to its file; there is none
    /// before the first successful load.
    pub fn write_core(&self) -> (r: Result<&CoreConfig, VError>)
        ensures
            match self.core {
                Some(c) => r == Ok::<&CoreConfig, VError>(&c),
                None => r == Err::<&CoreConfig, VError>(VError::EmptyConfig),
            },
    {
        match &self.core {
            Some(c) => Ok(c),
            None => Err(VError::EmptyConfig),
        }
    }

    /// Replaces whichever of the two configurations is given.
    pub fn apply_update(&mut self, core: Option<CoreConfig>, rua: Option<RConfig>)
        ensures
            final(self).core == match core {
                Some(c) => Some(c),
                None => old(self).core,
            },
            final(self).rua == match rua {
                Some(a) => a,
                None => old(self).rua,
            },
            final(self).core_path == old(self).core_path,
            final(self).rua_path == old(self).rua_path,
    {
        if let Some(c) = core {
            self.core = Some(c);
        }
        if let Some(a) = rua {
            self.rua = a;
        }
    }

    /// Adds a subscription with the nodes fetched for it, after the others.
    pub fn add_subscription(&mut self, name: String, url: String, nodes: Vec<Node>)
        ensures
            final(self).rua.subscriptions@ == old(self).rua.subscriptions@.push(
                (Subscription { name, url, nodes }),
            ),
            final(self).rua == (RConfig { subscriptions: final(self).rua.subscriptions, ..old(self).rua }),
            final(self).core == old(self).core,
            final(self).core_path == old(self).core_path,
            final(self).rua_path == old(self).rua_path,
    {
        self.rua.subscriptions.push(Subscription { name, url, nodes });
    }

    /// The position of the first subscription fetched from `url`.
    pub fn find_subscription(&self, url: &str) -> (r: Option<usize>)
        ensures
            match r {
                Some(k) => k < self.rua.subscriptions@.len() && self.rua.subscriptions@[k as int].url@
                    == url@ && forall|m: int|
                    0 <= m < k ==> self.rua.subscriptions@[m].url@ != url@,
                None => forall|m: int|
                    0 <= m < self.rua.subscriptions@.len() ==> self.rua.subscriptions@[m].url@
                        != url@,
            },
    {
        let mut k: usize = 0;
        while k < self.rua.subscriptions.len()
            invariant
                k <= self.rua.subscriptions@.len(),
                forall|m: int| 0 <= m < k ==> self.rua.subscriptions@[m].url@ != url@,
            decreases self.rua.subscriptions@.len() - k,
        {
            if text_eq(self.rua.subscriptions[k].url.as_str(), url) {
                return Some(k);
            }
            k = k + 1;
        }
        None
    }

    /// Replaces the whole node list of subscription `index`; nothing of the
    /// old list is kept.
    pub fn replace_nodes(&mut self, index: usize, nodes: Vec<Node>)
        requires
            index < old(self).rua.subscriptions@.len(),
        ensures
            final(self).rua.subscriptions@ == old(self).rua.subscriptions@.update(
                index as int,
                (Subscription { nodes, ..old(self).rua.subscriptions@[index as int] }),
            ),
            final(self).rua == (RConfig { subscriptions: final(self).rua.subscriptions, ..old(self).rua }),
            final(self).core == old(self).core,
            final(self).core_path == old(self).core_path,
            final(self).rua_path == old(self).rua_path,
    {
        self.rua.subscriptions[index].nodes = nodes;
    }

    /// Replaces the nodes of the first subscription fetched from `url`.
    pub fn update_sub(&mut self, url: &str, nodes: Vec<Node>) -> (r: Result<(), VError>)
        ensures
            r is Ok <==> exists|m: int|
                0 <= m < old(self).rua.subscriptions@.len()
                    && #[trigger] old(self).rua.subscriptions@[m].url@ == url@,
            r matches Err(e) ==> (e matches VError::SubscriptionNotFound(s) && s@ == url@)
                && *final(self) == *old(self),
            r is Ok ==> exists|k: int|
                #[trigger] first_with_url(old(self).rua, url@, k)
                    && final(self).rua.subscriptions@ == old(self).rua.subscriptions@.update(
                    k,
                    (Subscription { nodes, ..old(self).rua.subscriptions@[k] }),
                ),
    {
        match self.find_subscription(url) {
            Some(k) => {
                assert(first_with_url(self.rua, url@, k as int));
                self.replace_nodes(k, nodes);
                Ok(())
            },
            None => Err(VError::SubscriptionNotFound(url.to_owned())),
        }
    }
}

/// Which of the two configurations a request is about.
#[derive(Debug, Clone, Copy, PartialEq, Eq)]
pub enum WhichConfig {
    Rua,
    Core,
}

/// A configuration handed to a reader.
#[derive(Debug, Clone, PartialEq)]
pub enum ReturnConfig {
    Core(Box<CoreConfig>),
    Rua(Box<RConfig>),
}

impl VConfig {
    /// The file the requested configuration is kept in.
    pub fn config_path(&self, which: WhichConfig) -> (r: &String)
        ensures
            *r == match which {
                WhichConfig::Rua => self.rua_path,
                WhichConfig::Core => self.core_path,
            },
    {
        match which {
            WhichConfig::Rua => &self.rua_path,
            WhichConfig::Core => &self.core_path,
        }
    }
}

/// What to do about automatic subscription updates.
#[derive(Debug, Clone, Copy, PartialEq, Eq)]
pub enum SubsUpdatePlan {
    /// Fetch every subscription now, then restart the engine.
    UpdateNow,
    /// Fetch every subscription periodically, every this many seconds.
    Every(u64),
    /// Stop any periodic fetching.
    Cancel,
}

/// The plan the settings call for: an update at startup, a periodic update
/// when an interval in minutes is set, and otherwise none.
pub open spec fn subs_update_plan_spec(settings: crate::config::RUABasicSetting) -> SubsUpdatePlan {
    match settings.update_subs {
        Some(crate::config::SubsAutoUpdate::Startup) => SubsUpdatePlan::UpdateNow,
        Some(crate::config::SubsAutoUpdate::Time) => match settings.update_time {
            Some(m) => SubsUpdatePlan::Every((m * 60) as u64),
            None => SubsUpdatePlan::Cancel,
        },
        _ => SubsUpdatePlan::Cancel,
    }
}

/// Decides what to do about automatic subscription updates.
pub fn subs_update_plan(settings: &crate::config::RUABasicSetting) -> (r: SubsUpdatePlan)
    ensures
        r == subs_update_plan_spec(*settings),
{
    match settings.update_subs {
        Some(crate::config::SubsAutoUpdate::Startup) => SubsUpdatePlan::UpdateNow,
        Some(crate::config::SubsAutoUpdate::Time) => match settings.update_time {
            Some(m) => SubsUpdatePlan::Every(m as u64 * 60),
            None => SubsUpdatePlan::Cancel,
        },
        _ => SubsUpdatePlan::Cancel,
    }
}

} // verus!
