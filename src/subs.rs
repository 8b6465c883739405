//! Subscription payloads: base64 text holding one `scheme://payload` link
//! per line, each payload itself base64 of a node's JSON description.
use vstd::prelude::*;
use crate::config::{node_type_of, Node, NodeType};
use crate::error::VError;
use crate::text::{decimal, decimal_text, find_text, lemma_decimal_injective, occurs_at, contains_spec};

verus! {

/// What the standard base64 alphabet, with padding, decodes `s` to.
pub uninterp spec fn base64_decoded(s: Seq<char>) -> Option<Seq<u8>>;

/// The text that bytes read as UTF-8 give, invalid sequences replaced by
/// U+FFFD.
pub uninterp spec fn utf8_lossy(b: Seq<u8>) -> Seq<char>;

/// The lower-case form of `s`.
pub uninterp spec fn lower_of(s: Seq<char>) -> Seq<char>;

/// The MD5 digest of the UTF-8 bytes of `s`, as 32 lower-case hex digits.
pub uninterp spec fn md5_hex_of(s: Seq<char>) -> Seq<char>;

#[verifier::external_type_specification]
#[verifier::external_body]
pub struct ExDecodeError(base64::DecodeError);

/// Relies on base64's `general_purpose::STANDARD.decode`: the bytes that
/// standard, padded base64 text stands for, or an error when it is not such
/// text.
#[verifier::external_body]
fn decode_base64(s: &str) -> (r: Result<Vec<u8>, base64::DecodeError>)
    ensures
        match r {
            Ok(v) => base64_decoded(s@) == Some(v@),
            Err(_) => base64_decoded(s@) is None,
        },
{
    base64::Engine::decode(&base64::engine::general_purpose::STANDARD, s)
}

/// Relies on std's `String::from_utf8_lossy`.
#[verifier::external_body]
fn utf8_lossy_text(b: &[u8]) -> (r: String)
    ensures
        r@ == utf8_lossy(b@),
{
    String::from_utf8_lossy(b).into_owned()
}

/// Whether every character of `s` is ASCII.
pub open spec fn is_ascii_text(s: Seq<char>) -> bool {
    forall|i: int| 0 <= i < s.len() ==> (#[trigger] s[i] as u32) < 128
}

/// The lower-case form of an ASCII character: A to Z become a to z, every
/// other character stays.
pub open spec fn ascii_lower(c: char) -> char {
    if 'A' <= c && c <= 'Z' {
        ((c as u32) + 32) as char
    } else {
        c
    }
}

/// Relies on std's `str::to_lowercase`, which keeps an empty string empty
/// and, on ASCII text, maps A to Z to a to z and keeps every other
/// character.
#[verifier::external_body]
fn lowercase(s: &str) -> (r: String)
    ensures
        r@ == lower_of(s@),
        s@.len() == 0 ==> r@.len() == 0,
        is_ascii_text(s@) ==> r@ == s@.map_values(|c: char| ascii_lower(c)),
{
    s.to_lowercase()
}

/// Relies on md5::compute and the digest's `Debug` form, which writes each
/// of its sixteen bytes as two lower-case hex digits.
#[verifier::external_body]
fn md5_hex(s: &str) -> (r: String)
    ensures
        r@ == md5_hex_of(s@),
        r@.len() == 32,
{
    format!("{:?}", md5::compute(s.as_bytes()))
}

/// Base64 text decoded to bytes; anything but standard padded base64 is a
/// decode error.
pub fn decode_text(s: &str) -> (r: Result<Vec<u8>, VError>)
    ensures
        match r {
            Ok(v) => base64_decoded(s@) == Some(v@),
            Err(e) => base64_decoded(s@) is None && e == VError::DecodeError,
        },
{
    match decode_base64(s) {
        Ok(v) => Ok(v),
        Err(_) => Err(VError::DecodeError),
    }
}

/// The position of the first line break in `s`, or its length.
pub open spec fn line_end(s: Seq<char>) -> nat
    decreases s.len(),
{
    if s.len() == 0 {
        0
    } else if s[0] == '\n' {
        0
    } else {
        1 + line_end(s.drop_first())
    }
}

/// The non-empty lines of `s`, in order, without their line breaks.
pub open spec fn nonempty_lines(s: Seq<char>) -> Seq<Seq<char>>
    decreases s.len(),
{
    if s.len() == 0 {
        Seq::empty()
    } else {
        let k = line_end(s) as int;
        let head = s.subrange(0, k);
        let rest = if k < s.len() {
            s.subrange(k + 1, s.len() as int)
        } else {
            Seq::empty()
        };
        let first = if head.len() > 0 {
            seq![head]
        } else {
            Seq::empty()
        };
        first + nonempty_lines(rest)
    }
}

/// Where the first line break is: before it, none.
proof fn lemma_line_end(s: Seq<char>)
    ensures
        0 <= line_end(s) <= s.len(),
        line_end(s) < s.len() ==> s[line_end(s) as int] == '\n',
        forall|m: int| 0 <= m < line_end(s) ==> s[m] != '\n',
    decreases s.len(),
{
    if s.len() > 0 && s[0] != '\n' {
        lemma_line_end(s.drop_first());
        assert forall|m: int| 0 <= m < line_end(s) implies s[m] != '\n' by {
            if m > 0 {
                assert(s[m] == s.drop_first()[m - 1]);
            }
        }
    }
}

/// A line break at `k`, with none before it, is where the first line ends.
proof fn lemma_line_end_at(s: Seq<char>, k: int)
    requires
        0 <= k <= s.len(),
        k < s.len() ==> s[k] == '\n',
        forall|m: int| 0 <= m < k ==> s[m] != '\n',
    ensures
        line_end(s) == k,
{
    lemma_line_end(s);
    if line_end(s) < k {
        assert(s[line_end(s) as int] == '\n');
    } else if line_end(s) > k {
        assert(s[k] != '\n');
    }
}

/// The views of a list of strings.
pub open spec fn views(v: Seq<String>) -> Seq<Seq<char>> {
    v.map_values(|l: String| l@)
}

/// Splits `s` at line breaks and keeps the non-empty lines.
pub fn split_lines(s: &str) -> (r: Vec<String>)
    ensures
        views(r@) == nonempty_lines(s@),
{
    let n = s.unicode_len();
    let mut lines: Vec<String> = Vec::new();
    let mut pos: usize = 0;
    assert(s@.subrange(0, n as int) =~= s@);
    assert(views(lines@) =~= Seq::<Seq<char>>::empty());
    while pos < n
        invariant
            n == s@.len(),
            pos <= n,
            views(lines@) + nonempty_lines(s@.subrange(pos as int, n as int)) == nonempty_lines(s@),
        decreases n - pos,
    {
        let ghost rest = s@.subrange(pos as int, n as int);
        let mut k: usize = pos;
        while k < n && s.get_char(k) != '\n'
            invariant
                n == s@.len(),
                pos <= k <= n,
                forall|m: int| pos <= m < k ==> s@[m] != '\n',
            decreases n - k,
        {
            k = k + 1;
        }
        proof {
            lemma_line_end_at(rest, k - pos);
        }
        let head = s.substring_char(pos, k);
        let ghost before = lines@;
        if k > pos {
            lines.push(head.to_owned());
            assert(views(lines@) =~= views(before) + seq![head@]);
        }
        let ghost next = if k < n {
            s@.subrange(k + 1, n as int)
        } else {
            Seq::empty()
        };
        assert(head@ == rest.subrange(0, k - pos));
        if k < n {
            assert(rest.subrange(k - pos + 1, rest.len() as int) =~= next);
            pos = k + 1;
        } else {
            pos = n;
        }
        assert(s@.subrange(pos as int, n as int) =~= next);
    }
    assert(s@.subrange(pos as int, n as int) =~= Seq::<char>::empty());
    assert(views(lines@) =~= nonempty_lines(s@));
    lines
}

/// The non-empty lines of a subscription payload.
pub fn decode_subscription(body: &str) -> (r: Result<Vec<String>, VError>)
    ensures
        match r {
            Ok(lines) => base64_decoded(body@) matches Some(b) && views(lines@) == nonempty_lines(
                utf8_lossy(b),
            ),
            Err(e) => base64_decoded(body@) is None && e == VError::DecodeError,
        },
{
    let bytes = match decode_text(body) {
        Ok(b) => b,
        Err(e) => {
            return Err(e);
        },
    };
    let text = utf8_lossy_text(bytes.as_slice());
    Ok(split_lines(text.as_str()))
}

/// A decoded subscription line: its node type and the node's JSON text.
#[derive(Debug, Clone, PartialEq)]
pub struct NodeLink {
    pub node_type: NodeType,
    pub json: String,
}

/// The position of the first `://` in `line`.
pub open spec fn scheme_end(line: Seq<char>, k: int) -> bool {
    occurs_at(line, "://"@, k) && forall|j: int| 0 <= j < k ==> !occurs_at(line, "://"@, j)
}

/// `r` is what decoding the subscription line `line` gives: a line without
/// `://` is malformed; otherwise the text after the first `://` is decoded,
/// and the scheme before it names the node type.
pub open spec fn link_decoded(line: Seq<char>, r: Result<NodeLink, VError>) -> bool {
    &&& !contains_spec(line, "://"@) ==> r == Err::<NodeLink, VError>(VError::LinkFormatError)
    &&& contains_spec(line, "://"@) ==> exists|k: int|
        #[trigger] scheme_end(line, k) && {
            let payload = line.subrange(k + 3, line.len() as int);
            match r {
                Ok(link) => base64_decoded(payload) matches Some(b) && link.json@ == utf8_lossy(b)
                    && link.node_type == node_type_of(lower_of(line.subrange(0, k))),
                Err(e) => base64_decoded(payload) is None && e == VError::DecodeError,
            }
        }
}

/// Whether decoding the subscription line `line` fails.
pub open spec fn link_fails(line: Seq<char>) -> bool {
    ||| !contains_spec(line, "://"@)
    ||| exists|k: int|
        #[trigger] scheme_end(line, k) && base64_decoded(line.subrange(k + 3, line.len() as int)) is None
}

/// The first `://` is the only first one.
proof fn lemma_scheme_end_unique(line: Seq<char>, a: int, b: int)
    requires
        scheme_end(line, a),
        scheme_end(line, b),
    ensures
        a == b,
{
    if a < b {
        assert(!occurs_at(line, "://"@, a));
    } else if b < a {
        assert(!occurs_at(line, "://"@, b));
    }
}

/// A decoding outcome fails exactly when the line does.
proof fn lemma_link_decoded_fails(line: Seq<char>, r: Result<NodeLink, VError>)
    requires
        link_decoded(line, r),
    ensures
        r is Err <==> link_fails(line),
{
    if contains_spec(line, "://"@) {
        let k = choose|k: int| #[trigger] scheme_end(line, k) && {
            let payload = line.subrange(k + 3, line.len() as int);
            match r {
                Ok(link) => base64_decoded(payload) matches Some(b) && link.json@ == utf8_lossy(b)
                    && link.node_type == node_type_of(lower_of(line.subrange(0, k))),
                Err(e) => base64_decoded(payload) is None && e == VError::DecodeError,
            }
        };
        assert forall|j: int| #[trigger] scheme_end(line, j) implies j == k by {
            lemma_scheme_end_unique(line, j, k);
        }
    }
}

/// Splits a line at its first `://` and decodes what follows it.
pub fn decode_link(line: &str) -> (r: Result<NodeLink, VError>)
    ensures
        link_decoded(line@, r),
{
    let k = match find_text(line, "://") {
        Some(k) => k,
        None => {
            return Err(VError::LinkFormatError);
        },
    };
    proof {
        reveal_strlit("://");
    }
    let n = line.unicode_len();
    let scheme = line.substring_char(0, k);
    let payload = line.substring_char(k + 3, n);
    assert(scheme_end(line@, k as int));
    let bytes = match decode_text(payload) {
        Ok(b) => b,
        Err(e) => {
            return Err(e);
        },
    };
    let json = utf8_lossy_text(bytes.as_slice());
    let node_type = NodeType::from(scheme);
    Ok(NodeLink { node_type, json })
}

impl<'a> From<&'a str> for NodeType {
    fn from(value: &'a str) -> (r: NodeType) {
        let lower = lowercase(value);
        NodeType::from_lowercase(lower.as_str())
    }
}

impl<'a> vstd::std_specs::convert::FromSpecImpl<&'a str> for NodeType {
    open spec fn obeys_from_spec() -> bool {
        true
    }

    open spec fn from_spec(v: &'a str) -> NodeType {
        node_type_of(lower_of(v@))
    }
}

/// The text a node's id is the digest of: name, address, port and the
/// line's position, joined by dashes.
pub open spec fn node_id_source(ps: Seq<char>, add: Seq<char>, port: Seq<char>, index: nat) -> Seq<char> {
    ps + "-"@ + add + "-"@ + port + "-"@ + decimal(index)
}

/// Renders the text a node's id is the digest of.
pub fn node_id_source_text(ps: &str, add: &str, port: &str, index: usize) -> (r: String)
    ensures
        r@ == node_id_source(ps@, add@, port@, index as nat),
{
    let mut r = ps.to_owned();
    r.append("-");
    r.append(add);
    r.append("-");
    r.append(port);
    r.append("-");
    let i = decimal_text(index as u64);
    r.append(i.as_str());
    r
}

/// `r` is `node`, read from line `index` of subscription `subs_name`, with
/// its origin, type and id filled in.
pub open spec fn node_completed(
    node: Node,
    r: Node,
    subs_name: Seq<char>,
    index: nat,
    line: Seq<char>,
    node_type: NodeType,
) -> bool {
    &&& r == (Node {
        subs: r.subs,
        node_id: r.node_id,
        raw_link: r.raw_link,
        node_type: Some(node_type),
        ..node
    })
    &&& r.subs matches Some(s) && s@ == subs_name
    &&& r.node_id matches Some(id) && id@ == md5_hex_of(node_id_source(node.ps@, node.add@, node.port@, index))
    &&& r.raw_link matches Some(l) && l@ == line
}

/// Completes a node read from line `index` of subscription `subs_name`:
/// records where it came from, its type, and its id, the digest of its name,
/// address, port and position.
pub fn complete_node(node: Node, subs_name: &str, index: usize, line: &str, node_type: NodeType) -> (r: Node)
    ensures
        node_completed(node, r, subs_name@, index as nat, line@, node_type),
{
    let source = node_id_source_text(node.ps.as_str(), node.add.as_str(), node.port.as_str(), index);
    let id = md5_hex(source.as_str());
    let mut node = node;
    node.subs = Some(subs_name.to_owned());
    node.node_id = Some(id);
    node.raw_link = Some(line.to_owned());
    node.node_type = Some(node_type);
    node
}

/// Two lines at different positions give different id sources, even when
/// their nodes share name, address and port.
pub proof fn lemma_node_id_sources_differ(
    ps: Seq<char>,
    add: Seq<char>,
    port: Seq<char>,
    i: nat,
    j: nat,
)
    requires
        i != j,
    ensures
        node_id_source(ps, add, port, i) != node_id_source(ps, add, port, j),
{
    let prefix = ps + "-"@ + add + "-"@ + port + "-"@;
    let a = node_id_source(ps, add, port, i);
    let b = node_id_source(ps, add, port, j);
    assert(a == prefix + decimal(i));
    assert(b == prefix + decimal(j));
    if a == b {
        assert(a.subrange(prefix.len() as int, a.len() as int) =~= decimal(i));
        assert(b.subrange(prefix.len() as int, b.len() as int) =~= decimal(j));
        lemma_decimal_injective(i, j);
    }
}

/// Decodes every line of a subscription, in order; the first line that
/// cannot be decoded fails the whole subscription.
pub fn decode_links(lines: &Vec<String>) -> (r: Result<Vec<NodeLink>, VError>)
    ensures
        r is Ok <==> forall|i: int| 0 <= i < lines@.len() ==> !link_fails(#[trigger] lines@[i]@),
        r matches Ok(links) ==> links@.len() == lines@.len() && forall|i: int|
            0 <= i < lines@.len() ==> link_decoded(#[trigger] lines@[i]@, Ok(links@[i])),
        r matches Err(e) ==> exists|i: int|
            0 <= i < lines@.len() && link_decoded(#[trigger] lines@[i]@, Err(e)) && forall|j: int|
                0 <= j < i ==> !link_fails(lines@[j]@),
{
    let mut links: Vec<NodeLink> = Vec::new();
    let mut i: usize = 0;
    while i < lines.len()
        invariant
            i <= lines@.len(),
            links@.len() == i,
            forall|j: int| 0 <= j < i ==> link_decoded(#[trigger] lines@[j]@, Ok(links@[j])),
            forall|j: int| 0 <= j < i ==> !link_fails(#[trigger] lines@[j]@),
        decreases lines@.len() - i,
    {
        let r = decode_link(lines[i].as_str());
        proof {
            lemma_link_decoded_fails(lines@[i as int]@, r);
        }
        match r {
            Ok(link) => {
                links.push(link);
                assert(link_decoded(lines@[i as int]@, Ok(links@[i as int])));
            },
            Err(e) => {
                assert(link_decoded(lines@[i as int]@, Err(e)));
                return Err(e);
            },
        }
        i = i + 1;
    }
    Ok(links)
}

/// Completes the nodes read from the lines of subscription `subs_name`, each
/// with its line, its position and the type its link named; none when the
/// three lists differ in length.
pub fn complete_nodes(subs_name: &str, lines: &Vec<String>, links: &Vec<NodeLink>, parsed: Vec<Node>) -> (r: Option<Vec<Node>>)
    ensures
        r is Some <==> lines@.len() == links@.len() && links@.len() == parsed@.len(),
        r matches Some(nodes) ==> nodes@.len() == parsed@.len() && forall|i: int|
            0 <= i < parsed@.len() ==> node_completed(
                parsed@[i],
                #[trigger] nodes@[i],
                subs_name@,
                i as nat,
                lines@[i]@,
                links@[i].node_type,
            ),
{
    if lines.len() != links.len() || links.len() != parsed.len() {
        return None;
    }
    let ghost all = parsed@;
    let mut rest = parsed;
    let mut nodes: Vec<Node> = Vec::new();
    while rest.len() > 0
        invariant
            lines@.len() == links@.len(),
            links@.len() == all.len(),
            nodes@.len() + rest@.len() == all.len(),
            rest@ == all.subrange(nodes@.len() as int, all.len() as int),
            forall|i: int|
                0 <= i < nodes@.len() ==> node_completed(
                    all[i],
                    #[trigger] nodes@[i],
                    subs_name@,
                    i as nat,
                    lines@[i]@,
                    links@[i].node_type,
                ),
        decreases rest@.len(),
    {
        let k = nodes.len();
        let node = rest.remove(0);
        assert(node == all[k as int]);
        let done = complete_node(node, subs_name, k, lines[k].as_str(), links[k].node_type);
        nodes.push(done);
        assert(rest@ =~= all.subrange(nodes@.len() as int, all.len() as int));
    }
    Some(nodes)
}

} // verus!
