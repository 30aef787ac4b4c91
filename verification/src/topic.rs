//! Topic addressing scheme.
//!
//! Every control-plane message is routed by a hierarchical, `.`-delimited
//! subject string: a prefix (a fixed well-known root when unset), the
//! lattice id, a category token, and the operation's own segments.  The
//! builders here are pure: identical inputs always yield identical topics,
//! and [`lemma_topic_injective`] shows that no two distinct operations on
//! the same prefix can collide as long as no caller-supplied segment holds
//! the delimiter or a wildcard character.

use vstd::prelude::*;

verus! {

/// A segment that is safe to embed in a topic: it holds neither the bus
/// delimiter `.` nor the reserved wildcard characters `*` and `>`.
pub open spec fn seg_ok(s: Seq<char>) -> bool {
    forall|i: int| 0 <= i < s.len() ==> s[i] != '.' && s[i] != '*' && s[i] != '>'
}

/// Whether `s` can stand as one topic segment.
pub fn segment_ok(s: &str) -> (r: bool)
    ensures
        r == seg_ok(s@),
{
    let n = s.unicode_len();
    let mut i: usize = 0;
    while i < n
        invariant
            0 <= i <= n,
            n == s@.len(),
            forall|j: int| 0 <= j < i ==> s@[j] != '.' && s@[j] != '*' && s@[j] != '>',
        decreases n - i,
    {
        let c = s.get_char(i);
        if c == '.' || c == '*' || c == '>' {
            return false;
        }
        i = i + 1;
    }
    true
}

/// The topic prefix actually used: the caller's, or the well-known root.
pub open spec fn resolved_prefix(topic_prefix: Option<Seq<char>>) -> Seq<char> {
    match topic_prefix {
        Some(p) => p,
        None => "wasmbus"@,
    }
}

/// The view of an optional prefix string.
pub open spec fn prefix_view(topic_prefix: &Option<String>) -> Option<Seq<char>> {
    match *topic_prefix {
        Some(p) => Some(p@),
        None => None,
    }
}

/// One addressed operation of the control protocol, with its
/// caller-supplied segments.
pub enum TopicKind {
    CmdScale { host: Seq<char> },
    CmdUpdate { host: Seq<char> },
    CmdStartProvider { host: Seq<char> },
    CmdStopProvider { host: Seq<char> },
    CmdStopHost { host: Seq<char> },
    GetHosts,
    GetClaims,
    GetLinks,
    GetInventory { host: Seq<char> },
    GetConfig { name: Seq<char> },
    AuctionComponent,
    AuctionProvider,
    RegistriesPut,
    LinkdefPut,
    LinkdefDel,
    ConfigPut { name: Seq<char> },
    ConfigDel { name: Seq<char> },
    LabelPut { host: Seq<char> },
    LabelDel { host: Seq<char> },
}

/// The segment list that an operation contributes after the prefix and the
/// lattice id.  The leading segment is the operation's category token, so
/// distinct categories can never collide.
pub open spec fn segments(k: TopicKind) -> Seq<Seq<char>> {
    match k {
        TopicKind::CmdScale { host } => seq!["cmd"@, host, "scale"@],
        TopicKind::CmdUpdate { host } => seq!["cmd"@, host, "update"@],
        TopicKind::CmdStartProvider { host } => seq!["cmd"@, host, "startp"@],
        TopicKind::CmdStopProvider { host } => seq!["cmd"@, host, "stopp"@],
        TopicKind::CmdStopHost { host } => seq!["cmd"@, host, "stop"@],
        TopicKind::GetHosts => seq!["get"@, "hosts"@],
        TopicKind::GetClaims => seq!["get"@, "claims"@],
        TopicKind::GetLinks => seq!["get"@, "links"@],
        TopicKind::GetInventory { host } => seq!["get"@, "inv"@, host],
        TopicKind::GetConfig { name } => seq!["get"@, "config"@, name],
        TopicKind::AuctionComponent => seq!["auction"@, "component"@],
        TopicKind::AuctionProvider => seq!["auction"@, "provider"@],
        TopicKind::RegistriesPut => seq!["registries"@, "put"@],
        TopicKind::LinkdefPut => seq!["linkdef"@, "put"@],
        TopicKind::LinkdefDel => seq!["linkdef"@, "del"@],
        TopicKind::ConfigPut { name } => seq!["config"@, "put"@, name],
        TopicKind::ConfigDel { name } => seq!["config"@, "del"@, name],
        TopicKind::LabelPut { host } => seq!["label"@, "put"@, host],
        TopicKind::LabelDel { host } => seq!["label"@, "del"@, host],
    }
}

/// Whether every caller-supplied segment of `k` is delimiter-free.
pub open spec fn kind_ok(k: TopicKind) -> bool {
    match k {
        TopicKind::CmdScale { host } => seg_ok(host),
        TopicKind::CmdUpdate { host } => seg_ok(host),
        TopicKind::CmdStartProvider { host } => seg_ok(host),
        TopicKind::CmdStopProvider { host } => seg_ok(host),
        TopicKind::CmdStopHost { host } => seg_ok(host),
        TopicKind::GetHosts => true,
        TopicKind::GetClaims => true,
        TopicKind::GetLinks => true,
        TopicKind::GetInventory { host } => seg_ok(host),
        TopicKind::GetConfig { name } => seg_ok(name),
        TopicKind::AuctionComponent => true,
        TopicKind::AuctionProvider => true,
        TopicKind::RegistriesPut => true,
        TopicKind::LinkdefPut => true,
        TopicKind::LinkdefDel => true,
        TopicKind::ConfigPut { name } => seg_ok(name),
        TopicKind::ConfigDel { name } => seg_ok(name),
        TopicKind::LabelPut { host } => seg_ok(host),
        TopicKind::LabelDel { host } => seg_ok(host),
    }
}

/// Segments joined by the bus delimiter.
pub open spec fn join_dots(ss: Seq<Seq<char>>) -> Seq<char>
    decreases ss.len(),
{
    if ss.len() == 0 {
        Seq::empty()
    } else if ss.len() == 1 {
        ss[0]
    } else {
        ss[0] + "."@ + join_dots(ss.drop_first())
    }
}

/// The full subject string of one control operation.
pub open spec fn spec_topic(prefix: Option<Seq<char>>, lattice: Seq<char>, k: TopicKind) -> Seq<
    char,
> {
    resolved_prefix(prefix) + "."@ + lattice + "."@ + join_dots(segments(k))
}

/// The subject on which hosts publish events of one category, under the
/// same prefix as every control subject.  The `evt` token keeps events
/// apart from control traffic; a lattice id must not itself be `evt`, or
/// the two families would overlap.
pub open spec fn spec_event_topic(
    prefix: Option<Seq<char>>,
    lattice: Seq<char>,
    event_type: Seq<char>,
) -> Seq<char> {
    resolved_prefix(prefix) + ".evt."@ + lattice + "."@ + event_type
}

/// A common prefix cancels: `a + x == a + y` forces `x == y`.
proof fn lemma_concat_cancel_left(a: Seq<char>, x: Seq<char>, y: Seq<char>)
    requires
        a + x == a + y,
    ensures
        x == y,
{
    assert((a + x).len() == a.len() + x.len());
    assert((a + y).len() == a.len() + y.len());
    assert(x.len() == y.len());
    assert(x =~= y) by {
        assert(forall|i: int|
            0 <= i < x.len() ==> x[i] == (a + x)[a.len() + i] && y[i] == (a + y)[a.len() + i]);
    }
}

/// Two delimiter-free heads followed by a delimiter split uniquely.
proof fn lemma_dot_split(a: Seq<char>, x: Seq<char>, c: Seq<char>, y: Seq<char>)
    requires
        seg_ok(a),
        seg_ok(c),
        a + "."@ + x == c + "."@ + y,
    ensures
        a == c,
        x == y,
{
    reveal_strlit(".");
    let s = a + "."@ + x;
    let t = c + "."@ + y;
    assert(s[a.len() as int] == '.');
    assert(t[c.len() as int] == '.');
    if a.len() < c.len() {
        assert(t[a.len() as int] == c[a.len() as int]);
        assert(false);
    }
    if c.len() < a.len() {
        assert(s[c.len() as int] == a[c.len() as int]);
        assert(false);
    }
    assert(a =~= c) by {
        assert(forall|i: int| 0 <= i < a.len() ==> a[i] == s[i] && c[i] == t[i]);
    }
    lemma_concat_cancel_left(a + "."@, x, y);
}

/// Delimiter-free segment lists join injectively.
proof fn lemma_join_dots_injective(ss1: Seq<Seq<char>>, ss2: Seq<Seq<char>>)
    requires
        ss1.len() >= 1,
        ss2.len() >= 1,
        forall|i: int| 0 <= i < ss1.len() ==> seg_ok(#[trigger] ss1[i]),
        forall|i: int| 0 <= i < ss2.len() ==> seg_ok(#[trigger] ss2[i]),
        join_dots(ss1) == join_dots(ss2),
    ensures
        ss1 == ss2,
    decreases ss1.len(),
{
    reveal_strlit(".");
    if ss1.len() == 1 && ss2.len() == 1 {
        assert(ss1 =~= ss2);
    } else if ss1.len() == 1 {
        assert(join_dots(ss2)[ss2[0].len() as int] == '.');
        assert(seg_ok(ss1[0]));
        assert(false);
    } else if ss2.len() == 1 {
        assert(join_dots(ss1)[ss1[0].len() as int] == '.');
        assert(seg_ok(ss2[0]));
        assert(false);
    } else {
        lemma_dot_split(
            ss1[0],
            join_dots(ss1.drop_first()),
            ss2[0],
            join_dots(ss2.drop_first()),
        );
        assert(forall|i: int| 0 <= i < ss1.drop_first().len() ==> seg_ok(#[trigger] ss1.drop_first()[i]));
        assert(forall|i: int| 0 <= i < ss2.drop_first().len() ==> seg_ok(#[trigger] ss2.drop_first()[i]));
        lemma_join_dots_injective(ss1.drop_first(), ss2.drop_first());
        assert forall|i: int| 0 <= i < ss1.len() implies ss1[i] == ss2[i] by {
            if i > 0 {
                assert(ss1[i] == ss1.drop_first()[i - 1]);
                assert(ss2[i] == ss2.drop_first()[i - 1]);
            }
        }
        assert(ss1 =~= ss2);
    }
}

/// Every category token is delimiter-free, so the whole segment list of a
/// well-formed operation is.
proof fn lemma_segments_ok(k: TopicKind)
    requires
        kind_ok(k),
    ensures
        segments(k).len() >= 1,
        forall|i: int| 0 <= i < segments(k).len() ==> seg_ok(#[trigger] segments(k)[i]),
{
    reveal_strlit("cmd");
    reveal_strlit("get");
    reveal_strlit("auction");
    reveal_strlit("registries");
    reveal_strlit("linkdef");
    reveal_strlit("config");
    reveal_strlit("label");
    reveal_strlit("scale");
    reveal_strlit("update");
    reveal_strlit("startp");
    reveal_strlit("stopp");
    reveal_strlit("stop");
    reveal_strlit("hosts");
    reveal_strlit("claims");
    reveal_strlit("links");
    reveal_strlit("inv");
    reveal_strlit("component");
    reveal_strlit("provider");
    reveal_strlit("put");
    reveal_strlit("del");
}

/// Reads an operation back from its segment list; the inverse of
/// [`segments`], as [`lemma_parse_kind_inverts`] shows.
spec fn parse_kind(ss: Seq<Seq<char>>) -> TopicKind {
    if ss.len() == 3 && ss[0] == "cmd"@ {
        if ss[2] == "scale"@ {
            TopicKind::CmdScale { host: ss[1] }
        } else if ss[2] == "update"@ {
            TopicKind::CmdUpdate { host: ss[1] }
        } else if ss[2] == "startp"@ {
            TopicKind::CmdStartProvider { host: ss[1] }
        } else if ss[2] == "stopp"@ {
            TopicKind::CmdStopProvider { host: ss[1] }
        } else {
            TopicKind::CmdStopHost { host: ss[1] }
        }
    } else if ss.len() == 3 && ss[0] == "get"@ {
        if ss[1] == "inv"@ {
            TopicKind::GetInventory { host: ss[2] }
        } else {
            TopicKind::GetConfig { name: ss[2] }
        }
    } else if ss.len() == 2 && ss[0] == "get"@ {
        if ss[1] == "hosts"@ {
            TopicKind::GetHosts
        } else if ss[1] == "claims"@ {
            TopicKind::GetClaims
        } else {
            TopicKind::GetLinks
        }
    } else if ss.len() == 2 && ss[0] == "auction"@ {
        if ss[1] == "component"@ {
            TopicKind::AuctionComponent
        } else {
            TopicKind::AuctionProvider
        }
    } else if ss.len() == 2 && ss[0] == "linkdef"@ {
        if ss[1] == "put"@ {
            TopicKind::LinkdefPut
        } else {
            TopicKind::LinkdefDel
        }
    } else if ss.len() == 3 && ss[0] == "config"@ {
        if ss[1] == "put"@ {
            TopicKind::ConfigPut { name: ss[2] }
        } else {
            TopicKind::ConfigDel { name: ss[2] }
        }
    } else if ss.len() == 3 && ss[0] == "label"@ {
        if ss[1] == "put"@ {
            TopicKind::LabelPut { host: ss[2] }
        } else {
            TopicKind::LabelDel { host: ss[2] }
        }
    } else {
        TopicKind::RegistriesPut
    }
}

/// Reading the segment list back recovers the operation.
proof fn lemma_parse_kind_inverts(k: TopicKind)
    ensures
        parse_kind(segments(k)) == k,
{
    reveal_strlit("cmd");
    reveal_strlit("get");
    reveal_strlit("auction");
    reveal_strlit("registries");
    reveal_strlit("linkdef");
    reveal_strlit("config");
    reveal_strlit("label");
    reveal_strlit("scale");
    reveal_strlit("update");
    reveal_strlit("startp");
    reveal_strlit("stopp");
    reveal_strlit("stop");
    reveal_strlit("hosts");
    reveal_strlit("claims");
    reveal_strlit("links");
    reveal_strlit("inv");
    reveal_strlit("component");
    reveal_strlit("provider");
    reveal_strlit("put");
    reveal_strlit("del");
    assert("cmd"@.len() == 3);
    assert("get"@.len() == 3);
    assert("auction"@.len() == 7);
    assert("registries"@.len() == 10);
    assert("linkdef"@.len() == 7);
    assert("config"@.len() == 6);
    assert("label"@.len() == 5);
    assert("scale"@.len() == 5);
    assert("update"@.len() == 6);
    assert("startp"@.len() == 6);
    assert("stopp"@.len() == 5);
    assert("stop"@.len() == 4);
    assert("hosts"@.len() == 5);
    assert("claims"@.len() == 6);
    assert("links"@.len() == 5);
    assert("inv"@.len() == 3);
    assert("component"@.len() == 9);
    assert("provider"@.len() == 8);
    assert("put"@.len() == 3);
    assert("del"@.len() == 3);
    assert("cmd"@[0] == 'c' && "get"@[0] == 'g');
    assert("auction"@[0] == 'a' && "linkdef"@[0] == 'l');
    assert("scale"@[1] == 'c' && "stopp"@[1] == 't');
    assert("update"@[0] == 'u' && "startp"@[0] == 's');
    assert("hosts"@[0] == 'h' && "links"@[0] == 'l');
    assert("put"@[0] == 'p' && "del"@[0] == 'd');
    match k {
        TopicKind::CmdScale { host: _ } => {
            assert(parse_kind(segments(k)) == k);
        },
        TopicKind::CmdUpdate { host: _ } => {
            assert(parse_kind(segments(k)) == k);
        },
        TopicKind::CmdStartProvider { host: _ } => {
            assert(parse_kind(segments(k)) == k);
        },
        TopicKind::CmdStopProvider { host: _ } => {
            assert(parse_kind(segments(k)) == k);
        },
        TopicKind::CmdStopHost { host: _ } => {
            assert(parse_kind(segments(k)) == k);
        },
        TopicKind::GetHosts => {
            assert(parse_kind(segments(k)) == k);
        },
        TopicKind::GetClaims => {
            assert(parse_kind(segments(k)) == k);
        },
        TopicKind::GetLinks => {
            assert(parse_kind(segments(k)) == k);
        },
        TopicKind::GetInventory { host: _ } => {
            assert(parse_kind(segments(k)) == k);
        },
        TopicKind::GetConfig { name: _ } => {
            assert(parse_kind(segments(k)) == k);
        },
        TopicKind::AuctionComponent => {
            assert(parse_kind(segments(k)) == k);
        },
        TopicKind::AuctionProvider => {
            assert(parse_kind(segments(k)) == k);
        },
        TopicKind::RegistriesPut => {
            assert(parse_kind(segments(k)) == k);
        },
        TopicKind::LinkdefPut => {
            assert(parse_kind(segments(k)) == k);
        },
        TopicKind::LinkdefDel => {
            assert(parse_kind(segments(k)) == k);
        },
        TopicKind::ConfigPut { name: _ } => {
            assert(parse_kind(segments(k)) == k);
        },
        TopicKind::ConfigDel { name: _ } => {
            assert(parse_kind(segments(k)) == k);
        },
        TopicKind::LabelPut { host: _ } => {
            assert(parse_kind(segments(k)) == k);
        },
        TopicKind::LabelDel { host: _ } => {
            assert(parse_kind(segments(k)) == k);
        },
    }
}

/// Equal segment lists come from one and the same operation.
proof fn lemma_segments_injective(k1: TopicKind, k2: TopicKind)
    requires
        segments(k1) == segments(k2),
    ensures
        k1 == k2,
{
    lemma_parse_kind_inverts(k1);
    lemma_parse_kind_inverts(k2);
}

/// Topic determinism: the topic is a function of the inputs alone, so any
/// two results that meet a builder's contract are byte-identical.
pub proof fn lemma_topic_deterministic(
    prefix: Option<Seq<char>>,
    lattice: Seq<char>,
    k: TopicKind,
    r1: Seq<char>,
    r2: Seq<char>,
)
    requires
        r1 == spec_topic(prefix, lattice, k),
        r2 == spec_topic(prefix, lattice, k),
    ensures
        r1 == r2,
{
}

/// Topic sensitivity: for one prefix, two operations yield the same subject
/// only if they are the same operation on the same lattice with the same
/// arguments — provided no caller-supplied segment holds the delimiter or a
/// wildcard.  Collisions would misroute messages.
pub proof fn lemma_topic_injective(
    prefix: Option<Seq<char>>,
    l1: Seq<char>,
    k1: TopicKind,
    l2: Seq<char>,
    k2: TopicKind,
)
    requires
        seg_ok(l1),
        seg_ok(l2),
        kind_ok(k1),
        kind_ok(k2),
        spec_topic(prefix, l1, k1) == spec_topic(prefix, l2, k2),
    ensures
        l1 == l2,
        k1 == k2,
{
    let p = resolved_prefix(prefix);
    assert(spec_topic(prefix, l1, k1) =~= (p + "."@) + (l1 + "."@ + join_dots(segments(k1))));
    assert(spec_topic(prefix, l2, k2) =~= (p + "."@) + (l2 + "."@ + join_dots(segments(k2))));
    lemma_concat_cancel_left(
        p + "."@,
        l1 + "."@ + join_dots(segments(k1)),
        l2 + "."@ + join_dots(segments(k2)),
    );
    lemma_dot_split(l1, join_dots(segments(k1)), l2, join_dots(segments(k2)));
    lemma_segments_ok(k1);
    lemma_segments_ok(k2);
    lemma_join_dots_injective(segments(k1), segments(k2));
    lemma_segments_injective(k1, k2);
}

/// Event subjects are likewise collision-free in lattice and category,
/// for one prefix.
pub proof fn lemma_event_topic_injective(
    prefix: Option<Seq<char>>,
    l1: Seq<char>,
    t1: Seq<char>,
    l2: Seq<char>,
    t2: Seq<char>,
)
    requires
        seg_ok(l1),
        seg_ok(l2),
        spec_event_topic(prefix, l1, t1) == spec_event_topic(prefix, l2, t2),
    ensures
        l1 == l2,
        t1 == t2,
{
    let p = resolved_prefix(prefix);
    assert(spec_event_topic(prefix, l1, t1) =~= (p + ".evt."@) + (l1 + "."@ + t1));
    assert(spec_event_topic(prefix, l2, t2) =~= (p + ".evt."@) + (l2 + "."@ + t2));
    lemma_concat_cancel_left(p + ".evt."@, l1 + "."@ + t1, l2 + "."@ + t2);
    lemma_dot_split(l1, t1, l2, t2);
}

/// Unfolds [`join_dots`] on a one-segment list.
proof fn lemma_join1(a: Seq<char>)
    ensures
        join_dots(seq![a]) == a,
{
}

/// Unfolds [`join_dots`] on a two-segment list.
proof fn lemma_join2(a: Seq<char>, b: Seq<char>)
    ensures
        join_dots(seq![a, b]) =~= a + "."@ + b,
{
    assert(seq![a, b].drop_first() =~= seq![b]);
    lemma_join1(b);
    assert(join_dots(seq![a, b]) == seq![a, b][0] + "."@ + join_dots(seq![a, b].drop_first()));
}

/// Unfolds [`join_dots`] on a three-segment list.
proof fn lemma_join3(a: Seq<char>, b: Seq<char>, c: Seq<char>)
    ensures
        join_dots(seq![a, b, c]) =~= a + "."@ + b + "."@ + c,
{
    assert(seq![a, b, c].drop_first() =~= seq![b, c]);
    lemma_join2(b, c);
    assert(join_dots(seq![a, b, c]) == seq![a, b, c][0] + "."@ + join_dots(
        seq![a, b, c].drop_first(),
    ));
}

/// The shared `{prefix}.{lattice}.` head of every control subject.
fn topic_root(topic_prefix: &Option<String>, lattice: &str) -> (r: String)
    ensures
        r@ == resolved_prefix(prefix_view(topic_prefix)) + "."@ + lattice@ + "."@,
{
    let mut s = match topic_prefix {
        Some(p) => p.clone(),
        None => String::from_str("wasmbus"),
    };
    s.append(".");
    s.append(lattice);
    s.append(".");
    s
}

/// Subject of the scale-component command, addressed to one host.
pub fn scale_component(topic_prefix: &Option<String>, lattice: &str, host_id: &str) -> (r:
    String)
    ensures
        r@ == spec_topic(
            prefix_view(topic_prefix),
            lattice@,
            TopicKind::CmdScale { host: host_id@ },
        ),
{
    let mut s = topic_root(topic_prefix, lattice);
    s.append("cmd");
    s.append(".");
    s.append(host_id);
    s.append(".");
    s.append("scale");
    proof {
        lemma_join3("cmd"@, host_id@, "scale"@);
        assert(s@ =~= spec_topic(
            prefix_view(topic_prefix),
            lattice@,
            TopicKind::CmdScale { host: host_id@ },
        ));
    }
    s
}

/// Subject of the update-component command, addressed to one host.
pub fn update_component(topic_prefix: &Option<String>, lattice: &str, host_id: &str) -> (r: String)
    ensures
        r@ == spec_topic(
            prefix_view(topic_prefix),
            lattice@,
            TopicKind::CmdUpdate { host: host_id@ },
        ),
{
    let mut s = topic_root(topic_prefix, lattice);
    s.append("cmd");
    s.append(".");
    s.append(host_id);
    s.append(".");
    s.append("update");
    proof {
        lemma_join3("cmd"@, host_id@, "update"@);
        assert(s@ =~= spec_topic(
            prefix_view(topic_prefix),
            lattice@,
            TopicKind::CmdUpdate { host: host_id@ },
        ));
    }
    s
}

/// Subject of the start-provider command, addressed to one host.
pub fn start_provider(topic_prefix: &Option<String>, lattice: &str, host_id: &str) -> (r: String)
    ensures
        r@ == spec_topic(
            prefix_view(topic_prefix),
            lattice@,
            TopicKind::CmdStartProvider { host: host_id@ },
        ),
{
    let mut s = topic_root(topic_prefix, lattice);
    s.append("cmd");
    s.append(".");
    s.append(host_id);
    s.append(".");
    s.append("startp");
    proof {
        lemma_join3("cmd"@, host_id@, "startp"@);
        assert(s@ =~= spec_topic(
            prefix_view(topic_prefix),
            lattice@,
            TopicKind::CmdStartProvider { host: host_id@ },
        ));
    }
    s
}

/// Subject of the stop-provider command, addressed to one host.
pub fn stop_provider(topic_prefix: &Option<String>, lattice: &str, host_id: &str) -> (r: String)
    ensures
        r@ == spec_topic(
            prefix_view(topic_prefix),
            lattice@,
            TopicKind::CmdStopProvider { host: host_id@ },
        ),
{
    let mut s = topic_root(topic_prefix, lattice);
    s.append("cmd");
    s.append(".");
    s.append(host_id);
    s.append(".");
    s.append("stopp");
    proof {
        lemma_join3("cmd"@, host_id@, "stopp"@);
        assert(s@ =~= spec_topic(
            prefix_view(topic_prefix),
            lattice@,
            TopicKind::CmdStopProvider { host: host_id@ },
        ));
    }
    s
}

/// Subject of the stop-host command, addressed to one host.
pub fn stop_host(topic_prefix: &Option<String>, lattice: &str, host_id: &str) -> (r: String)
    ensures
        r@ == spec_topic(
            prefix_view(topic_prefix),
            lattice@,
            TopicKind::CmdStopHost { host: host_id@ },
        ),
{
    let mut s = topic_root(topic_prefix, lattice);
    s.append("cmd");
    s.append(".");
    s.append(host_id);
    s.append(".");
    s.append("stop");
    proof {
        lemma_join3("cmd"@, host_id@, "stop"@);
        assert(s@ =~= spec_topic(
            prefix_view(topic_prefix),
            lattice@,
            TopicKind::CmdStopHost { host: host_id@ },
        ));
    }
    s
}

/// Subject of the lattice-wide host query.
pub fn hosts(topic_prefix: &Option<String>, lattice: &str) -> (r: String)
    ensures
        r@ == spec_topic(prefix_view(topic_prefix), lattice@, TopicKind::GetHosts),
{
    let mut s = topic_root(topic_prefix, lattice);
    s.append("get");
    s.append(".");
    s.append("hosts");
    proof {
        lemma_join2("get"@, "hosts"@);
        assert(s@ =~= spec_topic(prefix_view(topic_prefix), lattice@, TopicKind::GetHosts));
    }
    s
}

/// Subject of the lattice-wide claims query.
pub fn claims(topic_prefix: &Option<String>, lattice: &str) -> (r: String)
    ensures
        r@ == spec_topic(prefix_view(topic_prefix), lattice@, TopicKind::GetClaims),
{
    let mut s = topic_root(topic_prefix, lattice);
    s.append("get");
    s.append(".");
    s.append("claims");
    proof {
        lemma_join2("get"@, "claims"@);
        assert(s@ =~= spec_topic(prefix_view(topic_prefix), lattice@, TopicKind::GetClaims));
    }
    s
}

/// Subject of the lattice-wide link definitions query.
pub fn link_definitions(topic_prefix: &Option<String>, lattice: &str) -> (r: String)
    ensures
        r@ == spec_topic(prefix_view(topic_prefix), lattice@, TopicKind::GetLinks),
{
    let mut s = topic_root(topic_prefix, lattice);
    s.append("get");
    s.append(".");
    s.append("links");
    proof {
        lemma_join2("get"@, "links"@);
        assert(s@ =~= spec_topic(prefix_view(topic_prefix), lattice@, TopicKind::GetLinks));
    }
    s
}

/// Subject of the inventory query of one host.
pub fn host_inventory(topic_prefix: &Option<String>, lattice: &str, host_id: &str) -> (r: String)
    ensures
        r@ == spec_topic(
            prefix_view(topic_prefix),
            lattice@,
            TopicKind::GetInventory { host: host_id@ },
        ),
{
    let mut s = topic_root(topic_prefix, lattice);
    s.append("get");
    s.append(".");
    s.append("inv");
    s.append(".");
    s.append(host_id);
    proof {
        lemma_join3("get"@, "inv"@, host_id@);
        assert(s@ =~= spec_topic(
            prefix_view(topic_prefix),
            lattice@,
            TopicKind::GetInventory { host: host_id@ },
        ));
    }
    s
}

/// Subject of the named-config query.
pub fn config(topic_prefix: &Option<String>, lattice: &str, config_name: &str) -> (r: String)
    ensures
        r@ == spec_topic(
            prefix_view(topic_prefix),
            lattice@,
            TopicKind::GetConfig { name: config_name@ },
        ),
{
    let mut s = topic_root(topic_prefix, lattice);
    s.append("get");
    s.append(".");
    s.append("config");
    s.append(".");
    s.append(config_name);
    proof {
        lemma_join3("get"@, "config"@, config_name@);
        assert(s@ =~= spec_topic(
            prefix_view(topic_prefix),
            lattice@,
            TopicKind::GetConfig { name: config_name@ },
        ));
    }
    s
}

/// Broadcast subject of component auctions; no host id, since responders are unknown.
pub fn component_auction_subject(topic_prefix: &Option<String>, lattice: &str) -> (r: String)
    ensures
        r@ == spec_topic(prefix_view(topic_prefix), lattice@, TopicKind::AuctionComponent),
{
    let mut s = topic_root(topic_prefix, lattice);
    s.append("auction");
    s.append(".");
    s.append("component");
    proof {
        lemma_join2("auction"@, "component"@);
        assert(s@ =~= spec_topic(prefix_view(topic_prefix), lattice@, TopicKind::AuctionComponent));
    }
    s
}

/// Broadcast subject of provider auctions; no host id, since responders are unknown.
pub fn provider_auction_subject(topic_prefix: &Option<String>, lattice: &str) -> (r: String)
    ensures
        r@ == spec_topic(prefix_view(topic_prefix), lattice@, TopicKind::AuctionProvider),
{
    let mut s = topic_root(topic_prefix, lattice);
    s.append("auction");
    s.append(".");
    s.append("provider");
    proof {
        lemma_join2("auction"@, "provider"@);
        assert(s@ =~= spec_topic(prefix_view(topic_prefix), lattice@, TopicKind::AuctionProvider));
    }
    s
}

/// Subject on which registry credential maps are published to all hosts.
pub fn publish_registries(topic_prefix: &Option<String>, lattice: &str) -> (r: String)
    ensures
        r@ == spec_topic(prefix_view(topic_prefix), lattice@, TopicKind::RegistriesPut),
{
    let mut s = topic_root(topic_prefix, lattice);
    s.append("registries");
    s.append(".");
    s.append("put");
    proof {
        lemma_join2("registries"@, "put"@);
        assert(s@ =~= spec_topic(prefix_view(topic_prefix), lattice@, TopicKind::RegistriesPut));
    }
    s
}

/// Subject of the link-put write.
pub fn put_link(topic_prefix: &Option<String>, lattice: &str) -> (r: String)
    ensures
        r@ == spec_topic(prefix_view(topic_prefix), lattice@, TopicKind::LinkdefPut),
{
    let mut s = topic_root(topic_prefix, lattice);
    s.append("linkdef");
    s.append(".");
    s.append("put");
    proof {
        lemma_join2("linkdef"@, "put"@);
        assert(s@ =~= spec_topic(prefix_view(topic_prefix), lattice@, TopicKind::LinkdefPut));
    }
    s
}

/// Subject of the link-delete write.
pub fn delete_link(topic_prefix: &Option<String>, lattice: &str) -> (r: String)
    ensures
        r@ == spec_topic(prefix_view(topic_prefix), lattice@, TopicKind::LinkdefDel),
{
    let mut s = topic_root(topic_prefix, lattice);
    s.append("linkdef");
    s.append(".");
    s.append("del");
    proof {
        lemma_join2("linkdef"@, "del"@);
        assert(s@ =~= spec_topic(prefix_view(topic_prefix), lattice@, TopicKind::LinkdefDel));
    }
    s
}

/// Subject of the named-config write.
pub fn put_config(topic_prefix: &Option<String>, lattice: &str, config_name: &str) -> (r: String)
    ensures
        r@ == spec_topic(
            prefix_view(topic_prefix),
            lattice@,
            TopicKind::ConfigPut { name: config_name@ },
        ),
{
    let mut s = topic_root(topic_prefix, lattice);
    s.append("config");
    s.append(".");
    s.append("put");
    s.append(".");
    s.append(config_name);
    proof {
        lemma_join3("config"@, "put"@, config_name@);
        assert(s@ =~= spec_topic(
            prefix_view(topic_prefix),
            lattice@,
            TopicKind::ConfigPut { name: config_name@ },
        ));
    }
    s
}

/// Subject of the named-config delete.
pub fn delete_config(topic_prefix: &Option<String>, lattice: &str, config_name: &str) -> (r: String)
    ensures
        r@ == spec_topic(
            prefix_view(topic_prefix),
            lattice@,
            TopicKind::ConfigDel { name: config_name@ },
        ),
{
    let mut s = topic_root(topic_prefix, lattice);
    s.append("config");
    s.append(".");
    s.append("del");
    s.append(".");
    s.append(config_name);
    proof {
        lemma_join3("config"@, "del"@, config_name@);
        assert(s@ =~= spec_topic(
            prefix_view(topic_prefix),
            lattice@,
            TopicKind::ConfigDel { name: config_name@ },
        ));
    }
    s
}

/// Subject of the host-label write, addressed to one host.
pub fn put_label(topic_prefix: &Option<String>, lattice: &str, host_id: &str) -> (r: String)
    ensures
        r@ == spec_topic(
            prefix_view(topic_prefix),
            lattice@,
            TopicKind::LabelPut { host: host_id@ },
        ),
{
    let mut s = topic_root(topic_prefix, lattice);
    s.append("label");
    s.append(".");
    s.append("put");
    s.append(".");
    s.append(host_id);
    proof {
        lemma_join3("label"@, "put"@, host_id@);
        assert(s@ =~= spec_topic(
            prefix_view(topic_prefix),
            lattice@,
            TopicKind::LabelPut { host: host_id@ },
        ));
    }
    s
}

/// Subject of the host-label delete, addressed to one host.
pub fn delete_label(topic_prefix: &Option<String>, lattice: &str, host_id: &str) -> (r: String)
    ensures
        r@ == spec_topic(
            prefix_view(topic_prefix),
            lattice@,
            TopicKind::LabelDel { host: host_id@ },
        ),
{
    let mut s = topic_root(topic_prefix, lattice);
    s.append("label");
    s.append(".");
    s.append("del");
    s.append(".");
    s.append(host_id);
    proof {
        lemma_join3("label"@, "del"@, host_id@);
        assert(s@ =~= spec_topic(
            prefix_view(topic_prefix),
            lattice@,
            TopicKind::LabelDel { host: host_id@ },
        ));
    }
    s
}

/// Subject on which hosts publish events of one category.
pub fn event_subject(topic_prefix: &Option<String>, lattice: &str, event_type: &str) -> (r:
    String)
    ensures
        r@ == spec_event_topic(prefix_view(topic_prefix), lattice@, event_type@),
{
    let mut s = match topic_prefix {
        Some(p) => p.clone(),
        None => String::from_str("wasmbus"),
    };
    s.append(".evt.");
    s.append(lattice);
    s.append(".");
    s.append(event_type);
    proof {
        assert(s@ =~= spec_event_topic(prefix_view(topic_prefix), lattice@, event_type@));
    }
    s
}

} // verus!
