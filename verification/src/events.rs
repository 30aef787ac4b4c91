//! Event stream aggregator: the decision layer.
//!
//! Hosts publish fleet events onto per-category subjects.  The aggregator
//! subscribes to one subject per requested category, merges the
//! subscriptions into a single arrival-ordered delivery, and forwards each
//! successfully decoded event into a bounded consumer channel.  Decode
//! failures are non-fatal: the event is skipped and forwarding continues.
//! The subscriptions, the merge and the channel live outside this crate;
//! each arriving payload is handed to [`on_event_message`], whose result
//! says whether and what to forward.
//!
//! An event travels as a structured envelope with a type tag, a unique
//! id, a source, and an arbitrary payload carried verbatim as JSON text.
//! As with the response codec, the decoder reads exactly the canonical
//! field order written by [`encode_event`]; anything else is skipped as
//! undecodable rather than failing the stream.

use crate::json::{
    append_escaped, escape, match_at, match_lit, scan_message, scan_string, str_eq,
};
use vstd::prelude::*;

verus! {

/// One fleet event, decoded from its wire form.
#[derive(Debug, Clone, PartialEq, Eq)]
pub struct Event {
    /// The event's category tag.
    pub event_type: String,
    /// The event's unique id.
    pub id: String,
    /// The publishing host.
    pub source: String,
    /// The JSON text of the event's payload, if it carries one.
    pub data: Option<String>,
}

/// The mathematical shadow of an [`Event`].
pub ghost struct EventView {
    pub event_type: Seq<char>,
    pub id: Seq<char>,
    pub source: Seq<char>,
    pub data: Option<Seq<char>>,
}

impl View for Event {
    type V = EventView;

    open spec fn view(&self) -> EventView {
        EventView {
            event_type: self.event_type@,
            id: self.id@,
            source: self.source@,
            data: match self.data {
                Some(p) => Some(p@),
                None => None,
            },
        }
    }
}

impl DeepView for Event {
    type V = EventView;

    open spec fn deep_view(&self) -> EventView {
        self.view()
    }
}

/// The wire text of the `data` field.
pub open spec fn data_text(o: Option<Seq<char>>) -> Seq<char> {
    match o {
        Some(p) => p,
        None => "null"@,
    }
}

/// A payload the event codec can carry without ambiguity.
pub open spec fn data_ok(v: EventView) -> bool {
    match v.data {
        Some(p) => p.len() > 0 && p != "null"@,
        None => true,
    }
}

/// The exact wire text of an event.
pub open spec fn spec_encode_event(v: EventView) -> Seq<char> {
    "{\"specversion\":\"1.0\",\"type\":\""@ + escape(v.event_type) + seq!['"'] + ",\"id\":\""@
        + escape(v.id) + seq!['"'] + ",\"source\":\""@ + escape(v.source) + seq!['"']
        + ",\"data\":"@ + data_text(v.data) + seq!['}']
}

/// Reads the `data` field and the closing brace.
pub open spec fn spec_decode_event_data(
    event_type: Seq<char>,
    id: Seq<char>,
    source: Seq<char>,
    rest: Seq<char>,
) -> Option<EventView> {
    if rest.len() >= 9 && rest.subrange(0, 8) == ",\"data\":"@ && rest.last() == '}' {
        let body = rest.subrange(8, rest.len() - 1);
        if body == "null"@ {
            Some(EventView { event_type, id, source, data: None })
        } else if body.len() > 0 {
            Some(EventView { event_type, id, source, data: Some(body) })
        } else {
            None
        }
    } else {
        None
    }
}

/// Reads the `source` string and everything after it.
pub open spec fn spec_decode_event_source(
    event_type: Seq<char>,
    id: Seq<char>,
    rest: Seq<char>,
) -> Option<EventView> {
    if rest.len() >= 11 && rest.subrange(0, 11) == ",\"source\":\""@ {
        match scan_string(rest.skip(11)) {
            Some(p) => spec_decode_event_data(event_type, id, p.0, p.1),
            None => None,
        }
    } else {
        None
    }
}

/// Reads the `id` string and everything after it.
pub open spec fn spec_decode_event_id(event_type: Seq<char>, rest: Seq<char>) -> Option<
    EventView,
> {
    if rest.len() >= 7 && rest.subrange(0, 7) == ",\"id\":\""@ {
        match scan_string(rest.skip(7)) {
            Some(p) => spec_decode_event_source(event_type, p.0, p.1),
            None => None,
        }
    } else {
        None
    }
}

/// What decoding yields on any payload: the event, or nothing where the
/// payload is not the wire form of one.
pub open spec fn spec_decode_event(s: Seq<char>) -> Option<EventView> {
    if match_at(s, 0, "{\"specversion\":\"1.0\",\"type\":\""@) {
        match scan_string(s.skip(29)) {
            Some(p) => spec_decode_event_id(p.0, p.1),
            None => None,
        }
    } else {
        None
    }
}

/// A piece of the input that starts with `p` continues past it.
proof fn lemma_prefix_split(s: Seq<char>, p: Seq<char>, t: Seq<char>)
    requires
        s == p + t,
    ensures
        s.len() == p.len() + t.len(),
        s.subrange(0, p.len() as int) == p,
        s.skip(p.len() as int) == t,
{
    assert((p + t).len() == p.len() + t.len());
    assert(s.subrange(0, p.len() as int) =~= p);
    assert(s.skip(p.len() as int) =~= t);
}

/// Decoding inverts encoding for events.
pub proof fn lemma_decode_encode_event(v: EventView)
    requires
        data_ok(v),
    ensures
        spec_decode_event(spec_encode_event(v)) == Some(v),
{
    reveal_strlit("{\"specversion\":\"1.0\",\"type\":\"");
    reveal_strlit(",\"id\":\"");
    reveal_strlit(",\"source\":\"");
    reveal_strlit(",\"data\":");
    reveal_strlit("null");
    let p1 = "{\"specversion\":\"1.0\",\"type\":\""@;
    let p2 = ",\"id\":\""@;
    let p3 = ",\"source\":\""@;
    let p4 = ",\"data\":"@;
    let s = spec_encode_event(v);
    let tail4 = p4 + data_text(v.data) + seq!['}'];
    let tail3 = escape(v.source) + seq!['"'] + tail4;
    let tail2 = escape(v.id) + seq!['"'] + (p3 + tail3);
    let tail1 = escape(v.event_type) + seq!['"'] + (p2 + tail2);
    assert(s =~= p1 + tail1);
    lemma_prefix_split(s, p1, tail1);
    assert(p1.len() == 29);
    assert(match_at(s, 0, p1));
    crate::json::lemma_scan_escape(v.event_type, p2 + tail2);
    assert(scan_string(s.skip(29)) == Some((v.event_type, p2 + tail2)));
    lemma_prefix_split(p2 + tail2, p2, tail2);
    assert(p2.len() == 7);
    crate::json::lemma_scan_escape(v.id, p3 + tail3);
    assert(scan_string((p2 + tail2).skip(7)) == Some((v.id, p3 + tail3)));
    lemma_prefix_split(p3 + tail3, p3, tail3);
    assert(p3.len() == 11);
    crate::json::lemma_scan_escape(v.source, tail4);
    assert(scan_string((p3 + tail3).skip(11)) == Some((v.source, tail4)));
    assert(p4.len() == 8);
    let body0 = data_text(v.data);
    assert(match v.data {
        Some(p) => body0.len() > 0,
        None => body0.len() == 4,
    });
    assert(tail4.len() == 8 + body0.len() + 1);
    assert(tail4.subrange(0, 8) =~= p4);
    assert(tail4.last() == '}');
    let body = tail4.subrange(8, tail4.len() - 1);
    assert(body =~= body0);
    match v.data {
        Some(p) => {
            assert(body != "null"@);
        },
        None => {
            assert(body == "null"@);
        },
    }
}

/// Writes an event in its wire form.
pub fn encode_event(e: &Event) -> (r: String)
    ensures
        r@ == spec_encode_event(e@),
{
    let mut s = String::from_str("{\"specversion\":\"1.0\",\"type\":\"");
    append_escaped(&mut s, e.event_type.as_str());
    s.append("\"");
    s.append(",\"id\":\"");
    append_escaped(&mut s, e.id.as_str());
    s.append("\"");
    s.append(",\"source\":\"");
    append_escaped(&mut s, e.source.as_str());
    s.append("\"");
    s.append(",\"data\":");
    match &e.data {
        None => s.append("null"),
        Some(p) => s.append(p.as_str()),
    }
    s.append("}");
    proof {
        reveal_strlit("\"");
        reveal_strlit("}");
        assert("\""@ =~= seq!['"']);
        assert("}"@ =~= seq!['}']);
        assert(s@ =~= spec_encode_event(e@));
    }
    s
}

/// Reads an event back from its wire form.
pub fn decode_event(s: &str) -> (r: Option<Event>)
    ensures
        spec_decode_event(s@) matches Some(v) ==> (r matches Some(e) && e@ == v),
        spec_decode_event(s@) is None ==> r is None,
{
    let n = s.unicode_len();
    if !match_lit(s, 0, "{\"specversion\":\"1.0\",\"type\":\"") {
        return None;
    }
    proof {
        reveal_strlit("{\"specversion\":\"1.0\",\"type\":\"");
        reveal_strlit(",\"id\":\"");
        reveal_strlit(",\"source\":\"");
        reveal_strlit(",\"data\":");
    }
    let scanned_type = match scan_message(s, 29) {
        Ok(p) => p,
        Err(_) => {
            return None;
        },
    };
    let event_type = scanned_type.0;
    let i = scanned_type.1;
    let ghost rest1 = s@.skip(i as int);
    if n - i < 7 || !match_lit(s, i, ",\"id\":\"") {
        proof {
            if i + 7 <= n {
                assert(rest1.subrange(0, 7) =~= s@.subrange(i as int, i + 7));
            }
        }
        return None;
    }
    proof {
        assert(rest1.subrange(0, 7) =~= s@.subrange(i as int, i + 7));
        assert(rest1.skip(7) =~= s@.skip(i + 7));
    }
    let scanned_id = match scan_message(s, i + 7) {
        Ok(p) => p,
        Err(_) => {
            return None;
        },
    };
    let id = scanned_id.0;
    let j = scanned_id.1;
    let ghost rest2 = s@.skip(j as int);
    if n - j < 11 || !match_lit(s, j, ",\"source\":\"") {
        proof {
            if j + 11 <= n {
                assert(rest2.subrange(0, 11) =~= s@.subrange(j as int, j + 11));
            }
        }
        return None;
    }
    proof {
        assert(rest2.subrange(0, 11) =~= s@.subrange(j as int, j + 11));
        assert(rest2.skip(11) =~= s@.skip(j + 11));
    }
    let scanned_source = match scan_message(s, j + 11) {
        Ok(p) => p,
        Err(_) => {
            return None;
        },
    };
    let source = scanned_source.0;
    let k = scanned_source.1;
    let ghost rest3 = s@.skip(k as int);
    if n - k < 9 {
        proof {
            assert(rest3.len() < 9);
        }
        return None;
    }
    if !match_lit(s, k, ",\"data\":") {
        proof {
            assert(rest3.subrange(0, 8) =~= s@.subrange(k as int, k + 8));
        }
        return None;
    }
    proof {
        assert(rest3.subrange(0, 8) =~= s@.subrange(k as int, k + 8));
    }
    if s.get_char(n - 1) != '}' {
        proof {
            assert(rest3.last() == s@[n - 1]);
        }
        return None;
    }
    proof {
        assert(rest3.last() == s@[n - 1]);
    }
    let body = s.substring_char(k + 8, n - 1);
    proof {
        assert(body@ =~= rest3.subrange(8, rest3.len() - 1));
    }
    let data: Option<String> = if str_eq(body, "null") {
        None
    } else if body.unicode_len() > 0 {
        Some(String::from_str(body))
    } else {
        return None;
    };
    let e = Event { event_type, id, source, data };
    proof {
        assert(spec_decode_event(s@) matches Some(v) ==> e@ == v);
    }
    Some(e)
}

/// What the forwarding task does with one arriving payload: the decoded
/// event to push into the consumer channel, or nothing — a decode
/// failure is logged by the caller and skipped, and forwarding goes on.
pub fn on_event_message(payload: &str) -> (r: Option<Event>)
    ensures
        spec_decode_event(payload@) matches Some(v) ==> (r matches Some(e) && e@ == v),
        spec_decode_event(payload@) is None ==> r is None,
{
    decode_event(payload)
}

/// The events a sequence of arriving payloads delivers to the consumer,
/// in arrival order: each decodable payload's event, the rest skipped.
pub open spec fn spec_deliver(msgs: Seq<Seq<char>>) -> Seq<EventView>
    decreases msgs.len(),
{
    if msgs.len() == 0 {
        Seq::empty()
    } else {
        match spec_decode_event(msgs.first()) {
            Some(v) => seq![v] + spec_deliver(msgs.drop_first()),
            None => spec_deliver(msgs.drop_first()),
        }
    }
}

/// Fan-in: subscribing to two categories and publishing one well-formed
/// event on each delivers exactly the two events, in arrival order, each
/// decoding to its original form — the category tag included.
pub proof fn lemma_event_fan_in(a: EventView, b: EventView)
    requires
        data_ok(a),
        data_ok(b),
    ensures
        spec_deliver(seq![spec_encode_event(a), spec_encode_event(b)]) =~= seq![a, b],
{
    lemma_decode_encode_event(a);
    lemma_decode_encode_event(b);
    let msgs = seq![spec_encode_event(a), spec_encode_event(b)];
    assert(msgs.first() == spec_encode_event(a));
    assert(msgs.drop_first() =~= seq![spec_encode_event(b)]);
    let m2 = seq![spec_encode_event(b)];
    assert(m2.first() == spec_encode_event(b));
    assert(m2.drop_first() =~= Seq::<Seq<char>>::empty());
    assert(spec_deliver(m2.drop_first()) =~= Seq::<EventView>::empty());
    assert(spec_deliver(m2) =~= seq![b]);
    assert(spec_deliver(msgs) =~= seq![a, b]);
}

} // verus!
