//! The envelope wire codec.
//!
//! Every response travels as one uniform success/message/data envelope,
//! written as JSON text with a fixed field order: `success`, `message`,
//! `response`.  The payload under `response` is carried verbatim as the
//! JSON text of the operation's own result, or `null` where the operation
//! has nothing to report — a *valid success* state distinct from any
//! transport failure, which is never represented inside an envelope.
//!
//! [`lemma_decode_encode`] proves the codec symmetric: every envelope the
//! encoder can produce decodes back to an equal value.  The decoder
//! accepts exactly this canonical form — the fixed field order above, no
//! unknown fields: a peer must write its envelopes canonically for this
//! decoder to read them.  Unknown-field tolerance is the business of the
//! external serialization collaborator, outside this crate.

use crate::json::{
    append_escaped, escape, match_at, match_lit, scan_message, scan_string, str_eq,
};
use crate::CtlError;
use vstd::prelude::*;

verus! {

/// One decoded control-plane response envelope.
///
/// `response` holds the JSON text of the operation's payload; `None`
/// stands for the wire form `null`.
#[derive(Debug, Clone, PartialEq, Eq)]
pub struct Envelope {
    /// Whether the host accepted the operation; `false` is an
    /// application-level rejection, not a transport failure.
    pub success: bool,
    /// A human-readable note; non-empty whenever `success` is `false`.
    pub message: String,
    /// The JSON text of the operation's result, if it reported one.
    pub response: Option<String>,
}

/// The mathematical shadow of an [`Envelope`].
pub ghost struct EnvelopeView {
    pub success: bool,
    pub message: Seq<char>,
    pub response: Option<Seq<char>>,
}

impl View for Envelope {
    type V = EnvelopeView;

    open spec fn view(&self) -> EnvelopeView {
        EnvelopeView {
            success: self.success,
            message: self.message@,
            response: match self.response {
                Some(p) => Some(p@),
                None => None,
            },
        }
    }
}

/// The wire text of the `success` field.
pub open spec fn bool_text(b: bool) -> Seq<char> {
    if b {
        "true"@
    } else {
        "false"@
    }
}

/// The wire text of the `response` field.
pub open spec fn resp_text(o: Option<Seq<char>>) -> Seq<char> {
    match o {
        Some(p) => p,
        None => "null"@,
    }
}

/// The exact wire text of an envelope.
pub open spec fn spec_encode(v: EnvelopeView) -> Seq<char> {
    "{\"success\":"@ + bool_text(v.success) + ",\"message\":\""@ + escape(v.message)
        + seq!['"'] + ",\"response\":"@ + resp_text(v.response) + seq!['}']
}

/// A payload that the codec can carry without ambiguity: non-empty, and
/// not the text `null`, which the wire reserves for an absent payload.
pub open spec fn response_ok(v: EnvelopeView) -> bool {
    match v.response {
        Some(p) => p.len() > 0 && p != "null"@,
        None => true,
    }
}

/// The envelope invariant: an unambiguous payload, and a non-empty
/// message whenever the envelope reports a failure.
pub open spec fn envelope_wf(v: EnvelopeView) -> bool {
    response_ok(v) && (!v.success ==> v.message.len() > 0)
}

/// Reads the fields after the message: the `response` key, the payload
/// text, and the closing brace.
pub open spec fn spec_decode_response(b: bool, msg: Seq<char>, rest: Seq<char>) -> Option<
    EnvelopeView,
> {
    if rest.len() >= 13 && rest.subrange(0, 12) == ",\"response\":"@ && rest.last() == '}' {
        let body = rest.subrange(12, rest.len() - 1);
        if body == "null"@ {
            Some(EnvelopeView { success: b, message: msg, response: None })
        } else if body.len() > 0 {
            Some(EnvelopeView { success: b, message: msg, response: Some(body) })
        } else {
            None
        }
    } else {
        None
    }
}

/// Reads the message string and everything after it, `i` standing just
/// past the `success` value.
pub open spec fn spec_decode_after_bool(s: Seq<char>, b: bool, i: int) -> Option<EnvelopeView> {
    if match_at(s, i, ",\"message\":\""@) {
        match scan_string(s.skip(i + 12)) {
            Some(p) => spec_decode_response(b, p.0, p.1),
            None => None,
        }
    } else {
        None
    }
}

/// What decoding yields on any input: the envelope, or nothing where the
/// input is not the wire form of one (a zero-length input included).
pub open spec fn spec_decode(s: Seq<char>) -> Option<EnvelopeView> {
    if match_at(s, 0, "{\"success\":"@) {
        if match_at(s, 11, "true"@) {
            spec_decode_after_bool(s, true, 15)
        } else if match_at(s, 11, "false"@) {
            spec_decode_after_bool(s, false, 16)
        } else {
            None
        }
    } else {
        None
    }
}

/// A piece of the input that starts with `p` continues past it.
proof fn lemma_prefix_match(s: Seq<char>, i: int, p: Seq<char>, t: Seq<char>)
    requires
        0 <= i <= s.len(),
        s.skip(i) == p + t,
    ensures
        match_at(s, i, p),
        s.skip(i + p.len()) == t,
{
    assert((p + t).len() == p.len() + t.len());
    assert(s.subrange(i, i + p.len()) =~= p) by {
        assert(forall|k: int|
            0 <= k < p.len() ==> s.subrange(i, i + p.len())[k] == s.skip(i)[k] && (p + t)[k]
                == p[k]);
    }
    assert(s.skip(i + p.len()) =~= t) by {
        assert(forall|k: int|
            0 <= k < t.len() ==> s.skip(i + p.len())[k] == s.skip(i)[k + p.len()] && (p + t)[k
                + p.len()] == t[k]);
    }
}

/// Decoding inverts encoding: every envelope with an unambiguous payload
/// reads back to an equal value.
pub proof fn lemma_decode_encode(v: EnvelopeView)
    requires
        response_ok(v),
    ensures
        spec_decode(spec_encode(v)) == Some(v),
{
    reveal_strlit("{\"success\":");
    reveal_strlit("true");
    reveal_strlit("false");
    reveal_strlit(",\"message\":\"");
    reveal_strlit(",\"response\":");
    reveal_strlit("null");
    let s = spec_encode(v);
    let p1 = "{\"success\":"@;
    let b = bool_text(v.success);
    let p2 = ",\"message\":\""@;
    let p3 = ",\"response\":"@;
    let rest = p3 + resp_text(v.response) + seq!['}'];
    let r1 = b + (p2 + (escape(v.message) + seq!['"'] + rest));
    assert(s.skip(0) =~= p1 + r1);
    lemma_prefix_match(s, 0, p1, r1);
    assert(p1.len() == 11);
    let r2 = p2 + (escape(v.message) + seq!['"'] + rest);
    assert(s.skip(11) == b + r2);
    lemma_prefix_match(s, 11, b, r2);
    if v.success {
        assert(match_at(s, 11, "true"@));
        assert(s.skip(15) == r2);
        lemma_prefix_match(s, 15, p2, escape(v.message) + seq!['"'] + rest);
        assert(s.skip(27int) == escape(v.message) + seq!['"'] + rest);
        crate::json::lemma_scan_escape(v.message, rest);
        assert(scan_string(s.skip(27)) == Some((v.message, rest)));
        lemma_decode_response_text(v);
        assert(spec_decode_response(true, v.message, rest) == Some(v));
    } else {
        assert(!match_at(s, 11, "true"@)) by {
            if match_at(s, 11, "true"@) {
                assert(s.subrange(11, 15)[0] == s.skip(11)[0]);
                assert(s.skip(11)[0] == 'f');
                assert("true"@[0] == 't');
            }
        }
        assert(match_at(s, 11, "false"@));
        assert(s.skip(16) == r2);
        lemma_prefix_match(s, 16, p2, escape(v.message) + seq!['"'] + rest);
        assert(s.skip(28int) == escape(v.message) + seq!['"'] + rest);
        crate::json::lemma_scan_escape(v.message, rest);
        assert(scan_string(s.skip(28)) == Some((v.message, rest)));
        lemma_decode_response_text(v);
        assert(spec_decode_response(false, v.message, rest) == Some(v));
    }
}

/// The tail of the wire text reads back to the envelope's payload.
proof fn lemma_decode_response_text(v: EnvelopeView)
    requires
        response_ok(v),
    ensures
        spec_decode_response(
            v.success,
            v.message,
            ",\"response\":"@ + resp_text(v.response) + seq!['}'],
        ) == Some(v),
{
    reveal_strlit(",\"response\":");
    reveal_strlit("null");
    let p3 = ",\"response\":"@;
    let body0 = resp_text(v.response);
    let rest = p3 + body0 + seq!['}'];
    assert(p3.len() == 12);
    assert(match v.response {
        Some(p) => body0.len() > 0,
        None => body0.len() == 4,
    });
    assert(rest.len() == 12 + body0.len() + 1);
    assert(rest.subrange(0, 12) =~= p3);
    assert(rest.last() == '}');
    let body = rest.subrange(12, rest.len() - 1);
    assert(body =~= body0);
    match v.response {
        Some(p) => {
            assert(body != "null"@);
            assert(body.len() > 0);
        },
        None => {
            assert(body == "null"@);
        },
    }
}

impl Envelope {
    /// The envelope a host sends when it accepts an operation that has
    /// nothing further to report.
    pub fn success(message: String) -> (r: Envelope)
        ensures
            r@ == (EnvelopeView { success: true, message: message@, response: None }),
            envelope_wf(r@),
    {
        Envelope { success: true, message, response: None }
    }

    /// The envelope a host sends when it rejects an operation.
    pub fn error(message: String) -> (r: Envelope)
        requires
            message@.len() > 0,
        ensures
            r@ == (EnvelopeView { success: false, message: message@, response: None }),
            envelope_wf(r@),
    {
        Envelope { success: false, message, response: None }
    }
}

/// Writes an envelope in its wire form.
pub fn encode_envelope(env: &Envelope) -> (r: String)
    ensures
        r@ == spec_encode(env@),
{
    let mut s = String::from_str("{\"success\":");
    if env.success {
        s.append("true");
    } else {
        s.append("false");
    }
    s.append(",\"message\":\"");
    append_escaped(&mut s, env.message.as_str());
    s.append("\"");
    s.append(",\"response\":");
    match &env.response {
        None => s.append("null"),
        Some(p) => s.append(p.as_str()),
    }
    s.append("}");
    proof {
        reveal_strlit("\"");
        reveal_strlit("}");
        assert("\""@ =~= seq!['"']);
        assert("}"@ =~= seq!['}']);
        assert(s@ =~= spec_encode(env@));
    }
    s
}

/// Reads an envelope back from its wire form; fails with `Deserialize`
/// on anything the encoder cannot have produced, a zero-length input
/// included.
pub fn decode_envelope(s: &str) -> (r: Result<Envelope, CtlError>)
    ensures
        spec_decode(s@) matches Some(v) ==> (r matches Ok(env) && env@ == v),
        spec_decode(s@) is None ==> (r matches Err(e) && e == CtlError::Deserialize),
{
    let n = s.unicode_len();
    if !match_lit(s, 0, "{\"success\":") {
        return Err(CtlError::Deserialize);
    }
    proof {
        reveal_strlit("{\"success\":");
        reveal_strlit("true");
        reveal_strlit("false");
        reveal_strlit(",\"message\":\"");
        reveal_strlit(",\"response\":");
    }
    let (success, i): (bool, usize) = if match_lit(s, 11, "true") {
        (true, 15)
    } else if match_lit(s, 11, "false") {
        (false, 16)
    } else {
        return Err(CtlError::Deserialize);
    };
    if !match_lit(s, i, ",\"message\":\"") {
        return Err(CtlError::Deserialize);
    }
    proof {
        assert(i + 12 <= s@.len());
    }
    let scanned = match scan_message(s, i + 12) {
        Ok(p) => p,
        Err(_) => {
            return Err(CtlError::Deserialize);
        },
    };
    let message = scanned.0;
    let j = scanned.1;
    let ghost rest = s@.skip(j as int);
    if n - j < 13 {
        proof {
            assert(rest.len() < 13);
        }
        return Err(CtlError::Deserialize);
    }
    if !match_lit(s, j, ",\"response\":") {
        proof {
            assert(rest.subrange(0, 12) =~= s@.subrange(j as int, j + 12));
        }
        return Err(CtlError::Deserialize);
    }
    proof {
        assert(rest.subrange(0, 12) =~= s@.subrange(j as int, j + 12));
    }
    if s.get_char(n - 1) != '}' {
        proof {
            assert(rest.last() == s@[n - 1]);
        }
        return Err(CtlError::Deserialize);
    }
    proof {
        assert(rest.last() == s@[n - 1]);
    }
    let body = s.substring_char(j + 12, n - 1);
    proof {
        assert(body@ =~= rest.subrange(12, rest.len() - 1));
    }
    let response: Option<String> = if str_eq(body, "null") {
        None
    } else if body.unicode_len() > 0 {
        Some(String::from_str(body))
    } else {
        return Err(CtlError::Deserialize);
    };
    let env = Envelope { success, message, response };
    proof {
        assert(spec_decode(s@) matches Some(v) ==> env@ == v);
    }
    Ok(env)
}

} // verus!
