//! Auction engine: scatter/gather collection.
//!
//! An auction publishes one broadcast with a fresh reply inbox and then
//! collects zero or more anonymous replies until its collection window
//! elapses.  The number of responders is unknown in advance, so the
//! expected path is to wait out the full window; a zero-length payload is
//! the explicit end-of-results sentinel, and a payload that fails to
//! decode ends collection early with the partial set gathered so far —
//! a malformed straggler must not invalidate already-valid acks.  The
//! transport loop lives outside this crate and feeds each arriving
//! payload to [`AuctionCollector::on_message`].

use crate::envelope::{decode_envelope, spec_decode, spec_encode, response_ok, Envelope, EnvelopeView};
use vstd::prelude::*;

verus! {

/// The collector's mathematical state: the acks gathered so far, and
/// whether collection has ended early.
pub ghost struct CollectorView {
    pub items: Seq<EnvelopeView>,
    pub done: bool,
}

/// Collects auction replies as they arrive on the reply inbox.
#[derive(Debug)]
pub struct AuctionCollector {
    /// The envelopes decoded so far, in arrival order.
    pub items: Vec<Envelope>,
    /// Whether the sentinel or a decode failure ended collection early.
    pub done: bool,
}

impl View for AuctionCollector {
    type V = CollectorView;

    open spec fn view(&self) -> CollectorView {
        CollectorView { items: self.items.deep_view(), done: self.done }
    }
}

impl DeepView for Envelope {
    type V = EnvelopeView;

    open spec fn deep_view(&self) -> EnvelopeView {
        self.view()
    }
}

/// What one arriving payload does to the collector's state.
pub open spec fn spec_step(state: CollectorView, payload: Seq<char>) -> CollectorView {
    if state.done {
        state
    } else if payload.len() == 0 {
        CollectorView { items: state.items, done: true }
    } else {
        match spec_decode(payload) {
            Some(v) => CollectorView { items: state.items.push(v), done: false },
            None => CollectorView { items: state.items, done: true },
        }
    }
}

/// The state after a whole sequence of payloads has arrived.
pub open spec fn spec_run(state: CollectorView, msgs: Seq<Seq<char>>) -> CollectorView
    decreases msgs.len(),
{
    if msgs.len() == 0 {
        state
    } else {
        spec_run(spec_step(state, msgs.first()), msgs.drop_first())
    }
}

/// The fresh collector: nothing gathered, window still open.
pub open spec fn spec_init() -> CollectorView {
    CollectorView { items: Seq::empty(), done: false }
}

impl AuctionCollector {
    /// A collector for one newly opened auction inbox.
    pub fn new() -> (r: AuctionCollector)
        ensures
            r@ == spec_init(),
    {
        let r = AuctionCollector { items: Vec::new(), done: false };
        proof {
            assert(r@.items =~= spec_init().items);
        }
        r
    }

    /// Feeds one arriving inbox payload to the collector; the result says
    /// whether collection is over.  A zero-length payload is the
    /// end-of-results sentinel; an undecodable one ends collection with
    /// the partial set kept, a signal that results may be incomplete.
    pub fn on_message(&mut self, payload: &str) -> (done: bool)
        ensures
            final(self)@ == spec_step(old(self)@, payload@),
            done == final(self)@.done,
    {
        if self.done {
            return true;
        }
        if payload.unicode_len() == 0 {
            self.done = true;
            return true;
        }
        match decode_envelope(payload) {
            Ok(env) => {
                let ghost before = self.items.deep_view();
                self.items.push(env);
                proof {
                    assert(self.items.deep_view() =~= before.push(env@));
                }
                false
            },
            Err(_) => {
                self.done = true;
                true
            },
        }
    }

    /// The collection window elapsed: normal termination, with whatever
    /// arrived in time.
    pub fn into_results(self) -> (r: Vec<Envelope>)
        ensures
            r.deep_view() == self@.items,
    {
        self.items
    }
}

/// Auction window completeness: if every arriving payload is the wire
/// form of a well-formed ack, the collector gathers exactly those acks,
/// however many there are — zero included — and the window closes
/// normally.
pub proof fn lemma_auction_window_completeness(
    state: CollectorView,
    envs: Seq<EnvelopeView>,
    msgs: Seq<Seq<char>>,
)
    requires
        !state.done,
        msgs.len() == envs.len(),
        forall|i: int| 0 <= i < msgs.len() ==> #[trigger] msgs[i] == spec_encode(envs[i]),
        forall|i: int| 0 <= i < envs.len() ==> response_ok(#[trigger] envs[i]),
    ensures
        spec_run(state, msgs) == (CollectorView { items: state.items + envs, done: false }),
    decreases msgs.len(),
{
    if msgs.len() == 0 {
        assert(state.items + envs =~= state.items);
        assert(spec_run(state, msgs) == state);
    } else {
        let v0 = envs.first();
        let i0: int = 0;
        assert(msgs[i0] == spec_encode(envs[i0]) && response_ok(envs[i0]));
        assert(msgs.first() == msgs[i0] && envs.first() == envs[i0]);
        crate::envelope::lemma_decode_encode(v0);
        lemma_encode_nonempty(v0);
        let state1 = spec_step(state, msgs.first());
        assert(state1 == (CollectorView { items: state.items.push(v0), done: false }));
        assert forall|i: int|
            0 <= i < msgs.drop_first().len() implies #[trigger] msgs.drop_first()[i]
            == spec_encode(envs.drop_first()[i]) by {
            assert(msgs.drop_first()[i] == msgs[i + 1]);
            assert(envs.drop_first()[i] == envs[i + 1]);
        }
        assert forall|i: int|
            0 <= i < envs.drop_first().len() implies response_ok(#[trigger] envs.drop_first()[i])
            by {
            assert(envs.drop_first()[i] == envs[i + 1]);
        }
        lemma_auction_window_completeness(state1, envs.drop_first(), msgs.drop_first());
        assert(state.items.push(v0) + envs.drop_first() =~= state.items + envs);
    }
}

/// Auction partial failure: well-formed acks followed by one malformed
/// payload leave exactly the well-formed acks, and collection stops at
/// the malformed one.
pub proof fn lemma_auction_partial_failure(
    envs: Seq<EnvelopeView>,
    msgs: Seq<Seq<char>>,
    bad: Seq<char>,
)
    requires
        msgs.len() == envs.len(),
        forall|i: int| 0 <= i < msgs.len() ==> #[trigger] msgs[i] == spec_encode(envs[i]),
        forall|i: int| 0 <= i < envs.len() ==> response_ok(#[trigger] envs[i]),
        bad.len() > 0,
        spec_decode(bad) is None,
    ensures
        spec_run(spec_init(), msgs.push(bad)) == (CollectorView { items: envs, done: true }),
{
    lemma_auction_window_completeness(spec_init(), envs, msgs);
    lemma_run_split(spec_init(), msgs, seq![bad]);
    let mid = spec_run(spec_init(), msgs);
    assert(mid == (CollectorView { items: Seq::<EnvelopeView>::empty() + envs, done: false }));
    assert(Seq::<EnvelopeView>::empty() + envs =~= envs);
    assert(msgs.push(bad) =~= msgs + seq![bad]);
    assert(seq![bad].drop_first() =~= Seq::<Seq<char>>::empty());
    assert(seq![bad].first() == bad);
    let sf = spec_step(mid, bad);
    assert(spec_run(sf, seq![bad].drop_first()) == sf);
    assert(spec_run(mid, seq![bad]) == spec_step(mid, bad));
}

/// Running two batches in turn is running their concatenation.
proof fn lemma_run_split(state: CollectorView, a: Seq<Seq<char>>, b: Seq<Seq<char>>)
    ensures
        spec_run(state, a + b) == spec_run(spec_run(state, a), b),
    decreases a.len(),
{
    if a.len() == 0 {
        assert(a + b =~= b);
    } else {
        assert((a + b).first() == a.first());
        assert((a + b).drop_first() =~= a.drop_first() + b);
        lemma_run_split(spec_step(state, a.first()), a.drop_first(), b);
    }
}

/// The wire form of an envelope is never the zero-length sentinel.
proof fn lemma_encode_nonempty(v: EnvelopeView)
    ensures
        spec_encode(v).len() > 0,
{
    reveal_strlit("{\"success\":");
    assert(spec_encode(v).len() >= "{\"success\":"@.len());
}

} // verus!
