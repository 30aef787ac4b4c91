use lattice_control::auction::AuctionCollector;
use lattice_control::envelope::{encode_envelope, Envelope};

fn ack(id: &str) -> Envelope {
    Envelope {
        success: true,
        message: String::new(),
        response: Some(format!("{{\"host_id\":\"{id}\"}}")),
    }
}

#[test]
fn window_gathers_every_well_formed_reply() {
    let acks = [ack("H1"), ack("H2"), ack("H3")];
    let mut collector = AuctionCollector::new();
    for a in &acks {
        let done = collector.on_message(&encode_envelope(a));
        assert!(!done);
    }
    let results = collector.into_results();
    assert_eq!(results.len(), 3);
    for (got, want) in results.iter().zip(acks.iter()) {
        assert_eq!(got, want);
    }
}

#[test]
fn empty_window_yields_empty_results() {
    let collector = AuctionCollector::new();
    assert!(collector.into_results().is_empty());
}

#[test]
fn malformed_straggler_keeps_partial_results() {
    let mut collector = AuctionCollector::new();
    assert!(!collector.on_message(&encode_envelope(&ack("H1"))));
    assert!(!collector.on_message(&encode_envelope(&ack("H2"))));
    let done = collector.on_message("this is not an envelope");
    assert!(done);
    let results = collector.into_results();
    assert_eq!(results.len(), 2);
    assert_eq!(results[0], ack("H1"));
    assert_eq!(results[1], ack("H2"));
}

#[test]
fn zero_length_payload_is_the_sentinel() {
    let mut collector = AuctionCollector::new();
    assert!(!collector.on_message(&encode_envelope(&ack("H1"))));
    assert!(collector.on_message(""));
    let mut after = AuctionCollector::new();
    assert!(after.on_message(""));
    assert!(after.into_results().is_empty());
}

#[test]
fn messages_after_the_end_are_ignored() {
    let mut collector = AuctionCollector::new();
    assert!(collector.on_message(""));
    assert!(collector.on_message(&encode_envelope(&ack("H9"))));
    assert!(collector.into_results().is_empty());
}
