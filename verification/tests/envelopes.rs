use lattice_control::envelope::{decode_envelope, encode_envelope, Envelope};
use lattice_control::json::u64_to_string;
use lattice_control::request::{complete_request, BusReply};
use lattice_control::CtlError;

fn env(success: bool, message: &str, response: Option<&str>) -> Envelope {
    Envelope {
        success,
        message: message.to_string(),
        response: response.map(|p| p.to_string()),
    }
}

#[test]
fn encode_has_exact_wire_form() {
    assert_eq!(
        encode_envelope(&env(true, "", None)),
        "{\"success\":true,\"message\":\"\",\"response\":null}"
    );
    assert_eq!(
        encode_envelope(&env(false, "component not found", None)),
        "{\"success\":false,\"message\":\"component not found\",\"response\":null}"
    );
    assert_eq!(
        encode_envelope(&env(true, "", Some("{\"id\":\"NHOST\"}"))),
        "{\"success\":true,\"message\":\"\",\"response\":{\"id\":\"NHOST\"}}"
    );
}

#[test]
fn round_trip_simple() {
    for e in [
        env(true, "", None),
        env(false, "nope", None),
        env(true, "ok", Some("{\"a\":1}")),
        env(true, "", Some("[1,2,3]")),
    ] {
        let decoded = decode_envelope(&encode_envelope(&e)).unwrap();
        assert_eq!(decoded, e);
    }
}

#[test]
fn round_trip_escaped_message() {
    for msg in [
        "with \"quotes\"",
        "back\\slash",
        "line\nbreak\ttab\rret",
        "control\u{01}\u{1f}chars",
        "unicode: ünïcødé ✓",
    ] {
        let e = env(false, msg, None);
        let wire = encode_envelope(&e);
        assert_eq!(decode_envelope(&wire).unwrap(), e);
    }
}

#[test]
fn decode_rejects_malformed_input() {
    assert_eq!(decode_envelope(""), Err(CtlError::Deserialize));
    assert_eq!(decode_envelope("{}"), Err(CtlError::Deserialize));
    assert_eq!(decode_envelope("not json"), Err(CtlError::Deserialize));
    assert_eq!(
        decode_envelope("{\"success\":maybe,\"message\":\"\",\"response\":null}"),
        Err(CtlError::Deserialize)
    );
    assert_eq!(
        decode_envelope("{\"success\":true,\"message\":\"\",\"response\":}"),
        Err(CtlError::Deserialize)
    );
    assert_eq!(
        decode_envelope("{\"success\":true,\"message\":\"unterminated"),
        Err(CtlError::Deserialize)
    );
}

#[test]
fn decode_null_response_is_absent() {
    let decoded =
        decode_envelope("{\"success\":true,\"message\":\"\",\"response\":null}").unwrap();
    assert!(decoded.success);
    assert!(decoded.message.is_empty());
    assert_eq!(decoded.response, None);
}

#[test]
fn decimal_formatting_is_exact() {
    assert_eq!(u64_to_string(0), "0");
    assert_eq!(u64_to_string(7), "7");
    assert_eq!(u64_to_string(1234567890), "1234567890");
    assert_eq!(u64_to_string(u64::MAX), "18446744073709551615");
}

#[test]
fn complete_request_maps_every_outcome() {
    let ok = complete_request(BusReply::Reply(
        "{\"success\":true,\"message\":\"\",\"response\":null}".to_string(),
    ))
    .unwrap();
    assert!(ok.success);
    assert_eq!(ok.response, None);

    assert_eq!(
        complete_request(BusReply::TimedOut),
        Err(CtlError::TimedOut)
    );
    assert_eq!(
        complete_request(BusReply::Transport("disconnected".to_string())),
        Err(CtlError::Transport("disconnected".to_string()))
    );
    assert_eq!(
        complete_request(BusReply::Reply("garbage".to_string())),
        Err(CtlError::Deserialize)
    );
}

#[test]
fn error_messages_describe_the_outcome() {
    assert_eq!(CtlError::TimedOut.message(), "timed out");
    assert_eq!(
        CtlError::Transport("no route".to_string()).message(),
        "transport error: no route"
    );
    assert_eq!(CtlError::Deserialize.message(), "deserialization failed");
}

#[test]
fn constructors_build_well_formed_envelopes() {
    let ok = Envelope::success("successfully added registries".to_string());
    assert!(ok.success);
    assert_eq!(ok.response, None);
    assert_eq!(decode_envelope(&encode_envelope(&ok)).unwrap(), ok);

    let rejected = Envelope::error("component not found".to_string());
    assert!(!rejected.success);
    assert_eq!(rejected.message, "component not found");
    assert_eq!(decode_envelope(&encode_envelope(&rejected)).unwrap(), rejected);
}
