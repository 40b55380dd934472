use base64::Engine;
use strict_state::endpoints::{
    conclude, resolve, resolve_document, respond_to_document, secure_state_update, settle,
    vulnerable_state_update,
};
use strict_state::binder::{bind, BindError, Field, Mismatch};
use strict_state::decoder::DecodeError;
use strict_state::response::{Outcome, Response};
use strict_state::schema::{
    Binding, EncodedEnvelope, Equipment, Location, Mode, PlayerState, UndeclaredAttributes,
};
use strict_state::validator::ValidationError;

fn encoded(document: &str) -> String {
    base64::engine::general_purpose::STANDARD.encode(document)
}

fn envelope(document: &str) -> EncodedEnvelope {
    EncodedEnvelope { player_state: encoded(document) }
}

fn raw(text: &str) -> EncodedEnvelope {
    EncodedEnvelope { player_state: String::from(text) }
}

fn state(items: [u32; 5], x: i32, y: i32, zone: &str) -> PlayerState {
    PlayerState {
        equipment: Equipment { items },
        location: Location { x, y, zone: String::from(zone) },
    }
}

fn sword_document(level: u32) -> String {
    format!(
        "{{\"equipment\":{{\"items\":[0,0,{},0,0]}},\"location\":{{\"x\":1,\"y\":1,\"zone\":\"b\"}}}}",
        level
    )
}

const ESCALATION: &str =
    r#"{"equipment":{"items":[1,2,3,4,5]},"location":{"x":0,"y":0,"zone":"a"},"isAdmin":true}"#;

#[test]
fn vulnerable_path_announces_admin_escalation() {
    let bound = bind(ESCALATION.as_bytes(), Mode::Permissive).unwrap();
    assert_eq!(bound.undeclared.is_admin, Some(true));
    let response = vulnerable_state_update(1, envelope(ESCALATION));
    assert_eq!(response.status, 200);
    assert_eq!(
        response.body,
        "Player state for user 1 updated. Sword level is now: 3.\nALERT: Attacker successfully escalated privileges to ADMIN!"
    );
}

#[test]
fn secure_path_rejects_the_admin_flag() {
    assert_eq!(
        bind(ESCALATION.as_bytes(), Mode::Strict),
        Err(BindError::UnexpectedFields(vec![String::from("isAdmin")]))
    );
    let response = secure_state_update(1, envelope(ESCALATION));
    assert_eq!(response.status, 400);
    assert_eq!(
        response.body,
        "MITIGATED: Payload rejected due to unexpected fields. Error: unknown field `isAdmin`, expected `equipment` or `location`"
    );
    assert!(!response.body.contains("true"));
}

#[test]
fn secure_path_rejects_an_excessive_sword_level() {
    let text = r#"{"equipment":{"items":[0,0,25,0,0]},"location":{"x":1,"y":1,"zone":"b"}}"#;
    let bound = bind(text.as_bytes(), Mode::Strict).unwrap();
    assert_eq!(bound.state, state([0, 0, 25, 0, 0], 1, 1, "b"));
    assert_eq!(
        resolve(&encoded(text), Mode::Strict),
        Outcome::ValidationFailed(ValidationError::OutOfRange { slot: 2, value: 25, bound: 20 })
    );
    let response = secure_state_update(9, envelope(text));
    assert_eq!(
        response,
        Response {
            status: 422,
            body: String::from(
                "MITIGATED: Invalid item level detected. Sword level cannot exceed 20."
            ),
        }
    );
}

#[test]
fn secure_path_accepts_the_sword_level_at_the_bound() {
    let response = secure_state_update(5, envelope(&sword_document(20)));
    assert_eq!(
        response,
        Response {
            status: 200,
            body: String::from("Player state for user 5 securely updated. Sword level is now: 20."),
        }
    );
}

#[test]
fn secure_path_rejects_the_sword_level_above_the_bound() {
    let response = secure_state_update(5, envelope(&sword_document(21)));
    assert_eq!(response.status, 422);
    assert_eq!(
        resolve(&encoded(&sword_document(21)), Mode::Strict),
        Outcome::ValidationFailed(ValidationError::OutOfRange { slot: 2, value: 21, bound: 20 })
    );
}

#[test]
fn vulnerable_path_does_not_validate() {
    let response = vulnerable_state_update(5, envelope(&sword_document(25)));
    assert_eq!(
        response,
        Response {
            status: 200,
            body: String::from("Player state for user 5 updated. Sword level is now: 25."),
        }
    );
}

#[test]
fn malformed_encoding_is_a_decode_failure() {
    let text = "not-base64!!";
    for mode in [Mode::Strict, Mode::Permissive] {
        assert_eq!(resolve(text, mode), Outcome::DecodeFailed(DecodeError));
    }
    let expected = Response { status: 400, body: String::from("Invalid Base64 data") };
    assert_eq!(secure_state_update(1, raw(text)), expected);
    assert_eq!(vulnerable_state_update(1, raw(text)), expected);
}

#[test]
fn plain_json_is_not_an_encoding() {
    let expected = Response { status: 400, body: String::from("Invalid Base64 data") };
    assert_eq!(secure_state_update(1, raw(ESCALATION)), expected);
    assert_eq!(vulnerable_state_update(1, raw(ESCALATION)), expected);
}

#[test]
fn round_trip_echoes_the_sword_level() {
    let mut level: u32 = 0;
    while level <= 20 {
        let response = secure_state_update(77, envelope(&sword_document(level)));
        assert_eq!(response.status, 200);
        assert_eq!(
            response.body,
            format!("Player state for user 77 securely updated. Sword level is now: {}.", level)
        );
        level += 1;
    }
}

#[test]
fn round_trip_keeps_the_state() {
    let text = r#"{"equipment":{"items":[10,11,12,13,14]},"location":{"x":-5,"y":6,"zone":"harbour"}}"#;
    assert_eq!(
        resolve(&encoded(text), Mode::Strict),
        Outcome::Accepted(Binding {
            state: state([10, 11, 12, 13, 14], -5, 6, "harbour"),
            undeclared: UndeclaredAttributes { is_admin: None, gold: None },
        })
    );
}

#[test]
fn vulnerable_path_announces_gold() {
    let text = r#"{"equipment":{"items":[1,2,3,4,5]},"location":{"x":0,"y":0,"zone":"a"},"gold":1000000}"#;
    let response = vulnerable_state_update(12, envelope(text));
    assert_eq!(
        response,
        Response {
            status: 200,
            body: String::from(
                "Player state for user 12 updated. Sword level is now: 3.\nALERT: Attacker granted themselves 1000000 gold!"
            ),
        }
    );
}

#[test]
fn vulnerable_path_announces_both_gains() {
    let text = r#"{"equipment":{"items":[1,2,3,4,5]},"location":{"x":0,"y":0,"zone":"a"},"gold":7,"isAdmin":true}"#;
    let response = vulnerable_state_update(12, envelope(text));
    assert_eq!(
        response.body,
        "Player state for user 12 updated. Sword level is now: 3.\nALERT: Attacker successfully escalated privileges to ADMIN!\nALERT: Attacker granted themselves 7 gold!"
    );
}

#[test]
fn secure_path_rejects_gold() {
    let text = r#"{"equipment":{"items":[1,2,3,4,5]},"location":{"x":0,"y":0,"zone":"a"},"gold":1000000}"#;
    let response = secure_state_update(12, envelope(text));
    assert_eq!(
        response,
        Response {
            status: 400,
            body: String::from(
                "MITIGATED: Payload rejected due to unexpected fields. Error: unknown field `gold`, expected `equipment` or `location`"
            ),
        }
    );
}

#[test]
fn strict_rejection_does_not_leak_values() {
    let first = r#"{"equipment":{"items":[1,2,3,4,5]},"location":{"x":0,"y":0,"zone":"a"},"token":"s3cr3t-value","gold":987654321}"#;
    let second = r#"{"equipment":{"items":[1,2,3,4,5]},"location":{"x":0,"y":0,"zone":"a"},"token":{"k":[1,2]},"gold":null}"#;
    let response = secure_state_update(4, envelope(first));
    assert_eq!(response.status, 400);
    assert!(!response.body.contains("s3cr3t-value"));
    assert!(!response.body.contains("987654321"));
    assert!(response.body.contains("`gold`, `token`"));
    assert_eq!(response, secure_state_update(4, envelope(second)));
}

#[test]
fn malformed_document_is_a_bad_request() {
    let response = secure_state_update(4, envelope("{\"equipment\":"));
    assert_eq!(
        response,
        Response {
            status: 400,
            body: String::from(
                "MITIGATED: Payload rejected due to unexpected fields. Error: EOF while parsing a value at line 1 column 13"
            ),
        }
    );
    let response = vulnerable_state_update(4, envelope("{\"equipment\":"));
    assert_eq!(
        response,
        Response {
            status: 400,
            body: String::from(
                "JSON Deserialization Error: EOF while parsing a value at line 1 column 13"
            ),
        }
    );
}

#[test]
fn schema_mismatch_is_reported_in_both_paths() {
    let text = r#"{"equipment":{"items":[1,2,3,4,5]}}"#;
    assert_eq!(
        secure_state_update(4, envelope(text)),
        Response {
            status: 400,
            body: String::from(
                "MITIGATED: Payload rejected due to unexpected fields. Error: missing field `location`"
            ),
        }
    );
    assert_eq!(
        vulnerable_state_update(4, envelope(text)),
        Response {
            status: 400,
            body: String::from("JSON Deserialization Error: missing field `location`"),
        }
    );
}

#[test]
fn settle_validates_in_strict_mode_only() {
    let binding = Binding {
        state: state([0, 0, 21, 0, 0], 0, 0, ""),
        undeclared: UndeclaredAttributes { is_admin: None, gold: None },
    };
    assert_eq!(
        settle(binding.clone(), Mode::Strict),
        Outcome::ValidationFailed(ValidationError::OutOfRange { slot: 2, value: 21, bound: 20 })
    );
    assert_eq!(settle(binding.clone(), Mode::Permissive), Outcome::Accepted(binding));
}

#[test]
fn conclude_passes_bind_errors_on() {
    let error = BindError::SchemaMismatch(Mismatch::Invalid(Field::Gold));
    assert_eq!(conclude(Err(error.clone()), Mode::Permissive), Outcome::BindFailed(error));
}

#[test]
fn resolve_document_runs_binding_and_validation() {
    let doc: serde_json::Value = serde_json::from_str(&sword_document(30)).unwrap();
    assert_eq!(
        resolve_document(&doc, Mode::Strict),
        Outcome::ValidationFailed(ValidationError::OutOfRange { slot: 2, value: 30, bound: 20 })
    );
    assert_eq!(
        resolve_document(&doc, Mode::Permissive),
        Outcome::Accepted(Binding {
            state: state([0, 0, 30, 0, 0], 1, 1, "b"),
            undeclared: UndeclaredAttributes { is_admin: None, gold: None },
        })
    );
}

#[test]
fn respond_to_document_agrees_with_the_pipelines() {
    let doc: serde_json::Value = serde_json::from_str(ESCALATION).unwrap();
    assert_eq!(
        respond_to_document(6, Mode::Strict, &doc),
        secure_state_update(6, envelope(ESCALATION))
    );
    assert_eq!(
        respond_to_document(6, Mode::Permissive, &doc),
        vulnerable_state_update(6, envelope(ESCALATION))
    );
}
