use android_sms_gateway::webhook::{verify_signature, verify_signature_at};
use hmac::{Hmac, Mac};
use sha2::Sha256;

fn sign(key: &str, body: &str, ts: &str) -> String {
    let mut mac = Hmac::<Sha256>::new_from_slice(key.as_bytes()).unwrap();
    mac.update(body.as_bytes());
    mac.update(ts.as_bytes());
    hex::encode(mac.finalize().into_bytes())
}

#[test]
fn signature_accepted_in_either_case_of_hex() {
    let sig = sign("k", "b", "5");
    assert!(verify_signature_at("k", "b", "5", &sig, None, 0));
    assert!(verify_signature_at("k", "b", "5", &sig.to_uppercase(), None, 0));
}

#[test]
fn truncated_or_malformed_signature_rejected() {
    let sig = sign("k", "b", "5");
    assert!(!verify_signature_at("k", "b", "5", &sig[..62], None, 0));
    assert!(!verify_signature_at("k", "b", "5", &sig[..63], None, 0));
    let mut bad = sig.clone();
    bad.replace_range(0..1, "g");
    assert!(!verify_signature_at("k", "b", "5", &bad, None, 0));
}

#[test]
fn body_and_timestamp_are_concatenated() {
    let sig = sign("k", "ab", "12");
    assert!(verify_signature_at("k", "ab", "12", &sig, None, 0));
    // only the concatenation is signed, so another split of the same bytes verifies too
    assert!(verify_signature_at("k", "a", "b12", &sig, None, 0));
    assert!(!verify_signature_at("k", "ab", "13", &sig, None, 0));
}

#[test]
fn freshness_window_is_inclusive_on_both_sides() {
    let sig = sign("k", "b", "1000");
    assert!(verify_signature_at("k", "b", "1000", &sig, Some(300), 1300));
    assert!(!verify_signature_at("k", "b", "1000", &sig, Some(300), 1301));
    assert!(verify_signature_at("k", "b", "1000", &sig, Some(300), 700));
    assert!(!verify_signature_at("k", "b", "1000", &sig, Some(300), 699));
}

#[test]
fn unparseable_timestamp_rejected_only_with_max_age() {
    let sig = sign("k", "b", "soon");
    assert!(verify_signature_at("k", "b", "soon", &sig, None, 0));
    assert!(!verify_signature_at("k", "b", "soon", &sig, Some(10), 0));
    let sig = sign("k", "b", "+1000");
    assert!(verify_signature_at("k", "b", "+1000", &sig, Some(0), 1000));
}

#[test]
fn current_timestamp_accepted_with_max_age() {
    let now = std::time::SystemTime::now()
        .duration_since(std::time::UNIX_EPOCH)
        .unwrap()
        .as_secs()
        .to_string();
    let sig = sign("k", "payload", &now);
    assert!(verify_signature("k", "payload", &now, &sig, Some(300)));
}

#[test]
fn empty_or_short_signature_rejected() {
    let good = sign("k", "b", "1");
    assert!(verify_signature("k", "b", "1", &good, None));
    assert!(!verify_signature("k", "b", "1", "", None));
    assert!(!verify_signature("k", "b", "1", &good[..62], None));
    let longer = format!("{}00", good);
    assert!(!verify_signature("k", "b", "1", &longer, None));
}
