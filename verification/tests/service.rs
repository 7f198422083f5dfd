use autonomi_service::record::HealthRecord;
use autonomi_service::service::{
    get_record_body, handle, health_body, store_success_body, Request, Response,
};

const ENVELOPE: &str = "{\"status\":\"success\",\"message\":\"Record received (not yet stored on Autonomi)\",\"data\":{\"id\":\"mock-id-12345\"}}";

fn sample_record(title: &str) -> HealthRecord {
    HealthRecord {
        id: None,
        owner_id: "u1".to_string(),
        record_type: "bloodwork".to_string(),
        title: title.to_string(),
        content: "x".to_string(),
        date: "2025-01-01".to_string(),
    }
}

#[test]
fn health_returns_exact_body() {
    let r: Response = handle(&Request::Health);
    assert_eq!(r.status, 200);
    assert_eq!(r.body, "Autonomi service is running");
    assert_eq!(health_body(), "Autonomi service is running");
}

#[test]
fn store_returns_fixed_envelope_for_any_record() {
    let a = handle(&Request::StoreRecord(sample_record("Test")));
    let b = handle(&Request::StoreRecord(HealthRecord {
        id: Some("given-id".to_string()),
        owner_id: "someone else".to_string(),
        record_type: "imaging".to_string(),
        title: "Completely different \"title\"\n".to_string(),
        content: "long content".to_string(),
        date: "1999-12-31".to_string(),
    }));
    assert_eq!(a.status, 200);
    assert_eq!(b.status, 200);
    assert_eq!(a.body, ENVELOPE);
    assert_eq!(b.body, ENVELOPE);
    assert_eq!(store_success_body(), ENVELOPE);
}

#[test]
fn store_envelope_scenario_mock_id() {
    let r = handle(&Request::StoreRecord(sample_record("Test")));
    assert_eq!(r.status, 200);
    let v: serde_json::Value = serde_json::from_str(&r.body).unwrap();
    assert_eq!(v["status"].as_str(), Some("success"));
    assert_eq!(
        v["message"].as_str(),
        Some("Record received (not yet stored on Autonomi)")
    );
    assert_eq!(v["data"]["id"].as_str(), Some("mock-id-12345"));
}

#[test]
fn get_record_scenario_abc123() {
    let r = handle(&Request::GetRecord("abc123".to_string()));
    assert_eq!(r.status, 200);
    let v: serde_json::Value = serde_json::from_str(&r.body).unwrap();
    assert_eq!(v["id"].as_str(), Some("abc123"));
    assert_eq!(v["title"].as_str(), Some("Mock Record"));
}

#[test]
fn get_record_exact_body() {
    assert_eq!(
        get_record_body("abc123"),
        "{\"id\":\"abc123\",\"owner_id\":\"user123\",\"record_type\":\"bloodwork\",\"title\":\"Mock Record\",\"content\":\"This is a placeholder record\",\"date\":\"2025-04-15\"}"
    );
}

#[test]
fn get_record_echoes_any_id() {
    for id in ["", "abc123", "no-such-record", "id with spaces", "héllo✓"] {
        let r = handle(&Request::GetRecord(id.to_string()));
        assert_eq!(r.status, 200);
        let v: serde_json::Value = serde_json::from_str(&r.body).unwrap();
        assert_eq!(v["id"].as_str(), Some(id));
        assert_eq!(v["owner_id"].as_str(), Some("user123"));
        assert_eq!(v["record_type"].as_str(), Some("bloodwork"));
        assert_eq!(v["title"].as_str(), Some("Mock Record"));
        assert_eq!(v["content"].as_str(), Some("This is a placeholder record"));
        assert_eq!(v["date"].as_str(), Some("2025-04-15"));
    }
}

#[test]
fn repeated_requests_are_byte_identical() {
    let first_health = handle(&Request::Health).body;
    let first_store = handle(&Request::StoreRecord(sample_record("Test"))).body;
    let first_get = handle(&Request::GetRecord("abc123".to_string())).body;
    for _ in 0..5 {
        assert_eq!(handle(&Request::Health).body, first_health);
        assert_eq!(
            handle(&Request::StoreRecord(sample_record("Test"))).body,
            first_store
        );
        assert_eq!(handle(&Request::GetRecord("abc123".to_string())).body, first_get);
    }
}
