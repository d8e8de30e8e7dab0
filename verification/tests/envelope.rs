use miai::error::Error;
use miai::poll::{poll_step, PollAction};
use miai::response::{device_info_from, parse_envelope, player_status_from, XiaoaiResponse};

fn value(text: &str) -> serde_json::Value {
    serde_json::from_str(text).unwrap()
}

#[test]
fn envelope_zero_code_passes_data_through() {
    let data = value(r#"{"deviceList":[1,2,3]}"#);
    let resp = XiaoaiResponse { code: 0, message: "ok".to_string(), data: data.clone() };
    let out = resp.error_for_code().unwrap();
    assert_eq!(out.code, 0);
    assert_eq!(out.message, "ok");
    assert_eq!(out.data, data);
}

#[test]
fn envelope_nonzero_code_is_api_error_with_exact_fields() {
    let resp = XiaoaiResponse {
        code: 401,
        message: "auth err".to_string(),
        data: serde_json::Value::Null,
    };
    match resp.error_for_code() {
        Err(Error::Api { code, message }) => {
            assert_eq!(code, 401);
            assert_eq!(message, "auth err");
        }
        other => panic!("expected an application error, got {:?}", other.is_ok()),
    }
}

#[test]
fn envelope_negative_code_is_api_error() {
    let resp = XiaoaiResponse {
        code: -8,
        message: "bad".to_string(),
        data: serde_json::Value::Null,
    };
    assert!(matches!(resp.error_for_code(), Err(Error::Api { code: -8, .. })));
}

#[test]
fn parse_envelope_reads_fields() {
    let body = br#"{"code":0,"message":"ok","data":{"x":[1,2]}}"#;
    let resp = parse_envelope(body).unwrap();
    assert_eq!(resp.code, 0);
    assert_eq!(resp.message, "ok");
    assert_eq!(resp.data, value(r#"{"x":[1,2]}"#));
}

#[test]
fn parse_envelope_rejects_garbage() {
    assert!(matches!(parse_envelope(b"<html>"), Err(Error::Decode(_))));
}

#[test]
fn parse_envelope_rejects_missing_member() {
    let body = br#"{"code":0,"data":null}"#;
    assert!(matches!(parse_envelope(body), Err(Error::Decode(_))));
}

#[test]
fn device_info_from_reads_records() {
    let data = value(
        r#"[{"deviceID":"d1","name":"Bedroom","hardware":"LX04","extra":1},
            {"deviceID":"d2","name":"Desk","hardware":"L09A"}]"#,
    );
    let resp = XiaoaiResponse { code: 0, message: "ok".to_string(), data };
    let devices = device_info_from(&resp).unwrap();
    assert_eq!(devices.len(), 2);
    assert_eq!(devices[0].device_id, "d1");
    assert_eq!(devices[0].name, "Bedroom");
    assert_eq!(devices[0].hardware, "LX04");
    assert_eq!(devices[1].device_id, "d2");
}

#[test]
fn device_info_from_rejects_other_shapes() {
    let resp = XiaoaiResponse {
        code: 0,
        message: "ok".to_string(),
        data: value(r#"{"not":"a list"}"#),
    };
    assert!(matches!(device_info_from(&resp), Err(Error::Decode(_))));
}

#[test]
fn player_status_keeps_raw_data() {
    let data = value(r#"{"status":1,"volume":40}"#);
    let resp = XiaoaiResponse { code: 0, message: "ok".to_string(), data: data.clone() };
    let status = player_status_from(resp);
    assert_eq!(status.raw, data);
}

#[test]
fn poll_delivers_success_to_handler() {
    let resp = XiaoaiResponse {
        code: 0,
        message: "ok".to_string(),
        data: serde_json::Value::Null,
    };
    match poll_step(Ok(resp)) {
        PollAction::Deliver(r) => assert_eq!(r.code, 0),
        PollAction::Skip => panic!("a success must reach the handler"),
    }
}

#[test]
fn poll_skips_failure_without_propagating() {
    let r = poll_step(Err(Error::Transport("timed out".to_string())));
    assert!(matches!(r, PollAction::Skip));
}

#[test]
fn poll_n_successes_make_n_sequential_deliveries() {
    let mut delivered = 0;
    for i in 0..5i64 {
        let resp = XiaoaiResponse {
            code: 0,
            message: format!("iteration {}", i),
            data: serde_json::Value::Null,
        };
        if let PollAction::Deliver(r) = poll_step(Ok(resp)) {
            assert_eq!(r.message, format!("iteration {}", i));
            delivered += 1;
        }
    }
    assert_eq!(delivered, 5);
}

#[test]
fn poll_all_failures_keep_looping() {
    let mut iterations = 0;
    let mut delivered = 0;
    for _ in 0..5 {
        let outcome: Result<XiaoaiResponse, Error> =
            Err(Error::Api { code: 503, message: "down".to_string() });
        match poll_step(outcome) {
            PollAction::Deliver(_) => delivered += 1,
            PollAction::Skip => {}
        }
        iterations += 1;
    }
    assert_eq!(iterations, 5);
    assert_eq!(delivered, 0);
}
