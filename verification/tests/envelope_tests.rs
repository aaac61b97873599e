use spacex_sdk::{trans_result, BaseResult, CallError};

fn envelope<T>(success: bool, data: Option<T>, code: &str, message: Option<&str>) -> BaseResult<T> {
    BaseResult {
        code: code.to_string(),
        request_id: "req-9".to_string(),
        data,
        success,
        message: message.map(|m| m.to_string()),
    }
}

#[test]
fn translate_success_returns_payload_unchanged() {
    let env = envelope(true, Some("hello".to_string()), "0", None);
    match trans_result(env) {
        Ok(payload) => assert_eq!(payload, "hello"),
        Err(_) => panic!("a successful envelope with data must translate to its payload"),
    }
}

#[test]
fn translate_failure_formats_code_and_message() {
    let env = envelope::<String>(false, None, "E1", Some("bad creds"));
    match trans_result(env) {
        Err(CallError::Api { message }) => assert_eq!(message, "E1: bad creds"),
        _ => panic!("a failed envelope must translate to an api error"),
    }
}

#[test]
fn translate_failure_without_message_uses_empty_text() {
    let env = envelope::<String>(false, None, "E2", None);
    match trans_result(env) {
        Err(CallError::Api { message }) => assert_eq!(message, "E2: "),
        _ => panic!("a failed envelope must translate to an api error"),
    }
}

#[test]
fn translate_failure_ignores_payload() {
    // success == false wins even when a payload is present.
    let env = envelope(false, Some(1u64), "E3", Some("half-open"));
    match trans_result(env) {
        Err(CallError::Api { message }) => assert_eq!(message, "E3: half-open"),
        _ => panic!("a failed envelope must translate to an api error"),
    }
}

#[test]
fn translate_success_without_data_is_decode_error() {
    let env = envelope::<String>(true, None, "0", None);
    match trans_result(env) {
        Err(CallError::Decode) => {}
        _ => panic!("success without data must be a fatal decode error"),
    }
}
