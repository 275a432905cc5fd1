use shortlink::error::Error;
use worker::kv::KvError;

fn json_failure() -> serde_json::Error {
    serde_json::from_str::<serde_json::Value>("{").unwrap_err()
}

fn store_failure() -> KvError {
    KvError::InvalidKvStore("SHORT_URLS".to_string())
}

fn runtime_failure() -> worker::Error {
    worker::Error::RustError("no binding".to_string())
}

#[test]
fn status_code_of_each_kind() {
    assert_eq!(Error::InvalidRequest("x".to_string()).status_code(), 400);
    assert_eq!(Error::Forbidden.status_code(), 403);
    assert_eq!(Error::NotFound("x".to_string()).status_code(), 404);
    assert_eq!(Error::WorkerError(runtime_failure()).status_code(), 500);
    assert_eq!(Error::KvError(store_failure()).status_code(), 500);
    assert_eq!(Error::SerdeJsonError(json_failure()).status_code(), 500);
    assert_eq!(Error::InternalError("x".to_string()).status_code(), 500);
}

#[test]
fn message_of_each_kind() {
    assert_eq!(
        Error::InvalidRequest("Invalid short url.".to_string()).message(),
        "invalid request: Invalid short url."
    );
    assert_eq!(Error::Forbidden.message(), "forbidden");
    assert_eq!(Error::NotFound("/nowhere".to_string()).message(), "not found: /nowhere");
    assert_eq!(Error::WorkerError(runtime_failure()).message(), "internal error: worker");
    assert_eq!(Error::KvError(store_failure()).message(), "internal error: kv");
    assert_eq!(Error::SerdeJsonError(json_failure()).message(), "internal error: serde_json");
    assert_eq!(Error::InternalError("hidden".to_string()).message(), "internal error");
}

#[test]
fn message_with_empty_detail() {
    assert_eq!(Error::InvalidRequest(String::new()).message(), "invalid request: ");
    assert_eq!(Error::NotFound(String::new()).message(), "not found: ");
}

#[test]
fn json_of_invalid_request() {
    assert_eq!(
        Error::InvalidRequest("Invalid short url.".to_string()).json(),
        "{\"error\":\"invalid request: Invalid short url.\",\"status_code\":400}"
    );
}

#[test]
fn json_of_each_other_kind() {
    assert_eq!(Error::Forbidden.json(), "{\"error\":\"forbidden\",\"status_code\":403}");
    assert_eq!(
        Error::NotFound("x".to_string()).json(),
        "{\"error\":\"not found: x\",\"status_code\":404}"
    );
    assert_eq!(
        Error::WorkerError(runtime_failure()).json(),
        "{\"error\":\"internal error: worker\",\"status_code\":500}"
    );
    assert_eq!(
        Error::KvError(store_failure()).json(),
        "{\"error\":\"internal error: kv\",\"status_code\":500}"
    );
    assert_eq!(
        Error::SerdeJsonError(json_failure()).json(),
        "{\"error\":\"internal error: serde_json\",\"status_code\":500}"
    );
    assert_eq!(
        Error::InternalError("x".to_string()).json(),
        "{\"error\":\"internal error\",\"status_code\":500}"
    );
}

#[test]
fn json_escapes_the_message() {
    assert_eq!(
        Error::InvalidRequest("say \"hi\"\n\\".to_string()).json(),
        "{\"error\":\"invalid request: say \\\"hi\\\"\\n\\\\\",\"status_code\":400}"
    );
}

#[test]
fn json_is_read_back_by_a_json_reader() {
    let text = Error::NotFound("a \"quoted\" name \u{1} \u{e9}".to_string()).json();
    let value: serde_json::Value = serde_json::from_str(&text).unwrap();
    assert_eq!(
        value.get("error").and_then(|v| v.as_str()),
        Some("not found: a \"quoted\" name \u{1} \u{e9}")
    );
    assert_eq!(value.get("status_code").and_then(|v| v.as_u64()), Some(404));
    assert_eq!(value.as_object().map(|o| o.len()), Some(2));
}

#[test]
fn from_a_store_failure() {
    let error = Error::from(store_failure());
    assert!(matches!(error, Error::KvError(KvError::InvalidKvStore(ref name)) if name == "SHORT_URLS"));
}

#[test]
fn from_a_runtime_failure() {
    let error = Error::from(runtime_failure());
    assert!(matches!(error, Error::WorkerError(worker::Error::RustError(ref text)) if text == "no binding"));
}

#[test]
fn from_a_json_failure() {
    let cause = json_failure();
    let text = cause.to_string();
    let error = Error::from(cause);
    assert!(matches!(error, Error::SerdeJsonError(ref inner) if inner.to_string() == text));
}

#[test]
fn question_mark_converts_a_store_failure() {
    fn write() -> Result<(), Error> {
        Err(store_failure())?;
        Ok(())
    }
    assert!(matches!(write(), Err(Error::KvError(_))));
}
