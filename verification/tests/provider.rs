use chain_facade::provider::{render_failure, ArgsRequest, ClientError, Provider};

fn host(calls: &mut Vec<ArgsRequest>, args: ArgsRequest, answer: &str) -> String {
    calls.push(args);
    answer.to_string()
}

#[test]
fn request_names_the_method_and_drops_the_params() {
    let provider = Provider::new();
    let args = provider.request("eth_blockNumber", vec![1u64, 2, 3]);
    assert_eq!(
        args,
        ArgsRequest { method: "eth_blockNumber".to_string(), params: None }
    );
}

#[test]
fn request_with_empty_method_is_still_a_request() {
    let args = Provider::new().request("", ());
    assert_eq!(args.method, "");
    assert_eq!(args.params, None);
}

#[test]
fn one_request_is_one_host_call() {
    let provider = Provider::new();
    let mut calls: Vec<ArgsRequest> = Vec::new();
    let raw = host(&mut calls, provider.request("eth_chainId", ("ignored", 7u8)), "\"0x1\"");
    let result: Result<String, ClientError> = provider.response(&raw);
    assert_eq!(result.unwrap(), "0x1");
    assert_eq!(calls.len(), 1);
    assert_eq!(calls[0].method, "eth_chainId");
    assert_eq!(calls[0].params, None);
}

#[test]
fn response_decodes_a_number() {
    let result: Result<u64, ClientError> = Provider::new().response("42");
    assert_eq!(result.unwrap(), 42);
}

#[test]
fn response_decodes_a_string_and_does_not_hand_back_the_raw_text() {
    let raw = "\"0x10\"";
    let result: Result<String, ClientError> = Provider::new().response(raw);
    let value = result.unwrap();
    assert_eq!(value, "0x10");
    assert_ne!(value, raw);
}

#[test]
fn response_decodes_a_list() {
    let result: Result<Vec<u32>, ClientError> = Provider::new().response("[1, 2, 3]");
    assert_eq!(result.unwrap(), vec![1u32, 2, 3]);
}

#[test]
fn response_decodes_null_as_none() {
    let result: Result<Option<u8>, ClientError> = Provider::new().response("null");
    assert_eq!(result.unwrap(), None);
}

#[test]
fn response_round_trips_what_serde_json_wrote() {
    let provider = Provider::new();
    let value: Vec<(String, i64)> = vec![("a".to_string(), -1), ("b \"q\"".to_string(), 9_000_000_000)];
    let raw = serde_json::to_string(&value).unwrap();
    let back: Result<Vec<(String, i64)>, ClientError> = provider.response(&raw);
    assert_eq!(back.unwrap(), value);
}

#[test]
fn response_rejects_text_that_is_not_json() {
    let result: Result<u64, ClientError> = Provider::new().response("not json");
    match result {
        Err(ClientError::SerdeJson { err, text }) => {
            assert_eq!(text, "from str failed");
            assert!(err.is_syntax());
        }
        Ok(value) => panic!("decoded {value}"),
    }
}

#[test]
fn response_rejects_json_of_another_type() {
    let result: Result<u64, ClientError> = Provider::new().response("\"abc\"");
    match result {
        Err(ClientError::SerdeJson { err, text }) => {
            assert_eq!(text, "from str failed");
            assert!(err.is_data());
        }
        Ok(value) => panic!("decoded {value}"),
    }
}

#[test]
fn response_rejects_the_empty_response() {
    let result: Result<bool, ClientError> = Provider::new().response("");
    match result {
        Err(ClientError::SerdeJson { err, text }) => {
            assert_eq!(text, "from str failed");
            assert!(err.is_eof());
        }
        Ok(value) => panic!("decoded {value}"),
    }
}

#[test]
fn error_text_is_the_placeholder_not_the_response() {
    let raw = "{ broken";
    let result: Result<Vec<u8>, ClientError> = Provider::new().response(raw);
    let ClientError::SerdeJson { text, .. } = result.unwrap_err();
    assert_eq!(text, "from str failed");
    assert_ne!(text, raw);
}

#[test]
fn decoded_hands_a_parsed_value_on() {
    let result: Result<i32, ClientError> = Provider::new().decoded(Ok(-5));
    assert_eq!(result.unwrap(), -5);
}

#[test]
fn decoded_keeps_the_parse_error() {
    let cause = serde_json::from_str::<u8>("300").unwrap_err();
    let report = cause.to_string();
    let result: Result<u8, ClientError> = Provider::new().decoded(Err(cause));
    let ClientError::SerdeJson { err, text } = result.unwrap_err();
    assert_eq!(err.to_string(), report);
    assert_eq!(text, "from str failed");
}

#[test]
fn providers_are_interchangeable() {
    let first = Provider::new();
    let second = first.clone();
    let a: Result<u8, ClientError> = first.response("7");
    let b: Result<u8, ClientError> = second.response("7");
    assert_eq!(a.unwrap(), b.unwrap());
    assert_eq!(format!("{:?}", first), format!("{:?}", second));
}

#[test]
fn render_failure_joins_cause_and_text() {
    assert_eq!(
        render_failure("expected value at line 1 column 1", "from str failed"),
        "Deserialization Error: expected value at line 1 column 1. Response: from str failed"
    );
    assert_eq!(render_failure("", ""), "Deserialization Error: . Response: ");
}

#[test]
fn message_reports_the_cause_and_the_carried_text() {
    let result: Result<bool, ClientError> = Provider::new().response("");
    let error = result.unwrap_err();
    assert_eq!(
        error.message(),
        "Deserialization Error: EOF while parsing a value at line 1 column 0. Response: from str failed"
    );
}

#[test]
fn message_uses_the_parse_errors_own_report() {
    let cause = serde_json::from_str::<u8>("300").unwrap_err();
    let report = cause.to_string();
    let error = ClientError::SerdeJson { err: cause, text: "seen: 300".to_string() };
    assert_eq!(
        error.message(),
        format!("Deserialization Error: {}. Response: seen: 300", report)
    );
    assert_ne!(error.message(), report);
}
