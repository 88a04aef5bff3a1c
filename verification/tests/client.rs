use ias_attest::client::{
    classify_status, content_type_header, credential_header_name, AttestationService, IASRequest,
    ATTESTATION_SERVICE_DEFAULT_RETRIES,
};
use ias_attest::errors::ClientError;

#[test]
fn new_uses_the_default_retry_budget() {
    let service = AttestationService::new("https://authority.example/report");
    assert_eq!(service.connection_str, "https://authority.example/report");
    assert_eq!(service.retries, ATTESTATION_SERVICE_DEFAULT_RETRIES);
    assert_eq!(service.retries, 10);
}

#[test]
fn new_with_retries_keeps_the_given_budget() {
    let service = AttestationService::new_with_retries("https://authority.example/report", 0);
    assert_eq!(service.retries, 0);
    let service = AttestationService::new_with_retries("https://authority.example/report", 7);
    assert_eq!(service.retries, 7);
}

#[test]
fn first_success_after_k_failures_takes_k_plus_one_attempts() {
    let budget: u32 = 5;
    let service = AttestationService::new_with_retries("https://authority.example", budget);
    for k in 0..=budget as usize {
        let mut outcomes = vec![false; k];
        outcomes.push(true);
        outcomes.resize(budget as usize + 2, false);
        let (attempts, success) = service.run_attempts(&outcomes);
        assert!(success, "k = {}", k);
        assert_eq!(attempts, k as u64 + 1, "k = {}", k);
    }
}

#[test]
fn exhausted_budget_takes_exactly_budget_plus_one_attempts() {
    for budget in [0u32, 1, 3, 10] {
        let service = AttestationService::new_with_retries("https://authority.example", budget);
        let outcomes = vec![false; budget as usize + 3];
        let (attempts, success) = service.run_attempts(&outcomes);
        assert!(!success, "budget = {}", budget);
        assert_eq!(attempts, budget as u64 + 1, "budget = {}", budget);
    }
}

#[test]
fn success_past_the_budget_is_never_reached() {
    let service = AttestationService::new_with_retries("https://authority.example", 2);
    // The transport would succeed on the fourth attempt, but the budget
    // allows only three.
    let outcomes = vec![false, false, false, true];
    let (attempts, success) = service.run_attempts(&outcomes);
    assert!(!success);
    assert_eq!(attempts, 3);
}

#[test]
fn request_body_is_the_quote_in_one_json_field() {
    let request = IASRequest::new(String::from("AgAAAFsLAAAL"));
    assert_eq!(request.to_json_body(), "{\"isvEnclaveQuote\":\"AgAAAFsLAAAL\"}");
}

#[test]
fn status_classification_is_success_exactly_on_2xx() {
    assert_eq!(classify_status(200), Ok(()));
    assert_eq!(classify_status(201), Ok(()));
    assert_eq!(classify_status(299), Ok(()));
    assert_eq!(classify_status(199), Err(ClientError::HttpStatus(199)));
    assert_eq!(classify_status(300), Err(ClientError::HttpStatus(300)));
    assert_eq!(classify_status(404), Err(ClientError::HttpStatus(404)));
    assert_eq!(classify_status(500), Err(ClientError::HttpStatus(500)));
}

#[test]
fn header_names_match_the_wire_protocol() {
    assert_eq!(credential_header_name(), "Ocp-Apim-Subscription-Key");
    assert_eq!(content_type_header(), ("Content-type", "application/json"));
}
