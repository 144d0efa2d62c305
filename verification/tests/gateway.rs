use query_gateway::gateway::request_url;
use query_gateway::gateway::GatewayError;
use query_gateway::gateway::HttpMethod;
use query_gateway::gateway::Operation;
use query_gateway::gateway::prepare_query;

const BASE: &str = "http://localhost:8000";

#[test]
fn every_operation_maps_to_its_path() {
    assert_eq!(Operation::SubmitQuestion.path(), "/ai/process");
    assert_eq!(Operation::ListDrivers.path(), "/drivers");
    assert_eq!(Operation::ConnectDatabase.path(), "/database/connect");
    assert_eq!(Operation::DisconnectDatabase.path(), "/database/disconnect");
    assert_eq!(Operation::GetDatabaseStatus.path(), "/database/status");
    assert_eq!(Operation::CreateSampleData.path(), "/database/sample-data");
}

#[test]
fn every_operation_maps_to_its_method() {
    assert_eq!(Operation::SubmitQuestion.method(), HttpMethod::Post);
    assert_eq!(Operation::ListDrivers.method(), HttpMethod::Get);
    assert_eq!(Operation::ConnectDatabase.method(), HttpMethod::Post);
    assert_eq!(Operation::DisconnectDatabase.method(), HttpMethod::Post);
    assert_eq!(Operation::GetDatabaseStatus.method(), HttpMethod::Get);
    assert_eq!(Operation::CreateSampleData.method(), HttpMethod::Post);
}

#[test]
fn only_query_and_connect_send_a_body() {
    assert!(Operation::SubmitQuestion.sends_body());
    assert!(Operation::ConnectDatabase.sends_body());
    assert!(!Operation::ListDrivers.sends_body());
    assert!(!Operation::DisconnectDatabase.sends_body());
    assert!(!Operation::GetDatabaseStatus.sends_body());
    assert!(!Operation::CreateSampleData.sends_body());
}

#[test]
fn request_url_joins_base_and_path() {
    assert_eq!(request_url(BASE, Operation::SubmitQuestion), "http://localhost:8000/ai/process");
    assert_eq!(request_url(BASE, Operation::GetDatabaseStatus), "http://localhost:8000/database/status");
}

#[test]
fn prepare_query_passes_a_clean_question_through() {
    match prepare_query("how many customers are there?".to_string()) {
        Ok(q) => assert_eq!(q.question, "how many customers are there?"),
        Err(_) => panic!("a clean question must pass"),
    }
}

#[test]
fn prepare_query_rejects_a_blacklisted_question() {
    match prepare_query("DROP TABLE customers".to_string()) {
        Ok(_) => panic!("a blacklisted question must be rejected"),
        Err(e) => assert!(matches!(e, GatewayError::InputRejected)),
    }
}

#[test]
fn input_rejected_message_is_descriptive() {
    let msg = GatewayError::InputRejected.message();
    assert_eq!(msg, "Input blocked by security validation");
}

#[test]
fn transport_error_message_preserves_the_cause() {
    let e = GatewayError::Transport { cause: "connection refused".to_string() };
    let msg = e.message();
    assert_eq!(msg, "Could not reach backend: connection refused");
    assert!(msg.contains("connection refused"));
}

#[test]
fn deserialization_error_message_preserves_the_body() {
    let e = GatewayError::Deserialization {
        detail: "missing field `success`".to_string(),
        body: "<html>bad gateway</html>".to_string(),
    };
    let msg = e.message();
    assert_eq!(
        msg,
        "Failed to parse backend response: missing field `success` - Response: <html>bad gateway</html>"
    );
    assert!(msg.contains("<html>bad gateway</html>"));
}

#[test]
fn backend_error_message_is_the_backend_reason() {
    let e = GatewayError::Backend { message: "no such table".to_string() };
    assert_eq!(e.message(), "no such table");
}
