use query_gateway::gateway::format_query_response;
use query_gateway::gateway::GatewayError;
use query_gateway::model::QueryResponse;
use query_gateway::model::ResultValue;
use query_gateway::render::render_success;

fn response(result: Option<ResultValue>) -> QueryResponse {
    QueryResponse {
        success: true,
        sql: None,
        result,
        ai_response: None,
        error: None,
        tables_available: None,
        row_count: None,
    }
}

fn records(values: &[&str]) -> ResultValue {
    ResultValue::List(values.iter().map(|v| v.to_string()).collect())
}

#[test]
fn full_response_renders_all_sections_in_order() {
    let r = QueryResponse {
        success: true,
        sql: Some("SELECT 1".to_string()),
        result: Some(records(&["1", "2", "3", "4", "5", "6"])),
        ai_response: Some("Hi".to_string()),
        error: None,
        tables_available: None,
        row_count: Some(6),
    };
    let out = match format_query_response(&r) {
        Ok(out) => out,
        Err(_) => panic!("a successful response must format"),
    };
    assert_eq!(
        out,
        "AI: Hi\n\nSQL: SELECT 1\n\nResult:\n6 records found:\n1: 1\n2: 2\n3: 3\n4: 4\n5: 5\n... and 1 more records\n\nTotal records: 6"
    );
}

#[test]
fn empty_list_renders_no_results_found() {
    let out = render_success(&response(Some(records(&[]))));
    assert_eq!(out, "Result:\nNo results found.");
}

#[test]
fn short_list_renders_every_record_without_overflow_note() {
    let out = render_success(&response(Some(records(&["a", "b", "c"]))));
    assert_eq!(out, "Result:\n3 records found:\n1: a\n2: b\n3: c");
}

#[test]
fn five_records_render_without_overflow_note() {
    let out = render_success(&response(Some(records(&["a", "b", "c", "d", "e"]))));
    assert_eq!(out, "Result:\n5 records found:\n1: a\n2: b\n3: c\n4: d\n5: e");
}

#[test]
fn seven_records_render_first_five_and_a_note() {
    let out = render_success(&response(Some(records(&["a", "b", "c", "d", "e", "f", "g"]))));
    assert_eq!(
        out,
        "Result:\n7 records found:\n1: a\n2: b\n3: c\n4: d\n5: e\n... and 2 more records"
    );
}

#[test]
fn scalar_result_renders_its_text() {
    let out = render_success(&response(Some(ResultValue::Scalar("42".to_string()))));
    assert_eq!(out, "Result:\n42");
}

#[test]
fn all_absent_renders_empty_output() {
    let out = render_success(&response(None));
    assert_eq!(out, "");
}

#[test]
fn empty_optional_strings_render_no_section() {
    let r = QueryResponse {
        success: true,
        sql: Some(String::new()),
        result: None,
        ai_response: Some(String::new()),
        error: None,
        tables_available: None,
        row_count: Some(3),
    };
    assert_eq!(render_success(&r), "Total records: 3");
}

#[test]
fn failed_response_reports_backend_error() {
    let r = QueryResponse {
        success: false,
        sql: None,
        result: None,
        ai_response: None,
        error: Some("syntax error".to_string()),
        tables_available: None,
        row_count: None,
    };
    match format_query_response(&r) {
        Ok(_) => panic!("a failed response must not format"),
        Err(e) => {
            assert!(matches!(e, GatewayError::Backend { .. }));
            assert!(e.message().contains("syntax error"));
        }
    }
}

#[test]
fn failed_response_without_error_reports_generic_fallback() {
    let r = QueryResponse {
        success: false,
        sql: None,
        result: None,
        ai_response: None,
        error: None,
        tables_available: None,
        row_count: None,
    };
    match format_query_response(&r) {
        Ok(_) => panic!("a failed response must not format"),
        Err(e) => {
            let msg = e.message();
            assert!(!msg.is_empty());
            assert_eq!(msg, "Unknown error");
        }
    }
}
