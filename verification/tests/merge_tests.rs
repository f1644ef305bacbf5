use ferrapi_tester::error::Error;
use ferrapi_tester::headers::HeaderSet;
use ferrapi_tester::json::{body_from_text, parsed_or_string};
use ferrapi_tester::location::get_config_path;
use ferrapi_tester::record::{body_source, merge, BodySource, Invocation, Record, DEFAULT_TIMEOUT};
use serde_json::Value;

fn run_with_method(method: &str) -> Invocation {
    Invocation {
        method: method.to_string(),
        headers: Vec::new(),
        data: None,
        value: None,
        json: None,
        url: None,
        timeout: None,
        save: false,
        target: None,
        delete: false,
        delete_all: false,
        comp: false,
        show_default_dir: false,
    }
}

fn json_of(text: &str) -> Value {
    serde_json::from_str(text).unwrap()
}

fn stored_record() -> Record {
    let mut headers = HeaderSet::new();
    headers.insert("A".to_string(), "1".to_string());
    headers.insert("B".to_string(), "2".to_string());
    Record {
        url: Some("http://stored.example".to_string()),
        method: Some("GET".to_string()),
        headers: Some(headers),
        data: Some(json_of("{\"kept\":true}")),
        timeout: Some(5),
    }
}

#[test]
fn empty_record_has_nothing_set() {
    let record = Record::new();
    assert_eq!(record.url, None);
    assert_eq!(record.method, None);
    assert!(record.headers.is_none());
    assert_eq!(record.data, None);
    assert_eq!(record.timeout, None);
    let record = Record::default();
    assert_eq!(record.url, None);
    assert_eq!(record.method, None);
    assert!(record.headers.is_none());
    assert_eq!(record.data, None);
    assert_eq!(record.timeout, None);
}

#[test]
fn merge_headers_is_union_with_override() {
    let mut run = run_with_method("GET");
    run.headers = vec!["B: 3".to_string(), "C: 4".to_string()];
    let merged = merge(stored_record(), &run).unwrap();
    let headers = merged.headers.unwrap();
    assert_eq!(headers.len(), 3);
    assert_eq!(headers.get("A"), Some("1".to_string()));
    assert_eq!(headers.get("B"), Some("3".to_string()));
    assert_eq!(headers.get("C"), Some("4".to_string()));
}

#[test]
fn merge_without_stored_headers_takes_those_of_the_run() {
    let mut run = run_with_method("GET");
    run.headers = vec!["X: y".to_string()];
    let merged = merge(Record::new(), &run).unwrap();
    let headers = merged.headers.unwrap();
    assert_eq!(headers.len(), 1);
    assert_eq!(headers.get("X"), Some("y".to_string()));
}

#[test]
fn merge_without_any_headers_gives_an_empty_set() {
    let merged = merge(Record::new(), &run_with_method("GET")).unwrap();
    assert_eq!(merged.headers.unwrap().len(), 0);
}

#[test]
fn merge_json_body_wins_over_plain_data() {
    let mut run = run_with_method("POST");
    run.json = Some("{\"x\":1}".to_string());
    run.data = Some("y".to_string());
    let merged = merge(stored_record(), &run).unwrap();
    assert_eq!(merged.data, Some(json_of("{\"x\":1}")));
}

#[test]
fn merge_json_body_wins_over_value() {
    let mut run = run_with_method("POST");
    run.json = Some("[1,2]".to_string());
    run.value = Some("{\"v\":0}".to_string());
    let merged = merge(Record::new(), &run).unwrap();
    assert_eq!(merged.data, Some(json_of("[1,2]")));
}

#[test]
fn merge_value_wins_over_plain_data() {
    let mut run = run_with_method("POST");
    run.value = Some("{\"v\":0}".to_string());
    run.data = Some("y".to_string());
    let merged = merge(Record::new(), &run).unwrap();
    assert_eq!(merged.data, Some(json_of("{\"v\":0}")));
}

#[test]
fn merge_plain_data_is_a_json_string() {
    let mut run = run_with_method("POST");
    run.data = Some("{\"x\":1}".to_string());
    let merged = merge(stored_record(), &run).unwrap();
    assert_eq!(merged.data, Some(Value::String("{\"x\":1}".to_string())));
    run.data = Some("12".to_string());
    let merged = merge(stored_record(), &run).unwrap();
    assert_eq!(merged.data, Some(Value::String("12".to_string())));
}

#[test]
fn merge_value_that_is_no_json_is_a_json_string() {
    let mut run = run_with_method("POST");
    run.value = Some("not json {".to_string());
    let merged = merge(stored_record(), &run).unwrap();
    assert_eq!(merged.data, Some(Value::String("not json {".to_string())));
}

#[test]
fn merge_body_replaces_the_stored_body_whole() {
    let mut run = run_with_method("POST");
    run.json = Some("{\"x\":1}".to_string());
    let merged = merge(stored_record(), &run).unwrap();
    let body = merged.data.unwrap();
    assert_eq!(body.get("x"), Some(&Value::from(1)));
    assert_eq!(body.get("kept"), None);
}

#[test]
fn merge_without_body_keeps_the_stored_body() {
    let merged = merge(stored_record(), &run_with_method("GET")).unwrap();
    assert_eq!(merged.data, Some(json_of("{\"kept\":true}")));
    let merged = merge(Record::new(), &run_with_method("GET")).unwrap();
    assert_eq!(merged.data, None);
}

#[test]
fn merge_method_always_overrides() {
    let merged = merge(stored_record(), &run_with_method("POST")).unwrap();
    assert_eq!(merged.method, Some("POST".to_string()));
    let stored_at = get_config_path("/base", "SystemA", "GET");
    let merged_at = get_config_path("/base", "SystemA", merged.method.as_ref().unwrap());
    assert_eq!(merged_at, "/base/SystemA/POST.json");
    assert_ne!(merged_at, stored_at);
}

#[test]
fn merge_puts_method_in_upper_case() {
    let merged = merge(Record::new(), &run_with_method("delete")).unwrap();
    assert_eq!(merged.method, Some("DELETE".to_string()));
}

#[test]
fn merge_url_of_the_run_replaces_the_stored_url() {
    let mut run = run_with_method("GET");
    run.url = Some("http://new.example".to_string());
    let merged = merge(stored_record(), &run).unwrap();
    assert_eq!(merged.url, Some("http://new.example".to_string()));
}

#[test]
fn merge_target_that_is_a_url_replaces_the_stored_url() {
    let mut run = run_with_method("GET");
    run.target = Some("https://target.example".to_string());
    let merged = merge(stored_record(), &run).unwrap();
    assert_eq!(merged.url, Some("https://target.example".to_string()));
}

#[test]
fn merge_url_of_the_run_comes_before_the_target() {
    let mut run = run_with_method("GET");
    run.url = Some("http://direct.example".to_string());
    run.target = Some("https://target.example".to_string());
    let merged = merge(Record::new(), &run).unwrap();
    assert_eq!(merged.url, Some("http://direct.example".to_string()));
}

#[test]
fn merge_without_url_keeps_the_stored_url() {
    let mut run = run_with_method("GET");
    run.target = Some("SystemA/example".to_string());
    let merged = merge(stored_record(), &run).unwrap();
    assert_eq!(merged.url, Some("http://stored.example".to_string()));
    let merged = merge(Record::new(), &run).unwrap();
    assert_eq!(merged.url, None);
}

#[test]
fn merge_empty_url_keeps_the_stored_url() {
    let mut run = run_with_method("GET");
    run.url = Some(String::new());
    let merged = merge(stored_record(), &run).unwrap();
    assert_eq!(merged.url, Some("http://stored.example".to_string()));
}

#[test]
fn merge_timeout_defaults_to_thirty() {
    assert_eq!(DEFAULT_TIMEOUT, 30);
    let merged = merge(stored_record(), &run_with_method("GET")).unwrap();
    assert_eq!(merged.timeout, Some(30));
}

#[test]
fn merge_timeout_of_the_run_replaces_the_stored_one() {
    let mut run = run_with_method("GET");
    run.timeout = Some(7);
    let merged = merge(stored_record(), &run).unwrap();
    assert_eq!(merged.timeout, Some(7));
}

#[test]
fn merge_refuses_malformed_header() {
    let mut run = run_with_method("GET");
    run.url = Some("http://example.com".to_string());
    run.headers = vec!["A: 1".to_string(), "NoColonHere".to_string()];
    let refused = merge(stored_record(), &run).unwrap_err();
    assert_eq!(refused, Error::InvalidHeader("NoColonHere".to_string()));
    assert!(refused.validation());
}

#[test]
fn body_source_follows_precedence() {
    let some = Some("x".to_string());
    assert_eq!(body_source(&some, &some, &some), BodySource::Json);
    assert_eq!(body_source(&some, &None, &some), BodySource::Json);
    assert_eq!(body_source(&None, &some, &some), BodySource::Value);
    assert_eq!(body_source(&None, &None, &some), BodySource::Data);
    assert_eq!(body_source(&None, &None, &None), BodySource::Stored);
}

#[test]
fn body_from_text_reads_json() {
    assert_eq!(body_from_text("{\"x\":1}"), json_of("{\"x\":1}"));
    assert_ne!(body_from_text("{\"x\":1}"), Value::String("{\"x\":1}".to_string()));
    assert_eq!(body_from_text("12"), Value::from(12));
    assert_eq!(body_from_text("\"s\""), Value::String("s".to_string()));
    assert_eq!(body_from_text("null"), Value::Null);
}

#[test]
fn body_from_text_wraps_what_is_no_json() {
    assert_eq!(body_from_text("hello"), Value::String("hello".to_string()));
    assert_eq!(body_from_text(""), Value::String(String::new()));
    assert_eq!(body_from_text("{\"x\":"), Value::String("{\"x\":".to_string()));
}

#[test]
fn parsed_or_string_takes_what_was_read() {
    assert_eq!(parsed_or_string(Some(Value::from(1)), "ignored"), Value::from(1));
    assert_eq!(parsed_or_string(None, "text"), Value::String("text".to_string()));
}
