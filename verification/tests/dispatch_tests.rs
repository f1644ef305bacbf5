use ferrapi_tester::dispatch::prepare_dispatch;
use ferrapi_tester::error::Error;
use ferrapi_tester::headers::HeaderSet;
use ferrapi_tester::method::Method;
use ferrapi_tester::record::{merge, Invocation, Record};
use serde_json::Value;

fn plain_run(method: &str) -> Invocation {
    Invocation {
        method: method.to_string(),
        headers: Vec::new(),
        data: None,
        value: None,
        json: None,
        url: None,
        timeout: None,
        save: false,
        target: None,
        delete: false,
        delete_all: false,
        comp: false,
        show_default_dir: false,
    }
}

fn record_for(method: &str) -> Record {
    Record {
        url: Some("http://example.com".to_string()),
        method: Some(method.to_string()),
        headers: None,
        data: None,
        timeout: None,
    }
}

#[test]
fn dispatch_settles_a_full_record() {
    let mut headers = HeaderSet::new();
    headers.insert("A".to_string(), "1".to_string());
    let record = Record {
        url: Some("http://example.com/x".to_string()),
        method: Some("PUT".to_string()),
        headers: Some(headers),
        data: Some(Value::from("body")),
        timeout: Some(12),
    };
    let request = prepare_dispatch(record).unwrap();
    assert_eq!(request.method, Method::Put);
    assert_eq!(request.url, "http://example.com/x");
    assert_eq!(request.headers.get("A"), Some("1".to_string()));
    assert_eq!(request.headers.len(), 1);
    assert_eq!(request.body, Some(Value::String("body".to_string())));
    assert_eq!(request.timeout, 12);
}

#[test]
fn dispatch_fills_in_what_is_absent() {
    let request = prepare_dispatch(record_for("GET")).unwrap();
    assert_eq!(request.method, Method::Get);
    assert_eq!(request.headers.len(), 0);
    assert_eq!(request.body, None);
    assert_eq!(request.timeout, 30);
}

#[test]
fn dispatch_knows_four_methods() {
    assert_eq!(prepare_dispatch(record_for("GET")).unwrap().method, Method::Get);
    assert_eq!(prepare_dispatch(record_for("POST")).unwrap().method, Method::Post);
    assert_eq!(prepare_dispatch(record_for("PUT")).unwrap().method, Method::Put);
    assert_eq!(prepare_dispatch(record_for("DELETE")).unwrap().method, Method::Delete);
}

#[test]
fn dispatch_refuses_other_methods() {
    let refused = prepare_dispatch(record_for("PATCH")).unwrap_err();
    assert_eq!(refused, Error::UnsupportedMethod("PATCH".to_string()));
    assert!(refused.validation());
    assert_eq!(refused.message(), "Unsupported HTTP method: PATCH");
    let refused = prepare_dispatch(record_for("get")).unwrap_err();
    assert_eq!(refused, Error::UnsupportedMethod("get".to_string()));
}

#[test]
fn dispatch_refuses_missing_method() {
    let mut record = record_for("GET");
    record.method = None;
    let refused = prepare_dispatch(record).unwrap_err();
    assert_eq!(refused, Error::MissingMethod);
    assert_eq!(refused.message(), "HTTP method is not specified");
}

#[test]
fn dispatch_refuses_missing_url() {
    let mut record = record_for("GET");
    record.url = None;
    let refused = prepare_dispatch(record).unwrap_err();
    assert_eq!(refused, Error::MissingUrl);
    assert!(refused.validation());
    assert_eq!(refused.message(), "URL is not specified");
}

#[test]
fn dispatch_reports_missing_url_before_the_method() {
    let mut record = record_for("PATCH");
    record.url = None;
    assert_eq!(prepare_dispatch(record).unwrap_err(), Error::MissingUrl);
}

#[test]
fn run_without_namespace_and_url_is_refused_at_dispatch() {
    let run = plain_run("GET");
    let merged = merge(Record::new(), &run).unwrap();
    let refused = prepare_dispatch(merged).unwrap_err();
    assert_eq!(refused, Error::MissingUrl);
    assert!(refused.validation());
}

#[test]
fn merged_lower_case_method_can_be_sent() {
    let mut run = plain_run("post");
    run.url = Some("http://example.com".to_string());
    let request = prepare_dispatch(merge(Record::new(), &run).unwrap()).unwrap();
    assert_eq!(request.method, Method::Post);
    assert_eq!(request.timeout, 30);
}

#[test]
fn method_names_are_upper_case() {
    assert_eq!(Method::Get.name(), "GET");
    assert_eq!(Method::Post.name(), "POST");
    assert_eq!(Method::Put.name(), "PUT");
    assert_eq!(Method::Delete.name(), "DELETE");
    assert_eq!(Method::from_name("DELETE"), Some(Method::Delete));
    assert_eq!(Method::from_name("delete"), None);
    assert_eq!(Method::from_name(""), None);
}

#[test]
fn other_errors_are_no_validation_errors() {
    assert!(!Error::NoHomeDirectory.validation());
    assert!(!Error::DeleteAllWithoutTarget.validation());
    assert!(!Error::DeleteWithoutTarget.validation());
    assert!(!Error::SelectionAborted.validation());
    assert_eq!(Error::NoHomeDirectory.message(), "Could not determine user home directory");
    assert_eq!(
        Error::DeleteAllWithoutTarget.message(),
        "--delete-all requires TARGET to be specified."
    );
    assert_eq!(Error::DeleteWithoutTarget.message(), "--delete requires TARGET to be specified.");
}
