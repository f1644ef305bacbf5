use ferrapi_tester::error::Error;
use ferrapi_tester::location::{
    config_path_for, get_config_path, get_default_dir, is_url, namespace_dir,
};

#[test]
fn default_dir_lies_in_home() {
    assert_eq!(
        get_default_dir(Some("/home/alice")),
        Ok("/home/alice/.ferrapi_tester".to_string())
    );
}

#[test]
fn default_dir_needs_home() {
    assert_eq!(get_default_dir(None), Err(Error::NoHomeDirectory));
}

#[test]
fn config_path_names_method_file() {
    assert_eq!(
        get_config_path("/home/alice/.ferrapi_tester", "SystemA/example", "POST"),
        "/home/alice/.ferrapi_tester/SystemA/example/POST.json"
    );
}

#[test]
fn config_path_puts_method_in_upper_case() {
    assert_eq!(get_config_path("/base", "SystemA", "post"), "/base/SystemA/POST.json");
    assert_eq!(get_config_path("/base", "SystemA", "Delete"), "/base/SystemA/DELETE.json");
}

#[test]
fn config_path_is_the_same_for_the_same_inputs() {
    assert_eq!(get_config_path("/base", "a/b", "get"), get_config_path("/base", "a/b", "get"));
}

#[test]
fn config_path_differs_by_method() {
    let get = get_config_path("/base", "SystemA", "GET");
    let post = get_config_path("/base", "SystemA", "POST");
    assert_eq!(get, "/base/SystemA/GET.json");
    assert_eq!(post, "/base/SystemA/POST.json");
    assert_ne!(get, post);
}

#[test]
fn config_path_differs_by_namespace() {
    assert_ne!(get_config_path("/base", "a", "GET"), get_config_path("/base", "a/b", "GET"));
    assert_ne!(get_config_path("/base", "a/b", "GET"), get_config_path("/base", "a//b", "GET"));
}

#[test]
fn config_path_keeps_namespace_as_it_stands() {
    assert_eq!(get_config_path("/base", "../x", "GET"), "/base/../x/GET.json");
    assert_eq!(get_config_path("/base", "", "GET"), "/base//GET.json");
}

#[test]
fn config_path_for_takes_the_name_as_given() {
    assert_eq!(config_path_for("/base", "ns", "PUT"), "/base/ns/PUT.json");
    assert_eq!(config_path_for("/base", "ns", "put"), "/base/ns/put.json");
}

#[test]
fn namespace_dir_is_below_the_root() {
    assert_eq!(namespace_dir("/base", "SystemB"), "/base/SystemB");
}

#[test]
fn records_lie_in_their_namespace_dir() {
    let dir = namespace_dir("/base", "SystemB") + "/";
    assert!(get_config_path("/base", "SystemB", "GET").starts_with(&dir));
    assert!(get_config_path("/base", "SystemB/deep/er", "PUT").starts_with(&dir));
}

#[test]
fn target_with_scheme_is_url() {
    assert!(is_url("http://example.com"));
    assert!(is_url("https://example.com/a"));
    assert!(is_url("http"));
}

#[test]
fn target_without_scheme_is_namespace() {
    assert!(!is_url("SystemA/example"));
    assert!(!is_url(""));
    assert!(!is_url("htt"));
    assert!(!is_url("HTTP://example.com"));
    assert!(!is_url("xhttp"));
}
