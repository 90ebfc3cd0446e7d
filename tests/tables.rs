use rk::discovery::api_versions;
use rk::kubeconfig::{find_context, sanitize_current_context};
use rk::show::{
    configmap_header, configmap_row, decimal, node_header, node_row, with_namespace_column,
};
use rk::{ApiGroup, GroupVersion, OutputFormat};

fn strings(v: &[&str]) -> Vec<String> {
    v.iter().map(|s| s.to_string()).collect()
}

#[test]
fn decimal_digits() {
    assert_eq!(decimal(0), "0");
    assert_eq!(decimal(7), "7");
    assert_eq!(decimal(10), "10");
    assert_eq!(decimal(1234), "1234");
    assert_eq!(decimal(usize::MAX), usize::MAX.to_string());
}

#[test]
fn node_table() {
    assert_eq!(node_header(OutputFormat::Normal), strings(&["NAMESPACE", "NAME"]));
    assert_eq!(node_header(OutputFormat::Wide), strings(&["NAMESPACE", "NAME", "AGE"]));
    assert_eq!(
        node_row(String::new(), "n1".to_string(), "5d".to_string(), OutputFormat::Normal),
        strings(&["", "n1"])
    );
    assert_eq!(
        node_row(String::new(), "n1".to_string(), "5d".to_string(), OutputFormat::Wide),
        strings(&["", "n1", "5d"])
    );
}

#[test]
fn configmap_table() {
    assert_eq!(configmap_header(OutputFormat::Wide), strings(&["NAMESPACE", "NAME", "DATA", "AGE"]));
    assert_eq!(
        configmap_row(
            "default".to_string(),
            "settings".to_string(),
            3,
            9,
            "1h".to_string(),
            OutputFormat::Normal
        ),
        strings(&["default", "settings", "12", "1h"])
    );
}

#[test]
fn current_context_is_kept_when_known() {
    let names = strings(&["a", "b"]);
    assert_eq!(sanitize_current_context(Some("b"), &names), Some("b".to_string()));
    assert_eq!(sanitize_current_context(Some("zz"), &names), Some("a".to_string()));
    assert_eq!(sanitize_current_context(None, &names), Some("a".to_string()));
    assert_eq!(sanitize_current_context(Some("b"), &Vec::new()), None);
    assert_eq!(find_context(&names, "b"), Some(1));
    assert_eq!(find_context(&names, "c"), None);
}

#[test]
fn api_versions_lists_every_version() {
    let gv = |s: &str, v: &str| GroupVersion {
        group_version: s.to_string(),
        version: v.to_string(),
    };
    let groups = vec![
        ApiGroup {
            name: String::new(),
            versions: vec![gv("v1", "v1")],
            preferred_version: Some(gv("v1", "v1")),
        },
        ApiGroup {
            name: "apps".to_string(),
            versions: vec![gv("apps/v1", "v1"), gv("apps/v1beta1", "v1beta1")],
            preferred_version: None,
        },
    ];
    assert_eq!(api_versions(&groups), strings(&["v1", "apps/v1", "apps/v1beta1"]));
}

#[test]
fn namespace_column_follows_scope() {
    let header = configmap_header(OutputFormat::Normal);
    assert_eq!(with_namespace_column(header.clone(), true), header);
    assert_eq!(
        with_namespace_column(header, false),
        strings(&["NAME", "DATA", "AGE"])
    );
    assert_eq!(
        with_namespace_column(node_header(OutputFormat::Wide), false),
        strings(&["NAME", "AGE"])
    );
}
