use rk::{ApiScope, Cli, GlobalOptions, Namespace, OutputFormat};

fn options(cache_dir: Option<&str>) -> GlobalOptions {
    GlobalOptions {
        cache_dir: cache_dir.map(|d| d.to_string()),
        as_user: None,
        as_group: None,
        as_uid: None,
    }
}

fn cli(all_namespaces: bool, namespace: Option<&str>) -> Cli {
    Cli {
        output: None,
        options: options(None),
        debug: false,
        all_namespaces,
        namespace: namespace.map(|n| n.to_string()),
        cluster: None,
        context: None,
        user: None,
    }
}

#[test]
fn all_namespaces_flag_wins() {
    assert_eq!(Namespace::new(true, Some("foo")), Namespace::All);
    assert_eq!(cli(true, Some("foo")).namespace(), Namespace::All);
}

#[test]
fn explicit_and_default_namespace() {
    assert_eq!(Namespace::new(false, Some("foo")), Namespace::Namespace("foo".to_string()));
    assert_eq!(Namespace::new(false, None), Namespace::Default);
    assert_eq!(cli(false, None).namespace(), Namespace::Default);
}

#[test]
fn namespace_column_only_across_all_namespaces() {
    assert!(Namespace::All.show_namespace());
    assert!(!Namespace::Default.show_namespace());
    assert!(!Namespace::Namespace("x".to_string()).show_namespace());
}

#[test]
fn api_scope_binding() {
    assert_eq!(Namespace::All.api_scope(true), ApiScope::Cluster);
    assert_eq!(Namespace::Default.api_scope(true), ApiScope::DefaultNamespace);
    assert_eq!(
        Namespace::Namespace("kube-system".to_string()).api_scope(true),
        ApiScope::Namespaced("kube-system".to_string())
    );
    assert_eq!(Namespace::Namespace("kube-system".to_string()).api_scope(false), ApiScope::Cluster);
    assert_eq!(Namespace::Default.api_scope(false), ApiScope::Cluster);
}

#[test]
fn output_defaults_to_normal() {
    let mut c = cli(false, None);
    assert_eq!(c.output_format(), OutputFormat::Normal);
    c.output = Some(OutputFormat::Yaml);
    assert_eq!(c.clone().inspect(), c);
    assert_eq!(c.output_format(), OutputFormat::Yaml);
}

#[test]
fn cache_dir_prefers_explicit_directory() {
    let explicit = options(Some("/tmp/c"));
    assert_eq!(
        explicit.cache_dir_with_home(Some("/home/me".to_string())),
        vec!["/tmp/c", ".kube", "cache"]
    );
    assert_eq!(explicit.cache_dir(), vec!["/tmp/c", ".kube", "cache"]);
    let implicit = options(None);
    assert_eq!(
        implicit.cache_dir_with_home(Some("/home/me".to_string())),
        vec!["/home/me", ".kube", "cache"]
    );
    assert_eq!(implicit.cache_dir_with_home(None), vec!["", ".kube", "cache"]);
    assert_eq!(implicit.cache_dir().len(), 3);
}

#[test]
fn discovery_cache_location() {
    let o = options(Some("/c"));
    assert_eq!(
        o.discovery_cache_with_home(None, Some("10.0.0.1")).unwrap(),
        vec!["/c", ".kube", "cache", "discovery", "10.0.0.1"]
    );
    assert_eq!(
        o.discovery_cache_for_config(Some("example.com")).unwrap(),
        vec!["/c", ".kube", "cache", "discovery", "example.com"]
    );
    assert_eq!(
        o.discovery_cache_for_config(None),
        Err(rk::CacheLocationError::MissingClusterUrl)
    );
}
