use rk::{Get, GetPlan, Resource, ResourceArg};

fn get(raw: Option<&str>, resources: Option<&[&str]>, show_kind: bool) -> Get {
    Get {
        raw: raw.map(|r| r.to_string()),
        subresource: None,
        resources: resources.map(|v| v.iter().map(|s| s.to_string()).collect()),
        show_kind,
    }
}

#[test]
fn raw_path_loses_one_leading_slash() {
    match get(Some("/api/v1"), None, false).plan().unwrap() {
        GetPlan::Raw(p) => assert_eq!(p, "api/v1"),
        other => panic!("unexpected {other:?}"),
    }
    match get(Some("healthz"), Some(&["pod"]), false).plan().unwrap() {
        GetPlan::Raw(p) => assert_eq!(p, "healthz"),
        other => panic!("unexpected {other:?}"),
    }
}

#[test]
fn several_arguments_show_their_kind() {
    match get(None, Some(&["pod,node"]), false).plan().unwrap() {
        GetPlan::Resources { args, show_kind } => {
            assert_eq!(
                args,
                vec![ResourceArg::Resource(Resource::Pods), ResourceArg::Resource(Resource::Nodes)]
            );
            assert!(show_kind);
        }
        other => panic!("unexpected {other:?}"),
    }
    match get(None, Some(&["pod"]), false).plan().unwrap() {
        GetPlan::Resources { show_kind, .. } => assert!(!show_kind),
        other => panic!("unexpected {other:?}"),
    }
}

#[test]
fn get_without_resources_is_invalid() {
    assert!(get(None, None, false).plan().is_err());
    assert!(get(None, Some(&["pod/a", "node"]), true).plan().is_err());
}
