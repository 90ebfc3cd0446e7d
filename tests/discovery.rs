use rk::accessor::ApiTarget;
use rk::{
    core_api_group, merge_resource_lists, preferred_group_versions, resource_fetch_plan,
    server_preferred_resources, with_core_group, ApiGroup, ApiHandle, ApiResourceDescriptor,
    ApiResourceList, ApiScope, Cache, CacheFile, DiscoveryRequest, DiscoverySnapshot,
    DynamicResource, GroupVersion, LoadError, Namespace, ResolveError, Resource,
};

fn gv(group_version: &str, version: &str) -> GroupVersion {
    GroupVersion {
        group_version: group_version.to_string(),
        version: version.to_string(),
    }
}

fn group(name: &str, versions: &[&str], preferred: Option<&str>) -> ApiGroup {
    ApiGroup {
        name: name.to_string(),
        versions: versions
            .iter()
            .map(|v| gv(&format!("{name}/{v}"), v))
            .collect(),
        preferred_version: preferred.map(|v| gv(&format!("{name}/{v}"), v)),
    }
}

fn descriptor(name: &str, kind: &str, short: &[&str], namespaced: bool) -> ApiResourceDescriptor {
    ApiResourceDescriptor {
        name: name.to_string(),
        singular_name: String::new(),
        kind: kind.to_string(),
        short_names: short.iter().map(|s| s.to_string()).collect(),
        namespaced,
        verbs: vec!["get".to_string(), "list".to_string()],
    }
}

fn list(group_version: &str, resources: Vec<ApiResourceDescriptor>) -> ApiResourceList {
    ApiResourceList {
        group_version: group_version.to_string(),
        resources,
    }
}

fn strings(v: &[&str]) -> Vec<String> {
    v.iter().map(|s| s.to_string()).collect()
}

#[test]
fn preferred_version_or_first() {
    let groups = vec![
        group("apps", &["v1", "v1beta1"], Some("v1beta1")),
        group("batch", &["v1", "v2"], None),
        group("empty", &[], None),
    ];
    assert_eq!(groups[0].preferred_group_version(), Some("apps/v1beta1".to_string()));
    assert_eq!(groups[1].preferred_group_version(), Some("batch/v1".to_string()));
    assert_eq!(groups[2].preferred_group_version(), None);
    assert_eq!(preferred_group_versions(&groups), strings(&["apps/v1beta1", "batch/v1"]));
}

#[test]
fn preferred_resources_keep_order() {
    let groups = vec![group("apps", &["v1", "v1beta1"], Some("v1")), group("batch", &["v1"], None)];
    let lists = vec![
        list("batch/v1", vec![]),
        list("apps/v1beta1", vec![]),
        list("apps/v1", vec![]),
        list("other/v1", vec![]),
    ];
    let kept: Vec<String> = server_preferred_resources(&groups, lists)
        .into_iter()
        .map(|l| l.group_version)
        .collect();
    assert_eq!(kept, strings(&["batch/v1", "apps/v1"]));
}

#[test]
fn synthetic_core_group() {
    let core = core_api_group(&strings(&["v1", "v2"]));
    assert_eq!(core.name, "");
    assert_eq!(core.versions, vec![gv("v1", "v1"), gv("v2", "v2")]);
    assert_eq!(core.preferred_version, Some(gv("v1", "v1")));
    let none = core_api_group(&Vec::new());
    assert_eq!(none.preferred_version, None);

    let all = with_core_group(core.clone(), vec![group("apps", &["v1"], None)]);
    assert_eq!(all.len(), 2);
    assert_eq!(all[0], core);
    assert_eq!(all[1].name, "apps");
}

#[test]
fn fetch_plan_puts_core_first_then_groups_in_server_order() {
    let groups = vec![
        group("zeta", &["v1"], None),
        group("apps", &["v1", "v2"], Some("v2")),
    ];
    let plan = resource_fetch_plan(&strings(&["v1"]), &groups);
    assert_eq!(
        plan,
        vec![
            DiscoveryRequest::CoreResources("v1".to_string()),
            DiscoveryRequest::GroupResources("zeta/v1".to_string()),
            DiscoveryRequest::GroupResources("apps/v2".to_string()),
        ]
    );
    assert_eq!(plan, resource_fetch_plan(&strings(&["v1"]), &groups));
}

#[test]
fn merged_lists_are_core_then_groups() {
    let merged = merge_resource_lists(
        vec![list("v1", vec![])],
        vec![list("apps/v1", vec![]), list("batch/v1", vec![])],
    );
    let order: Vec<String> = merged.into_iter().map(|l| l.group_version).collect();
    assert_eq!(order, strings(&["v1", "apps/v1", "batch/v1"]));
}

#[test]
fn cache_load_outcomes() {
    let absent = Cache::load(CacheFile::Absent).unwrap();
    assert!(absent.api_resources().is_none());
    assert!(absent.api_groups().is_none());
    assert_eq!(absent, Cache::empty());

    assert_eq!(
        Cache::load(CacheFile::Malformed("bad json".to_string())),
        Err(LoadError::DiscoveryLoadFailure("bad json".to_string()))
    );

    let snapshot = DiscoverySnapshot {
        groups: vec![group("apps", &["v1"], None)],
        resources: vec![list("apps/v1", vec![descriptor("deployments", "Deployment", &["deploy"], true)])],
    };
    let cache = Cache::load(CacheFile::Present(snapshot.clone())).unwrap();
    assert_eq!(cache.api_resources(), Some(&snapshot.resources));
    assert_eq!(cache.api_groups(), Some(&snapshot.groups));
}

fn catalog() -> Vec<ApiResourceList> {
    vec![
        list("v1", vec![descriptor("services", "Service", &["svc"], true)]),
        list(
            "apps/v1",
            vec![
                descriptor("deployments", "Deployment", &["deploy"], true),
                descriptor("services", "Service", &[], true),
            ],
        ),
        list("rbac.authorization.k8s.io/v1", vec![descriptor("clusterroles", "ClusterRole", &[], false)]),
    ]
}

#[test]
fn dynamic_lookup_by_plural_kind_and_short_name() {
    let lists = catalog();
    assert_eq!(rk::accessor::find_api_resource(&lists, "deploy"), Some((1, 0)));
    assert_eq!(rk::accessor::find_api_resource(&lists, "Deployment"), Some((1, 0)));
    assert_eq!(rk::accessor::find_api_resource(&lists, "services"), Some((0, 0)));
    assert_eq!(rk::accessor::find_api_resource(&lists, "widgets"), None);
}

#[test]
fn dynamic_handle() {
    let lists = catalog();
    let ns = Namespace::Namespace("dev".to_string());
    let handle = ApiHandle::dynamic("deploy", &ns, &lists).unwrap();
    assert_eq!(
        handle.target,
        ApiTarget::Dynamic(DynamicResource {
            group_version: "apps/v1".to_string(),
            kind: "Deployment".to_string(),
            plural: "deployments".to_string(),
            namespaced: true,
        })
    );
    assert_eq!(handle.scope, ApiScope::Namespaced("dev".to_string()));

    let cluster = ApiHandle::dynamic("clusterroles", &ns, &lists).unwrap();
    assert_eq!(cluster.scope, ApiScope::Cluster);

    assert_eq!(
        ApiHandle::dynamic("widgets", &ns, &lists),
        Err(ResolveError::ResourceNotFound("widgets".to_string()))
    );
}

#[test]
fn typed_handles() {
    let all = Namespace::All;
    let def = Namespace::Default;
    let pods = ApiHandle::well_known(&Resource::Pods, &def).unwrap();
    assert_eq!(pods.target, ApiTarget::WellKnown(Resource::Pods));
    assert_eq!(pods.scope, ApiScope::DefaultNamespace);
    assert_eq!(ApiHandle::well_known(&Resource::Pods, &all).unwrap().scope, ApiScope::Cluster);
    assert_eq!(ApiHandle::well_known(&Resource::Nodes, &def).unwrap().scope, ApiScope::Cluster);
    assert_eq!(
        ApiHandle::well_known(&Resource::ConfigMaps, &Namespace::Namespace("a".to_string()))
            .unwrap()
            .scope,
        ApiScope::Namespaced("a".to_string())
    );
    assert_eq!(ApiHandle::well_known(&Resource::Other("x".to_string()), &def), None);
}

#[test]
fn ambiguous_name_is_an_error() {
    let lists = catalog();
    let ns = Namespace::Default;
    assert_eq!(
        ApiHandle::dynamic("services", &ns, &lists),
        Err(ResolveError::AmbiguousResource("services".to_string()))
    );
    assert_eq!(
        ApiHandle::dynamic("Service", &ns, &lists),
        Err(ResolveError::AmbiguousResource("Service".to_string()))
    );
    let single = ApiHandle::dynamic("svc", &ns, &lists).unwrap();
    assert_eq!(single.scope, ApiScope::DefaultNamespace);
}
