//! Discovery data: API groups with their versions, resource lists, the
//! preferred version of each group, and the order in which a full discovery
//! fetches resource lists.
use vstd::prelude::*;

use crate::resource::texts;
use crate::text::same_text;

verus! {

/// One version of an API group, as `group/version` and as the bare version.
#[derive(Clone, Debug, PartialEq)]
pub struct GroupVersion {
    pub group_version: String,
    pub version: String,
}

/// An API group as discovery reports it.
#[derive(Clone, Debug, PartialEq)]
pub struct ApiGroup {
    /// The group's name; the empty string for the core group.
    pub name: String,
    pub versions: Vec<GroupVersion>,
    pub preferred_version: Option<GroupVersion>,
}

/// Discovery metadata of one resource kind.
#[derive(Clone, Debug, PartialEq)]
pub struct ApiResourceDescriptor {
    /// The plural name, as used in request paths.
    pub name: String,
    pub singular_name: String,
    pub kind: String,
    pub short_names: Vec<String>,
    pub namespaced: bool,
    pub verbs: Vec<String>,
}

/// The resource kinds served under one group version.
#[derive(Clone, Debug, PartialEq)]
pub struct ApiResourceList {
    pub group_version: String,
    pub resources: Vec<ApiResourceDescriptor>,
}

/// The version a client should use for a group: the declared preferred
/// version, or else the first listed one.
pub open spec fn preferred_of(g: ApiGroup) -> Option<Seq<char>> {
    match g.preferred_version {
        Some(p) => Some(p.group_version@),
        None => if g.versions@.len() > 0 {
            Some(g.versions@[0].group_version@)
        } else {
            None
        },
    }
}

/// The preferred group version of each group that has one, in group order.
pub open spec fn preferred_targets(gs: Seq<ApiGroup>) -> Seq<Seq<char>>
    decreases gs.len(),
{
    if gs.len() == 0 {
        Seq::empty()
    } else {
        let rest = preferred_targets(gs.drop_last());
        match preferred_of(gs.last()) {
            Some(gv) => rest.push(gv),
            None => rest,
        }
    }
}

/// The lists whose group version is preferred by some group, in their order.
pub open spec fn keep_preferred(gs: Seq<ApiGroup>, lists: Seq<ApiResourceList>) -> Seq<ApiResourceList>
    decreases lists.len(),
{
    if lists.len() == 0 {
        Seq::empty()
    } else {
        let rest = keep_preferred(gs, lists.drop_last());
        if preferred_targets(gs).contains(lists.last().group_version@) {
            rest.push(lists.last())
        } else {
            rest
        }
    }
}

/// One resource-list request of a full discovery.
#[derive(Clone, Debug, PartialEq)]
pub enum DiscoveryRequest {
    /// The resources of a version of the core group.
    CoreResources(String),
    /// The resources of a named group's group version.
    GroupResources(String),
}

pub enum RequestModel {
    Core(Seq<char>),
    Group(Seq<char>),
}

impl View for DiscoveryRequest {
    type V = RequestModel;

    open spec fn view(&self) -> RequestModel {
        match self {
            DiscoveryRequest::CoreResources(v) => RequestModel::Core(v@),
            DiscoveryRequest::GroupResources(gv) => RequestModel::Group(gv@),
        }
    }
}

/// The requests of a full discovery, in the order their results are listed:
/// every core version first, then the preferred version of each named group
/// in the order the server reported the groups.
pub open spec fn fetch_plan(core_versions: Seq<Seq<char>>, gs: Seq<ApiGroup>) -> Seq<RequestModel> {
    core_versions.map_values(|v: Seq<char>| RequestModel::Core(v)) + preferred_targets(gs).map_values(
        |gv: Seq<char>| RequestModel::Group(gv),
    )
}

pub open spec fn request_models(v: Seq<DiscoveryRequest>) -> Seq<RequestModel> {
    v.map_values(|r: DiscoveryRequest| r@)
}

impl ApiGroup {
    /// The group version a client should use for this group.
    pub fn preferred_group_version(&self) -> (r: Option<String>)
        ensures
            match r {
                Some(gv) => preferred_of(*self) == Some(gv@),
                None => preferred_of(*self) is None,
            },
    {
        match &self.preferred_version {
            Some(p) => Some(p.group_version.clone()),
            None => if self.versions.len() > 0 {
                Some(self.versions[0].group_version.clone())
            } else {
                None
            },
        }
    }
}

/// The preferred group version of each group that has one, in group order.
pub fn preferred_group_versions(groups: &Vec<ApiGroup>) -> (r: Vec<String>)
    ensures
        texts(r@) == preferred_targets(groups@),
{
    let mut out: Vec<String> = Vec::new();
    let mut i: usize = 0;
    while i < groups.len()
        invariant
            i <= groups@.len(),
            texts(out@) == preferred_targets(groups@.take(i as int)),
        decreases groups@.len() - i,
    {
        let ghost before = out@;
        assert(groups@.take(i + 1).drop_last() =~= groups@.take(i as int));
        match groups[i].preferred_group_version() {
            Some(gv) => {
                out.push(gv);
                assert(texts(out@) =~= texts(before).push(out@[before.len() as int]@));
            },
            None => {},
        }
        i = i + 1;
    }
    assert(groups@.take(i as int) =~= groups@);
    out
}

/// Whether `v` holds a string with the characters of `s`.
pub(crate) fn contains_text(v: &Vec<String>, s: &str) -> (r: bool)
    ensures
        r == texts(v@).contains(s@),
{
    let mut i: usize = 0;
    while i < v.len()
        invariant
            i <= v@.len(),
            forall|j: int| 0 <= j < i ==> v@[j]@ != s@,
        decreases v@.len() - i,
    {
        if same_text(v[i].as_str(), s) {
            assert(texts(v@)[i as int] == s@);
            return true;
        }
        i = i + 1;
    }
    assert forall|j: int| 0 <= j < texts(v@).len() implies texts(v@)[j] != s@ by {
        assert(texts(v@)[j] == v@[j]@);
    }
    false
}

/// Keeps the resource lists of preferred group versions only, in their order.
pub fn server_preferred_resources(groups: &Vec<ApiGroup>, lists: Vec<ApiResourceList>) -> (r: Vec<
    ApiResourceList,
>)
    ensures
        r@ == keep_preferred(groups@, lists@),
{
    let preferred = preferred_group_versions(groups);
    let ghost all = lists@;
    let n = lists.len();
    let mut rest = lists;
    let mut out: Vec<ApiResourceList> = Vec::new();
    let mut i: usize = 0;
    while rest.len() > 0
        invariant
            i <= all.len(),
            all.len() == n,
            rest@ == all.skip(i as int),
            texts(preferred@) == preferred_targets(groups@),
            out@ == keep_preferred(groups@, all.take(i as int)),
        decreases rest@.len(),
    {
        let list = rest.remove(0);
        assert(list == all[i as int]);
        assert(all.take(i + 1).drop_last() =~= all.take(i as int));
        if contains_text(&preferred, list.group_version.as_str()) {
            out.push(list);
        }
        assert(all.skip(i + 1) =~= all.skip(i as int).remove(0));
        i = i + 1;
    }
    assert(all.take(i as int) =~= all);
    out
}

/// The synthetic core group: named by the empty string, one version per
/// core version (whose group version is the bare version), preferring the
/// first.
pub fn core_api_group(core_versions: &Vec<String>) -> (r: ApiGroup)
    ensures
        r.name@ == Seq::<char>::empty(),
        r.versions@.len() == core_versions@.len(),
        forall|i: int|
            0 <= i < core_versions@.len() ==> (#[trigger] r.versions@[i]).group_version@
                == core_versions@[i]@ && r.versions@[i].version@ == core_versions@[i]@,
        core_versions@.len() > 0 ==> r.preferred_version == Some(r.versions@[0]),
        core_versions@.len() == 0 ==> r.preferred_version is None,
{
    let mut versions: Vec<GroupVersion> = Vec::new();
    let mut i: usize = 0;
    while i < core_versions.len()
        invariant
            i <= core_versions@.len(),
            versions@.len() == i,
            forall|j: int|
                0 <= j < i ==> #[trigger] versions@[j] == (GroupVersion {
                    group_version: core_versions@[j],
                    version: core_versions@[j],
                }),
        decreases core_versions@.len() - i,
    {
        versions.push(
            GroupVersion {
                group_version: core_versions[i].clone(),
                version: core_versions[i].clone(),
            },
        );
        i = i + 1;
    }
    let preferred_version = if core_versions.len() > 0 {
        Some(
            GroupVersion {
                group_version: core_versions[0].clone(),
                version: core_versions[0].clone(),
            },
        )
    } else {
        None
    };
    ApiGroup { name: String::new(), versions, preferred_version }
}

/// The group list with the core group in front of the named groups.
pub fn with_core_group(core: ApiGroup, groups: Vec<ApiGroup>) -> (r: Vec<ApiGroup>)
    ensures
        r@ == seq![core] + groups@,
{
    let mut all = groups;
    all.insert(0, core);
    assert(all@ =~= seq![core] + groups@);
    all
}

/// The requests of a full discovery, in the order their results are to be
/// concatenated.
pub fn resource_fetch_plan(core_versions: &Vec<String>, groups: &Vec<ApiGroup>) -> (r: Vec<
    DiscoveryRequest,
>)
    ensures
        request_models(r@) == fetch_plan(texts(core_versions@), groups@),
{
    let mut plan: Vec<DiscoveryRequest> = Vec::new();
    let mut i: usize = 0;
    while i < core_versions.len()
        invariant
            i <= core_versions@.len(),
            request_models(plan@) == texts(core_versions@).take(i as int).map_values(
                |v: Seq<char>| RequestModel::Core(v),
            ),
        decreases core_versions@.len() - i,
    {
        let ghost before = plan@;
        plan.push(DiscoveryRequest::CoreResources(core_versions[i].clone()));
        assert(texts(core_versions@).take(i + 1) =~= texts(core_versions@).take(i as int).push(
            core_versions@[i as int]@,
        ));
        assert(request_models(plan@) =~= request_models(before).push(plan@[i as int]@));
        assert(request_models(plan@) =~= texts(core_versions@).take(i + 1).map_values(
            |v: Seq<char>| RequestModel::Core(v),
        ));
        i = i + 1;
    }
    assert(texts(core_versions@).take(i as int) =~= texts(core_versions@));
    let ghost core_part = request_models(plan@);
    let targets = preferred_group_versions(groups);
    let mut k: usize = 0;
    while k < targets.len()
        invariant
            k <= targets@.len(),
            texts(targets@) == preferred_targets(groups@),
            request_models(plan@) == core_part + texts(targets@).take(k as int).map_values(
                |gv: Seq<char>| RequestModel::Group(gv),
            ),
        decreases targets@.len() - k,
    {
        let ghost before = plan@;
        plan.push(DiscoveryRequest::GroupResources(targets[k].clone()));
        assert(texts(targets@).take(k + 1) =~= texts(targets@).take(k as int).push(
            targets@[k as int]@,
        ));
        assert(request_models(plan@) =~= request_models(before).push(
            plan@[before.len() as int]@,
        ));
        assert(request_models(plan@) =~= core_part + texts(targets@).take(k + 1).map_values(
            |gv: Seq<char>| RequestModel::Group(gv),
        ));
        k = k + 1;
    }
    assert(texts(targets@).take(k as int) =~= texts(targets@));
    plan
}

/// The resource lists of a full discovery, where `answer` gives the server's
/// reply to each request: the replies in the order of the requests.
pub open spec fn fetched(
    core_versions: Seq<Seq<char>>,
    gs: Seq<ApiGroup>,
    answer: spec_fn(RequestModel) -> ApiResourceList,
) -> Seq<ApiResourceList> {
    fetch_plan(core_versions, gs).map_values(answer)
}

/// Identical server replies give an identical result, whatever the order in
/// which the replies arrive: the replies for the core versions first, then
/// those for each group's preferred version in the order the server listed
/// the groups.
pub proof fn lemma_fetch_all_reproducible(
    core_versions: Seq<Seq<char>>,
    gs: Seq<ApiGroup>,
    first: spec_fn(RequestModel) -> ApiResourceList,
    second: spec_fn(RequestModel) -> ApiResourceList,
)
    requires
        forall|q: RequestModel| #[trigger] first(q) == second(q),
    ensures
        fetched(core_versions, gs, first) == fetched(core_versions, gs, second),
        fetched(core_versions, gs, first) == core_versions.map_values(
            |v: Seq<char>| first(RequestModel::Core(v)),
        ) + preferred_targets(gs).map_values(|gv: Seq<char>| first(RequestModel::Group(gv))),
{
    assert(fetched(core_versions, gs, first) =~= fetched(core_versions, gs, second));
    assert(fetched(core_versions, gs, first) =~= core_versions.map_values(
        |v: Seq<char>| first(RequestModel::Core(v)),
    ) + preferred_targets(gs).map_values(|gv: Seq<char>| first(RequestModel::Group(gv))));
}

/// The core resource lists followed by the group resource lists.
pub fn merge_resource_lists(core: Vec<ApiResourceList>, groups: Vec<ApiResourceList>) -> (r: Vec<
    ApiResourceList,
>)
    ensures
        r@ == core@ + groups@,
{
    let mut all = core;
    let mut rest = groups;
    all.append(&mut rest);
    all
}

/// The group versions of a group, in order.
pub open spec fn group_versions_of(g: ApiGroup) -> Seq<Seq<char>> {
    g.versions@.map_values(|v: GroupVersion| v.group_version@)
}

/// Every group version of every group, groups in order.
pub open spec fn all_group_versions(gs: Seq<ApiGroup>) -> Seq<Seq<char>>
    decreases gs.len(),
{
    if gs.len() == 0 {
        Seq::empty()
    } else {
        all_group_versions(gs.drop_last()) + group_versions_of(gs.last())
    }
}

/// Every group version of every group, groups in order.
pub fn api_versions(groups: &Vec<ApiGroup>) -> (r: Vec<String>)
    ensures
        texts(r@) == all_group_versions(groups@),
{
    let mut out: Vec<String> = Vec::new();
    let mut i: usize = 0;
    while i < groups.len()
        invariant
            i <= groups@.len(),
            texts(out@) == all_group_versions(groups@.take(i as int)),
        decreases groups@.len() - i,
    {
        let ghost done = texts(out@);
        let versions = &groups[i].versions;
        let mut k: usize = 0;
        while k < versions.len()
            invariant
                i < groups@.len(),
                *versions == groups@[i as int].versions,
                k <= versions@.len(),
                texts(out@) == done + group_versions_of(groups@[i as int]).take(k as int),
            decreases versions@.len() - k,
        {
            let ghost before = out@;
            out.push(versions[k].group_version.clone());
            assert(texts(out@) =~= texts(before).push(versions@[k as int].group_version@));
            assert(group_versions_of(groups@[i as int]).take(k + 1) =~= group_versions_of(
                groups@[i as int],
            ).take(k as int).push(versions@[k as int].group_version@));
            k = k + 1;
        }
        assert(group_versions_of(groups@[i as int]).take(k as int) =~= group_versions_of(
            groups@[i as int],
        ));
        assert(groups@.take(i + 1).drop_last() =~= groups@.take(i as int));
        i = i + 1;
    }
    assert(groups@.take(i as int) =~= groups@);
    out
}

} // verus!
