//! From a resolved resource and a namespace scope to the handle a request
//! goes through: a typed one for the built-in kinds, an erased one, described
//! by discovery metadata, for any other kind.
use vstd::prelude::*;

use crate::discovery::{contains_text, ApiResourceDescriptor, ApiResourceList};
use crate::namespace::{ApiScope, Namespace, NamespaceModel};
use crate::resource::{texts, Resource, ResourceModel};
use crate::text::same_text;

verus! {

/// Whether a descriptor answers to `name`: by plural name, kind or short name.
pub open spec fn matches_name(d: ApiResourceDescriptor, name: Seq<char>) -> bool {
    d.name@ == name || d.kind@ == name || texts(d.short_names@).contains(name)
}

/// Entry `j` of list `i` answers to `name`.
pub open spec fn entry_matches(lists: Seq<ApiResourceList>, name: Seq<char>, i: int, j: int) -> bool {
    &&& 0 <= i < lists.len()
    &&& 0 <= j < lists[i].resources@.len()
    &&& matches_name(lists[i].resources@[j], name)
}

/// Some entry of the lists answers to `name`.
pub open spec fn any_match(lists: Seq<ApiResourceList>, name: Seq<char>) -> bool {
    exists|i: int, j: int| entry_matches(lists, name, i, j)
}

/// Two different entries of the lists answer to `name`.
pub open spec fn is_ambiguous(lists: Seq<ApiResourceList>, name: Seq<char>) -> bool {
    exists|a: int, b: int, c: int, d: int|
        #[trigger] entry_matches(lists, name, a, b) && #[trigger] entry_matches(lists, name, c, d)
            && (a != c || b != d)
}

/// Entry `j` of list `i` is the first that answers to `name`, lists in order
/// and entries in order within a list.
pub open spec fn is_first_match(lists: Seq<ApiResourceList>, name: Seq<char>, i: int, j: int) -> bool {
    &&& entry_matches(lists, name, i, j)
    &&& forall|a: int, b: int| 0 <= a < i ==> !entry_matches(lists, name, a, b)
    &&& forall|b: int| 0 <= b < j ==> !entry_matches(lists, name, i, b)
}

/// A kind known from discovery metadata only.
#[derive(Clone, Debug, PartialEq)]
pub struct DynamicResource {
    pub group_version: String,
    pub kind: String,
    /// The plural name, as used in request paths.
    pub plural: String,
    pub namespaced: bool,
}

/// What a handle is bound to.
#[derive(Clone, Debug, PartialEq)]
pub enum ApiTarget {
    /// A built-in kind, served by a typed handle.
    WellKnown(Resource),
    /// Any other kind, served by an erased handle.
    Dynamic(DynamicResource),
}

/// A handle on the API: the kind it serves and where it is bound.
#[derive(Clone, Debug, PartialEq)]
pub struct ApiHandle {
    pub target: ApiTarget,
    pub scope: ApiScope,
}

/// A name that discovery cannot turn into one kind.
#[derive(Clone, Debug, PartialEq, Eq)]
pub enum ResolveError {
    /// No descriptor answers to the name.
    ResourceNotFound(String),
    /// More than one descriptor answers to the name.
    AmbiguousResource(String),
}

/// Where a handle on a kind is bound, given whether the kind is namespaced.
pub open spec fn scope_for(ns: NamespaceModel, namespaced: bool, s: ApiScope) -> bool {
    if !namespaced {
        s == ApiScope::Cluster
    } else {
        match ns {
            NamespaceModel::All => s == ApiScope::Cluster,
            NamespaceModel::Default => s == ApiScope::DefaultNamespace,
            NamespaceModel::Named(n) => s matches ApiScope::Namespaced(x) && x@ == n,
        }
    }
}

fn descriptor_matches(d: &ApiResourceDescriptor, name: &str) -> (r: bool)
    ensures
        r == matches_name(*d, name@),
{
    same_text(d.name.as_str(), name) || same_text(d.kind.as_str(), name) || contains_text(
        &d.short_names,
        name,
    )
}

/// The position of the first descriptor that answers to `name`.
pub fn find_api_resource(lists: &Vec<ApiResourceList>, name: &str) -> (r: Option<(usize, usize)>)
    ensures
        match r {
            Some((i, j)) => is_first_match(lists@, name@, i as int, j as int),
            None => !any_match(lists@, name@),
        },
{
    let mut i: usize = 0;
    while i < lists.len()
        invariant
            i <= lists@.len(),
            forall|a: int, b: int| 0 <= a < i ==> !entry_matches(lists@, name@, a, b),
        decreases lists@.len() - i,
    {
        let resources = &lists[i].resources;
        let mut j: usize = 0;
        while j < resources.len()
            invariant
                i < lists@.len(),
                *resources == lists@[i as int].resources,
                j <= resources@.len(),
                forall|a: int, b: int| 0 <= a < i ==> !entry_matches(lists@, name@, a, b),
                forall|b: int| 0 <= b < j ==> !entry_matches(lists@, name@, i as int, b),
            decreases resources@.len() - j,
        {
            if descriptor_matches(&resources[j], name) {
                return Some((i, j));
            }
            j = j + 1;
        }
        i = i + 1;
    }
    proof {
        lemma_no_match(lists@, name@);
    }
    None
}

/// Whether an entry other than entry `j` of list `i` answers to `name`.
fn has_other_match(lists: &Vec<ApiResourceList>, name: &str, i: usize, j: usize) -> (r: bool)
    ensures
        r == exists|a: int, b: int|
            #[trigger] entry_matches(lists@, name@, a, b) && (a != i || b != j),
{
    let mut x: usize = 0;
    while x < lists.len()
        invariant
            x <= lists@.len(),
            forall|a: int, b: int|
                0 <= a < x && (a != i || b != j) ==> !#[trigger] entry_matches(lists@, name@, a, b),
        decreases lists@.len() - x,
    {
        let resources = &lists[x].resources;
        let mut y: usize = 0;
        while y < resources.len()
            invariant
                x < lists@.len(),
                *resources == lists@[x as int].resources,
                y <= resources@.len(),
                forall|a: int, b: int|
                    0 <= a < x && (a != i || b != j) ==> !#[trigger] entry_matches(lists@, name@, a, b),
                forall|b: int|
                    0 <= b < y && (x != i || b != j) ==> !#[trigger] entry_matches(
                        lists@,
                        name@,
                        x as int,
                        b,
                    ),
            decreases resources@.len() - y,
        {
            if (x != i || y != j) && descriptor_matches(&resources[y], name) {
                assert(entry_matches(lists@, name@, x as int, y as int));
                return true;
            }
            y = y + 1;
        }
        assert forall|a: int, b: int|
            0 <= a < x + 1 && (a != i || b != j) implies !#[trigger] entry_matches(
                lists@,
                name@,
                a,
                b,
            ) by {
            if a == x && entry_matches(lists@, name@, a, b) {
                assert(0 <= b < y);
            }
        }
        x = x + 1;
    }
    assert forall|a: int, b: int| (a != i || b != j) implies !#[trigger] entry_matches(
        lists@,
        name@,
        a,
        b,
    ) by {
        if entry_matches(lists@, name@, a, b) {
            assert(0 <= a < x);
        }
    }
    false
}

proof fn lemma_no_match(lists: Seq<ApiResourceList>, name: Seq<char>)
    requires
        forall|a: int, b: int| 0 <= a < lists.len() ==> !entry_matches(lists, name, a, b),
    ensures
        !any_match(lists, name),
{
    assert forall|a: int, b: int| !entry_matches(lists, name, a, b) by {
        if 0 <= a < lists.len() {
        }
    }
}

impl ApiHandle {
    /// The typed handle of a built-in kind; `None` for any other kind.
    pub fn well_known(resource: &Resource, namespace: &Namespace) -> (r: Option<ApiHandle>)
        ensures
            resource@ is Other <==> r is None,
            match r {
                Some(h) => h.target matches ApiTarget::WellKnown(k) && k@ == resource@
                    && scope_for(namespace@, resource@ is Pods || resource@ is ConfigMaps, h.scope),
                None => true,
            },
    {
        match resource.namespaced() {
            Some(namespaced) => Some(
                ApiHandle {
                    target: ApiTarget::WellKnown(resource.duplicate()),
                    scope: namespace.api_scope(namespaced),
                },
            ),
            None => None,
        }
    }

    /// The erased handle of the kind that `name` names, where exactly one
    /// descriptor in the lists answers to it; an error where none does, and
    /// another where more than one does.
    pub fn dynamic(name: &str, namespace: &Namespace, lists: &Vec<ApiResourceList>) -> (r: Result<
        ApiHandle,
        ResolveError,
    >)
        ensures
            r is Ok <==> any_match(lists@, name@) && !is_ambiguous(lists@, name@),
            match r {
                Ok(h) => exists|i: int, j: int|
                    {
                        &&& entry_matches(lists@, name@, i, j)
                        &&& h.target matches ApiTarget::Dynamic(d)
                        &&& d.group_version == lists@[i].group_version
                        &&& d.kind == lists@[i].resources@[j].kind
                        &&& d.plural == lists@[i].resources@[j].name
                        &&& d.namespaced == lists@[i].resources@[j].namespaced
                        &&& scope_for(namespace@, d.namespaced, h.scope)
                    },
                Err(ResolveError::ResourceNotFound(n)) => !any_match(lists@, name@) && n@ == name@,
                Err(ResolveError::AmbiguousResource(n)) => is_ambiguous(lists@, name@) && n@
                    == name@,
            },
    {
        match find_api_resource(lists, name) {
            Some((i, j)) => {
                if has_other_match(lists, name, i, j) {
                    return Err(ResolveError::AmbiguousResource(name.to_owned()));
                }
                proof {
                    assert forall|a: int, b: int, c: int, d: int|
                        #[trigger] entry_matches(lists@, name@, a, b) && #[trigger] entry_matches(
                            lists@,
                            name@,
                            c,
                            d,
                        ) implies a == c && b == d by {
                        if a != i || b != j {
                        } else if c != i || d != j {
                        }
                    }
                }
                let list = &lists[i];
                let d = &list.resources[j];
                let target = DynamicResource {
                    group_version: list.group_version.clone(),
                    kind: d.kind.clone(),
                    plural: d.name.clone(),
                    namespaced: d.namespaced,
                };
                let scope = namespace.api_scope(d.namespaced);
                Ok(ApiHandle { target: ApiTarget::Dynamic(target), scope })
            },
            None => {
                assert(!is_ambiguous(lists@, name@));
                Err(ResolveError::ResourceNotFound(name.to_owned()))
            },
        }
    }
}

} // verus!
