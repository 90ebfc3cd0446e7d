//! Which namespaces a request targets.
use vstd::prelude::*;

verus! {

/// The namespace scope of one command, derived from its flags.
#[derive(Clone, Debug, PartialEq, Eq)]
pub enum Namespace {
    /// Every namespace; the output shows a namespace column.
    All,
    /// The namespace recorded as current in the active context.
    Default,
    /// One namespace given by name.
    Namespace(String),
}

/// The shape of a namespace scope, with the namespace's name as characters.
pub enum NamespaceModel {
    All,
    Default,
    Named(Seq<char>),
}

impl View for Namespace {
    type V = NamespaceModel;

    open spec fn view(&self) -> NamespaceModel {
        match self {
            Namespace::All => NamespaceModel::All,
            Namespace::Default => NamespaceModel::Default,
            Namespace::Namespace(ns) => NamespaceModel::Named(ns@),
        }
    }
}

/// The scope derived from the all-namespaces flag and the namespace flag:
/// the first wins over the second.
pub open spec fn derive_scope(all_namespaces: bool, namespace: Option<Seq<char>>) -> NamespaceModel {
    if all_namespaces {
        NamespaceModel::All
    } else {
        match namespace {
            Some(ns) => NamespaceModel::Named(ns),
            None => NamespaceModel::Default,
        }
    }
}

/// Where a handle on the API is bound.
#[derive(Clone, Debug, PartialEq, Eq)]
pub enum ApiScope {
    /// Not bound to a namespace: cluster-scoped kinds, or all namespaces.
    Cluster,
    /// Bound to the default namespace of the active context.
    DefaultNamespace,
    /// Bound to the named namespace.
    Namespaced(String),
}

impl Namespace {
    /// Derives the scope from the flags; `all_namespaces` takes precedence over
    /// an explicit namespace.
    pub fn new(all_namespaces: bool, namespace: Option<&str>) -> (r: Namespace)
        ensures
            r@ == derive_scope(
                all_namespaces,
                match namespace {
                    Some(ns) => Some(ns@),
                    None => None,
                },
            ),
    {
        if all_namespaces {
            Namespace::All
        } else {
            match namespace {
                Some(ns) => Namespace::Namespace(ns.to_owned()),
                None => Namespace::Default,
            }
        }
    }

    /// Whether the output shows a namespace column: only across all namespaces.
    pub fn show_namespace(&self) -> (r: bool)
        ensures
            r == (self@ is All),
    {
        match self {
            Namespace::All => true,
            _ => false,
        }
    }

    /// Where a handle on a kind is bound: a cluster-scoped kind ignores the
    /// scope; a namespaced kind is unbound across all namespaces, and bound to
    /// the default or to the named namespace otherwise.
    pub fn api_scope(&self, namespaced: bool) -> (r: ApiScope)
        ensures
            !namespaced ==> r == ApiScope::Cluster,
            namespaced ==> match self@ {
                NamespaceModel::All => r == ApiScope::Cluster,
                NamespaceModel::Default => r == ApiScope::DefaultNamespace,
                NamespaceModel::Named(ns) => r matches ApiScope::Namespaced(n) && n@ == ns,
            },
    {
        if !namespaced {
            return ApiScope::Cluster;
        }
        match self {
            Namespace::All => ApiScope::Cluster,
            Namespace::Default => ApiScope::DefaultNamespace,
            Namespace::Namespace(ns) => ApiScope::Namespaced(ns.clone()),
        }
    }
}

/// The all-namespaces flag takes precedence over any explicit namespace.
pub proof fn lemma_all_namespaces_wins(namespace: Option<Seq<char>>)
    ensures
        derive_scope(true, namespace) is All,
{
}

} // verus!
