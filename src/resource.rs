//! The resource-token grammar: `resource`, `resource,resource,...` followed by
//! names, or `resource/name` tokens.
use vstd::prelude::*;

use crate::text::{
    contains_char, find_char, first_index, lemma_first_index, same_text, split_at_char,
    split_chars,
};

verus! {

/// A resource kind named on the command line.
#[derive(Clone, Debug, PartialEq)]
pub enum Resource {
    Pods,
    Nodes,
    ConfigMaps,
    ComponentStatuses,
    /// Any other name, resolved later against discovery data.
    Other(String),
}

/// A resource kind, with the name of an unknown kind as characters.
pub enum ResourceModel {
    Pods,
    Nodes,
    ConfigMaps,
    ComponentStatuses,
    Other(Seq<char>),
}

impl View for Resource {
    type V = ResourceModel;

    open spec fn view(&self) -> ResourceModel {
        match self {
            Resource::Pods => ResourceModel::Pods,
            Resource::Nodes => ResourceModel::Nodes,
            Resource::ConfigMaps => ResourceModel::ConfigMaps,
            Resource::ComponentStatuses => ResourceModel::ComponentStatuses,
            Resource::Other(name) => ResourceModel::Other(name@),
        }
    }
}

/// The alias table of the built-in kinds.
pub open spec fn well_known_of(t: Seq<char>) -> Option<ResourceModel> {
    if t == "po"@ || t == "pod"@ || t == "pods"@ {
        Some(ResourceModel::Pods)
    } else if t == "no"@ || t == "node"@ || t == "nodes"@ {
        Some(ResourceModel::Nodes)
    } else if t == "cm"@ || t == "configmap"@ || t == "configmaps"@ {
        Some(ResourceModel::ConfigMaps)
    } else if t == "cs"@ || t == "componentstatus"@ || t == "componentstatuses"@ {
        Some(ResourceModel::ComponentStatuses)
    } else {
        None
    }
}

/// The kind a resource string names: a built-in alias, or an unknown name.
pub open spec fn resource_of(t: Seq<char>) -> ResourceModel {
    match well_known_of(t) {
        Some(r) => r,
        None => ResourceModel::Other(t),
    }
}

/// A resource kind together with the name of one object of it.
#[derive(Clone, Debug, PartialEq)]
pub struct NamedResource {
    pub resource: Resource,
    pub name: String,
}

/// What one parsed argument asks for: a kind, and an object name or none
/// (a list request).
pub type ArgModel = (ResourceModel, Option<Seq<char>>);

/// One argument of a request: a whole kind, or one named object of a kind.
#[derive(Clone, Debug, PartialEq)]
pub enum ResourceArg {
    Resource(Resource),
    NamedResource(NamedResource),
}

impl View for NamedResource {
    type V = (ResourceModel, Seq<char>);

    open spec fn view(&self) -> (ResourceModel, Seq<char>) {
        (self.resource@, self.name@)
    }
}

impl View for ResourceArg {
    type V = ArgModel;

    open spec fn view(&self) -> ArgModel {
        match self {
            ResourceArg::Resource(r) => (r@, None),
            ResourceArg::NamedResource(n) => (n.resource@, Some(n.name@)),
        }
    }
}

/// Whether a token is in `resource/name` form.
pub open spec fn has_slash(t: Seq<char>) -> bool {
    t.contains('/')
}

/// A `resource/name` token split at its first `/`.
pub open spec fn named_of(t: Seq<char>) -> ArgModel {
    let k = first_index(t, '/');
    (resource_of(t.take(k)), Some(t.skip(k + 1)))
}

/// Every kind paired with every name, kind-major then name-minor.
pub open spec fn cartesian(rs: Seq<ResourceModel>, names: Seq<Seq<char>>) -> Seq<ArgModel>
    decreases rs.len(),
{
    if rs.len() == 0 {
        Seq::empty()
    } else {
        cartesian(rs.drop_last(), names) + names.map_values(
            |n: Seq<char>| (rs.last(), Some(n)),
        )
    }
}

/// What a list of tokens means, or `None` where it is invalid: either every
/// token is `resource/name`, or the first lists kinds separated by commas and
/// the others are object names.
pub open spec fn parse_args(tokens: Seq<Seq<char>>) -> Option<Seq<ArgModel>> {
    if exists|i: int| 0 <= i < tokens.len() && has_slash(#[trigger] tokens[i]) {
        if forall|i: int| 0 <= i < tokens.len() ==> has_slash(#[trigger] tokens[i]) {
            Some(tokens.map_values(|t: Seq<char>| named_of(t)))
        } else {
            None
        }
    } else if tokens.len() == 0 {
        None
    } else {
        let rs = split_chars(tokens[0], ',').map_values(|t: Seq<char>| resource_of(t));
        let names = tokens.drop_first();
        if names.len() == 0 {
            Some(rs.map_values(|r: ResourceModel| (r, None::<Seq<char>>)))
        } else {
            Some(cartesian(rs, names))
        }
    }
}

/// The characters of each string.
pub open spec fn texts(v: Seq<String>) -> Seq<Seq<char>> {
    v.map_values(|s: String| s@)
}

/// The meaning of each argument.
pub open spec fn arg_models(v: Seq<ResourceArg>) -> Seq<ArgModel> {
    v.map_values(|a: ResourceArg| a@)
}

/// The request mixes `resource/name` tokens with bare ones, or names no
/// resource at all.
#[derive(Clone, Copy, Debug, PartialEq, Eq)]
pub struct InvalidResourceSpec;

impl InvalidResourceSpec {
    /// The explanation shown to the user.
    pub fn message(&self) -> &'static str {
        "there is no need to specify a resource type as a separate argument when passing arguments in resource/name form (e.g. 'kubectl get resource/<resource_name>' instead of 'kubectl get resource resource/<resource_name>')"
    }
}

impl Resource {
    /// The built-in kind that `text` is an alias of, if any.
    pub fn well_known(text: &str) -> (r: Option<Resource>)
        ensures
            match r {
                Some(res) => well_known_of(text@) == Some(res@),
                None => well_known_of(text@) is None,
            },
    {
        if same_text(text, "po") || same_text(text, "pod") || same_text(text, "pods") {
            Some(Resource::Pods)
        } else if same_text(text, "no") || same_text(text, "node") || same_text(text, "nodes") {
            Some(Resource::Nodes)
        } else if same_text(text, "cm") || same_text(text, "configmap") || same_text(
            text,
            "configmaps",
        ) {
            Some(Resource::ConfigMaps)
        } else if same_text(text, "cs") || same_text(text, "componentstatus") || same_text(
            text,
            "componentstatuses",
        ) {
            Some(Resource::ComponentStatuses)
        } else {
            None
        }
    }

    fn other(text: &str) -> (r: Resource)
        ensures
            r@ == ResourceModel::Other(text@),
    {
        Resource::Other(text.to_owned())
    }

    /// The kind that a resource string names.
    pub fn from_name(text: &str) -> (r: Resource)
        ensures
            r@ == resource_of(text@),
    {
        match Resource::well_known(text) {
            Some(r) => r,
            None => Resource::other(text),
        }
    }

    /// A copy with the same meaning.
    pub fn duplicate(&self) -> (r: Resource)
        ensures
            r@ == self@,
    {
        match self {
            Resource::Pods => Resource::Pods,
            Resource::Nodes => Resource::Nodes,
            Resource::ConfigMaps => Resource::ConfigMaps,
            Resource::ComponentStatuses => Resource::ComponentStatuses,
            Resource::Other(name) => Resource::Other(name.clone()),
        }
    }

    /// Whether objects of the kind live in namespaces; `None` for a kind that
    /// only discovery data can tell.
    pub fn namespaced(&self) -> (r: Option<bool>)
        ensures
            match self@ {
                ResourceModel::Pods => r == Some(true),
                ResourceModel::ConfigMaps => r == Some(true),
                ResourceModel::Nodes => r == Some(false),
                ResourceModel::ComponentStatuses => r == Some(false),
                ResourceModel::Other(_) => r is None,
            },
    {
        match self {
            Resource::Pods => Some(true),
            Resource::ConfigMaps => Some(true),
            Resource::Nodes => Some(false),
            Resource::ComponentStatuses => Some(false),
            Resource::Other(_) => None,
        }
    }
}

impl NamedResource {
    /// The object `name` of the kind that `resource` names.
    pub fn new(resource: &str, name: &str) -> (r: NamedResource)
        ensures
            r@ == (resource_of(resource@), name@),
    {
        NamedResource { resource: Resource::from_name(resource), name: name.to_owned() }
    }

    /// The object `name` of `resource`.
    pub fn with_resource(resource: Resource, name: &str) -> (r: NamedResource)
        ensures
            r@ == (resource@, name@),
    {
        NamedResource { resource, name: name.to_owned() }
    }

    pub fn resource(&self) -> (r: &Resource)
        ensures
            r@ == self@.0,
    {
        &self.resource
    }

    pub fn name(&self) -> (r: &str)
        ensures
            r@ == self@.1,
    {
        self.name.as_str()
    }
}

/// Whether some token is in `resource/name` form.
fn any_has_slash(tokens: &[String]) -> (r: bool)
    ensures
        r == exists|i: int| 0 <= i < tokens@.len() && has_slash(#[trigger] tokens@[i]@),
{
    let mut i: usize = 0;
    while i < tokens.len()
        invariant
            i <= tokens@.len(),
            forall|j: int| 0 <= j < i ==> !has_slash(#[trigger] tokens@[j]@),
        decreases tokens@.len() - i,
    {
        if contains_char(tokens[i].as_str(), '/') {
            return true;
        }
        i = i + 1;
    }
    false
}

impl ResourceArg {
    /// Parses the resource tokens of one request.
    ///
    /// Either every token is `resource/name`, each giving one named object,
    /// in the order given; or no token holds `/`, the first lists kinds
    /// separated by commas and the others name objects: with no names, one
    /// list request per kind; with names, every kind with every name,
    /// kind-major. Mixing the two forms, or giving no token, is an error.
    pub fn from_strings(resources: &[String]) -> (r: Result<Vec<ResourceArg>, InvalidResourceSpec>)
        ensures
            match r {
                Ok(args) => parse_args(texts(resources@)) == Some(arg_models(args@)),
                Err(_) => parse_args(texts(resources@)) is None,
            },
    {
        let ghost tokens = texts(resources@);
        if any_has_slash(resources) {
            assert(exists|i: int| 0 <= i < tokens.len() && has_slash(#[trigger] tokens[i])) by {
                let i = choose|i: int| 0 <= i < resources@.len() && has_slash(#[trigger] resources@[i]@);
                assert(has_slash(tokens[i]));
            }
            let mut args: Vec<ResourceArg> = Vec::new();
            let mut i: usize = 0;
            while i < resources.len()
                invariant
                    i <= resources@.len(),
                    tokens == texts(resources@),
                    forall|j: int| 0 <= j < i ==> has_slash(#[trigger] tokens[j]),
                    exists|j: int| 0 <= j < tokens.len() && has_slash(#[trigger] tokens[j]),
                    arg_models(args@) == tokens.take(i as int).map_values(|t: Seq<char>| named_of(t)),
                decreases resources@.len() - i,
            {
                match ResourceArg::named_resource(resources[i].as_str()) {
                    Ok(arg) => {
                        let ghost before = args@;
                        args.push(arg);
                        assert(tokens.take(i + 1) =~= tokens.take(i as int).push(tokens[i as int]));
                        assert(arg_models(args@) =~= arg_models(before).push(arg@));
                        assert(arg_models(args@) =~= tokens.take(i + 1).map_values(
                            |t: Seq<char>| named_of(t),
                        ));
                    },
                    Err(e) => {
                        assert(!has_slash(tokens[i as int]));
                        return Err(e);
                    },
                }
                i = i + 1;
            }
            assert(tokens.take(i as int) =~= tokens);
            Ok(args)
        } else {
            assert(!exists|i: int| 0 <= i < tokens.len() && has_slash(#[trigger] tokens[i])) by {
                if exists|i: int| 0 <= i < tokens.len() && has_slash(#[trigger] tokens[i]) {
                    let i = choose|i: int| 0 <= i < tokens.len() && has_slash(#[trigger] tokens[i]);
                    assert(has_slash(resources@[i]@));
                }
            }
            if resources.len() == 0 {
                return Err(InvalidResourceSpec);
            }
            let pieces = split_at_char(resources[0].as_str(), ',');
            let ghost rs = split_chars(tokens[0], ',').map_values(|t: Seq<char>| resource_of(t));
            let ghost names = tokens.drop_first();
            let mut kinds: Vec<Resource> = Vec::new();
            let mut k: usize = 0;
            while k < pieces.len()
                invariant
                    k <= pieces@.len(),
                    tokens.len() > 0,
                    pieces@.map_values(|p: String| p@) == split_chars(tokens[0], ','),
                    rs == split_chars(tokens[0], ',').map_values(|t: Seq<char>| resource_of(t)),
                    kinds@.len() == k,
                    forall|j: int| 0 <= j < k ==> (#[trigger] kinds@[j])@ == rs[j],
                decreases pieces@.len() - k,
            {
                assert(pieces@[k as int]@ == split_chars(tokens[0], ',')[k as int]);
                kinds.push(Resource::from_name(pieces[k].as_str()));
                k = k + 1;
            }
            let mut args: Vec<ResourceArg> = Vec::new();
            if resources.len() == 1 {
                let mut k: usize = 0;
                while k < kinds.len()
                    invariant
                        k <= kinds@.len(),
                        kinds@.len() == rs.len(),
                        forall|j: int| 0 <= j < kinds@.len() ==> (#[trigger] kinds@[j])@ == rs[j],
                        arg_models(args@) == rs.take(k as int).map_values(
                            |r: ResourceModel| (r, None::<Seq<char>>),
                        ),
                    decreases kinds@.len() - k,
                {
                    let ghost before = args@;
                    args.push(ResourceArg::Resource(kinds[k].duplicate()));
                    assert(rs.take(k + 1) =~= rs.take(k as int).push(rs[k as int]));
                    assert(arg_models(args@) =~= arg_models(before).push(args@[k as int]@));
                    assert(arg_models(args@) =~= rs.take(k + 1).map_values(
                        |r: ResourceModel| (r, None::<Seq<char>>),
                    ));
                    k = k + 1;
                }
                assert(rs.take(k as int) =~= rs);
                assert(names.len() == 0);
            } else {
                let mut k: usize = 0;
                while k < kinds.len()
                    invariant
                        k <= kinds@.len(),
                        resources@.len() > 1,
                        tokens == texts(resources@),
                        names == tokens.drop_first(),
                        kinds@.len() == rs.len(),
                        forall|j: int| 0 <= j < kinds@.len() ==> (#[trigger] kinds@[j])@ == rs[j],
                        arg_models(args@) == cartesian(rs.take(k as int), names),
                    decreases kinds@.len() - k,
                {
                    let ghost done = arg_models(args@);
                    let mut n: usize = 1;
                    while n < resources.len()
                        invariant
                            1 <= n <= resources@.len(),
                            k < kinds@.len(),
                            kinds@.len() == rs.len(),
                            kinds@[k as int]@ == rs[k as int],
                            tokens == texts(resources@),
                            names == tokens.drop_first(),
                            arg_models(args@) == done + names.take(n - 1).map_values(
                                |m: Seq<char>| (rs[k as int], Some(m)),
                            ),
                        decreases resources@.len() - n,
                    {
                        let ghost before = args@;
                        let named = NamedResource::with_resource(kinds[k].duplicate(), resources[n].as_str());
                        args.push(ResourceArg::NamedResource(named));
                        assert(names[n - 1] == resources@[n as int]@);
                        assert(names.take(n as int) =~= names.take(n - 1).push(names[n - 1]));
                        assert(arg_models(args@) =~= arg_models(before).push(args@[before.len() as int]@));
                        assert(arg_models(args@) =~= done + names.take(n as int).map_values(
                            |m: Seq<char>| (rs[k as int], Some(m)),
                        ));
                        n = n + 1;
                    }
                    assert(names.take(n - 1) =~= names);
                    assert(rs.take(k + 1).drop_last() =~= rs.take(k as int));
                    assert(rs.take(k + 1).last() == rs[k as int]);
                    k = k + 1;
                }
                assert(rs.take(k as int) =~= rs);
            }
            Ok(args)
        }
    }

    /// Parses one `resource/name` token, split at its first `/`.
    fn named_resource(text: &str) -> (r: Result<ResourceArg, InvalidResourceSpec>)
        ensures
            match r {
                Ok(arg) => has_slash(text@) && arg@ == named_of(text@),
                Err(_) => !has_slash(text@),
            },
    {
        match find_char(text, '/') {
            Some(k) => {
                proof {
                    lemma_first_index(text@, '/', k as int);
                }
                let n = text.unicode_len();
                let resource = text.substring_char(0, k);
                let name = text.substring_char(k + 1, n);
                assert(resource@ =~= text@.take(k as int));
                assert(name@ =~= text@.skip(k + 1));
                Ok(ResourceArg::NamedResource(NamedResource::new(resource, name)))
            },
            None => Err(InvalidResourceSpec),
        }
    }

    /// Parses one token on its own: `resource/name`, or a single kind.
    pub fn parse_one(text: &str) -> (r: Result<ResourceArg, InvalidResourceSpec>)
        ensures
            has_slash(text@) ==> (r matches Ok(arg) && arg@ == named_of(text@)),
            !has_slash(text@) ==> (r matches Ok(arg) && arg@ == (resource_of(text@), None::<Seq<char>>)),
    {
        if contains_char(text, '/') {
            ResourceArg::named_resource(text)
        } else {
            Ok(ResourceArg::Resource(Resource::from_name(text)))
        }
    }

    /// The kind this argument asks for.
    pub fn resource(&self) -> (r: &Resource)
        ensures
            r@ == self@.0,
    {
        match self {
            ResourceArg::Resource(resource) => resource,
            ResourceArg::NamedResource(named) => named.resource(),
        }
    }

    /// The object name, where the argument names one.
    pub fn name(&self) -> (r: Option<&str>)
        ensures
            match self@.1 {
                Some(n) => r matches Some(s) && s@ == n,
                None => r is None,
            },
    {
        match self {
            ResourceArg::Resource(_) => None,
            ResourceArg::NamedResource(named) => Some(named.name()),
        }
    }
}

impl std::str::FromStr for ResourceArg {
    type Err = InvalidResourceSpec;

    fn from_str(text: &str) -> Result<ResourceArg, InvalidResourceSpec> {
        ResourceArg::parse_one(text)
    }
}

} // verus!
