//! Resource resolution and discovery bookkeeping for a kubectl-like client:
//! the resource-token grammar, namespace scoping, the discovery cache and
//! catalog, and the handles that requests go through.
pub mod accessor;
pub mod cache;
pub mod discovery;
pub mod get;
pub mod kubeconfig;
pub mod namespace;
pub mod options;
pub mod resource;
pub mod show;
pub mod text;

pub use accessor::{ApiHandle, ApiTarget, DynamicResource, ResolveError};
pub use cache::{Cache, CacheFile, DiscoverySnapshot, LoadError};
pub use discovery::{
    api_versions, core_api_group, merge_resource_lists, preferred_group_versions, resource_fetch_plan,
    server_preferred_resources, with_core_group, ApiGroup, ApiResourceDescriptor, ApiResourceList,
    DiscoveryRequest, GroupVersion,
};
pub use get::{Get, GetPlan};
pub use namespace::{ApiScope, Namespace};
pub use options::{CacheLocationError, Cli, GlobalOptions, OutputFormat};
pub use resource::{InvalidResourceSpec, NamedResource, Resource, ResourceArg};
