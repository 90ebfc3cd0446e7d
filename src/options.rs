//! Command-line options that shape a request: output format, namespace
//! flags and the location of the discovery cache.
use vstd::prelude::*;

use crate::namespace::{derive_scope, Namespace};
use crate::resource::texts;

verus! {

/// How results are printed.
#[derive(Clone, Copy, Debug, PartialEq, Eq, Structural)]
pub enum OutputFormat {
    Normal,
    Wide,
    Yaml,
    Json,
}

/// Options that hold for every subcommand.
#[derive(Clone, Debug, PartialEq)]
pub struct GlobalOptions {
    /// The cache directory; the home directory's `.kube/cache` where absent.
    pub cache_dir: Option<String>,
    pub as_user: Option<String>,
    pub as_group: Option<Vec<String>>,
    pub as_uid: Option<String>,
}

/// The flags of one invocation, apart from its subcommand.
#[derive(Clone, Debug, PartialEq)]
pub struct Cli {
    pub output: Option<OutputFormat>,
    pub options: GlobalOptions,
    pub debug: bool,
    pub all_namespaces: bool,
    pub namespace: Option<String>,
    pub cluster: Option<String>,
    pub context: Option<String>,
    pub user: Option<String>,
}

/// The active configuration names no cluster URL with a host.
#[derive(Clone, Copy, Debug, PartialEq, Eq)]
pub enum CacheLocationError {
    MissingClusterUrl,
}

/// Relies on etcetera::home_dir for the user's home directory; what it
/// returns depends on the environment, so nothing is stated of it.
#[verifier::external_body]
fn home_dir() -> (r: Option<String>) {
    match etcetera::home_dir() {
        Ok(path) => Some(path.to_string_lossy().into_owned()),
        Err(_) => None,
    }
}

/// The directory under which the cache lives: the explicit one, else the
/// home directory, else the current directory (the empty path).
pub open spec fn cache_base(explicit: Option<Seq<char>>, home: Option<Seq<char>>) -> Seq<char> {
    match explicit {
        Some(d) => d,
        None => match home {
            Some(h) => h,
            None => Seq::empty(),
        },
    }
}

/// The path components of the cache directory under `base`.
pub open spec fn cache_dir_path(base: Seq<char>) -> Seq<Seq<char>> {
    seq![base, ".kube"@, "cache"@]
}

/// The path components of the discovery cache of the server at `host`.
pub open spec fn discovery_cache_path(base: Seq<char>, host: Seq<char>) -> Seq<Seq<char>> {
    cache_dir_path(base) + seq!["discovery"@, host]
}

pub open spec fn opt_text(o: Option<String>) -> Option<Seq<char>> {
    match o {
        Some(s) => Some(s@),
        None => None,
    }
}

impl GlobalOptions {
    /// The cache directory as path components, given the home directory.
    pub fn cache_dir_with_home(&self, home: Option<String>) -> (r: Vec<String>)
        ensures
            texts(r@) == cache_dir_path(cache_base(opt_text(self.cache_dir), opt_text(home))),
    {
        let base = match &self.cache_dir {
            Some(d) => d.clone(),
            None => match home {
                Some(h) => h,
                None => String::new(),
            },
        };
        let mut r: Vec<String> = Vec::new();
        r.push(base);
        r.push(".kube".to_owned());
        r.push("cache".to_owned());
        assert(texts(r@) =~= cache_dir_path(cache_base(opt_text(self.cache_dir), opt_text(home))));
        r
    }

    /// The cache directory as path components; the home directory is looked
    /// up only where no directory was given.
    pub fn cache_dir(&self) -> (r: Vec<String>)
        ensures
            exists|home: Option<Seq<char>>|
                texts(r@) == cache_dir_path(cache_base(opt_text(self.cache_dir), home)),
            self.cache_dir matches Some(d) ==> texts(r@) == cache_dir_path(d@),
    {
        let home = match &self.cache_dir {
            Some(_) => None,
            None => home_dir(),
        };
        let r = self.cache_dir_with_home(home);
        assert(texts(r@) == cache_dir_path(cache_base(opt_text(self.cache_dir), opt_text(home))));
        r
    }

    /// The discovery cache directory of the server at `host`, given the home
    /// directory; an error where the configuration names no host.
    pub fn discovery_cache_with_home(&self, home: Option<String>, host: Option<&str>) -> (r: Result<
        Vec<String>,
        CacheLocationError,
    >)
        ensures
            match host {
                Some(h) => r matches Ok(p) && texts(p@) == discovery_cache_path(
                    cache_base(opt_text(self.cache_dir), opt_text(home)),
                    h@,
                ),
                None => r == Err::<Vec<String>, CacheLocationError>(
                    CacheLocationError::MissingClusterUrl,
                ),
            },
    {
        match host {
            Some(h) => {
                let mut p = self.cache_dir_with_home(home);
                let ghost dir = p@;
                p.push("discovery".to_owned());
                p.push(h.to_owned());
                assert(texts(p@) =~= texts(dir) + seq!["discovery"@, h@]);
                Ok(p)
            },
            None => Err(CacheLocationError::MissingClusterUrl),
        }
    }

    /// The discovery cache directory of the server at `host`.
    pub fn discovery_cache_for_config(&self, host: Option<&str>) -> (r: Result<
        Vec<String>,
        CacheLocationError,
    >)
        ensures
            match host {
                Some(h) => r matches Ok(p) && exists|home: Option<Seq<char>>|
                    texts(p@) == discovery_cache_path(
                        cache_base(opt_text(self.cache_dir), home),
                        h@,
                    ),
                None => r == Err::<Vec<String>, CacheLocationError>(
                    CacheLocationError::MissingClusterUrl,
                ),
            },
    {
        let home = match (&self.cache_dir, host) {
            (None, Some(_)) => home_dir(),
            _ => None,
        };
        let r = self.discovery_cache_with_home(home, host);
        proof {
            if host is Some {
                assert(texts(r->Ok_0@) == discovery_cache_path(
                    cache_base(opt_text(self.cache_dir), opt_text(home)),
                    host->Some_0@,
                ));
            }
        }
        r
    }
}

impl Cli {
    /// The flags themselves, unchanged.
    pub fn inspect(self) -> (r: Cli)
        ensures
            r == self,
    {
        self
    }

    /// The namespace scope the flags ask for.
    pub fn namespace(&self) -> (r: Namespace)
        ensures
            r@ == derive_scope(self.all_namespaces, opt_text(self.namespace)),
    {
        let ns: Option<&str> = match &self.namespace {
            Some(n) => Some(n.as_str()),
            None => None,
        };
        Namespace::new(self.all_namespaces, ns)
    }

    /// The output format; normal where none was given.
    pub fn output_format(&self) -> (r: OutputFormat)
        ensures
            r == match self.output {
                Some(o) => o,
                None => OutputFormat::Normal,
            },
    {
        match self.output {
            Some(o) => o,
            None => OutputFormat::Normal,
        }
    }
}

} // verus!
