//! The `get` subcommand: a raw request, or resources named by tokens.
use vstd::prelude::*;

use crate::resource::{arg_models, parse_args, texts, InvalidResourceSpec, ResourceArg};
use crate::text::find_char;

verus! {

/// The arguments of `get`.
#[derive(Clone, Debug, PartialEq)]
pub struct Get {
    /// A raw path to request from the server.
    pub raw: Option<String>,
    pub subresource: Option<String>,
    /// The resource tokens.
    pub resources: Option<Vec<String>>,
    /// Whether rows name their kind.
    pub show_kind: bool,
}

/// What `get` does.
#[derive(Debug)]
pub enum GetPlan {
    /// Request this path, without a leading `/`, and print the text.
    Raw(String),
    /// Fetch and print each argument in turn.
    Resources { args: Vec<ResourceArg>, show_kind: bool },
}

/// `s` without one leading `/`.
pub open spec fn strip_slash(s: Seq<char>) -> Seq<char> {
    if s.len() > 0 && s[0] == '/' {
        s.drop_first()
    } else {
        s
    }
}

/// The tokens of a request where none may be given.
pub open spec fn tokens_of(resources: Option<Vec<String>>) -> Seq<Seq<char>> {
    match resources {
        Some(v) => texts(v@),
        None => Seq::empty(),
    }
}

impl Get {
    /// A raw path wins over resource tokens; rows name their kind where asked
    /// or where more than one argument is fetched.
    pub fn plan(&self) -> (r: Result<GetPlan, InvalidResourceSpec>)
        ensures
            match self.raw {
                Some(raw) => r matches Ok(GetPlan::Raw(p)) && p@ == strip_slash(raw@),
                None => match parse_args(tokens_of(self.resources)) {
                    Some(m) => r matches Ok(GetPlan::Resources { args, show_kind }) && arg_models(
                        args@,
                    ) == m && show_kind == (self.show_kind || m.len() > 1),
                    None => r is Err,
                },
            },
    {
        match &self.raw {
            Some(raw) => {
                let n = raw.as_str().unicode_len();
                let starts = match find_char(raw.as_str(), '/') {
                    Some(k) => k == 0,
                    None => false,
                };
                let path = if starts {
                    raw.as_str().substring_char(1, n).to_owned()
                } else {
                    raw.clone()
                };
                proof {
                    if raw@.len() > 0 && raw@[0] == '/' {
                        assert(starts);
                        assert(path@ =~= raw@.drop_first());
                    } else if starts {
                        assert(raw@[0] == '/');
                    }
                }
                Ok(GetPlan::Raw(path))
            },
            None => {
                let empty: Vec<String> = Vec::new();
                let tokens: &Vec<String> = match &self.resources {
                    Some(v) => v,
                    None => &empty,
                };
                assert(texts(tokens@) =~= tokens_of(self.resources));
                match ResourceArg::from_strings(tokens.as_slice()) {
                    Ok(args) => {
                        let show_kind = self.show_kind || args.len() > 1;
                        Ok(GetPlan::Resources { args, show_kind })
                    },
                    Err(e) => Err(e),
                }
            },
        }
    }
}

} // verus!
