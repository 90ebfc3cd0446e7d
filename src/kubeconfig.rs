//! Choosing the current context of a kubeconfig.
use vstd::prelude::*;

use crate::resource::texts;
use crate::text::same_text;

verus! {

/// The position of the context named `name`, the first where names repeat.
pub fn find_context(context_names: &Vec<String>, name: &str) -> (r: Option<usize>)
    ensures
        match r {
            Some(i) => i < context_names@.len() && context_names@[i as int]@ == name@ && forall|
                j: int,
            | 0 <= j < i ==> context_names@[j]@ != name@,
            None => !texts(context_names@).contains(name@),
        },
{
    let mut i: usize = 0;
    while i < context_names.len()
        invariant
            i <= context_names@.len(),
            forall|j: int| 0 <= j < i ==> context_names@[j]@ != name@,
        decreases context_names@.len() - i,
    {
        if same_text(context_names[i].as_str(), name) {
            return Some(i);
        }
        i = i + 1;
    }
    assert forall|j: int| 0 <= j < texts(context_names@).len() implies texts(
        context_names@,
    )[j] != name@ by {
        assert(texts(context_names@)[j] == context_names@[j]@);
    }
    None
}

/// The current context to use: the recorded one where it names a context,
/// else the first context, else none.
pub fn sanitize_current_context(current: Option<&str>, context_names: &Vec<String>) -> (r: Option<
    String,
>)
    ensures
        match current {
            Some(c) if texts(context_names@).contains(c@) => r matches Some(s) && s@ == c@,
            _ => if context_names@.len() > 0 {
                r == Some(context_names@[0])
            } else {
                r is None
            },
        },
{
    if let Some(c) = current {
        if let Some(i) = find_context(context_names, c) {
            assert(texts(context_names@)[i as int] == c@);
            return Some(c.to_owned());
        }
    }
    if context_names.len() > 0 {
        Some(context_names[0].clone())
    } else {
        None
    }
}

} // verus!
