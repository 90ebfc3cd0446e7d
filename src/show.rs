//! The table columns of the built-in kinds that have a table form.
use vstd::prelude::*;

use crate::options::OutputFormat;
use crate::resource::texts;

verus! {

/// The decimal digits of `n`, most significant first.
pub open spec fn decimal_of(n: nat) -> Seq<char>
    decreases n,
{
    if n < 10 {
        seq![digit_char(n)]
    } else {
        decimal_of(n / 10).push(digit_char(n % 10))
    }
}

pub open spec fn digit_char(d: nat) -> char {
    if d == 0 { '0' } else if d == 1 { '1' } else if d == 2 { '2' } else if d == 3 { '3' }
    else if d == 4 { '4' } else if d == 5 { '5' } else if d == 6 { '6' } else if d == 7 { '7' }
    else if d == 8 { '8' } else { '9' }
}

fn digit_text(d: usize) -> (r: &'static str)
    requires
        d < 10,
    ensures
        r@ == seq![digit_char(d as nat)],
{
    proof {
        reveal_strlit("0");
        reveal_strlit("1");
        reveal_strlit("2");
        reveal_strlit("3");
        reveal_strlit("4");
        reveal_strlit("5");
        reveal_strlit("6");
        reveal_strlit("7");
        reveal_strlit("8");
        reveal_strlit("9");
    }
    let r = if d == 0 { "0" } else if d == 1 { "1" } else if d == 2 { "2" } else if d == 3 { "3" }
    else if d == 4 { "4" } else if d == 5 { "5" } else if d == 6 { "6" } else if d == 7 { "7" }
    else if d == 8 { "8" } else { "9" };
    assert(r@ =~= seq![digit_char(d as nat)]);
    r
}

fn push_decimal(s: &mut String, n: usize)
    ensures
        final(s)@ == old(s)@ + decimal_of(n as nat),
    decreases n,
{
    if n >= 10 {
        push_decimal(s, n / 10);
    }
    s.append(digit_text(n % 10));
    assert(final(s)@ =~= old(s)@ + decimal_of(n as nat));
}

/// `n` in decimal.
pub fn decimal(n: usize) -> (r: String)
    ensures
        r@ == decimal_of(n as nat),
{
    let mut s = String::new();
    push_decimal(&mut s, n);
    assert(s@ =~= decimal_of(n as nat));
    s
}

/// Whether the kind has a table form in this output format.
pub open spec fn is_table(output: OutputFormat) -> bool {
    output is Normal || output is Wide
}

/// A header or row whose first column is the namespace, keeping that column
/// only where the namespace is shown (across all namespaces).
pub fn with_namespace_column(columns: Vec<String>, show_namespace: bool) -> (r: Vec<String>)
    requires
        columns@.len() > 0,
    ensures
        show_namespace ==> r@ == columns@,
        !show_namespace ==> r@ == columns@.drop_first(),
{
    let mut r = columns;
    if !show_namespace {
        r.remove(0);
        assert(r@ =~= columns@.drop_first());
    }
    r
}

/// The columns of the node table.
pub fn node_header(output: OutputFormat) -> (r: Vec<String>)
    requires
        is_table(output),
    ensures
        output is Normal ==> texts(r@) == seq!["NAMESPACE"@, "NAME"@],
        output is Wide ==> texts(r@) == seq!["NAMESPACE"@, "NAME"@, "AGE"@],
{
    let mut r: Vec<String> = Vec::new();
    r.push("NAMESPACE".to_owned());
    r.push("NAME".to_owned());
    if let OutputFormat::Wide = output {
        r.push("AGE".to_owned());
    }
    assert(output is Normal ==> texts(r@) =~= seq!["NAMESPACE"@, "NAME"@]);
    assert(output is Wide ==> texts(r@) =~= seq!["NAMESPACE"@, "NAME"@, "AGE"@]);
    r
}

/// A row of the node table.
pub fn node_row(namespace: String, name: String, age: String, output: OutputFormat) -> (r: Vec<String>)
    requires
        is_table(output),
    ensures
        output is Normal ==> r@ == seq![namespace, name],
        output is Wide ==> r@ == seq![namespace, name, age],
{
    let mut r: Vec<String> = Vec::new();
    r.push(namespace);
    r.push(name);
    if let OutputFormat::Wide = output {
        r.push(age);
    }
    assert(output is Normal ==> r@ =~= seq![namespace, name]);
    assert(output is Wide ==> r@ =~= seq![namespace, name, age]);
    r
}

/// The columns of the config map table, the same in both table formats.
pub fn configmap_header(output: OutputFormat) -> (r: Vec<String>)
    requires
        is_table(output),
    ensures
        texts(r@) == seq!["NAMESPACE"@, "NAME"@, "DATA"@, "AGE"@],
{
    let mut r: Vec<String> = Vec::new();
    r.push("NAMESPACE".to_owned());
    r.push("NAME".to_owned());
    r.push("DATA".to_owned());
    r.push("AGE".to_owned());
    assert(texts(r@) =~= seq!["NAMESPACE"@, "NAME"@, "DATA"@, "AGE"@]);
    r
}

/// A row of the config map table: the data column counts the text and the
/// binary entries together.
pub fn configmap_row(
    namespace: String,
    name: String,
    data_entries: usize,
    binary_entries: usize,
    age: String,
    output: OutputFormat,
) -> (r: Vec<String>)
    requires
        is_table(output),
        data_entries + binary_entries <= usize::MAX,
    ensures
        r@.len() == 4,
        r@[0] == namespace,
        r@[1] == name,
        r@[2]@ == decimal_of((data_entries + binary_entries) as nat),
        r@[3] == age,
{
    let mut r: Vec<String> = Vec::new();
    r.push(namespace);
    r.push(name);
    r.push(decimal(data_entries + binary_entries));
    r.push(age);
    r
}

} // verus!
