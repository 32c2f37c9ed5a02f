//! The one-line structured notation in which the report shows a record: a
//! name, then its fields between braces; lists between brackets; optional
//! values as `Some(..)` or `None`; strings between quotes.

use vstd::prelude::*;
use vstd::string::StringExecFns;
use crate::text::{decimal, unsigned_text};

verus! {

/// A real number, held in the decimal notation in which the report shows it.
#[derive(Clone, Debug)]
pub struct Real {
    pub text: String,
}

impl DeepView for Real {
    type V = Seq<char>;

    /// The notation of the number.
    open spec fn deep_view(&self) -> Seq<char> {
        self.text@
    }
}

/// What stands before part `i` of a joined text: nothing before the first
/// part, the separator before every other.
pub open spec fn lead(sep: Seq<char>, i: nat) -> Seq<char> {
    if i == 0 {
        Seq::empty()
    } else {
        sep
    }
}

/// The first `n` of `parts`, with `sep` between neighbours.
pub open spec fn join_upto(parts: Seq<Seq<char>>, sep: Seq<char>, n: nat) -> Seq<char>
    decreases n,
{
    if n == 0 {
        Seq::empty()
    } else {
        join_upto(parts, sep, (n - 1) as nat) + lead(sep, (n - 1) as nat) + parts[n - 1]
    }
}

/// All of `parts`, with `sep` between neighbours.
pub open spec fn join(parts: Seq<Seq<char>>, sep: Seq<char>) -> Seq<char> {
    join_upto(parts, sep, parts.len())
}

/// A list: its items between brackets, separated by a comma and a space.
pub open spec fn debug_list(items: Seq<Seq<char>>) -> Seq<char> {
    "["@ + join(items, ", "@) + "]"@
}

/// An optional value: `Some(..)` around what is there, `None` otherwise.
pub open spec fn debug_option(inner: Option<Seq<char>>) -> Seq<char> {
    match inner {
        Some(text) => "Some("@ + text + ")"@,
        None => "None"@,
    }
}

/// A truth value.
pub open spec fn debug_bool(b: bool) -> Seq<char> {
    if b {
        "true"@
    } else {
        "false"@
    }
}

/// A field of a record: its label, a colon and a space, its value.
pub open spec fn debug_field(label: Seq<char>, value: Seq<char>) -> Seq<char> {
    label + ": "@ + value
}

/// A record: its name alone where it has no fields, else the name and the
/// fields between braces, separated by a comma and a space.
pub open spec fn debug_struct(name: Seq<char>, fields: Seq<Seq<char>>) -> Seq<char> {
    if fields.len() == 0 {
        name
    } else {
        name + " { "@ + join(fields, ", "@) + " }"@
    }
}

/// A string as the notation shows it: between double quotes, with the
/// characters that need it escaped.
pub uninterp spec fn quoted(s: Seq<char>) -> Seq<char>;

/// An optional string between quotes.
pub open spec fn optional_quoted(s: Option<Seq<char>>) -> Option<Seq<char>> {
    match s {
        Some(t) => Some(quoted(t)),
        None => None,
    }
}

/// The strings of a list, each between quotes.
pub open spec fn quoted_texts(list: Seq<Seq<char>>) -> Seq<Seq<char>> {
    Seq::new(list.len(), |i: int| quoted(list[i]))
}

/// The numbers of a list, each as a decimal numeral.
pub open spec fn number_texts(list: Seq<u32>) -> Seq<Seq<char>> {
    Seq::new(list.len(), |i: int| decimal(list[i] as nat))
}

/// An optional list in the structured notation, of items that are already
/// written.
pub open spec fn optional_list_debug(items: Option<Seq<Seq<char>>>) -> Seq<char> {
    debug_option(
        match items {
            Some(list) => Some(debug_list(list)),
            None => None,
        },
    )
}

/// An optional list of strings in the structured notation.
pub open spec fn optional_strings_debug(list: Option<Seq<Seq<char>>>) -> Seq<char> {
    optional_list_debug(
        match list {
            Some(l) => Some(quoted_texts(l)),
            None => None,
        },
    )
}

/// An optional list of whole numbers in the structured notation.
pub open spec fn optional_numbers_debug(list: Option<Seq<u32>>) -> Seq<char> {
    optional_list_debug(
        match list {
            Some(l) => Some(number_texts(l)),
            None => None,
        },
    )
}

/// Calls the `Debug` formatting of `str`, through `format!`. The contract
/// gives the resulting text the name `quoted`: it depends on the characters
/// of `s` alone. What the escapes are is not stated.
#[verifier::external_body]
pub(crate) fn quoted_text(s: &str) -> (out: String)
    ensures
        out@ == quoted(s@),
{
    format!("{:?}", s)
}

/// The parts of `parts`, with `sep` between neighbours.
pub fn join_texts(parts: &Vec<String>, sep: &str) -> (out: String)
    ensures
        out@ == join(parts.deep_view(), sep@),
{
    let mut out = String::new();
    let mut i: usize = 0;
    while i < parts.len()
        invariant
            i <= parts.len(),
            out@ == join_upto(parts.deep_view(), sep@, i as nat),
        decreases parts.len() - i,
    {
        if i != 0 {
            out.append(sep);
        }
        assert(out@ =~= join_upto(parts.deep_view(), sep@, i as nat) + lead(sep@, i as nat));
        out.append(parts[i].as_str());
        i = i + 1;
    }
    out
}

/// The notation of a list whose items are already written.
pub fn list_text(items: &Vec<String>) -> (out: String)
    ensures
        out@ == debug_list(items.deep_view()),
{
    let mut out = String::from_str("[");
    let inner = join_texts(items, ", ");
    out.append(inner.as_str());
    out.append("]");
    out
}

/// The notation of an optional value whose content is already written.
pub fn option_text(inner: &Option<String>) -> (out: String)
    ensures
        out@ == debug_option(inner.deep_view()),
{
    match inner {
        Some(text) => {
            let mut out = String::from_str("Some(");
            out.append(text.as_str());
            out.append(")");
            out
        },
        None => String::from_str("None"),
    }
}

/// The notation of a truth value.
pub fn bool_text(b: bool) -> (out: String)
    ensures
        out@ == debug_bool(b),
{
    if b {
        String::from_str("true")
    } else {
        String::from_str("false")
    }
}

/// The notation of a field whose value is already written.
pub fn field_text(label: &str, value: &str) -> (out: String)
    ensures
        out@ == debug_field(label@, value@),
{
    let mut out = String::from_str(label);
    out.append(": ");
    out.append(value);
    out
}

/// The notation of a record whose fields are already written.
pub fn struct_text(name: &str, fields: &Vec<String>) -> (out: String)
    ensures
        out@ == debug_struct(name@, fields.deep_view()),
{
    let mut out = String::from_str(name);
    if fields.len() != 0 {
        out.append(" { ");
        let inner = join_texts(fields, ", ");
        out.append(inner.as_str());
        out.append(" }");
    }
    out
}

/// The notation of an optional string.
pub fn option_quoted_text(s: &Option<String>) -> (out: String)
    ensures
        out@ == debug_option(optional_quoted(s.deep_view())),
{
    match s {
        Some(t) => {
            let inner = Some(quoted_text(t.as_str()));
            option_text(&inner)
        },
        None => {
            let inner: Option<String> = None;
            option_text(&inner)
        },
    }
}

/// Writes an optional list of numbers in the structured notation.
pub fn optional_reals_text(list: &Option<Vec<Real>>) -> (out: String)
    ensures
        out@ == optional_list_debug(list.deep_view()),
{
    match list {
        Some(l) => {
            let mut texts: Vec<String> = Vec::new();
            let mut i: usize = 0;
            while i < l.len()
                invariant
                    i <= l.len(),
                    texts.len() == i,
                    forall|j: int| 0 <= j < i ==> texts[j]@ == l[j].text@,
                decreases l.len() - i,
            {
                texts.push(l[i].text.clone());
                i = i + 1;
            }
            assert(texts.deep_view() =~= l.deep_view());
            let inner = Some(list_text(&texts));
            option_text(&inner)
        },
        None => {
            let inner: Option<String> = None;
            option_text(&inner)
        },
    }
}

/// Writes an optional list of strings in the structured notation.
pub fn optional_strings_text(list: &Option<Vec<String>>) -> (out: String)
    ensures
        out@ == optional_strings_debug(list.deep_view()),
{
    match list {
        Some(l) => {
            let mut texts: Vec<String> = Vec::new();
            let mut i: usize = 0;
            while i < l.len()
                invariant
                    i <= l.len(),
                    texts.len() == i,
                    forall|j: int| 0 <= j < i ==> texts[j]@ == quoted(l[j]@),
                decreases l.len() - i,
            {
                texts.push(quoted_text(l[i].as_str()));
                i = i + 1;
            }
            assert(texts.deep_view() =~= quoted_texts(l.deep_view()));
            let inner = Some(list_text(&texts));
            option_text(&inner)
        },
        None => {
            let inner: Option<String> = None;
            option_text(&inner)
        },
    }
}

/// Writes an optional list of whole numbers in the structured notation.
pub fn optional_numbers_text(list: &Option<Vec<u32>>) -> (out: String)
    ensures
        out@ == optional_numbers_debug(list.deep_view()),
{
    match list {
        Some(l) => {
            let mut texts: Vec<String> = Vec::new();
            let mut i: usize = 0;
            while i < l.len()
                invariant
                    i <= l.len(),
                    texts.len() == i,
                    forall|j: int| 0 <= j < i ==> texts[j]@ == decimal(l[j] as nat),
                decreases l.len() - i,
            {
                texts.push(unsigned_text(l[i] as u64));
                i = i + 1;
            }
            assert(texts.deep_view() =~= number_texts(l.deep_view()));
            let inner = Some(list_text(&texts));
            option_text(&inner)
        },
        None => {
            let inner: Option<String> = None;
            option_text(&inner)
        },
    }
}

} // verus!
