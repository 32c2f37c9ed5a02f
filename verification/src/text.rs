//! Building blocks for report text: indentation, decimal numerals, and growing
//! a report line by line.

use vstd::prelude::*;
use vstd::string::StringExecFns;

verus! {

/// The characters of one level of indentation.
pub open spec fn indent_unit() -> Seq<char> {
    seq![' ', ' ']
}

/// `depth` levels of indentation: two spaces per level.
pub open spec fn indent_text(depth: nat) -> Seq<char>
    decreases depth,
{
    if depth == 0 {
        Seq::empty()
    } else {
        indent_text((depth - 1) as nat) + indent_unit()
    }
}

/// The character that writes the digit `d`, for `d` below ten.
pub open spec fn digit_char(d: nat) -> char {
    if d == 0 {
        '0'
    } else if d == 1 {
        '1'
    } else if d == 2 {
        '2'
    } else if d == 3 {
        '3'
    } else if d == 4 {
        '4'
    } else if d == 5 {
        '5'
    } else if d == 6 {
        '6'
    } else if d == 7 {
        '7'
    } else if d == 8 {
        '8'
    } else {
        '9'
    }
}

/// The decimal numeral of `n`, without leading zeros.
pub open spec fn decimal(n: nat) -> Seq<char>
    decreases n,
{
    if n < 10 {
        seq![digit_char(n)]
    } else {
        decimal(n / 10).push(digit_char(n % 10))
    }
}

/// The decimal numeral of `n`, with a minus sign where `n` is negative.
pub open spec fn signed_decimal(n: int) -> Seq<char> {
    if n < 0 {
        seq!['-'] + decimal((-n) as nat)
    } else {
        decimal(n as nat)
    }
}

/// A nesting depth of the report.
#[derive(Clone, Copy, Debug)]
pub struct Indent(pub usize);

impl Indent {
    /// The depth `rhs` levels further in.
    pub fn add(self, rhs: usize) -> (deeper: Indent)
        requires
            self.0 + rhs <= usize::MAX,
        ensures
            deeper.0 == self.0 + rhs,
    {
        Indent(self.0 + rhs)
    }

    /// The leading whitespace of a line at this depth.
    pub fn to_text(&self) -> (out: String)
        ensures
            out@ == indent_text(self.0 as nat),
    {
        let mut out = String::new();
        let mut done: usize = 0;
        while done < self.0
            invariant
                done <= self.0,
                out@ == indent_text(done as nat),
            decreases self.0 - done,
        {
            proof {
                reveal_strlit("  ");
                assert("  "@ =~= indent_unit());
            }
            out.append("  ");
            done = done + 1;
        }
        out
    }
}

/// The one-character text of a digit.
fn digit_text(d: u64) -> (out: &'static str)
    requires
        d < 10,
    ensures
        out@ == seq![digit_char(d as nat)],
{
    proof {
        reveal_strlit("0");
        reveal_strlit("1");
        reveal_strlit("2");
        reveal_strlit("3");
        reveal_strlit("4");
        reveal_strlit("5");
        reveal_strlit("6");
        reveal_strlit("7");
        reveal_strlit("8");
        reveal_strlit("9");
    }
    let out = if d == 0 {
        "0"
    } else if d == 1 {
        "1"
    } else if d == 2 {
        "2"
    } else if d == 3 {
        "3"
    } else if d == 4 {
        "4"
    } else if d == 5 {
        "5"
    } else if d == 6 {
        "6"
    } else if d == 7 {
        "7"
    } else if d == 8 {
        "8"
    } else {
        "9"
    };
    assert(out@ =~= seq![digit_char(d as nat)]);
    out
}

/// Writes the decimal numeral of `n` at the end of `out`.
pub fn append_decimal(out: &mut String, n: u64)
    ensures
        final(out)@ == old(out)@ + decimal(n as nat),
    decreases n,
{
    if n >= 10 {
        append_decimal(out, n / 10);
    }
    out.append(digit_text(n % 10));
    assert(out@ =~= old(out)@ + decimal(n as nat));
}

/// The decimal numeral of `n`.
pub fn unsigned_text(n: u64) -> (out: String)
    ensures
        out@ == decimal(n as nat),
{
    let mut out = String::new();
    append_decimal(&mut out, n);
    assert(out@ =~= decimal(n as nat));
    out
}

/// The decimal numeral of `n`, with a minus sign where `n` is negative.
pub fn signed_text(n: i64) -> (out: String)
    ensures
        out@ == signed_decimal(n as int),
{
    let mut out = String::new();
    if n < 0 {
        proof {
            reveal_strlit("-");
        }
        out.append("-");
        let magnitude: u64 = if n == i64::MIN {
            9223372036854775808u64
        } else {
            (0 - n) as u64
        };
        append_decimal(&mut out, magnitude);
        assert(out@ =~= signed_decimal(n as int));
    } else {
        append_decimal(&mut out, n as u64);
        assert(out@ =~= signed_decimal(n as int));
    }
    out
}

/// `prefix` followed by `value`.
pub fn concat2(prefix: &str, value: &str) -> (out: String)
    ensures
        out@ == prefix@ + value@,
{
    let mut out = String::from_str(prefix);
    out.append(value);
    out
}

/// A report line: the indentation of `indent`, then `label`, then `value`.
pub fn indented(indent: Indent, label: &str, value: &str) -> (out: String)
    ensures
        out@ == indent_text(indent.0 as nat) + label@ + value@,
{
    let mut out = indent.to_text();
    out.append(label);
    out.append(value);
    out
}

/// The line of an optional field: `label` and the value where the field is
/// present, no line where it is absent.
pub open spec fn optional_line(indent: nat, label: Seq<char>, value: Option<Seq<char>>) -> Seq<
    Seq<char>,
> {
    match value {
        Some(text) => seq![indent_text(indent) + label + text],
        None => Seq::empty(),
    }
}

/// The lines of the first `n` of a list of optional fields, each with its
/// label, at depth zero: one line for each field that is present, in the
/// order of the list.
pub open spec fn optional_lines_upto(fields: Seq<(Seq<char>, Option<Seq<char>>)>, n: nat) -> Seq<
    Seq<char>,
>
    decreases n,
{
    if n == 0 {
        Seq::empty()
    } else {
        optional_lines_upto(fields, (n - 1) as nat) + optional_line(
            0,
            fields[n - 1].0,
            fields[n - 1].1,
        )
    }
}

/// The lines of a list of optional fields.
pub open spec fn optional_lines(fields: Seq<(Seq<char>, Option<Seq<char>>)>) -> Seq<Seq<char>> {
    optional_lines_upto(fields, fields.len())
}

/// Adds one line at the end of a report.
pub fn push_line(lines: &mut Vec<String>, line: String)
    ensures
        final(lines).deep_view() == old(lines).deep_view().push(line@),
{
    lines.push(line);
    assert(lines.deep_view() =~= old(lines).deep_view().push(line@));
}

/// Moves the lines of `more` to the end of a report.
pub fn push_lines(lines: &mut Vec<String>, more: Vec<String>)
    ensures
        final(lines).deep_view() == old(lines).deep_view() + more.deep_view(),
{
    let mut more = more;
    let ghost added = more.deep_view();
    lines.append(&mut more);
    assert(lines.deep_view() =~= old(lines).deep_view() + added);
}

/// Adds the line of an optional field at the end of a report, where the
/// field is present.
pub fn push_optional(lines: &mut Vec<String>, indent: Indent, label: &str, value: &Option<String>)
    ensures
        final(lines).deep_view() == old(lines).deep_view() + optional_line(
            indent.0 as nat,
            label@,
            value.deep_view(),
        ),
{
    match value {
        Some(text) => {
            push_line(lines, indented(indent, label, text.as_str()));
        },
        None => {},
    }
    assert(lines.deep_view() =~= old(lines).deep_view() + optional_line(
        indent.0 as nat,
        label@,
        value.deep_view(),
    ));
}

} // verus!
