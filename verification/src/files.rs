//! Associated files: how the report lists them, and how the structured
//! notation shows one inside another record.

use vstd::prelude::*;
use vstd::string::StringExecFns;
use crate::dump::{
    debug_field, debug_option, debug_struct, field_text, list_text, option_quoted_text,
    option_text, optional_list_debug, optional_quoted, struct_text,
};
use crate::text::{
    decimal, indent_text, indented, optional_line, push_line, push_lines, push_optional,
    signed_decimal, signed_text, unsigned_text, Indent,
};

verus! {

/// The kind of an associated file, by its code in the schema.
#[derive(Clone, Copy, Debug, PartialEq, Eq)]
pub struct AssociatedFileType(pub i8);

/// A file that travels with the model.
#[derive(Clone, Debug)]
pub struct AssociatedFile {
    pub name: Option<String>,
    pub description: Option<String>,
    pub type_: AssociatedFileType,
    pub locale: Option<String>,
    pub version: Option<String>,
}

/// What an associated file holds.
pub struct AssociatedFileView {
    pub name: Option<Seq<char>>,
    pub description: Option<Seq<char>>,
    pub type_: AssociatedFileType,
    pub locale: Option<Seq<char>>,
    pub version: Option<Seq<char>>,
}

impl DeepView for AssociatedFile {
    type V = AssociatedFileView;

    open spec fn deep_view(&self) -> AssociatedFileView {
        AssociatedFileView {
            name: self.name.deep_view(),
            description: self.description.deep_view(),
            type_: self.type_,
            locale: self.locale.deep_view(),
            version: self.version.deep_view(),
        }
    }
}

/// What the report shows for a name: the name, or a placeholder where there
/// is none.
pub open spec fn name_or_unnamed(name: Option<Seq<char>>) -> Seq<char> {
    match name {
        Some(n) => n,
        None => "<unnamed>"@,
    }
}

/// What the report shows for a code that the schema does not name.
pub open spec fn unknown_code(code: int) -> Seq<char> {
    "<UNKNOWN "@ + signed_decimal(code) + ">"@
}

/// The name of a file kind.
pub open spec fn file_type_name(t: AssociatedFileType) -> Seq<char> {
    if t.0 == 0 {
        "UNKNOWN"@
    } else if t.0 == 1 {
        "DESCRIPTIONS"@
    } else if t.0 == 2 {
        "TENSOR_AXIS_LABELS"@
    } else if t.0 == 3 {
        "TENSOR_VALUE_LABELS"@
    } else if t.0 == 4 {
        "TENSOR_AXIS_SCORE_CALIBRATION"@
    } else if t.0 == 5 {
        "VOCABULARY"@
    } else if t.0 == 6 {
        "SCANN_INDEX_FILE"@
    } else {
        unknown_code(t.0 as int)
    }
}

/// The lines of one file in a listing at depth `indent`: the name, then the
/// description where present, the kind, and the locale and the version where
/// present.
pub open spec fn assoc_file_lines(indent: nat, f: AssociatedFileView) -> Seq<Seq<char>> {
    seq![indent_text(indent) + "- name: "@ + name_or_unnamed(f.name)] + optional_line(
        indent,
        "  description: "@,
        f.description,
    ) + seq![indent_text(indent) + "  type: "@ + file_type_name(f.type_)] + optional_line(
        indent,
        "  locale: "@,
        f.locale,
    ) + optional_line(indent, "  version: "@, f.version)
}

/// The lines of the first `n` files of a listing, in order.
pub open spec fn assoc_files_lines_upto(
    indent: nat,
    files: Seq<AssociatedFileView>,
    n: nat,
) -> Seq<Seq<char>>
    decreases n,
{
    if n == 0 {
        Seq::empty()
    } else {
        assoc_files_lines_upto(indent, files, (n - 1) as nat) + assoc_file_lines(
            indent,
            files[n - 1],
        )
    }
}

/// The listing of `files` at depth `indent`.
pub open spec fn assoc_files_lines(indent: nat, files: Seq<AssociatedFileView>) -> Seq<Seq<char>> {
    assoc_files_lines_upto(indent, files, files.len())
}

/// A file list with its heading, at depth `depth`: the number of files, then
/// the listing.
pub open spec fn assoc_section(depth: nat, files: Seq<AssociatedFileView>) -> Seq<Seq<char>> {
    seq![indent_text(depth) + decimal(files.len()) + " associated file(s):"@] + assoc_files_lines(
        depth,
        files,
    )
}

/// An optional file list with its heading, at depth `depth`: nothing where
/// there is no list.
pub open spec fn optional_assoc_section(depth: nat, files: Option<Seq<AssociatedFileView>>) -> Seq<
    Seq<char>,
> {
    match files {
        Some(list) => assoc_section(depth, list),
        None => Seq::empty(),
    }
}

/// A file in the structured notation.
pub open spec fn assoc_file_debug(f: AssociatedFileView) -> Seq<char> {
    debug_struct(
        "AssociatedFile"@,
        seq![
            debug_field("name"@, debug_option(optional_quoted(f.name))),
            debug_field("description"@, debug_option(optional_quoted(f.description))),
            debug_field("type_"@, file_type_name(f.type_)),
            debug_field("locale"@, debug_option(optional_quoted(f.locale))),
            debug_field("version"@, debug_option(optional_quoted(f.version))),
        ],
    )
}

/// The files of a list, each in the structured notation.
pub open spec fn assoc_file_debugs(files: Seq<AssociatedFileView>) -> Seq<Seq<char>> {
    Seq::new(files.len(), |i: int| assoc_file_debug(files[i]))
}

/// An optional file list in the structured notation.
pub open spec fn optional_files_debug(files: Option<Seq<AssociatedFileView>>) -> Seq<char> {
    optional_list_debug(
        match files {
            Some(list) => Some(assoc_file_debugs(list)),
            None => None,
        },
    )
}

/// The name, or the placeholder where there is none.
pub fn name_text(name: &Option<String>) -> (out: String)
    ensures
        out@ == name_or_unnamed(name.deep_view()),
{
    match name {
        Some(n) => n.clone(),
        None => String::from_str("<unnamed>"),
    }
}

/// What the report shows for a code that the schema does not name.
pub fn unknown_code_text(code: i64) -> (out: String)
    ensures
        out@ == unknown_code(code as int),
{
    let mut out = String::from_str("<UNKNOWN ");
    out.append(signed_text(code).as_str());
    out.append(">");
    out
}

/// The name of a file kind.
pub fn file_type_text(t: AssociatedFileType) -> (out: String)
    ensures
        out@ == file_type_name(t),
{
    if t.0 == 0 {
        String::from_str("UNKNOWN")
    } else if t.0 == 1 {
        String::from_str("DESCRIPTIONS")
    } else if t.0 == 2 {
        String::from_str("TENSOR_AXIS_LABELS")
    } else if t.0 == 3 {
        String::from_str("TENSOR_VALUE_LABELS")
    } else if t.0 == 4 {
        String::from_str("TENSOR_AXIS_SCORE_CALIBRATION")
    } else if t.0 == 5 {
        String::from_str("VOCABULARY")
    } else if t.0 == 6 {
        String::from_str("SCANN_INDEX_FILE")
    } else {
        unknown_code_text(t.0 as i64)
    }
}

/// Reports one file at depth `indent`.
pub fn render_assoc_file(indent: Indent, file: &AssociatedFile) -> (lines: Vec<String>)
    ensures
        lines.deep_view() == assoc_file_lines(indent.0 as nat, file.deep_view()),
{
    let ghost depth = indent.0 as nat;
    let ghost f = file.deep_view();
    let mut lines: Vec<String> = Vec::new();
    push_line(&mut lines, indented(indent, "- name: ", name_text(&file.name).as_str()));
    assert(lines.deep_view() =~= seq![indent_text(depth) + "- name: "@ + name_or_unnamed(f.name)]);
    push_optional(&mut lines, indent, "  description: ", &file.description);
    let ghost described = lines.deep_view();
    push_line(&mut lines, indented(indent, "  type: ", file_type_text(file.type_).as_str()));
    assert(lines.deep_view() =~= described + seq![
        indent_text(depth) + "  type: "@ + file_type_name(f.type_),
    ]);
    push_optional(&mut lines, indent, "  locale: ", &file.locale);
    push_optional(&mut lines, indent, "  version: ", &file.version);
    lines
}

/// Lists `files` at depth `indent`.
pub fn render_assoc_files(indent: Indent, files: &Vec<AssociatedFile>) -> (lines: Vec<String>)
    ensures
        lines.deep_view() == assoc_files_lines(indent.0 as nat, files.deep_view()),
{
    let mut lines: Vec<String> = Vec::new();
    let mut i: usize = 0;
    assert(lines.deep_view() =~= assoc_files_lines_upto(indent.0 as nat, files.deep_view(), 0));
    while i < files.len()
        invariant
            i <= files.len(),
            lines.deep_view() == assoc_files_lines_upto(
                indent.0 as nat,
                files.deep_view(),
                i as nat,
            ),
        decreases files.len() - i,
    {
        assert(files.deep_view()[i as int] == files[i as int].deep_view());
        push_lines(&mut lines, render_assoc_file(indent, &files[i]));
        i = i + 1;
    }
    lines
}

/// Reports a file list with its heading, at depth `depth`.
pub fn render_assoc_section(depth: Indent, files: &Vec<AssociatedFile>) -> (lines: Vec<String>)
    ensures
        lines.deep_view() == assoc_section(depth.0 as nat, files.deep_view()),
{
    let mut lines: Vec<String> = Vec::new();
    let count = unsigned_text(files.len() as u64);
    push_line(&mut lines, indented(depth, count.as_str(), " associated file(s):"));
    push_lines(&mut lines, render_assoc_files(depth, files));
    assert(lines.deep_view() =~= assoc_section(depth.0 as nat, files.deep_view()));
    lines
}

/// Reports an optional file list with its heading, at depth `depth`.
pub fn render_optional_assoc_section(depth: Indent, files: &Option<Vec<AssociatedFile>>) -> (lines:
    Vec<String>)
    ensures
        lines.deep_view() == optional_assoc_section(depth.0 as nat, files.deep_view()),
{
    match files {
        Some(list) => render_assoc_section(depth, list),
        None => {
            let lines: Vec<String> = Vec::new();
            assert(lines.deep_view() =~= Seq::<Seq<char>>::empty());
            lines
        },
    }
}

/// Writes a file in the structured notation.
pub fn assoc_file_text(f: &AssociatedFile) -> (out: String)
    ensures
        out@ == assoc_file_debug(f.deep_view()),
{
    let mut fields: Vec<String> = Vec::new();
    fields.push(field_text("name", option_quoted_text(&f.name).as_str()));
    fields.push(field_text("description", option_quoted_text(&f.description).as_str()));
    fields.push(field_text("type_", file_type_text(f.type_).as_str()));
    fields.push(field_text("locale", option_quoted_text(&f.locale).as_str()));
    fields.push(field_text("version", option_quoted_text(&f.version).as_str()));
    assert(fields.deep_view() =~= seq![
        debug_field("name"@, debug_option(optional_quoted(f.deep_view().name))),
        debug_field("description"@, debug_option(optional_quoted(f.deep_view().description))),
        debug_field("type_"@, file_type_name(f.type_)),
        debug_field("locale"@, debug_option(optional_quoted(f.deep_view().locale))),
        debug_field("version"@, debug_option(optional_quoted(f.deep_view().version))),
    ]);
    struct_text("AssociatedFile", &fields)
}

/// Writes an optional file list in the structured notation.
pub fn optional_files_text(files: &Option<Vec<AssociatedFile>>) -> (out: String)
    ensures
        out@ == optional_files_debug(files.deep_view()),
{
    match files {
        Some(list) => {
            let mut texts: Vec<String> = Vec::new();
            let mut i: usize = 0;
            while i < list.len()
                invariant
                    i <= list.len(),
                    texts.len() == i,
                    forall|j: int|
                        0 <= j < i ==> texts[j]@ == assoc_file_debug(list[j].deep_view()),
                decreases list.len() - i,
            {
                texts.push(assoc_file_text(&list[i]));
                i = i + 1;
            }
            assert(texts.deep_view() =~= assoc_file_debugs(list.deep_view()));
            let inner = Some(list_text(&texts));
            option_text(&inner)
        },
        None => {
            let inner: Option<String> = None;
            option_text(&inner)
        },
    }
}

} // verus!
