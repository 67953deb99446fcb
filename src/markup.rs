//! Presentation blocks that a formatter renders for each record.

use vstd::prelude::*;
use vstd::string::*;
use crate::document::{
    parent_of, strings_view, Attributes, DocInnerData, Documentation, FnKind, ModPath, TraitItem,
    TraitItemKind, Visibility,
};

verus! {

/// The segments of a path joined with `::`.
pub open spec fn join_with(segs: Seq<Seq<char>>, sep: Seq<char>) -> Seq<char>
    decreases segs.len(),
{
    if segs.len() == 0 {
        seq![]
    } else if segs.len() == 1 {
        segs[0]
    } else {
        join_with(segs.drop_last(), sep) + sep + segs.last()
    }
}

fn join_strings(v: &Vec<String>, sep: &str) -> (r: String)
    ensures
        r@ == join_with(strings_view(v@), sep@),
{
    let mut r = String::new();
    let mut i: usize = 0;
    while i < v.len()
        invariant
            i <= v.len(),
            r@ == join_with(strings_view(v@.subrange(0, i as int)), sep@),
        decreases v.len() - i,
    {
        if i > 0 {
            r.append(sep);
        }
        r.append(v[i].as_str());
        assert(strings_view(v@.subrange(0, i + 1)).drop_last() =~= strings_view(v@.subrange(0, i as int)));
        i = i + 1;
    }
    assert(v@.subrange(0, v.len() as int) =~= v@);
    r
}

/// A block of presentation output.
#[derive(Debug)]
pub enum Markup {
    Header(String),
    Section(String),
    Block(String),
    Markdown(String),
    Rule(usize),
    LineBreak,
}

/// A sequence of presentation blocks.
#[derive(Debug)]
pub struct MarkupDoc {
    pub parts: Vec<Markup>,
}

impl MarkupDoc {
    pub fn new(parts: Vec<Markup>) -> (r: MarkupDoc)
        ensures
            r.parts@ == parts@,
    {
        MarkupDoc { parts }
    }
}

/// Turns a documented value into presentation blocks.
pub trait Format {
    fn format(&self) -> MarkupDoc;
}

/// A module path as text: its segments joined with `::`.
pub open spec fn path_text(p: Seq<Seq<char>>) -> Seq<char> {
    join_with(p, "::"@)
}

pub fn path_to_string(p: &ModPath) -> (r: String)
    ensures
        r@ == path_text(p@),
{
    join_strings(&p.segments, "::")
}

/// The label of a record's kind.
pub open spec fn kind_label(d: DocInnerData) -> Seq<char> {
    match d {
        DocInnerData::FnDoc(..) => "Function"@,
        DocInnerData::StructDoc(..) => "Struct"@,
        DocInnerData::ConstDoc(..) => "Constant"@,
        DocInnerData::EnumDoc(..) => "Enum"@,
        DocInnerData::TraitDoc(..) => "Trait"@,
        DocInnerData::TraitItemDoc(..) => "Trait Item"@,
        DocInnerData::ModuleDoc(..) => "Module"@,
    }
}

fn kind_label_str(d: &DocInnerData) -> (r: &'static str)
    ensures
        r@ == kind_label(*d),
{
    match d {
        DocInnerData::FnDoc(..) => "Function",
        DocInnerData::StructDoc(..) => "Struct",
        DocInnerData::ConstDoc(..) => "Constant",
        DocInnerData::EnumDoc(..) => "Enum",
        DocInnerData::TraitDoc(..) => "Trait",
        DocInnerData::TraitItemDoc(..) => "Trait Item",
        DocInnerData::ModuleDoc(..) => "Module",
    }
}

/// The header of a record: its kind and its module path.
pub fn doc_header(data: &Documentation) -> (r: MarkupDoc)
    ensures
        r.parts@.len() == 1,
        r.parts@[0] matches Markup::Header(t) && t@ == kind_label(data.inner_data) + " "@
            + path_text(data.mod_path@),
{
    let mut t = String::new();
    t.append(kind_label_str(&data.inner_data));
    t.append(" ");
    t.append(path_to_string(&data.mod_path).as_str());
    MarkupDoc::new(vec![Markup::Header(t)])
}

/// The text of a module path's parent; empty for the root.
pub open spec fn parent_text(p: Seq<Seq<char>>) -> Seq<char> {
    match parent_of(p) {
        Some(q) => path_text(q),
        None => seq![],
    }
}

fn parent_to_string(p: &ModPath) -> (r: String)
    ensures
        r@ == parent_text(p@),
{
    match p.parent() {
        Some(q) => path_to_string(&q),
        None => String::new(),
    }
}

/// Where a method comes from: its impl's type, or its trait.
pub fn doc_inner_info(data: &Documentation) -> (r: MarkupDoc)
    ensures
        r.parts@.len() == 1,
        match data.inner_data {
            DocInnerData::FnDoc(f) => if f.kind == FnKind::MethodFromImpl {
                r.parts@[0] matches Markup::Header(t) && t@ == "Impl on type "@ + parent_text(
                    data.mod_path@,
                )
            } else {
                r.parts@[0] is LineBreak
            },
            DocInnerData::TraitItemDoc(..) => r.parts@[0] matches Markup::Header(t) && t@
                == "From trait "@ + parent_text(data.mod_path@),
            _ => r.parts@[0] is LineBreak,
        },
{
    let markup = match &data.inner_data {
        DocInnerData::FnDoc(func) => {
            match func.kind {
                FnKind::MethodFromImpl => {
                    let mut t = String::new();
                    t.append("Impl on type ");
                    t.append(parent_to_string(&data.mod_path).as_str());
                    Markup::Header(t)
                },
                _ => Markup::LineBreak,
            }
        },
        DocInnerData::TraitItemDoc(..) => {
            let mut t = String::new();
            t.append("From trait ");
            t.append(parent_to_string(&data.mod_path).as_str());
            Markup::Header(t)
        },
        _ => Markup::LineBreak,
    };
    MarkupDoc::new(vec![markup])
}

/// The keyword shown for a visibility; nothing where it is absent.
pub open spec fn visibility_text(v: Option<Visibility>) -> Seq<char> {
    match v {
        Some(Visibility::Public) => "pub"@,
        Some(Visibility::Inherited) => seq![],
        Some(Visibility::Private) => "priv"@,
        None => seq![],
    }
}

fn visibility_str(v: Option<Visibility>) -> (r: &'static str)
    ensures
        r@ == visibility_text(v),
{
    proof {
        reveal_strlit("");
    }
    match v {
        Some(Visibility::Public) => "pub",
        Some(Visibility::Inherited) => "",
        Some(Visibility::Private) => "priv",
        None => "",
    }
}

pub open spec fn opt_or_empty(o: Option<String>) -> Seq<char> {
    match o {
        Some(s) => s@,
        None => seq![],
    }
}

/// The signature line of a trait member.
pub open spec fn trait_item_text(name: Seq<char>, k: TraitItemKind) -> Seq<char> {
    match k {
        TraitItemKind::Const(ty, e) => "const "@ + name + ": "@ + ty@ + " = "@ + opt_or_empty(e),
        TraitItemKind::Method(sig) => "fn "@ + name + " "@ + sig.header@,
        TraitItemKind::Type(t) => "type "@ + opt_or_empty(t),
        TraitItemKind::Macro(m) => "macro "@ + name + " "@ + m@,
    }
}

fn append_opt(t: &mut String, o: &Option<String>)
    ensures
        final(t)@ == old(t)@ + opt_or_empty(*o),
{
    match o {
        Some(s) => t.append(s.as_str()),
        None => {
            assert(old(t)@ + opt_or_empty(*o) =~= old(t)@);
        },
    }
}

/// The signature line of a trait member named like `data`.
pub fn trait_item(data: &Documentation, item: &TraitItem) -> (r: String)
    ensures
        r@ == trait_item_text(data.name@, item.node),
{
    let mut t = String::new();
    match &item.node {
        TraitItemKind::Const(ty, e) => {
            t.append("const ");
            t.append(data.name.as_str());
            t.append(": ");
            t.append(ty.as_str());
            t.append(" = ");
            append_opt(&mut t, e);
        },
        TraitItemKind::Method(sig) => {
            t.append("fn ");
            t.append(data.name.as_str());
            t.append(" ");
            t.append(sig.header.as_str());
        },
        TraitItemKind::Type(ty) => {
            t.append("type ");
            append_opt(&mut t, ty);
        },
        TraitItemKind::Macro(m) => {
            t.append("macro ");
            t.append(data.name.as_str());
            t.append(" ");
            t.append(m.as_str());
        },
    }
    t
}

/// The declaration line of a record.
pub open spec fn signature_text(data: Documentation) -> Seq<char> {
    match data.inner_data {
        DocInnerData::FnDoc(f) => "fn "@ + data.name@ + " "@ + f.header@,
        DocInnerData::ModuleDoc(..) => "mod "@ + path_text(data.mod_path@),
        DocInnerData::EnumDoc(..) => "enum "@ + data.name@,
        DocInnerData::StructDoc(..) => "struct "@ + data.name@ + " { /* fields omitted */ }"@,
        DocInnerData::ConstDoc(c) => "const "@ + data.name@ + ": "@ + c.ty@ + " = "@ + c.expr@,
        DocInnerData::TraitDoc(..) => "trait "@ + data.name@ + " { /* fields omitted */ }"@,
        DocInnerData::TraitItemDoc(i) => trait_item_text(data.name@, i.node),
    }
}

fn signature_string(data: &Documentation) -> (r: String)
    ensures
        r@ == signature_text(*data),
{
    let mut t = String::new();
    match &data.inner_data {
        DocInnerData::FnDoc(f) => {
            t.append("fn ");
            t.append(data.name.as_str());
            t.append(" ");
            t.append(f.header.as_str());
        },
        DocInnerData::ModuleDoc(..) => {
            t.append("mod ");
            t.append(path_to_string(&data.mod_path).as_str());
        },
        DocInnerData::EnumDoc(..) => {
            t.append("enum ");
            t.append(data.name.as_str());
        },
        DocInnerData::StructDoc(..) => {
            t.append("struct ");
            t.append(data.name.as_str());
            t.append(" { /* fields omitted */ }");
        },
        DocInnerData::ConstDoc(c) => {
            t.append("const ");
            t.append(data.name.as_str());
            t.append(": ");
            t.append(c.ty.as_str());
            t.append(" = ");
            t.append(c.expr.as_str());
        },
        DocInnerData::TraitDoc(..) => {
            t.append("trait ");
            t.append(data.name.as_str());
            t.append(" { /* fields omitted */ }");
        },
        DocInnerData::TraitItemDoc(i) => {
            t.append(trait_item(data, i).as_str());
        },
    }
    t
}

/// The declaration of a record between two rules.
pub fn doc_signature(data: &Documentation) -> (r: MarkupDoc)
    ensures
        r.parts@.len() == 6,
        r.parts@[0] matches Markup::Rule(n) && n == 10,
        r.parts@[1] is LineBreak,
        r.parts@[2] matches Markup::Block(t) && t@ == "  "@ + visibility_text(data.visibility)
            + " "@ + signature_text(*data),
        r.parts@[3] is LineBreak,
        r.parts@[4] matches Markup::Rule(n) && n == 10,
        r.parts@[5] is LineBreak,
{
    let mut t = String::new();
    t.append("  ");
    t.append(visibility_str(data.visibility));
    t.append(" ");
    t.append(signature_string(data).as_str());
    MarkupDoc::new(
        vec![
            Markup::Rule(10),
            Markup::LineBreak,
            Markup::Block(t),
            Markup::LineBreak,
            Markup::Rule(10),
            Markup::LineBreak,
        ],
    )
}

/// The doc comments of an attribute list, one per line.
pub fn attributes_markup(attrs: &Attributes) -> (r: MarkupDoc)
    ensures
        r.parts@.len() == 1,
        r.parts@[0] matches Markup::Markdown(t) && t@ == join_with(attrs@, "\n"@),
{
    MarkupDoc::new(vec![Markup::Markdown(join_strings(&attrs.doc_strings, "\n"))])
}

/// The body of a record: its doc comments.
pub fn doc_body(data: &Documentation) -> (r: MarkupDoc)
    ensures
        r.parts@.len() == 1,
        r.parts@[0] matches Markup::Markdown(t) && t@ == join_with(data.attrs@, "\n"@),
{
    attributes_markup(&data.attrs)
}

fn append_parts(dst: &mut Vec<Markup>, src: MarkupDoc)
    ensures
        final(dst)@ == old(dst)@ + src.parts@,
{
    let mut parts = src.parts;
    dst.append(&mut parts);
}

/// All blocks of a record: header, origin, declaration and body, in that order.
pub fn format_record(data: &Documentation) -> (r: MarkupDoc)
    ensures
        r.parts@.len() == 9,
        r.parts@[0] matches Markup::Header(t) && t@ == kind_label(data.inner_data) + " "@
            + path_text(data.mod_path@),
        r.parts@[4] matches Markup::Block(t) && t@ == "  "@ + visibility_text(data.visibility)
            + " "@ + signature_text(*data),
        r.parts@[8] matches Markup::Markdown(t) && t@ == join_with(data.attrs@, "\n"@),
{
    let mut result: Vec<Markup> = Vec::new();
    append_parts(&mut result, doc_header(data));
    append_parts(&mut result, doc_inner_info(data));
    append_parts(&mut result, doc_signature(data));
    append_parts(&mut result, doc_body(data));
    MarkupDoc::new(result)
}

impl Format for Documentation {
    fn format(&self) -> MarkupDoc {
        format_record(self)
    }
}

impl Format for ModPath {
    fn format(&self) -> MarkupDoc {
        MarkupDoc::new(vec![Markup::Header(path_to_string(self))])
    }
}

impl Format for Attributes {
    fn format(&self) -> MarkupDoc {
        attributes_markup(self)
    }
}

} // verus!
