//! Conversion of the frontend's module tree into documentation records.

use vstd::prelude::*;
use vstd::std_specs::vec::axiom_vec_index_decreases;
use crate::store::Store;
use crate::document::{
    copy_strings, Abi, Attributes, Constant, Constness, CrateInfo, DocInnerData, DocLink,
    DocType, Documentation, FnKind, Function, Generics, LinkGroup, MethodSig, ModPath, Module,
    Struct, Trait, TraitItem, TraitItemKind, Unsafety, Visibility,
};

verus! {

broadcast use axiom_vec_index_decreases;

/// Visibility as the frontend reports it.
#[derive(Clone, Copy, Debug, PartialEq, Eq, Structural)]
pub enum SourceVisibility {
    Public,
    Crate,
    Restricted,
    Inherited,
}

#[derive(Clone, Copy, Debug, PartialEq, Eq, Structural)]
pub enum SourceUnsafety {
    Normal,
    Unsafe,
}

#[derive(Clone, Copy, Debug, PartialEq, Eq, Structural)]
pub enum SourceConstness {
    Const,
    NotConst,
}

/// Calling convention as the frontend reports it.
#[derive(Clone, Copy, Debug, PartialEq, Eq, Structural)]
pub enum SourceAbi {
    Cdecl,
    Stdcall,
    Fastcall,
    Vectorcall,
    Aapcs,
    Win64,
    SysV64,
    PtxKernel,
    Msp430Interrupt,
    Rust,
    C,
    System,
    RustIntrinsic,
    RustCall,
    PlatformIntrinsic,
    Unadjusted,
}

/// Read-only configuration passed to every conversion.
#[derive(Debug)]
pub struct Context {
    pub store_path: String,
    pub crate_info: CrateInfo,
}

pub open spec fn visibility_of(v: SourceVisibility) -> Visibility {
    match v {
        SourceVisibility::Public => Visibility::Public,
        SourceVisibility::Inherited => Visibility::Inherited,
        _ => Visibility::Private,
    }
}

pub open spec fn unsafety_of(u: SourceUnsafety) -> Unsafety {
    match u {
        SourceUnsafety::Normal => Unsafety::Normal,
        SourceUnsafety::Unsafe => Unsafety::Unsafe,
    }
}

pub open spec fn constness_of(c: SourceConstness) -> Constness {
    match c {
        SourceConstness::Const => Constness::Const,
        SourceConstness::NotConst => Constness::NotConst,
    }
}

pub open spec fn abi_of(a: SourceAbi) -> Abi {
    match a {
        SourceAbi::Cdecl => Abi::Cdecl,
        SourceAbi::Stdcall => Abi::Stdcall,
        SourceAbi::Fastcall => Abi::Fastcall,
        SourceAbi::Vectorcall => Abi::Vectorcall,
        SourceAbi::Aapcs => Abi::Aapcs,
        SourceAbi::Win64 => Abi::Win64,
        SourceAbi::SysV64 => Abi::SysV64,
        SourceAbi::PtxKernel => Abi::PtxKernel,
        SourceAbi::Msp430Interrupt => Abi::Msp430Interrupt,
        SourceAbi::Rust => Abi::Rust,
        SourceAbi::C => Abi::C,
        SourceAbi::System => Abi::System,
        SourceAbi::RustIntrinsic => Abi::RustIntrinsic,
        SourceAbi::RustCall => Abi::RustCall,
        SourceAbi::PlatformIntrinsic => Abi::PlatformIntrinsic,
        SourceAbi::Unadjusted => Abi::Unadjusted,
    }
}

/// Public and inherited keep their meaning; every other visibility is private.
pub fn convert_visibility(v: SourceVisibility, context: &Context) -> (r: Visibility)
    ensures
        r == visibility_of(v),
{
    match v {
        SourceVisibility::Public => Visibility::Public,
        SourceVisibility::Inherited => Visibility::Inherited,
        _ => Visibility::Private,
    }
}

pub fn convert_unsafety(u: SourceUnsafety, context: &Context) -> (r: Unsafety)
    ensures
        r == unsafety_of(u),
{
    match u {
        SourceUnsafety::Normal => Unsafety::Normal,
        SourceUnsafety::Unsafe => Unsafety::Unsafe,
    }
}

pub fn convert_constness(c: SourceConstness, context: &Context) -> (r: Constness)
    ensures
        r == constness_of(c),
{
    match c {
        SourceConstness::Const => Constness::Const,
        SourceConstness::NotConst => Constness::NotConst,
    }
}

pub fn convert_abi(a: SourceAbi, context: &Context) -> (r: Abi)
    ensures
        r == abi_of(a),
{
    match a {
        SourceAbi::Cdecl => Abi::Cdecl,
        SourceAbi::Stdcall => Abi::Stdcall,
        SourceAbi::Fastcall => Abi::Fastcall,
        SourceAbi::Vectorcall => Abi::Vectorcall,
        SourceAbi::Aapcs => Abi::Aapcs,
        SourceAbi::Win64 => Abi::Win64,
        SourceAbi::SysV64 => Abi::SysV64,
        SourceAbi::PtxKernel => Abi::PtxKernel,
        SourceAbi::Msp430Interrupt => Abi::Msp430Interrupt,
        SourceAbi::Rust => Abi::Rust,
        SourceAbi::C => Abi::C,
        SourceAbi::System => Abi::System,
        SourceAbi::RustIntrinsic => Abi::RustIntrinsic,
        SourceAbi::RustCall => Abi::RustCall,
        SourceAbi::PlatformIntrinsic => Abi::PlatformIntrinsic,
        SourceAbi::Unadjusted => Abi::Unadjusted,
    }
}

/// The calling-convention mapping is one to one: distinct conventions stay distinct.
pub proof fn abi_mapping_injective(a: SourceAbi, b: SourceAbi)
    ensures
        abi_of(a) == abi_of(b) <==> a == b,
{
}

/// A constant as the frontend reports it, with its type and value as source text.
#[derive(Debug)]
pub struct SourceConst {
    pub ident: String,
    pub attrs: Attributes,
    pub path: ModPath,
    pub vis: SourceVisibility,
    pub ty: String,
    pub expr: String,
}

/// A function as the frontend reports it; `decl` is the source text of its
/// parameters and return type.
#[derive(Debug)]
pub struct SourceFn {
    pub ident: String,
    pub attrs: Attributes,
    pub path: ModPath,
    pub vis: SourceVisibility,
    pub decl: String,
    pub unsafety: SourceUnsafety,
    pub constness: SourceConstness,
    pub abi: SourceAbi,
}

#[derive(Debug)]
pub struct SourceMethodSig {
    pub unsafety: SourceUnsafety,
    pub constness: SourceConstness,
    pub abi: SourceAbi,
    pub decl: String,
}

/// The syntactic kind of a trait member: a constant (type, optional value), a
/// method, an associated type (optional default type) or a macro invocation.
#[derive(Debug)]
pub enum SourceTraitItemKind {
    Const(String, Option<String>),
    Method(SourceMethodSig),
    Type(Option<String>),
    Macro(String),
}

#[derive(Debug)]
pub struct SourceTraitItem {
    pub ident: String,
    pub attrs: Attributes,
    pub path: ModPath,
    pub node: SourceTraitItemKind,
}

#[derive(Debug)]
pub struct SourceTrait {
    pub ident: String,
    pub attrs: Attributes,
    pub path: ModPath,
    pub vis: SourceVisibility,
    pub unsafety: SourceUnsafety,
    pub items: Vec<SourceTraitItem>,
}

#[derive(Debug)]
pub struct SourceStruct {
    pub ident: String,
    pub attrs: Attributes,
    pub path: ModPath,
    pub vis: SourceVisibility,
}

/// A module with its children partitioned by kind. The root module has no identifier.
#[derive(Debug)]
pub struct SourceModule {
    pub ident: Option<String>,
    pub attrs: Attributes,
    pub path: ModPath,
    pub vis: SourceVisibility,
    pub is_crate: bool,
    pub consts: Vec<SourceConst>,
    pub traits: Vec<SourceTrait>,
    pub fns: Vec<SourceFn>,
    pub mods: Vec<SourceModule>,
}

/// The fields that every record has.
pub open spec fn has_header(
    d: Documentation,
    name: Seq<char>,
    attrs: Seq<Seq<char>>,
    path: Seq<Seq<char>>,
    vis: Option<Visibility>,
) -> bool {
    &&& d.name@ == name
    &&& d.attrs@ == attrs
    &&& d.mod_path@ == path
    &&& d.visibility == vis
}

pub open spec fn const_record(c: SourceConst, d: Documentation) -> bool {
    &&& has_header(d, c.ident@, c.attrs@, c.path@, Some(visibility_of(c.vis)))
    &&& d.links@.len() == 0
    &&& d.inner_data matches DocInnerData::ConstDoc(k) && k.ty@ == c.ty@ && k.expr@ == c.expr@
}

pub open spec fn fn_record(f: SourceFn, d: Documentation) -> bool {
    &&& has_header(d, f.ident@, f.attrs@, f.path@, Some(visibility_of(f.vis)))
    &&& d.links@.len() == 0
    &&& d.inner_data matches DocInnerData::FnDoc(k) && k.header@ == f.decl@ && k.unsafety
        == unsafety_of(f.unsafety) && k.constness == constness_of(f.constness) && k.abi == abi_of(
        f.abi,
    ) && k.kind == FnKind::Function
}

pub open spec fn struct_record(s: SourceStruct, d: Documentation) -> bool {
    &&& has_header(d, s.ident@, s.attrs@, s.path@, Some(Visibility::Inherited))
    &&& d.links@.len() == 0
    &&& d.inner_data matches DocInnerData::StructDoc(k) && k.fields@.len() == 0
}

pub open spec fn sig_matches(s: SourceMethodSig, m: MethodSig) -> bool {
    &&& m.header@ == s.decl@
    &&& m.unsafety == unsafety_of(s.unsafety)
    &&& m.constness == constness_of(s.constness)
    &&& m.abi == abi_of(s.abi)
}

pub open spec fn opt_text(o: Option<String>) -> Option<Seq<char>> {
    match o {
        Some(s) => Some(s@),
        None => None,
    }
}

/// The signature-level content kept of a trait member.
pub open spec fn kind_matches(s: SourceTraitItemKind, k: TraitItemKind) -> bool {
    match s {
        SourceTraitItemKind::Const(ty, e) => k matches TraitItemKind::Const(t2, e2) && t2@ == ty@
            && opt_text(e2) == opt_text(e),
        SourceTraitItemKind::Method(sig) => k matches TraitItemKind::Method(m) && sig_matches(
            sig,
            m,
        ),
        SourceTraitItemKind::Type(t) => k matches TraitItemKind::Type(t2) && opt_text(t2)
            == opt_text(t),
        SourceTraitItemKind::Macro(mac) => k matches TraitItemKind::Macro(m2) && m2@ == mac@,
    }
}

pub open spec fn trait_item_record(i: SourceTraitItem, d: Documentation) -> bool {
    &&& has_header(d, i.ident@, i.attrs@, i.path@, Some(Visibility::Inherited))
    &&& d.links@.len() == 0
    &&& d.inner_data matches DocInnerData::TraitItemDoc(k) && kind_matches(i.node, k.node)
}

/// The link category of a trait member.
pub open spec fn doc_type_of(k: SourceTraitItemKind) -> DocType {
    match k {
        SourceTraitItemKind::Const(..) => DocType::TraitItemConst,
        SourceTraitItemKind::Method(..) => DocType::TraitItemMethod,
        SourceTraitItemKind::Type(..) => DocType::TraitItemType,
        SourceTraitItemKind::Macro(..) => DocType::TraitItemMacro,
    }
}

/// The (name, path) pairs of the members of category `k`, in source order.
pub open spec fn links_of_kind(items: Seq<SourceTraitItem>, k: DocType) -> Seq<
    (Seq<char>, Seq<Seq<char>>),
>
    decreases items.len(),
{
    if items.len() == 0 {
        seq![]
    } else {
        let prev = links_of_kind(items.drop_last(), k);
        let last = items.last();
        if doc_type_of(last.node) == k {
            prev.push((last.ident@, last.path@))
        } else {
            prev
        }
    }
}

pub open spec fn links_view(v: Seq<DocLink>) -> Seq<(Seq<char>, Seq<Seq<char>>)> {
    v.map_values(|l: DocLink| (l.name@, l.path@))
}

/// The four link groups of a trait: constants, methods, types and macros, in that order.
pub open spec fn classified(items: Seq<SourceTraitItem>, groups: Seq<LinkGroup>) -> bool {
    &&& groups.len() == 4
    &&& groups[0].kind == DocType::TraitItemConst
    &&& groups[1].kind == DocType::TraitItemMethod
    &&& groups[2].kind == DocType::TraitItemType
    &&& groups[3].kind == DocType::TraitItemMacro
    &&& forall|j: int|
        0 <= j < 4 ==> links_view(#[trigger] groups[j].links@) == links_of_kind(
            items,
            groups[j].kind,
        )
}

pub open spec fn trait_record(t: SourceTrait, d: Documentation) -> bool {
    &&& has_header(d, t.ident@, t.attrs@, t.path@, Some(visibility_of(t.vis)))
    &&& classified(t.items@, d.links@)
    &&& d.inner_data matches DocInnerData::TraitDoc(k) && k.unsafety == unsafety_of(t.unsafety)
}

/// The name of a module's record: its identifier, or the package name for the root.
pub open spec fn module_name(m: SourceModule, package: Seq<char>) -> Seq<char> {
    match m.ident {
        Some(id) => id@,
        None => package,
    }
}

pub open spec fn module_record(m: SourceModule, package: Seq<char>, d: Documentation) -> bool {
    &&& has_header(d, module_name(m, package), m.attrs@, m.path@, Some(visibility_of(m.vis)))
    &&& d.links@.len() == 0
    &&& d.inner_data matches DocInnerData::ModuleDoc(k) && k.is_crate == m.is_crate
}

/// The number of records of the submodules of `m` from index `i` on.
pub open spec fn submodule_count(m: SourceModule, i: int) -> nat
    decreases m, m.mods.len() - i,
    via submodule_count_decreases
{
    if i < 0 || i >= m.mods.len() {
        0
    } else {
        let c = m.mods[i];
        (c.consts.len() + c.traits.len() + c.fns.len() + submodule_count(c, 0) + 1
            + submodule_count(m, i + 1)) as nat
    }
}

#[via_fn]
proof fn submodule_count_decreases(m: SourceModule, i: int) {
    if 0 <= i < m.mods.len() {
        broadcast use vstd::std_specs::vec::axiom_vec_index_decreases;

        assert(decreases_to!(m.mods => m.mods[i]));
    }
}

/// Where the records of submodule `i` of `m` start in the conversion of `m`.
pub open spec fn sub_offset(m: SourceModule, i: int) -> int {
    m.consts.len() + m.traits.len() + m.fns.len() + submodule_count(m, 0) - submodule_count(m, i)
}

/// `docs` is the conversion of `m`: its constants, traits and functions in
/// order, then each submodule's own conversion in order, then the record of
/// `m` itself.
pub open spec fn converted(m: SourceModule, package: Seq<char>, docs: Seq<Documentation>) -> bool
    decreases m,
{
    &&& docs.len() == record_count(m)
    &&& module_record(m, package, docs.last())
    &&& forall|j: int| 0 <= j < m.consts.len() ==> const_record(m.consts[j], #[trigger] docs[j])
    &&& forall|j: int|
        0 <= j < m.traits.len() ==> trait_record(m.traits[j], #[trigger] docs[m.consts.len() + j])
    &&& forall|j: int|
        0 <= j < m.fns.len() ==> fn_record(
            m.fns[j],
            #[trigger] docs[m.consts.len() + m.traits.len() + j],
        )
    &&& forall|i: int|
        0 <= i < m.mods.len() ==> converted(
            #[trigger] m.mods[i],
            package,
            docs.subrange(sub_offset(m, i), sub_offset(m, i) + record_count(m.mods[i])),
        )
}

proof fn lemma_submodule_count_mono(m: SourceModule, a: int, b: int)
    requires
        0 <= a <= b,
    ensures
        submodule_count(m, a) >= submodule_count(m, b),
        a < m.mods.len() ==> submodule_count(m, a) == record_count(m.mods[a]) + submodule_count(
            m,
            a + 1,
        ),
    decreases b - a,
{
    if a < b {
        lemma_submodule_count_mono(m, a + 1, b);
    }
}

/// The number of records that converting `m` yields.
pub open spec fn record_count(m: SourceModule) -> nat {
    (m.consts.len() + m.traits.len() + m.fns.len() + submodule_count(m, 0) + 1) as nat
}

pub fn convert_const(c: &SourceConst, context: &Context) -> (r: Documentation)
    ensures
        const_record(*c, r),
{
    Documentation {
        name: c.ident.clone(),
        attrs: c.attrs.copy(),
        mod_path: c.path.copy(),
        visibility: Some(convert_visibility(c.vis, context)),
        inner_data: DocInnerData::ConstDoc(Constant { ty: c.ty.clone(), expr: c.expr.clone() }),
        links: Vec::new(),
    }
}

pub fn convert_fn(f: &SourceFn, context: &Context) -> (r: Documentation)
    ensures
        fn_record(*f, r),
{
    Documentation {
        name: f.ident.clone(),
        attrs: f.attrs.copy(),
        mod_path: f.path.copy(),
        visibility: Some(convert_visibility(f.vis, context)),
        inner_data: DocInnerData::FnDoc(
            Function {
                header: f.decl.clone(),
                generics: Generics {  },
                unsafety: convert_unsafety(f.unsafety, context),
                constness: convert_constness(f.constness, context),
                abi: convert_abi(f.abi, context),
                kind: FnKind::Function,
            },
        ),
        links: Vec::new(),
    }
}

pub fn convert_method_sig(s: &SourceMethodSig, context: &Context) -> (r: MethodSig)
    ensures
        sig_matches(*s, r),
{
    MethodSig {
        unsafety: convert_unsafety(s.unsafety, context),
        constness: convert_constness(s.constness, context),
        abi: convert_abi(s.abi, context),
        header: s.decl.clone(),
    }
}

fn copy_opt_text(o: &Option<String>) -> (r: Option<String>)
    ensures
        opt_text(r) == opt_text(*o),
{
    match o {
        Some(s) => Some(s.clone()),
        None => None,
    }
}

/// Keeps the signature-level content of a trait member; bodies and bounds are dropped.
pub fn convert_trait_item_kind(k: &SourceTraitItemKind, context: &Context) -> (r: TraitItemKind)
    ensures
        kind_matches(*k, r),
{
    match k {
        SourceTraitItemKind::Const(ty, e) => TraitItemKind::Const(ty.clone(), copy_opt_text(e)),
        SourceTraitItemKind::Method(sig) => TraitItemKind::Method(
            convert_method_sig(sig, context),
        ),
        SourceTraitItemKind::Type(t) => TraitItemKind::Type(copy_opt_text(t)),
        SourceTraitItemKind::Macro(mac) => TraitItemKind::Macro(mac.clone()),
    }
}

pub fn convert_trait_item(i: &SourceTraitItem, context: &Context) -> (r: Documentation)
    ensures
        trait_item_record(*i, r),
{
    Documentation {
        name: i.ident.clone(),
        attrs: i.attrs.copy(),
        mod_path: i.path.copy(),
        visibility: Some(Visibility::Inherited),
        inner_data: DocInnerData::TraitItemDoc(
            TraitItem { node: convert_trait_item_kind(&i.node, context) },
        ),
        links: Vec::new(),
    }
}

pub fn convert_struct(s: &SourceStruct, context: &Context) -> (r: Documentation)
    ensures
        struct_record(*s, r),
{
    Documentation {
        name: s.ident.clone(),
        attrs: s.attrs.copy(),
        mod_path: s.path.copy(),
        visibility: Some(Visibility::Inherited),
        inner_data: DocInnerData::StructDoc(Struct { fields: Vec::new() }),
        links: Vec::new(),
    }
}

fn item_doc_type(k: &SourceTraitItemKind) -> (r: DocType)
    ensures
        r == doc_type_of(*k),
{
    match k {
        SourceTraitItemKind::Const(..) => DocType::TraitItemConst,
        SourceTraitItemKind::Method(..) => DocType::TraitItemMethod,
        SourceTraitItemKind::Type(..) => DocType::TraitItemType,
        SourceTraitItemKind::Macro(..) => DocType::TraitItemMacro,
    }
}

/// The links of the members of one category, in source order.
fn links_for(items: &Vec<SourceTraitItem>, kind: DocType) -> (r: Vec<DocLink>)
    ensures
        links_view(r@) == links_of_kind(items@, kind),
{
    let mut r: Vec<DocLink> = Vec::new();
    let mut i: usize = 0;
    while i < items.len()
        invariant
            i <= items.len(),
            links_view(r@) == links_of_kind(items@.subrange(0, i as int), kind),
        decreases items.len() - i,
    {
        let item = &items[i];
        assert(items@.subrange(0, i + 1).drop_last() =~= items@.subrange(0, i as int));
        if item_doc_type(&item.node) == kind {
            r.push(DocLink { name: item.ident.clone(), path: item.path.copy() });
            assert(links_view(r@) =~= links_view(r@.drop_last()).push(
                (item.ident@, item.path@),
            ));
        }
        i = i + 1;
    }
    assert(items@.subrange(0, items.len() as int) =~= items@);
    r
}

/// Partitions a trait's members by kind into the four link categories.
pub fn classify_trait_items(items: &Vec<SourceTraitItem>, context: &Context) -> (r: Vec<LinkGroup>)
    ensures
        classified(items@, r@),
{
    let mut r: Vec<LinkGroup> = Vec::new();
    r.push(LinkGroup { kind: DocType::TraitItemConst, links: links_for(items, DocType::TraitItemConst) });
    r.push(LinkGroup { kind: DocType::TraitItemMethod, links: links_for(items, DocType::TraitItemMethod) });
    r.push(LinkGroup { kind: DocType::TraitItemType, links: links_for(items, DocType::TraitItemType) });
    r.push(LinkGroup { kind: DocType::TraitItemMacro, links: links_for(items, DocType::TraitItemMacro) });
    r
}

pub fn convert_trait(t: &SourceTrait, context: &Context) -> (r: Documentation)
    ensures
        trait_record(*t, r),
{
    Documentation {
        name: t.ident.clone(),
        attrs: t.attrs.copy(),
        mod_path: t.path.copy(),
        visibility: Some(convert_visibility(t.vis, context)),
        inner_data: DocInnerData::TraitDoc(Trait { unsafety: convert_unsafety(t.unsafety, context) }),
        links: classify_trait_items(&t.items, context),
    }
}

/// Classifying a trait's members is exhaustive and disjoint: every member
/// appears in the group of its own kind, and the four groups together hold as
/// many links as the trait has members.
pub proof fn classification_partitions(items: Seq<SourceTraitItem>)
    ensures
        links_of_kind(items, DocType::TraitItemConst).len() + links_of_kind(
            items,
            DocType::TraitItemMethod,
        ).len() + links_of_kind(items, DocType::TraitItemType).len() + links_of_kind(
            items,
            DocType::TraitItemMacro,
        ).len() == items.len(),
        forall|k: int|
            0 <= k < items.len() ==> links_of_kind(items, doc_type_of(items[k].node)).contains(
                (#[trigger] items[k].ident@, items[k].path@),
            ),
    decreases items.len(),
{
    if items.len() > 0 {
        let prev = items.drop_last();
        classification_partitions(prev);
        assert forall|k: int|
            0 <= k < items.len() implies links_of_kind(items, doc_type_of(items[k].node)).contains(
            (#[trigger] items[k].ident@, items[k].path@),
        ) by {
            let kind = doc_type_of(items[k].node);
            let pair = (items[k].ident@, items[k].path@);
            let before = links_of_kind(prev, kind);
            let after = links_of_kind(items, kind);
            if k == items.len() - 1 {
                assert(after == before.push(pair));
                assert(after[after.len() - 1] == pair);
            } else {
                assert(prev[k] == items[k]);
                assert(before.contains(pair));
                let w = choose|w: int| 0 <= w < before.len() && before[w] == pair;
                if doc_type_of(items.last().node) == kind {
                    assert(after[w] == pair);
                }
            }
        }
    }
}

/// Converts a module tree into records: its constants, then its traits, then
/// its functions, then the records of each submodule in order, and last the
/// module's own record.
pub fn convert_module(m: &SourceModule, context: &Context) -> (r: Vec<Documentation>)
    ensures
        r@.len() == record_count(*m),
        converted(*m, context.crate_info.package_name@, r@),
    decreases m,
{
    let mut docs: Vec<Documentation> = Vec::new();
    let mut i: usize = 0;
    while i < m.consts.len()
        invariant
            i <= m.consts.len(),
            docs@.len() == i,
            forall|j: int| 0 <= j < i ==> const_record(m.consts[j], #[trigger] docs@[j]),
        decreases m.consts.len() - i,
    {
        docs.push(convert_const(&m.consts[i], context));
        i = i + 1;
    }
    let nc = m.consts.len();
    i = 0;
    while i < m.traits.len()
        invariant
            nc == m.consts.len(),
            i <= m.traits.len(),
            docs@.len() == nc + i,
            forall|j: int| 0 <= j < nc ==> const_record(m.consts[j], #[trigger] docs@[j]),
            forall|j: int| 0 <= j < i ==> trait_record(m.traits[j], #[trigger] docs@[nc + j]),
        decreases m.traits.len() - i,
    {
        docs.push(convert_trait(&m.traits[i], context));
        i = i + 1;
    }
    let nt = m.traits.len();
    i = 0;
    while i < m.fns.len()
        invariant
            nc == m.consts.len(),
            nt == m.traits.len(),
            i <= m.fns.len(),
            docs@.len() == nc + nt + i,
            forall|j: int| 0 <= j < nc ==> const_record(m.consts[j], #[trigger] docs@[j]),
            forall|j: int| 0 <= j < nt ==> trait_record(m.traits[j], #[trigger] docs@[nc + j]),
            forall|j: int| 0 <= j < i ==> fn_record(m.fns[j], #[trigger] docs@[nc + nt + j]),
        decreases m.fns.len() - i,
    {
        docs.push(convert_fn(&m.fns[i], context));
        i = i + 1;
    }
    let ghost head = docs@;
    i = 0;
    while i < m.mods.len()
        invariant
            i <= m.mods.len(),
            head.len() == m.consts.len() + m.traits.len() + m.fns.len(),
            head.len() <= docs@.len(),
            docs@.subrange(0, head.len() as int) == head,
            docs@.len() + submodule_count(*m, i as int) == head.len() + submodule_count(*m, 0),
            docs@.len() == sub_offset(*m, i as int),
            forall|j: int|
                0 <= j < i ==> converted(
                    #[trigger] m.mods[j],
                    context.crate_info.package_name@,
                    docs@.subrange(sub_offset(*m, j), sub_offset(*m, j) + record_count(m.mods[j])),
                ),
        decreases m.mods.len() - i,
    {
        proof {
            broadcast use vstd::std_specs::vec::axiom_vec_index_decreases;

            assert(decreases_to!(m.mods => m.mods[i as int]));
        }
        let mut sub = convert_module(&m.mods[i], context);
        let ghost before = docs@;
        let ghost sub_docs = sub@;
        docs.append(&mut sub);
        proof {
            lemma_submodule_count_mono(*m, i as int, i as int);
            assert(docs@.subrange(0, head.len() as int) =~= before.subrange(0, head.len() as int));
            assert(docs@.subrange(sub_offset(*m, i as int), sub_offset(*m, i as int) + record_count(m.mods[i as int])) =~= sub_docs);
            assert forall|j: int| 0 <= j < i implies converted(
                #[trigger] m.mods[j],
                context.crate_info.package_name@,
                docs@.subrange(sub_offset(*m, j), sub_offset(*m, j) + record_count(m.mods[j])),
            ) by {
                lemma_submodule_count_mono(*m, 0, j);
                lemma_submodule_count_mono(*m, j, i as int);
                lemma_submodule_count_mono(*m, j + 1, i as int);
                assert(docs@.subrange(sub_offset(*m, j), sub_offset(*m, j) + record_count(m.mods[j])) =~= before.subrange(sub_offset(*m, j), sub_offset(*m, j) + record_count(m.mods[j])));
            }
        }
        i = i + 1;
    }
    let name = match &m.ident {
        Some(id) => id.clone(),
        None => context.crate_info.package_name.clone(),
    };
    let ghost before_last = docs@;
    docs.push(
        Documentation {
            name,
            attrs: m.attrs.copy(),
            mod_path: m.path.copy(),
            visibility: Some(convert_visibility(m.vis, context)),
            inner_data: DocInnerData::ModuleDoc(Module { is_crate: m.is_crate }),
            links: Vec::new(),
        },
    );
    proof {
        assert forall|j: int| 0 <= j < head.len() implies docs@[j] == head[j] by {
            assert(docs@.subrange(0, head.len() as int)[j] == docs@[j]);
        }
        assert forall|j: int| 0 <= j < nc implies const_record(m.consts[j], #[trigger] docs@[j]) by {
            assert(docs@[j] == head[j]);
        }
        assert forall|j: int| 0 <= j < nt implies trait_record(m.traits[j], #[trigger] docs@[nc + j]) by {
            assert(docs@[nc + j] == head[nc + j]);
        }
        assert forall|j: int| 0 <= j < m.fns.len() implies fn_record(m.fns[j], #[trigger] docs@[nc + nt + j]) by {
            assert(docs@[nc + nt + j] == head[nc + nt + j]);
        }
        assert forall|j: int| 0 <= j < m.mods.len() implies converted(
            #[trigger] m.mods[j],
            context.crate_info.package_name@,
            docs@.subrange(sub_offset(*m, j), sub_offset(*m, j) + record_count(m.mods[j])),
        ) by {
            lemma_submodule_count_mono(*m, 0, j);
            lemma_submodule_count_mono(*m, j, m.mods.len() as int);
            lemma_submodule_count_mono(*m, j + 1, m.mods.len() as int);
            assert(docs@.subrange(sub_offset(*m, j), sub_offset(*m, j) + record_count(m.mods[j])) =~= before_last.subrange(sub_offset(*m, j), sub_offset(*m, j) + record_count(m.mods[j])));
        }
    }
    docs
}

/// Converts a crate's root module into a new store at the context's path
/// that holds the records of the whole tree.
pub fn convert_crate(root: &SourceModule, context: &Context) -> (r: Store)
    ensures
        r.wf(),
        r.path@ == context.store_path@,
        converted(*root, context.crate_info.package_name@, r.documents@),
        r.modpath_set() == Set::<Seq<Seq<char>>>::empty(),
{
    let mut store = Store::new(context.store_path.clone());
    store.documents = convert_module(root, context);
    store
}

/// Conversion of a frontend node into its documentation form.
pub trait Convert<T> {
    fn convert(&self, context: &Context) -> T;
}

impl Convert<Visibility> for SourceVisibility {
    fn convert(&self, context: &Context) -> Visibility {
        convert_visibility(*self, context)
    }
}

impl Convert<Unsafety> for SourceUnsafety {
    fn convert(&self, context: &Context) -> Unsafety {
        convert_unsafety(*self, context)
    }
}

impl Convert<Constness> for SourceConstness {
    fn convert(&self, context: &Context) -> Constness {
        convert_constness(*self, context)
    }
}

impl Convert<Abi> for SourceAbi {
    fn convert(&self, context: &Context) -> Abi {
        convert_abi(*self, context)
    }
}

impl Convert<Documentation> for SourceConst {
    fn convert(&self, context: &Context) -> Documentation {
        convert_const(self, context)
    }
}

impl Convert<Documentation> for SourceFn {
    fn convert(&self, context: &Context) -> Documentation {
        convert_fn(self, context)
    }
}

impl Convert<MethodSig> for SourceMethodSig {
    fn convert(&self, context: &Context) -> MethodSig {
        convert_method_sig(self, context)
    }
}

impl Convert<Documentation> for SourceTrait {
    fn convert(&self, context: &Context) -> Documentation {
        convert_trait(self, context)
    }
}

impl Convert<Documentation> for SourceTraitItem {
    fn convert(&self, context: &Context) -> Documentation {
        convert_trait_item(self, context)
    }
}

impl Convert<TraitItemKind> for SourceTraitItemKind {
    fn convert(&self, context: &Context) -> TraitItemKind {
        convert_trait_item_kind(self, context)
    }
}

impl Convert<Documentation> for SourceStruct {
    fn convert(&self, context: &Context) -> Documentation {
        convert_struct(self, context)
    }
}

impl Convert<Vec<Documentation>> for SourceModule {
    fn convert(&self, context: &Context) -> Vec<Documentation> {
        convert_module(self, context)
    }
}

} // verus!
