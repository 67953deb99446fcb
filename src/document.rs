//! Records and relations of the documentation model.

use vstd::prelude::*;

verus! {

/// The view of a sequence of strings.
pub open spec fn strings_view(v: Seq<String>) -> Seq<Seq<char>> {
    v.map_values(|s: String| s@)
}

/// Copies a sequence of strings.
pub fn copy_strings(v: &Vec<String>) -> (r: Vec<String>)
    ensures
        r@ == v@,
{
    let mut r: Vec<String> = Vec::new();
    let mut i: usize = 0;
    while i < v.len()
        invariant
            i <= v.len(),
            r@ == v@.subrange(0, i as int),
        decreases v.len() - i,
    {
        r.push(v[i].clone());
        i = i + 1;
    }
    assert(r@ =~= v@);
    r
}

/// A path of identifier segments that locates an entity in the module hierarchy.
#[derive(Debug)]
pub struct ModPath {
    pub segments: Vec<String>,
}

impl View for ModPath {
    type V = Seq<Seq<char>>;

    open spec fn view(&self) -> Seq<Seq<char>> {
        strings_view(self.segments@)
    }
}

/// The parent of a path: absent for a path of at most one segment (the root).
pub open spec fn parent_of(p: Seq<Seq<char>>) -> Option<Seq<Seq<char>>> {
    if p.len() <= 1 {
        None
    } else {
        Some(p.drop_last())
    }
}

impl ModPath {
    pub fn new(segments: Vec<String>) -> (r: ModPath)
        ensures
            r.segments@ == segments@,
    {
        ModPath { segments }
    }

    pub fn copy(&self) -> (r: ModPath)
        ensures
            r.segments@ == self.segments@,
            r@ == self@,
    {
        ModPath { segments: copy_strings(&self.segments) }
    }

    /// The path with its last segment removed.
    pub fn parent(&self) -> (r: Option<ModPath>)
        ensures
            r is None <==> parent_of(self@) is None,
            r is Some ==> Some(r->Some_0@) == parent_of(self@),
    {
        let n = self.segments.len();
        if n <= 1 {
            None
        } else {
            let mut segs: Vec<String> = Vec::new();
            let mut i: usize = 0;
            while i < n - 1
                invariant
                    n == self.segments.len(),
                    n > 1,
                    i <= n - 1,
                    segs@ == self.segments@.subrange(0, i as int),
                decreases n - 1 - i,
            {
                segs.push(self.segments[i].clone());
                i = i + 1;
            }
            let r = ModPath { segments: segs };
            assert(r@ =~= self@.drop_last());
            Some(r)
        }
    }

    /// Whether two paths have the same segments.
    pub fn same_as(&self, other: &ModPath) -> (r: bool)
        ensures
            r == (self@ == other@),
    {
        let n = self.segments.len();
        if n != other.segments.len() {
            assert(self@.len() != other@.len());
            return false;
        }
        let mut i: usize = 0;
        while i < n
            invariant
                n == self.segments.len(),
                n == other.segments.len(),
                i <= n,
                forall|j: int| 0 <= j < i ==> self@[j] == other@[j],
            decreases n - i,
        {
            if self.segments[i] != other.segments[i] {
                assert(self@[i as int] != other@[i as int]);
                return false;
            }
            i = i + 1;
        }
        assert(self@ =~= other@);
        true
    }
}

/// The doc-comment strings attached to an entity, in source order.
#[derive(Debug)]
pub struct Attributes {
    pub doc_strings: Vec<String>,
}

impl View for Attributes {
    type V = Seq<Seq<char>>;

    open spec fn view(&self) -> Seq<Seq<char>> {
        strings_view(self.doc_strings@)
    }
}

impl Attributes {
    pub fn copy(&self) -> (r: Attributes)
        ensures
            r.doc_strings@ == self.doc_strings@,
            r@ == self@,
    {
        Attributes { doc_strings: copy_strings(&self.doc_strings) }
    }
}

/// What the frontend knows of the crate being documented.
#[derive(Debug)]
pub struct CrateInfo {
    pub package_name: String,
}

/// Visibility of a documented entity.
#[derive(Clone, Copy, Debug, PartialEq, Eq, Structural)]
pub enum Visibility {
    Public,
    Inherited,
    Private,
}

#[derive(Clone, Copy, Debug, PartialEq, Eq, Structural)]
pub enum Unsafety {
    Normal,
    Unsafe,
}

#[derive(Clone, Copy, Debug, PartialEq, Eq, Structural)]
pub enum Constness {
    Const,
    NotConst,
}

/// Calling conventions.
#[derive(Clone, Copy, Debug, PartialEq, Eq, Structural)]
pub enum Abi {
    Cdecl,
    Stdcall,
    Fastcall,
    Vectorcall,
    Aapcs,
    Win64,
    SysV64,
    PtxKernel,
    Msp430Interrupt,
    Rust,
    C,
    System,
    RustIntrinsic,
    RustCall,
    PlatformIntrinsic,
    Unadjusted,
}

/// Categories of links between records.
#[derive(Clone, Copy, Debug, PartialEq, Eq, Structural)]
pub enum DocType {
    TraitItemConst,
    TraitItemMethod,
    TraitItemType,
    TraitItemMacro,
}

/// A reference to another record by name and path, without loading it.
#[derive(Debug)]
pub struct DocLink {
    pub name: String,
    pub path: ModPath,
}

/// The links of one category.
#[derive(Debug)]
pub struct LinkGroup {
    pub kind: DocType,
    pub links: Vec<DocLink>,
}

#[derive(Clone, Copy, Debug, PartialEq, Eq, Structural)]
pub enum FnKind {
    Function,
    MethodFromImpl,
}

#[derive(Debug)]
pub struct Module {
    pub is_crate: bool,
}

#[derive(Debug)]
pub struct Constant {
    pub ty: String,
    pub expr: String,
}

/// Generic parameters: not yet recorded.
#[derive(Debug)]
pub struct Generics {}

#[derive(Debug)]
pub struct Function {
    pub header: String,
    pub generics: Generics,
    pub unsafety: Unsafety,
    pub constness: Constness,
    pub abi: Abi,
    pub kind: FnKind,
}

#[derive(Debug)]
pub struct MethodSig {
    pub unsafety: Unsafety,
    pub constness: Constness,
    pub abi: Abi,
    pub header: String,
}

#[derive(Debug)]
pub struct Trait {
    pub unsafety: Unsafety,
}

/// The signature-level content of a trait member.
#[derive(Debug)]
pub enum TraitItemKind {
    Const(String, Option<String>),
    Method(MethodSig),
    Type(Option<String>),
    Macro(String),
}

#[derive(Debug)]
pub struct TraitItem {
    pub node: TraitItemKind,
}

/// Field documentation is not yet recorded: `fields` stays empty.
#[derive(Debug)]
pub struct Struct {
    pub fields: Vec<LinkGroup>,
}

#[derive(Debug)]
pub struct Enum {}

/// The kind-specific payload of a record.
#[derive(Debug)]
pub enum DocInnerData {
    ModuleDoc(Module),
    ConstDoc(Constant),
    FnDoc(Function),
    TraitDoc(Trait),
    TraitItemDoc(TraitItem),
    StructDoc(Struct),
    EnumDoc(Enum),
}

/// One documented entity.
#[derive(Debug)]
pub struct Documentation {
    pub name: String,
    pub attrs: Attributes,
    pub mod_path: ModPath,
    pub visibility: Option<Visibility>,
    pub inner_data: DocInnerData,
    pub links: Vec<LinkGroup>,
}

} // verus!
