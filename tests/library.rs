use oxidoc::convert::{
    classify_trait_items, convert_abi, Convert, SourceStruct, convert_constness, convert_crate, convert_module,
    convert_trait, convert_unsafety, convert_visibility, Context, SourceAbi, SourceConst,
    SourceConstness, SourceFn, SourceMethodSig, SourceModule, SourceTrait, SourceTraitItem,
    SourceTraitItemKind, SourceUnsafety, SourceVisibility,
};
use oxidoc::document::{
    Abi, Attributes, Constness, CrateInfo, DocInnerData, DocType, ModPath, Unsafety, Visibility,
};
use oxidoc::markup::{doc_body, doc_header, doc_signature, trait_item, Format, Markup};
use oxidoc::store::{Store, StoreError};

fn path(segs: &[&str]) -> ModPath {
    ModPath::new(segs.iter().map(|s| s.to_string()).collect())
}

fn attrs(lines: &[&str]) -> Attributes {
    Attributes { doc_strings: lines.iter().map(|s| s.to_string()).collect() }
}

fn context(package: &str) -> Context {
    Context {
        store_path: "/tmp/store".to_string(),
        crate_info: CrateInfo { package_name: package.to_string() },
    }
}

fn module(ident: Option<&str>, p: &[&str]) -> SourceModule {
    SourceModule {
        ident: ident.map(|s| s.to_string()),
        attrs: attrs(&[]),
        path: path(p),
        vis: SourceVisibility::Public,
        is_crate: ident.is_none(),
        consts: vec![],
        traits: vec![],
        fns: vec![],
        mods: vec![],
    }
}

fn constant(name: &str, p: &[&str]) -> SourceConst {
    SourceConst {
        ident: name.to_string(),
        attrs: attrs(&["A constant."]),
        path: path(p),
        vis: SourceVisibility::Public,
        ty: "u32".to_string(),
        expr: "7".to_string(),
    }
}

fn function(name: &str, p: &[&str]) -> SourceFn {
    SourceFn {
        ident: name.to_string(),
        attrs: attrs(&[]),
        path: path(p),
        vis: SourceVisibility::Inherited,
        decl: "(x: u32) -> u32".to_string(),
        unsafety: SourceUnsafety::Unsafe,
        constness: SourceConstness::NotConst,
        abi: SourceAbi::C,
    }
}

fn sig() -> SourceMethodSig {
    SourceMethodSig {
        unsafety: SourceUnsafety::Normal,
        constness: SourceConstness::NotConst,
        abi: SourceAbi::Rust,
        decl: "(&self)".to_string(),
    }
}

fn item(name: &str, node: SourceTraitItemKind) -> SourceTraitItem {
    SourceTraitItem {
        ident: name.to_string(),
        attrs: attrs(&[]),
        path: path(&["c", "T", name]),
        node,
    }
}

fn a_trait(items: Vec<SourceTraitItem>) -> SourceTrait {
    SourceTrait {
        ident: "T".to_string(),
        attrs: attrs(&[]),
        path: path(&["c", "T"]),
        vis: SourceVisibility::Public,
        unsafety: SourceUnsafety::Normal,
        items,
    }
}

fn link_names(groups: &[oxidoc::document::LinkGroup], kind: DocType) -> Vec<String> {
    let g = groups.iter().find(|g| g.kind == kind).expect("every category is present");
    g.links.iter().map(|l| l.name.clone()).collect()
}

#[test]
fn root_module_is_named_after_package() {
    let docs = convert_module(&module(None, &["mycrate"]), &context("mycrate"));
    assert_eq!(docs.last().unwrap().name, "mycrate");
}

#[test]
fn named_module_keeps_its_identifier() {
    let docs = convert_module(&module(Some("inner"), &["mycrate", "inner"]), &context("mycrate"));
    assert_eq!(docs.last().unwrap().name, "inner");
}

#[test]
fn empty_module_yields_one_record() {
    let docs = convert_module(&module(Some("m"), &["c", "m"]), &context("c"));
    assert_eq!(docs.len(), 1);
    assert!(matches!(docs[0].inner_data, DocInnerData::ModuleDoc(_)));
    assert_eq!(docs[0].visibility, Some(Visibility::Public));
}

#[test]
fn module_records_are_counted_and_ordered() {
    let mut sub_a = module(Some("a"), &["c", "a"]);
    sub_a.fns.push(function("fa", &["c", "a", "fa"]));
    let mut sub_b = module(Some("b"), &["c", "b"]);
    let mut sub_b_inner = module(Some("i"), &["c", "b", "i"]);
    sub_b_inner.consts.push(constant("K", &["c", "b", "i", "K"]));
    sub_b.mods.push(sub_b_inner);
    let mut root = module(None, &["c"]);
    root.consts.push(constant("C1", &["c", "C1"]));
    root.consts.push(constant("C2", &["c", "C2"]));
    root.traits.push(a_trait(vec![]));
    root.fns.push(function("f", &["c", "f"]));
    root.mods.push(sub_a);
    root.mods.push(sub_b);
    let docs = convert_module(&root, &context("c"));
    let names: Vec<&str> = docs.iter().map(|d| d.name.as_str()).collect();
    // 2 + 1 + 1 + (1 + 1) + (1 + 1 + 1) + 1
    assert_eq!(names, vec!["C1", "C2", "T", "f", "fa", "a", "K", "i", "b", "c"]);
    assert!(matches!(docs[9].inner_data, DocInnerData::ModuleDoc(ref m) if m.is_crate));
}

#[test]
fn function_record_maps_modifiers() {
    let mut root = module(None, &["c"]);
    root.fns.push(function("f", &["c", "f"]));
    let docs = convert_module(&root, &context("c"));
    assert_eq!(docs[0].visibility, Some(Visibility::Inherited));
    match &docs[0].inner_data {
        DocInnerData::FnDoc(f) => {
            assert_eq!(f.header, "(x: u32) -> u32");
            assert_eq!(f.unsafety, Unsafety::Unsafe);
            assert_eq!(f.constness, Constness::NotConst);
            assert_eq!(f.abi, Abi::C);
        }
        _ => panic!("expected a function record"),
    }
    assert_eq!(docs[0].mod_path.segments, vec!["c".to_string(), "f".to_string()]);
}

#[test]
fn constant_record_keeps_source_text() {
    let mut root = module(None, &["c"]);
    root.consts.push(constant("K", &["c", "K"]));
    let docs = convert_module(&root, &context("c"));
    assert_eq!(docs[0].attrs.doc_strings, vec!["A constant.".to_string()]);
    match &docs[0].inner_data {
        DocInnerData::ConstDoc(k) => {
            assert_eq!(k.ty, "u32");
            assert_eq!(k.expr, "7");
        }
        _ => panic!("expected a constant record"),
    }
}

#[test]
fn trait_with_two_methods_and_one_constant() {
    let t = a_trait(vec![
        item("m1", SourceTraitItemKind::Method(sig())),
        item("K", SourceTraitItemKind::Const("u8".to_string(), None)),
        item("m2", SourceTraitItemKind::Method(sig())),
    ]);
    let doc = convert_trait(&t, &context("c"));
    assert_eq!(doc.links.len(), 4);
    assert_eq!(link_names(&doc.links, DocType::TraitItemMethod), vec!["m1", "m2"]);
    assert_eq!(link_names(&doc.links, DocType::TraitItemConst), vec!["K"]);
    assert!(link_names(&doc.links, DocType::TraitItemType).is_empty());
    assert!(link_names(&doc.links, DocType::TraitItemMacro).is_empty());
}

#[test]
fn classification_covers_every_item_in_order() {
    let items = vec![
        item("T1", SourceTraitItemKind::Type(None)),
        item("mac", SourceTraitItemKind::Macro("m!()".to_string())),
        item("K1", SourceTraitItemKind::Const("u8".to_string(), Some("1".to_string()))),
        item("T2", SourceTraitItemKind::Type(Some("u8".to_string()))),
        item("f", SourceTraitItemKind::Method(sig())),
        item("K2", SourceTraitItemKind::Const("u8".to_string(), None)),
    ];
    let groups = classify_trait_items(&items, &context("c"));
    let total: usize = groups.iter().map(|g| g.links.len()).sum();
    assert_eq!(total, items.len());
    assert_eq!(link_names(&groups, DocType::TraitItemConst), vec!["K1", "K2"]);
    assert_eq!(link_names(&groups, DocType::TraitItemMethod), vec!["f"]);
    assert_eq!(link_names(&groups, DocType::TraitItemType), vec!["T1", "T2"]);
    assert_eq!(link_names(&groups, DocType::TraitItemMacro), vec!["mac"]);
    let g = groups.iter().find(|g| g.kind == DocType::TraitItemType).unwrap();
    assert_eq!(g.links[1].path.segments, vec!["c".to_string(), "T".to_string(), "T2".to_string()]);
}

#[test]
fn empty_trait_has_all_four_categories() {
    let groups = classify_trait_items(&vec![], &context("c"));
    assert_eq!(groups.len(), 4);
    assert!(groups.iter().all(|g| g.links.is_empty()));
}

#[test]
fn abi_mapping_is_one_to_one() {
    let cx = context("c");
    let pairs = [
        (SourceAbi::Cdecl, Abi::Cdecl),
        (SourceAbi::Stdcall, Abi::Stdcall),
        (SourceAbi::Fastcall, Abi::Fastcall),
        (SourceAbi::Vectorcall, Abi::Vectorcall),
        (SourceAbi::Aapcs, Abi::Aapcs),
        (SourceAbi::Win64, Abi::Win64),
        (SourceAbi::SysV64, Abi::SysV64),
        (SourceAbi::PtxKernel, Abi::PtxKernel),
        (SourceAbi::Msp430Interrupt, Abi::Msp430Interrupt),
        (SourceAbi::Rust, Abi::Rust),
        (SourceAbi::C, Abi::C),
        (SourceAbi::System, Abi::System),
        (SourceAbi::RustIntrinsic, Abi::RustIntrinsic),
        (SourceAbi::RustCall, Abi::RustCall),
        (SourceAbi::PlatformIntrinsic, Abi::PlatformIntrinsic),
        (SourceAbi::Unadjusted, Abi::Unadjusted),
    ];
    for (src, want) in pairs.iter() {
        assert_eq!(convert_abi(*src, &cx), *want);
        assert_eq!(convert_abi(*src, &cx), *want);
    }
}

#[test]
fn visibility_falls_back_to_private() {
    let cx = context("c");
    assert_eq!(convert_visibility(SourceVisibility::Public, &cx), Visibility::Public);
    assert_eq!(convert_visibility(SourceVisibility::Inherited, &cx), Visibility::Inherited);
    assert_eq!(convert_visibility(SourceVisibility::Crate, &cx), Visibility::Private);
    assert_eq!(convert_visibility(SourceVisibility::Restricted, &cx), Visibility::Private);
}

#[test]
fn unsafety_and_constness_mappings() {
    let cx = context("c");
    assert_eq!(convert_unsafety(SourceUnsafety::Normal, &cx), Unsafety::Normal);
    assert_eq!(convert_unsafety(SourceUnsafety::Unsafe, &cx), Unsafety::Unsafe);
    assert_eq!(convert_constness(SourceConstness::Const, &cx), Constness::Const);
    assert_eq!(convert_constness(SourceConstness::NotConst, &cx), Constness::NotConst);
}

#[test]
fn convert_crate_fills_a_new_store() {
    let mut root = module(None, &["c"]);
    root.fns.push(function("f", &["c", "f"]));
    let store = convert_crate(&root, &context("c"));
    assert_eq!(store.path, "/tmp/store");
    assert_eq!(store.documents.len(), 2);
    assert!(store.get_modpaths().is_empty());
}

#[test]
fn empty_store_cache_round_trip() {
    let store = Store::new("/tmp/s".to_string());
    let json = store.save_cache();
    let mut other = Store::new("/tmp/s".to_string());
    other.add_modpath(path(&["stale"]));
    assert_eq!(other.load_cache(&json), Ok(()));
    assert!(other.get_modpaths().is_empty());
}

#[test]
fn cache_round_trip_keeps_paths() {
    let mut store = Store::new("/tmp/s".to_string());
    store.add_modpath(path(&["c"]));
    store.add_modpath(path(&["c", "a \"quoted\" \\ name"]));
    store.add_modpath(path(&["c", "b"]));
    store.add_modpath(path(&["c"]));
    let json = store.save_cache();
    let mut other = Store::new("/tmp/s".to_string());
    assert_eq!(other.load_cache(&json), Ok(()));
    let got: Vec<Vec<String>> = other.get_modpaths().iter().map(|p| p.segments.clone()).collect();
    let want: Vec<Vec<String>> = store.get_modpaths().iter().map(|p| p.segments.clone()).collect();
    assert_eq!(got.len(), 3);
    for p in want.iter() {
        assert!(got.contains(p));
    }
}

#[test]
fn cache_text_is_json() {
    let mut store = Store::new("/tmp/s".to_string());
    store.add_modpath(path(&["a", "b"]));
    assert_eq!(store.save_cache(), "[[\"a\",\"b\"]]");
}

#[test]
fn corrupt_cache_is_reported() {
    let mut store = Store::new("/tmp/s".to_string());
    store.add_modpath(path(&["a"]));
    assert_eq!(store.load_cache("not json"), Err(StoreError::CacheCorrupt));
    assert!(store.get_modpaths().is_empty());
}

#[test]
fn cache_with_duplicates_loads_as_a_set() {
    let mut store = Store::new("/tmp/s".to_string());
    assert_eq!(store.load_cache("[[\"a\"],[\"a\"],[\"b\"]]"), Ok(()));
    assert_eq!(store.get_modpaths().len(), 2);
}

#[test]
fn unknown_scope_is_absent() {
    let mut store = Store::new("/tmp/s".to_string());
    assert!(store.get_functions(&path(&["c"])).is_none());
    assert!(store.get_structs(&path(&["c"])).is_none());
    store.add_function(&path(&["c"]), &"f".to_string());
    store.add_struct(&path(&["c", "m"]), &"S".to_string());
    assert_eq!(store.get_functions(&path(&["c"])), Some(vec!["f".to_string()]));
    assert!(store.get_functions(&path(&["c", "m"])).is_none());
    assert_eq!(store.get_structs(&path(&["c", "m"])), Some(vec!["S".to_string()]));
    assert!(store.get_structs(&path(&["c"])).is_none());
}

#[test]
fn add_modpath_keeps_each_path_once() {
    let mut store = Store::new("/tmp/s".to_string());
    store.add_modpath(path(&["a", "b"]));
    store.add_modpath(path(&["a", "b"]));
    assert_eq!(store.get_modpaths().len(), 1);
    assert!(store.has_modpath(&path(&["a", "b"])));
    assert!(!store.has_modpath(&path(&["a"])));
}

#[test]
fn add_all_modpaths_registers_ancestors() {
    let mut store = Store::new("/tmp/s".to_string());
    store.add_all_modpaths(&path(&["a", "b", "c"]));
    assert_eq!(store.get_modpaths().len(), 2);
    assert!(store.has_modpath(&path(&["a"])));
    assert!(store.has_modpath(&path(&["a", "b"])));
    assert!(!store.has_modpath(&path(&["a", "b", "c"])));
}

#[test]
fn load_doc_finds_by_path() {
    let mut root = module(None, &["c"]);
    root.fns.push(function("f", &["c", "f"]));
    let store = convert_crate(&root, &context("c"));
    assert_eq!(store.load_doc(&path(&["c", "f"])).unwrap().name, "f");
    assert_eq!(store.load_doc(&path(&["c", "g"])).err(), Some(StoreError::NotFound));
}

#[test]
fn parent_of_paths() {
    assert_eq!(path(&["a", "b"]).parent().unwrap().segments, vec!["a".to_string()]);
    assert!(path(&["a"]).parent().is_none());
    assert!(path(&[]).parent().is_none());
}

fn text(m: &Markup) -> String {
    match m {
        Markup::Header(t) | Markup::Section(t) | Markup::Block(t) | Markup::Markdown(t) => t.clone(),
        Markup::Rule(n) => "-".repeat(*n),
        Markup::LineBreak => String::new(),
    }
}

#[test]
fn markup_of_a_constant() {
    let mut root = module(None, &["c"]);
    root.consts.push(constant("K", &["c", "K"]));
    let docs = convert_module(&root, &context("c"));
    assert_eq!(text(&doc_header(&docs[0]).parts[0]), "Constant c::K");
    let sig = doc_signature(&docs[0]);
    assert_eq!(sig.parts.len(), 6);
    assert_eq!(text(&sig.parts[0]), "----------");
    assert_eq!(text(&sig.parts[2]), "  pub const K: u32 = 7");
    assert_eq!(text(&doc_body(&docs[0]).parts[0]), "A constant.");
    let all = docs[0].format();
    assert_eq!(all.parts.len(), 9);
    assert!(matches!(all.parts[1], Markup::LineBreak));
}

#[test]
fn markup_of_a_module_and_path() {
    let docs = convert_module(&module(Some("m"), &["c", "m"]), &context("c"));
    assert_eq!(text(&doc_signature(&docs[0]).parts[2]), "  pub mod c::m");
    assert_eq!(text(&path(&["x", "y", "z"]).format().parts[0]), "x::y::z");
    assert_eq!(text(&attrs(&["one", "two"]).format().parts[0]), "one\ntwo");
}

#[test]
fn markup_of_trait_items() {
    let cx = context("c");
    let t = a_trait(vec![
        item("K", SourceTraitItemKind::Const("u8".to_string(), Some("1".to_string()))),
        item("f", SourceTraitItemKind::Method(sig())),
        item("Ty", SourceTraitItemKind::Type(None)),
        item("mac", SourceTraitItemKind::Macro("m!()".to_string())),
    ]);
    let mut root = module(None, &["c"]);
    root.traits.push(t);
    let _ = convert_module(&root, &cx);
    let docs: Vec<_> = root.traits[0]
        .items
        .iter()
        .map(|i| oxidoc::convert::convert_trait_item(i, &cx))
        .collect();
    let lines: Vec<String> = docs
        .iter()
        .map(|d| match &d.inner_data {
            DocInnerData::TraitItemDoc(ti) => trait_item(d, ti),
            _ => panic!("expected a trait item"),
        })
        .collect();
    assert_eq!(lines, vec!["const K: u8 = 1", "fn f (&self)", "type ", "macro mac m!()"]);
    let info = docs[1].format();
    assert_eq!(text(&info.parts[1]), "From trait c::T");
    assert_eq!(text(&info.parts[4]), "   fn f (&self)");
}


#[test]
fn struct_record_has_no_fields_yet() {
    let s = SourceStruct {
        ident: "S".to_string(),
        attrs: attrs(&["A struct."]),
        path: path(&["c", "S"]),
        vis: SourceVisibility::Public,
    };
    let doc: oxidoc::document::Documentation = s.convert(&context("c"));
    assert_eq!(doc.name, "S");
    assert_eq!(doc.visibility, Some(Visibility::Inherited));
    match &doc.inner_data {
        DocInnerData::StructDoc(st) => assert!(st.fields.is_empty()),
        _ => panic!("expected a struct record"),
    }
    let text_line = text(&doc_signature(&doc).parts[2]);
    assert_eq!(text_line, "   struct S { /* fields omitted */ }");
}

#[test]
fn trait_record_through_convert() {
    let t = a_trait(vec![item("K", SourceTraitItemKind::Const("u8".to_string(), None))]);
    let doc: oxidoc::document::Documentation = t.convert(&context("c"));
    assert!(matches!(doc.inner_data, DocInnerData::TraitDoc(ref k) if k.unsafety == Unsafety::Normal));
    assert_eq!(link_names(&doc.links, DocType::TraitItemConst), vec!["K"]);
    assert_eq!(text(&doc_header(&doc).parts[0]), "Trait c::T");
}
