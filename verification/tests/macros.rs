use backend::domain_macros::args::{assemble, section_kind, Args, Input, InputField, NewType, Section, SectionKind, TypeRef};
use backend::domain_macros::entry::{crate_root, derive_model, expand_model, model, FoundCrate};
use backend::domain_macros::generator::{check_struct_name, generate, NutypeArg, StructField};
use backend::domain_macros::newtype::{inner_kind, InnerKind, NewtypeMeta};
use backend::domain_macros::render::render_model;
use backend::domain_macros::syntax::{parse_model_args, Token};
use backend::service_macros::args::{parse_args, try_parse_required, AttrItem, Requires, DEBUG, SEND, STATIC, SYNC};
use backend::service_macros::expand::{
    auto_impl_attribute, expand, expand_supertraits, extract_and_remove_result_attr, modify_error_associated_type,
    process_method, Attr, AttrMeta, ReturnType,
};
use backend::service_macros::generator::{
    gen_dyn_impl, join_strings, parse_assoc_type, parse_method, AssocArg, AssocTypeDecl, Boxing, GenericsDesc,
    ImplBound, MethodArg, MethodDesc, ReturnDesc, TraitDesc, TypeDesc, TypeToken,
};

fn s(x: &str) -> String {
    x.to_string()
}

fn strings(v: &[&str]) -> Vec<String> {
    v.iter().map(|x| x.to_string()).collect()
}

fn field(name: &str, ty: &str) -> StructField {
    StructField { prefix: s("pub "), name: s(name), ty: s(ty) }
}

fn newtype(name: &str, text: &str, last: Option<&str>) -> NewType {
    NewType { name: s(name), inner: TypeRef { text: s(text), last_segment: last.map(s) } }
}

fn arg_names(args: &[NutypeArg]) -> Vec<String> {
    args.iter()
        .map(|a| match a {
            NutypeArg::ConstFn => s("const_fn"),
            NutypeArg::Derive(d) => format!("derive({})", d.join(", ")),
            NutypeArg::DeriveValueType => s("value_type"),
        })
        .collect()
}

#[test]
fn newtype_meta_by_inner_type() {
    assert_eq!(inner_kind("i64"), InnerKind::Number);
    assert_eq!(inner_kind("f64"), InnerKind::Number);
    assert_eq!(inner_kind("Uuid"), InnerKind::Uuid);
    assert_eq!(inner_kind("TinyStr"), InnerKind::TinyStr);
    assert_eq!(inner_kind("String"), InnerKind::Other);
    let m = NewtypeMeta::for_type(Some("u32")).unwrap();
    assert!(m.const_fn && m.derive_value_type);
    assert_eq!(m.derives, strings(&["Debug", "PartialEq", "Eq", "Clone", "Serialize", "Deserialize", "Deref", "Copy", "Display", "FromStr", "Hash"]));
    let m = NewtypeMeta::for_type(Some("TinyAsciiStr")).unwrap();
    assert!(m.const_fn && !m.derive_value_type);
    assert_eq!(m.derives.len(), 9);
    let m = NewtypeMeta::for_type(Some("Vec")).unwrap();
    assert!(!m.const_fn && !m.derive_value_type);
    assert_eq!(m.derives.len(), 7);
    assert!(NewtypeMeta::for_type(None).is_none());
}

#[test]
fn input_fields_and_sections() {
    match InputField::field(s("name"), None) {
        InputField::Field { name, alias } => assert_eq!((name.as_str(), alias.as_str()), ("name", "name")),
        _ => panic!(),
    }
    match InputField::spread(strings(&["crate", "blobs", "EncryptedBlob"]), None) {
        InputField::Spread { name, path } => {
            assert_eq!(name, "encrypted_blob");
            assert_eq!(path.len(), 3);
        }
        _ => panic!(),
    }
    match InputField::spread(strings(&["HTTPServer"]), Some(s("srv"))) {
        InputField::Spread { name, .. } => assert_eq!(name, "srv"),
        _ => panic!(),
    }
    assert_eq!(section_kind("newtypes"), Ok(SectionKind::Newtypes));
    assert_eq!(section_kind("inputs"), Ok(SectionKind::Inputs));
    assert_eq!(section_kind("outputs"), Err(s("expected 'newtypes' or 'inputs'")));
    let args = assemble(vec![
        Section::Newtypes(vec![newtype("A", "i32", Some("i32"))]),
        Section::Inputs(vec![Input { name: s("I"), fields: vec![] }]),
        Section::Newtypes(vec![newtype("B", "u8", Some("u8")), newtype("C", "u8", Some("u8"))]),
    ]);
    assert_eq!(args.newtypes.len(), 2);
    assert_eq!(args.newtypes[0].name, "B");
    assert_eq!(args.inputs.len(), 1);
}

fn model_fields() -> Vec<StructField> {
    vec![field("id", "i32"), field("public_id", "PublicId"), field("name", "String")]
}

#[test]
fn plans_a_model() {
    let args = Args {
        newtypes: vec![newtype("Id", "i32", Some("i32")), newtype("Name", "TinyAsciiStr<8>", Some("TinyAsciiStr"))],
        inputs: vec![
            Input {
                name: s("NewModel"),
                fields: vec![
                    InputField::field(s("name"), None),
                    InputField::field(s("public_id"), Some(s("pid"))),
                    InputField::spread(strings(&["crate", "blobs", "EncryptedBlob"]), None),
                ],
            },
            Input { name: s("Empty"), fields: vec![] },
        ],
    };
    let plan = match generate("Model", &model_fields(), &args) {
        Ok(p) => p,
        Err(e) => panic!("{}", e.message),
    };
    assert_eq!(plan.newtypes.len(), 2);
    assert_eq!(plan.newtypes[0].inner, "i32");
    let id_args = arg_names(&plan.newtypes[0].args);
    assert_eq!(id_args.first().map(String::as_str), Some("const_fn"));
    assert_eq!(id_args.last().map(String::as_str), Some("value_type"));
    assert_eq!(arg_names(&plan.newtypes[1].args).len(), 2);
    let input = &plan.inputs[0];
    let fields: Vec<(&str, &str, &str, bool)> = input
        .fields
        .iter()
        .map(|f| (f.name.as_str(), f.struct_name.as_str(), f.ty.as_str(), f.spread))
        .collect();
    assert_eq!(
        fields,
        vec![
            ("name", "name", "String", false),
            ("public_id", "pid", "PublicId", false),
            ("encrypted_blob", "encrypted_blob", "crate::blobs::EncryptedBlob", true),
        ]
    );
    assert!(!input.unit_struct && !input.from_one_field && !input.model_methods);
    assert!(plan.inputs[1].unit_struct && plan.inputs[1].model_methods);
    assert_eq!(plan.constructor.iter().map(|f| f.name.as_str()).collect::<Vec<_>>(), vec!["id", "public_id", "name"]);
}

#[test]
fn renders_a_model() {
    let args = Args {
        newtypes: vec![newtype("Id", "i32", Some("i32")), newtype("Tags", "Vec<String>", Some("Vec"))],
        inputs: vec![
            Input {
                name: s("NewModel"),
                fields: vec![
                    InputField::field(s("name"), None),
                    InputField::field(s("public_id"), Some(s("pid"))),
                    InputField::spread(strings(&["crate", "blobs", "EncryptedBlob"]), None),
                ],
            },
            Input { name: s("Rename"), fields: vec![InputField::field(s("name"), None)] },
            Input { name: s("Empty"), fields: vec![] },
        ],
    };
    let plan = generate("Model", &model_fields(), &args).ok().unwrap();
    let code = render_model("pub", &model_fields(), &plan);
    assert!(code.starts_with(
        "#[::nutype::nutype(const_fn, derive(Debug, PartialEq, Eq, Clone, Serialize, Deserialize, Deref, Copy, Display, FromStr, Hash), derive_unchecked(sea_orm::entity::prelude::DeriveValueType))] pub struct Id(i32); "
    ));
    assert!(code.contains("#[::nutype::nutype(derive(Debug, PartialEq, Eq, Clone, Serialize, Deserialize, Deref))] pub struct Tags(Vec<String>); "));
    assert!(code.contains(
        "#[derive(Clone, Debug, PartialEq, Eq, Deserialize, Serialize)] pub struct NewModel { pub name: String, pub pid: PublicId, pub encrypted_blob: crate::blobs::EncryptedBlob } "
    ));
    assert!(code.contains(
        "impl NewModel { #[allow(clippy::too_many_arguments)] pub fn new(name: impl ::core::convert::Into<String>, pid: impl ::core::convert::Into<PublicId>, encrypted_blob: impl ::core::convert::Into<crate::blobs::EncryptedBlob>) -> Self { Self { name: ::core::convert::Into::into(name), pid: ::core::convert::Into::into(pid), encrypted_blob: ::core::convert::Into::into(encrypted_blob) } } } "
    ));
    assert!(!code.contains("impl NewModel { fn apply"));
    assert!(code.contains(
        "impl Rename { fn apply(self, model: Model) -> Model { Model { name: self.name, ..model } } fn apply_ref(self, model: &mut Model) { model.name = self.name; } } impl From<Model> for Rename { fn from(model: Model) -> Self { Self { name: model.name } } } impl From<String> for Rename { fn from(pub name: String: String) -> Self { Self { pub name: String } } } "
    ));
    assert!(code.contains(
        "#[derive(Clone, Debug, PartialEq, Eq, Deserialize, Serialize)] pub struct Empty ; impl Empty { #[allow(clippy::too_many_arguments)] pub fn new() -> Self { Self {  } } } impl Empty { fn apply(self, model: Model) -> Model { Model { ..model } } fn apply_ref(self, model: &mut Model) { } } impl From<Model> for Empty { fn from(model: Model) -> Self { Self {  } } } "
    ));
    assert!(code.ends_with(
        "impl Model { #[allow(clippy::too_many_arguments)] pub fn new(id: impl ::core::convert::Into<i32>, public_id: impl ::core::convert::Into<PublicId>, name: impl ::core::convert::Into<String>) -> Self { Self { id: ::core::convert::Into::into(id), public_id: ::core::convert::Into::into(public_id), name: ::core::convert::Into::into(name) } } }"
    ));
    let private = render_model("", &model_fields(), &generate("Model", &model_fields(), &Args { newtypes: vec![], inputs: vec![] }).ok().unwrap());
    assert!(private.starts_with("impl Model { #[allow(clippy::too_many_arguments)]  fn new(id"));
}

#[test]
fn expands_the_derive() {
    let code = expand_model("Model", "pub(crate)", Some(model_fields()), None).ok().unwrap();
    assert_eq!(
        code,
        "impl Model { #[allow(clippy::too_many_arguments)] pub(crate) fn new(id: impl ::core::convert::Into<i32>, public_id: impl ::core::convert::Into<PublicId>, name: impl ::core::convert::Into<String>) -> Self { Self { id: ::core::convert::Into::into(id), public_id: ::core::convert::Into::into(public_id), name: ::core::convert::Into::into(name) } } }"
    );
    let e = expand_model("Model", "pub", None, None).err().unwrap();
    assert_eq!(e.message, "only named structs are supported");
    let e = expand_model("Folder", "pub", Some(model_fields()), None).err().unwrap();
    assert_eq!(e.message, "Allowed only `Model` struct name");
    let args = Args { newtypes: vec![newtype("Id", "(i32, i32)", None)], inputs: vec![] };
    let e = expand_model("Model", "pub", Some(model_fields()), Some(Ok(args))).err().unwrap();
    assert_eq!(e.message, "Not supported type for creating newtypes");
}

#[test]
fn model_refusals() {
    let no_args = Args::default_args();
    let e = generate("Folder", &model_fields(), &no_args).err().unwrap();
    assert_eq!((e.message.as_str(), e.at.as_str()), ("Allowed only `Model` struct name", "Folder"));
    assert!(check_struct_name("Model").is_ok());
    let bad_newtype = Args { newtypes: vec![newtype("T", "(u8, u8)", None)], inputs: vec![] };
    let e = generate("Model", &model_fields(), &bad_newtype).err().unwrap();
    assert_eq!(e.message, "Not supported type for creating newtypes");
    let bad_input = Args {
        newtypes: vec![],
        inputs: vec![Input { name: s("In"), fields: vec![InputField::field(s("missing"), None)] }],
    };
    let e = generate("Model", &model_fields(), &bad_input).err().unwrap();
    assert_eq!((e.message.as_str(), e.at.as_str()), ("this name found in the struct definition", "missing"));
    let e = model("Model", None, None).err().unwrap();
    assert_eq!(e.message, "only named structs are supported");
    assert!(model("Model", Some(model_fields()), None).is_ok());
    assert_eq!(crate_root(Some(FoundCrate::Itself)), "crate");
    assert_eq!(crate_root(Some(FoundCrate::Name(s("dom")))), "::dom");
    assert_eq!(crate_root(None), "::domain");
}

#[test]
fn service_arguments() {
    let mut r = Requires::all();
    try_parse_required(&strings(&["Sync", "'static", "Bogus"]), &mut r);
    assert!(r.contains(Requires::flag(SEND)) && r.contains(Requires::flag(DEBUG)));
    assert!(!r.contains(Requires::flag(SYNC)) && !r.contains(Requires::flag(STATIC)));
    let args = parse_args(vec![
        AttrItem::Unrequire(strings(&["Debug"])),
        AttrItem::DispatchTo(strings(&["a::b"])),
        AttrItem::Other(s("x")),
        AttrItem::DispatchTo(strings(&["c"])),
        AttrItem::Unrequire(strings(&["Send"])),
    ]);
    assert_eq!(args.required.bits, SYNC | STATIC);
    assert_eq!(args.dispatch_to, Some(strings(&["c"])));
    let args = parse_args(vec![]);
    assert_eq!(args.required, Requires::all());
    assert!(args.dispatch_to.is_none());
}

#[test]
fn service_trait_expansion() {
    let e = expand("::service", &strings(&["Item", "Error", "Other"]), Requires::all());
    assert_eq!(e.auto_impl, "#[::service::auto_impl::auto_impl(&, Box, Arc)]");
    assert_eq!(e.assoc_bounds[0], strings(&["Send", "Sync", "std::fmt::Debug"]));
    assert_eq!(e.assoc_bounds[1], strings(&["::core::error::Error", "'static", "Send", "Sync"]));
    assert_eq!(e.assoc_bounds[2], strings(&["Send", "Sync"]));
    assert_eq!(e.supertraits, strings(&["Send", "Sync", "std::fmt::Debug", "'static"]));
    assert_eq!(auto_impl_attribute("crate"), "#[crate::auto_impl::auto_impl(&, Box, Arc)]");
    let mut b = strings(&["Clone"]);
    expand_supertraits(Requires::flag(SYNC), &mut b);
    assert_eq!(b, strings(&["Clone", "Sync"]));
    let mut b = vec![];
    assert!(!modify_error_associated_type("Item", &mut b));
    assert!(b.is_empty());
}

#[test]
fn method_return_types() {
    let mut attrs = vec![
        Attr { ident: s("doc"), meta: AttrMeta::NameValue },
        Attr { ident: s("result"), meta: AttrMeta::List(s("MyErr")) },
        Attr { ident: s("result"), meta: AttrMeta::Path },
    ];
    let mut is_async = true;
    let r = process_method(&mut attrs, &mut is_async, Some(s("u32")), Requires::all());
    assert!(!is_async);
    assert_eq!(attrs.len(), 2);
    assert_eq!(attrs[1].ident, "result");
    match r {
        ReturnType::Future { output, bounds } => {
            assert_eq!(bounds, strings(&["Send"]));
            match *output {
                ReturnType::Result { ok, business } => {
                    assert_eq!(business, Some(s("MyErr")));
                    assert!(matches!(*ok, ReturnType::Plain(ref t) if t == "u32"));
                }
                _ => panic!("expected a result"),
            }
        }
        _ => panic!("expected a future"),
    }
    let mut attrs = vec![];
    let mut is_async = false;
    let r = process_method(&mut attrs, &mut is_async, None, Requires::all());
    assert!(matches!(r, ReturnType::Plain(ref t) if t == "()"));
    let mut attrs = vec![Attr { ident: s("result"), meta: AttrMeta::Path }];
    assert_eq!(extract_and_remove_result_attr(&mut attrs), Some(None));
    assert!(attrs.is_empty());
    assert_eq!(extract_and_remove_result_attr(&mut attrs), None);
}

fn text(t: &str) -> TypeToken {
    TypeToken::Text(s(t))
}

fn assoc(n: &str) -> TypeToken {
    TypeToken::SelfAssoc(s(n))
}

fn service_trait() -> TraitDesc {
    let result_of_item = TypeDesc {
        tokens: vec![text("::core::result::Result<"), assoc("Item"), text(", "), assoc("Error"), text(">")],
        path_last: Some(s("Result")),
    };
    let get = MethodDesc {
        ident: s("get"),
        inputs: s("&self, id: u32"),
        has_receiver: true,
        args: vec![MethodArg { ident: s("id"), pattern: s("id") }],
        is_async: false,
        output: ReturnDesc::Type {
            ty: TypeDesc { tokens: vec![text("impl ::core::future::Future<Output = ...> + Send")], path_last: None },
            impl_bounds: Some(vec![
                ImplBound { trait_last: s("Send"), assoc_args: vec![] },
                ImplBound { trait_last: s("Future"), assoc_args: vec![AssocArg { ident: s("Output"), ty: result_of_item }] },
            ]),
        },
    };
    let count = MethodDesc {
        ident: s("count"),
        inputs: s("mut n: u8"),
        has_receiver: false,
        args: vec![MethodArg { ident: s("n"), pattern: s("mut n") }],
        is_async: false,
        output: ReturnDesc::Type { ty: TypeDesc { tokens: vec![text("u8")], path_last: Some(s("u8")) }, impl_bounds: None },
    };
    TraitDesc {
        ident: s("Svc"),
        vis: s("pub"),
        generics: GenericsDesc { params: vec![], type_params: vec![], ty_generics: s(""), predicates: vec![] },
        supertraits: s("Send + Sync"),
        assoc_types: vec![
            AssocTypeDecl { ident: s("Item"), bound_traits: strings(&["Send", "Stream"]), bounds: s("Send + Stream") },
            AssocTypeDecl { ident: s("Error"), bound_traits: strings(&["Error", "Send"]), bounds: s("Error + Send") },
        ],
        methods: vec![get, count],
    }
}

#[test]
fn associated_types_are_erased() {
    let t = service_trait();
    let item = parse_assoc_type(&t.assoc_types[0], "::service");
    assert_eq!(item.erased_ty, "::core::pin::Pin<::std::boxed::Box<dyn __Item>>");
    assert_eq!(item.into_box, Some(Boxing::Pin));
    assert!(!item.map_err_into);
    assert_eq!(item.alias_def.as_deref(), Some("pub trait __Item: Send + Stream {} impl<__T: ?Sized + Send + Stream> __Item for __T {}"));
    let error = parse_assoc_type(&t.assoc_types[1], "::service");
    assert_eq!(error.erased_ty, "::service::error::DynamicSendError");
    assert!(error.map_err_into && error.into_box.is_none() && error.alias_def.is_none());
    assert_eq!(Boxing::Normal.into_box("v"), "::std::boxed::Box::new(v) as ::std::boxed::Box<_>");
    assert_eq!(join_strings(&strings(&["a", "b", "c"]), ", "), "a, b, c");
}

#[test]
fn methods_are_desugared_and_erased() {
    let t = service_trait();
    let assocs = vec![parse_assoc_type(&t.assoc_types[0], "::service"), parse_assoc_type(&t.assoc_types[1], "::service")];
    let get = parse_method(&t.methods[0], &assocs);
    assert_eq!(get.dyn_ident, "erased_get");
    assert!(get.is_async);
    assert_eq!(
        get.ret.as_deref(),
        Some("::core::result::Result<::core::pin::Pin<::std::boxed::Box<dyn __Item>>, ::service::error::DynamicSendError>")
    );
    assert!(get.meta.is_result && get.meta.map_err_into);
    assert_eq!(get.meta.into_box, Some(Boxing::Pin));
    let count = parse_method(&t.methods[1], &assocs);
    assert!(!count.is_async && !count.meta.is_result);
    assert_eq!(count.ret.as_deref(), Some("u8"));
}

#[test]
fn dynamic_companion() {
    assert!(gen_dyn_impl(false, &service_trait(), "::service").is_none());
    let e = gen_dyn_impl(true, &service_trait(), "::service").unwrap();
    let code = e.code;
    assert!(code.starts_with("#[doc(hidden)]"));
    assert!(code.contains("mod __dyn_Svc { use super::*; pub trait __Item: Send + Stream {}"));
    assert!(code.contains("#[::service::async_trait::async_trait] pub trait Dynamic: Send + Sync  { async fn erased_get(&self, id: u32) -> "));
    assert!(code.contains("Svc::get(self, id).await.map(|x| ::std::boxed::Box::pin(x) as ::std::pin::Pin<::std::boxed::Box<_>>).map_err(::service::error::FromError::from_error)"));
    assert!(code.contains("fn erased_count(mut n: u8) -> u8 { Svc::count(n) }"));
    assert!(code.contains("where __Service: Svc, <__Service as Svc>::Item: 'static, <__Service as Svc>::Error: 'static"));
    assert!(code.contains("impl Svc for dyn Dynamic  { type Item = ::core::pin::Pin<::std::boxed::Box<dyn __Item>>; type Error = ::service::error::DynamicSendError; "));
    assert!(code.contains("{ async move { Dynamic::erased_get(self, id).await } }"));
    assert!(code.contains("fn count(mut n: u8) -> u8 { Dynamic::erased_count(mut n) }"));
    assert!(code.ends_with("pub use __dyn_Svc::Dynamic as DynSvc;"));
}

fn id(x: &str) -> Token {
    Token::Ident(s(x))
}

fn p(c: char) -> Token {
    Token::Punct(c)
}

fn grp(tokens: Vec<Token>, text: &str) -> Token {
    Token::Group { parens: true, tokens, text: s(text) }
}

fn field_parts(f: &InputField) -> (bool, String, String, Vec<String>) {
    match f {
        InputField::Field { name, alias } => (false, name.clone(), alias.clone(), vec![]),
        InputField::Spread { name, path } => (true, name.clone(), String::new(), path.clone()),
    }
}

#[test]
fn reads_the_model_attribute() {
    let tokens = vec![
        id("newtypes"),
        grp(
            vec![
                id("Id"),
                grp(vec![id("i32")], "i32"),
                p(','),
                id("Name"),
                grp(vec![id("TinyAsciiStr"), p('<'), Token::Literal(s("8")), p('>')], "TinyAsciiStr < 8 >"),
                p(','),
            ],
            "Id (i32) , Name (TinyAsciiStr < 8 >) ,",
        ),
        p(','),
        id("inputs"),
        grp(
            vec![
                id("NewModel"),
                grp(
                    vec![
                        id("name"),
                        p(','),
                        id("public_id"),
                        id("as"),
                        id("pid"),
                        p(','),
                        p('.'),
                        p('.'),
                        id("crate"),
                        p(':'),
                        p(':'),
                        id("blobs"),
                        p(':'),
                        p(':'),
                        id("EncryptedBlob"),
                    ],
                    "name , public_id as pid , .. crate :: blobs :: EncryptedBlob",
                ),
                p(','),
                id("Empty"),
            ],
            "NewModel (...) , Empty",
        ),
    ];
    let args = parse_model_args(&tokens).ok().unwrap();
    let nts: Vec<(&str, &str, Option<&str>)> = args
        .newtypes
        .iter()
        .map(|t| (t.name.as_str(), t.inner.text.as_str(), t.inner.last_segment.as_deref()))
        .collect();
    assert_eq!(nts, vec![("Id", "i32", Some("i32")), ("Name", "TinyAsciiStr < 8 >", Some("TinyAsciiStr"))]);
    assert_eq!(args.inputs.len(), 2);
    assert_eq!(args.inputs[0].name, "NewModel");
    let fields: Vec<_> = args.inputs[0].fields.iter().map(field_parts).collect();
    assert_eq!(
        fields,
        vec![
            (false, s("name"), s("name"), vec![]),
            (false, s("public_id"), s("pid"), vec![]),
            (true, s("encrypted_blob"), s(""), strings(&["crate", "blobs", "EncryptedBlob"])),
        ]
    );
    assert_eq!((args.inputs[1].name.as_str(), args.inputs[1].fields.len()), ("Empty", 0));
    let plan = generate("Model", &model_fields(), &args).ok().unwrap();
    assert_eq!(plan.newtypes.len(), 2);
    assert_eq!(plan.inputs[0].fields[2].ty, "crate::blobs::EncryptedBlob");
}

#[test]
fn model_attribute_sections_and_paths() {
    let replaced = vec![id("newtypes"), grp(vec![id("A"), grp(vec![id("i32")], "i32")], "A (i32)"), id("newtypes"), grp(vec![], "")];
    let args = parse_model_args(&replaced).ok().unwrap();
    assert!(args.newtypes.is_empty() && args.inputs.is_empty());
    assert!(parse_model_args(&vec![]).ok().unwrap().newtypes.is_empty());
    let spread = vec![
        id("inputs"),
        grp(
            vec![id("In"), grp(vec![p('.'), p('.'), p(':'), p(':'), id("x"), p(':'), p(':'), id("HTTPServer"), id("as"), id("srv"), p(',')], "")],
            "",
        ),
    ];
    let args = parse_model_args(&spread).ok().unwrap();
    assert_eq!(field_parts(&args.inputs[0].fields[0]), (true, s("srv"), s(""), strings(&["", "x", "HTTPServer"])));
    let tuple = vec![id("newtypes"), grp(vec![id("Pair"), grp(vec![grp(vec![id("i32"), p(','), id("i32")], "i32 , i32")], "(i32 , i32)")], "")];
    let args = parse_model_args(&tuple).ok().unwrap();
    assert_eq!(args.newtypes[0].inner.last_segment, None);
    let e = generate("Model", &model_fields(), &args).err().unwrap();
    assert_eq!((e.message.as_str(), e.at.as_str()), ("Not supported type for creating newtypes", "(i32 , i32)"));
}

#[test]
fn model_attribute_errors() {
    let e = parse_model_args(&vec![id("outputs"), grp(vec![], "")]).err().unwrap();
    assert_eq!((e.message.as_str(), e.at.as_str()), ("expected 'newtypes' or 'inputs'", "outputs"));
    let e = parse_model_args(&vec![id("newtypes")]).err().unwrap();
    assert_eq!((e.message.as_str(), e.at.as_str()), ("expected parentheses", "newtypes"));
    let e = parse_model_args(&vec![p(',')]).err().unwrap();
    assert_eq!((e.message.as_str(), e.at.as_str()), ("expected identifier", ""));
    let e = parse_model_args(&vec![id("inputs"), grp(vec![id("A"), p(','), p(','), id("B")], "")]).err().unwrap();
    assert_eq!((e.message.as_str(), e.at.as_str()), ("unexpected token", "inputs"));
    let e = parse_model_args(&vec![id("newtypes"), grp(vec![id("A"), id("B")], "")]).err().unwrap();
    assert_eq!(e.message, "unexpected token");
    let e = parse_model_args(&vec![id("inputs"), grp(vec![], ""), id("newtypes"), grp(vec![id("A"), p(',')], "")]).err().unwrap();
    assert_eq!((e.message.as_str(), e.at.as_str()), ("unexpected token", "newtypes"));
}

#[test]
fn derives_from_attribute_tokens() {
    let tokens = vec![id("inputs"), grp(vec![id("Rename"), grp(vec![id("name")], "name")], "Rename (name)")];
    let code = derive_model("Model", "pub", Some(model_fields()), Some(tokens)).ok().unwrap();
    assert!(code.starts_with("#[derive(Clone, Debug, PartialEq, Eq, Deserialize, Serialize)] pub struct Rename { pub name: String } "));
    let e = derive_model("Model", "pub", None, Some(vec![id("bad"), grp(vec![], "")])).err().unwrap();
    assert_eq!(e.message, "expected 'newtypes' or 'inputs'");
    let e = derive_model("Model", "pub", None, Some(vec![])).err().unwrap();
    assert_eq!(e.message, "only named structs are supported");
    let e = derive_model("Model", "pub", Some(model_fields()), Some(vec![id("inputs"), grp(vec![id("X"), grp(vec![id("missing")], "")], "")])).err().unwrap();
    assert_eq!((e.message.as_str(), e.at.as_str()), ("this name found in the struct definition", "missing"));
    assert!(derive_model("Model", "", Some(model_fields()), None).ok().unwrap().starts_with("impl Model {"));
}
