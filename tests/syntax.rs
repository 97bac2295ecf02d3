use decl_syntax::attr::{extract_cfg_attrs, Attribute, AttributeValue};
use decl_syntax::decl::{decl_get_info, Declaration, EnumDecl, StructDecl};
use decl_syntax::path::{extract_typename, path_ends_with_complex, PathSegment, TypeExpr};
use decl_syntax::repr::{enum_repr, via_type, ReprError, ViaType};
use decl_syntax::signature::{complete_as_declaration, reduce_to_signature, Function};
use decl_syntax::tokens::{
    cstr_bytes, delimiter_opening_char, is_punct, path_ends_with, path_is_single, stream_to_text,
    token_to_text, Delimiter, Spacing, TokenTree,
};
use decl_syntax::validate::{
    is_impl_named, validate_impl, validate_trait_impl_virtual, ImplBlock, ImplError,
};

fn ident(s: &str) -> TokenTree {
    TokenTree::Ident(s.to_string())
}

fn seg(s: &str, generics: Option<&str>) -> PathSegment {
    PathSegment { ident: s.to_string(), generic_args: generics.map(|g| g.to_string()) }
}

fn path(segs: &[(&str, Option<&str>)]) -> TypeExpr {
    TypeExpr::Path(segs.iter().map(|(s, g)| seg(s, *g)).collect())
}

fn attr(name: &str, value: AttributeValue) -> Attribute {
    Attribute { path: vec![ident(name)], value }
}

fn enum_with(attributes: Vec<Attribute>) -> EnumDecl {
    EnumDecl { attributes, name: "Dir".to_string(), generic_params: None, where_clause: None }
}

fn impl_block(trait_ty: Option<TypeExpr>, self_ty: TypeExpr) -> ImplBlock {
    ImplBlock { trait_ty, self_ty }
}

#[test]
fn extract_typename_of_non_path_is_none() {
    assert!(extract_typename(&TypeExpr::Other("&Foo".to_string())).is_none());
    assert!(extract_typename(&TypeExpr::Other("(A, B)".to_string())).is_none());
    assert!(extract_typename(&TypeExpr::Path(vec![])).is_none());
}

#[test]
fn extract_typename_takes_last_segment() {
    let ty = path(&[("godot", None), ("obj", None), ("Gd", Some("<Node>"))]);
    let s = extract_typename(&ty).unwrap();
    assert_eq!(s.ident, "Gd");
    assert_eq!(s.generic_args.as_deref(), Some("<Node>"));
}

#[test]
fn path_ends_with_complex_checks_last_ident() {
    let ty = path(&[("a", None), ("Foo", Some("<T>"))]);
    assert!(path_ends_with_complex(&ty, "Foo"));
    assert!(!path_ends_with_complex(&ty, "a"));
    assert!(!path_ends_with_complex(&TypeExpr::Other("&Foo".to_string()), "Foo"));
}

#[test]
fn token_predicates() {
    assert!(is_punct(&TokenTree::Punct('#', Spacing::Alone), '#'));
    assert!(!is_punct(&TokenTree::Punct('#', Spacing::Alone), '!'));
    assert!(!is_punct(&ident("x"), 'x'));
    assert_eq!(delimiter_opening_char(Delimiter::Parenthesis), '(');
    assert_eq!(delimiter_opening_char(Delimiter::Brace), '{');
    assert_eq!(delimiter_opening_char(Delimiter::Bracket), '[');
    assert_eq!(delimiter_opening_char(Delimiter::Invisible), 'Ø');
}

#[test]
fn path_is_single_and_ends_with() {
    let p = vec![ident("godot"), TokenTree::Punct(':', Spacing::Joint), TokenTree::Punct(':', Spacing::Joint), ident("export")];
    assert!(!path_is_single(&p, "export"));
    assert!(path_ends_with(&p, "export"));
    assert!(!path_ends_with(&p, "godot"));
    assert!(path_is_single(&[ident("export")], "export"));
    assert!(!path_is_single(&[ident("export")], "var"));
    assert!(path_is_single(&[TokenTree::Punct(':', Spacing::Joint)], ":"));
    assert!(!path_ends_with(&[], "export"));
}

#[test]
fn single_path_segment_skips_punctuation() {
    let a = Attribute {
        path: vec![TokenTree::Punct(':', Spacing::Joint), TokenTree::Punct(':', Spacing::Joint), ident("repr")],
        value: AttributeValue::Empty,
    };
    assert_eq!(a.get_single_path_segment().as_deref(), Some("repr"));
    let b = Attribute {
        path: vec![ident("godot"), TokenTree::Punct(':', Spacing::Joint), TokenTree::Punct(':', Spacing::Joint), ident("var")],
        value: AttributeValue::Empty,
    };
    assert!(b.get_single_path_segment().is_none());
}

#[test]
fn cfg_attrs_are_kept_in_order() {
    let attrs = vec![
        attr("cfg", AttributeValue::Group(vec![ident("test")])),
        attr("doc", AttributeValue::Equals(vec![TokenTree::Literal("\"x\"".to_string())])),
        attr("cfg", AttributeValue::Group(vec![ident("unix")])),
    ];
    let kept = extract_cfg_attrs(&attrs);
    assert_eq!(kept.len(), 2);
    assert!(matches!(&kept[0].value, AttributeValue::Group(t) if matches!(&t[0], TokenTree::Ident(s) if s == "test")));
    assert!(matches!(&kept[1].value, AttributeValue::Group(t) if matches!(&t[0], TokenTree::Ident(s) if s == "unix")));
}

#[test]
fn decl_info_of_struct_and_enum() {
    let s = Declaration::Struct(StructDecl {
        attributes: vec![],
        name: "Player".to_string(),
        generic_params: Some("<T>".to_string()),
        where_clause: Some("where T: Clone".to_string()),
    });
    let info = decl_get_info(&s);
    assert_eq!(info.name, "Player");
    assert_eq!(info.name_string, "Player");
    assert_eq!(info.generic_params.as_deref(), Some("<T>"));
    assert_eq!(info.where_.as_deref(), Some("where T: Clone"));
    let e = Declaration::Enum(enum_with(vec![]));
    let info = decl_get_info(&e);
    assert_eq!(info.name, "Dir");
    assert!(info.generic_params.is_none() && info.where_.is_none());
}

#[test]
fn validate_impl_accepts_named_trait() {
    let b = impl_block(Some(path(&[("godot", None), ("Foo", None)])), path(&[("Player", None)]));
    assert!(is_impl_named(&b, "Foo"));
    assert_eq!(validate_impl(&b, Some("Foo"), "godot_api").unwrap(), "Player");
    assert_eq!(validate_impl(&b, None, "godot_api").unwrap(), "Player");
}

#[test]
fn validate_impl_rejects_other_trait() {
    let b = impl_block(Some(path(&[("Bar", None)])), path(&[("Player", None)]));
    let e = validate_impl(&b, Some("Foo"), "godot_api").unwrap_err();
    assert!(matches!(e, ImplError::TraitMismatch { .. }));
    assert_eq!(e.message(), "#[godot_api] for trait impls requires trait to be `Foo`");
    let inherent = impl_block(None, path(&[("Player", None)]));
    assert!(matches!(validate_impl(&inherent, Some("Foo"), "a"), Err(ImplError::TraitMismatch { .. })));
}

#[test]
fn validate_impl_rejects_generic_self() {
    let b = impl_block(Some(path(&[("Foo", None)])), path(&[("Player", Some("<T>"))]));
    for expected in [Some("Foo"), None] {
        let e = validate_impl(&b, expected, "godot_api").unwrap_err();
        assert!(matches!(e, ImplError::GenericSelf { .. }));
        assert_eq!(e.message(), "#[godot_api] for does currently not support generic arguments");
    }
}

#[test]
fn validate_impl_rejects_non_path_self() {
    for other in ["&Player", "(A, B)"] {
        let b = impl_block(None, TypeExpr::Other(other.to_string()));
        let e = validate_impl(&b, None, "godot_api").unwrap_err();
        assert!(matches!(e, ImplError::SelfNotSimplePath { .. }));
        assert_eq!(e.message(), "#[godot_api] requires Self type to be a simple path");
    }
}

#[test]
fn virtual_trait_impl_rules() {
    let ok = impl_block(Some(path(&[("INode", None)])), path(&[("Player", None)]));
    let (name, tr) = validate_trait_impl_virtual(&ok, "godot_api").unwrap();
    assert_eq!(name, "Player");
    assert!(path_ends_with_complex(tr, "INode"));

    let not_virtual = impl_block(Some(path(&[("Node", None)])), path(&[("Player", None)]));
    let e = validate_trait_impl_virtual(&not_virtual, "godot_api").unwrap_err();
    assert!(matches!(e, ImplError::NotVirtualTrait { .. }));
    assert_eq!(
        e.message(),
        "#[godot_api] for trait impls requires a virtual method trait (trait name should start with 'I')"
    );

    let generic = impl_block(Some(path(&[("INode", None)])), path(&[("Player", Some("<T>"))]));
    assert!(matches!(validate_trait_impl_virtual(&generic, "a"), Err(ImplError::GenericSelf { .. })));
}

#[test]
fn enum_without_repr_is_dynamic() {
    let e = enum_with(vec![attr("derive", AttributeValue::Group(vec![ident("Clone")]))]);
    assert!(matches!(enum_repr(&e), Ok(ViaType::Enum)));
    assert_eq!(enum_repr(&e).unwrap().type_path(), "::godot::builtin::Variant");
}

#[test]
fn enum_with_repr_i32() {
    let e = enum_with(vec![attr("repr", AttributeValue::Group(vec![ident("i32")]))]);
    let v = enum_repr(&e).unwrap();
    assert!(matches!(&v, ViaType::EnumWithRepr { int_ty } if int_ty == "i32"));
    assert_eq!(v.type_path(), "i32");
}

#[test]
fn enum_with_repr_u64_is_refused() {
    let e = enum_with(vec![
        attr("doc", AttributeValue::Empty),
        attr("repr", AttributeValue::Group(vec![ident("u64")])),
    ]);
    let err = enum_repr(&e).unwrap_err();
    assert!(matches!(&err, ReprError::UnsupportedRepr { attr_index: 1, repr } if repr == "u64"));
    assert_eq!(
        err.message(),
        "enum with repr #[repr(u64)] cannot implement `GodotConvert`, repr must be one of: i8, i16, i32, i64, u8, u16, u32"
    );
}

#[test]
fn enum_with_empty_repr_is_refused() {
    let e = enum_with(vec![attr("repr", AttributeValue::Group(vec![]))]);
    let err = enum_repr(&e).unwrap_err();
    assert!(matches!(err, ReprError::EmptyReprList { attr_index: 0 }));
    assert_eq!(err.message(), "expected non-empty `repr` list");
}

#[test]
fn supported_reprs_and_first_repr_wins() {
    for t in ["i8", "u8", "i16", "u16", "i32", "u32", "i64"] {
        let e = enum_with(vec![attr("repr", AttributeValue::Group(vec![ident(t)]))]);
        assert!(matches!(enum_repr(&e), Ok(ViaType::EnumWithRepr { int_ty }) if int_ty == t));
    }
    for t in ["u64", "i128", "u128", "isize", "usize", "C"] {
        let e = enum_with(vec![attr("repr", AttributeValue::Group(vec![ident(t)]))]);
        assert!(matches!(enum_repr(&e), Err(ReprError::UnsupportedRepr { .. })));
    }
    let e = enum_with(vec![
        attr("repr", AttributeValue::Group(vec![ident("u8")])),
        attr("repr", AttributeValue::Group(vec![ident("u64")])),
    ]);
    assert!(matches!(enum_repr(&e), Ok(ViaType::EnumWithRepr { int_ty }) if int_ty == "u8"));
}

#[test]
fn via_type_by_declaration_kind() {
    let s = Declaration::Struct(StructDecl {
        attributes: vec![],
        name: "S".to_string(),
        generic_params: None,
        where_clause: None,
    });
    assert!(matches!(via_type(&s), Ok(ViaType::Struct)));
    let e = Declaration::Enum(enum_with(vec![attr("repr", AttributeValue::Group(vec![ident("u16")]))]));
    assert!(matches!(via_type(&e), Ok(ViaType::EnumWithRepr { int_ty }) if int_ty == "u16"));
    let o = Declaration::Other { name: Some("helper".to_string()) };
    let err = via_type(&o).unwrap_err();
    assert_eq!(
        err.message(),
        "cannot get via type for `helper`, only structs and enums are supported currently"
    );
}

#[test]
fn reduce_strips_everything_but_signature() {
    let f = Function {
        attributes: vec![attr("inline", AttributeValue::Empty)],
        vis_marker: Some("pub".to_string()),
        qualifiers: vec!["unsafe".to_string()],
        name: "f".to_string(),
        generic_params: Some("<T>".to_string()),
        params: vec!["x: T".to_string()],
        where_clause: None,
        return_ty: Some("T".to_string()),
        has_semicolon: true,
        body: Some(vec![ident("x")]),
    };
    let r = reduce_to_signature(&f);
    assert!(r.vis_marker.is_none() && r.attributes.is_empty() && !r.has_semicolon && r.body.is_none());
    assert_eq!(r.name, "f");
    assert_eq!(r.generic_params.as_deref(), Some("<T>"));
    assert_eq!(r.params, vec!["x: T".to_string()]);
    assert_eq!(r.return_ty.as_deref(), Some("T"));
    assert_eq!(r.qualifiers, vec!["unsafe".to_string()]);
}

#[test]
fn completion_appends_empty_body() {
    let sig = vec![ident("fn"), ident("f"), TokenTree::Group(Delimiter::Parenthesis, vec![])];
    let done = complete_as_declaration(sig);
    assert_eq!(done.len(), 4);
    assert!(matches!(&done[1], TokenTree::Ident(s) if s == "f"));
    assert!(matches!(&done[3], TokenTree::Group(Delimiter::Brace, inner) if inner.is_empty()));
}

#[test]
fn cstr_bytes_end_with_nul() {
    assert_eq!(cstr_bytes("Node"), b"Node\0".to_vec());
    assert_eq!(cstr_bytes(""), vec![0u8]);
}

#[test]
fn groups_match_their_rendered_text() {
    let invisible = TokenTree::Group(Delimiter::Invisible, vec![ident("Gd")]);
    assert!(path_is_single(&[invisible], "Gd"));
    let parens = TokenTree::Group(Delimiter::Parenthesis, vec![]);
    assert!(path_is_single(&[parens], "()"));
    let last = TokenTree::Group(Delimiter::Bracket, vec![ident("a"), TokenTree::Punct(',', Spacing::Alone), ident("b")]);
    assert!(path_ends_with(&[ident("x"), last], "[a , b]"));
    assert!(!path_is_single(&[ident("Gd"), TokenTree::Punct('<', Spacing::Alone)], "Gd"));
}

#[test]
fn token_text_follows_stream_rendering() {
    assert_eq!(token_to_text(&TokenTree::Group(Delimiter::Brace, vec![])), "{ }");
    assert_eq!(token_to_text(&TokenTree::Group(Delimiter::Brace, vec![ident("x")])), "{ x }");
    let arrow = vec![
        TokenTree::Punct('-', Spacing::Joint),
        TokenTree::Punct('>', Spacing::Alone),
        ident("T"),
    ];
    assert_eq!(stream_to_text(&arrow), "-> T");
    let gd: proc_macro2::TokenStream = "godot::obj::Gd<Node>".parse().unwrap();
    let model: Vec<TokenTree> = gd.clone().into_iter().map(|t| match t {
        proc_macro2::TokenTree::Ident(i) => ident(&i.to_string()),
        proc_macro2::TokenTree::Punct(p) => TokenTree::Punct(
            p.as_char(),
            if p.spacing() == proc_macro2::Spacing::Joint { Spacing::Joint } else { Spacing::Alone },
        ),
        other => panic!("unexpected token {other}"),
    }).collect();
    assert_eq!(stream_to_text(&model), gd.to_string());
}
