use db_view::decl::{DiagnosticKind, Expansion};
use db_view::emit::emit;
use db_view::hygiene::{collect_identifiers, HygieneContext};
use db_view::names::{derive_hidden_interface_name, derive_hidden_method_name};
use db_view::pipeline::db_view;

#[test]
fn derived_names_are_deterministic() {
    let a1 = derive_hidden_interface_name("UserTrait");
    let a2 = derive_hidden_interface_name("UserTrait");
    assert_eq!(a1, a2);
    let b1 = derive_hidden_method_name("UserTrait");
    let b2 = derive_hidden_method_name("UserTrait");
    assert_eq!(b1, b2);
}

#[test]
fn derived_names_for_user_trait() {
    assert_eq!(
        derive_hidden_interface_name("UserTrait"),
        "__SalsaAddViewUserTrait__"
    );
    assert_eq!(
        derive_hidden_method_name("UserTrait"),
        "__salsa_add_view_user_trait__"
    );
}

#[test]
fn derived_names_segment_acronyms_and_digits() {
    assert_eq!(
        derive_hidden_method_name("XMLHttpRequest"),
        "__salsa_add_view_xml_http_request__"
    );
    assert_eq!(
        derive_hidden_method_name("Abc9Def"),
        "__salsa_add_view_abc9_def__"
    );
}

#[test]
fn derived_names_do_not_collide() {
    for name in ["UserTrait", "x", "__Weird__", "Abc9Def", "DB"] {
        let iface = derive_hidden_interface_name(name);
        let method = derive_hidden_method_name(name);
        assert_ne!(iface, name);
        assert_ne!(method, name);
        assert_ne!(iface, method);
    }
}

#[test]
fn happy_path_expansion() {
    let r = db_view("", "pub trait UserTrait { fn frobnicate(&self); }");
    match r {
        Expansion::Success(a) => {
            assert_eq!(a.interface.name, "UserTrait");
            assert_eq!(a.interface.vis, "pub");
            assert_eq!(a.interface.requirements, vec!["__SalsaAddViewUserTrait__"]);
            assert_eq!(a.interface.body.len(), 1);
            assert!(a.interface.body[0].contains("frobnicate"));
            assert_eq!(a.hidden.vis, "pub");
            assert_eq!(a.hidden.name, "__SalsaAddViewUserTrait__");
            assert_eq!(a.hidden.methods, vec!["__salsa_add_view_user_trait__"]);
            assert_eq!(a.blanket.hidden_interface, "__SalsaAddViewUserTrait__");
            assert_eq!(a.blanket.method, "__salsa_add_view_user_trait__");
            assert_eq!(a.blanket.user_interface, "UserTrait");
        }
        Expansion::Failure(_) => panic!("expected a successful expansion"),
    }
}

#[test]
fn preexisting_requirement_kept_first() {
    let r = db_view("", "pub trait UserTrait: OtherTrait { }");
    match r {
        Expansion::Success(a) => {
            assert_eq!(
                a.interface.requirements,
                vec!["OtherTrait", "__SalsaAddViewUserTrait__"]
            );
        }
        Expansion::Failure(_) => panic!("expected a successful expansion"),
    }
}

#[test]
fn argument_text_is_an_argument_error() {
    let r = db_view("unexpected", "pub trait UserTrait { }");
    match r {
        Expansion::Failure(d) => {
            assert!(matches!(d.kind, DiagnosticKind::ArgumentError));
            assert_eq!(d.message, "the attribute accepts no arguments");
        }
        Expansion::Success(_) => panic!("expected an argument-error diagnostic"),
    }
}

#[test]
fn non_interface_input_is_a_syntax_error() {
    let r = db_view("", "struct NotATrait { x: u32 }");
    match r {
        Expansion::Failure(d) => {
            assert!(matches!(d.kind, DiagnosticKind::SyntaxError));
            assert_eq!(d.message, "expected a trait declaration");
        }
        Expansion::Success(_) => panic!("expected a syntax-error diagnostic"),
    }
}

#[test]
fn hygiene_locals_avoid_input_identifiers() {
    let r = db_view("", "pub trait UserTrait { fn views(&self) -> DB; }");
    match r {
        Expansion::Success(a) => {
            assert_eq!(a.blanket.type_param, "DB_");
            assert_eq!(a.blanket.capability_alias, "Database");
            assert_eq!(a.blanket.registry_var, "views_");
        }
        Expansion::Failure(_) => panic!("expected a successful expansion"),
    }
}

#[test]
fn hygiene_locals_default_names() {
    let r = db_view("", "trait A { }");
    match r {
        Expansion::Success(a) => {
            assert_eq!(a.blanket.type_param, "DB");
            assert_eq!(a.blanket.capability_alias, "Database");
            assert_eq!(a.blanket.registry_var, "views");
        }
        Expansion::Failure(_) => panic!("expected a successful expansion"),
    }
}

#[test]
fn emit_success_fragment() {
    let r = db_view("", "trait A { }");
    let fragment = emit(&r);
    let expected = "trait A: __SalsaAddViewA__ { } \
#[doc(hidden)] trait __SalsaAddViewA__ { fn __salsa_add_view_a__(&self); } \
const _: () = { use salsa::Database as Database; \
#[doc(hidden)] impl<DB: Database> __SalsaAddViewA__ for DB { \
fn __salsa_add_view_a__(&self) { let views = self.views_of_self(); \
views.add::<dyn A>(|t| t, |t| t); } } };";
    assert_eq!(fragment, expected);
}

#[test]
fn emit_diagnostic_fragment() {
    let r = db_view("unexpected", "trait A { }");
    let fragment = emit(&r);
    assert_eq!(
        fragment,
        "::core::compile_error! { \"the attribute accepts no arguments\" }"
    );
}

#[test]
fn emitted_fragment_reparses_as_tokens() {
    let r = db_view("", "pub trait UserTrait: OtherTrait { fn frobnicate(&self) -> u32; }");
    let fragment = emit(&r);
    let reparsed = fragment.parse::<proc_macro2::TokenStream>();
    assert!(reparsed.is_ok());
}

#[test]
fn collect_identifiers_finds_runs() {
    let ids = collect_identifiers("fn foo(x: u32) -> Bar");
    assert_eq!(ids, vec!["fn", "foo", "x", "u32", "Bar"]);
    let ids = collect_identifiers("__a_b  +c9");
    assert_eq!(ids, vec!["__a_b", "c9"]);
    let empty = collect_identifiers("+-*");
    assert!(empty.is_empty());
}

#[test]
fn hygiene_context_memoizes() {
    let taken = vec!["views".to_string(), "DB".to_string()];
    let mut ctx = HygieneContext::new(taken);
    let v1 = ctx.fresh("views");
    let v2 = ctx.fresh("views");
    assert_eq!(v1, "views_");
    assert_eq!(v1, v2);
    assert_eq!(ctx.fresh("DB"), "DB_");
    assert_eq!(ctx.fresh("Database"), "Database");
}

#[test]
fn hygiene_context_separates_symbolic_names() {
    let mut ctx = HygieneContext::new(Vec::new());
    let a = ctx.fresh("DB");
    let b = ctx.fresh("Database");
    let c = ctx.fresh("views");
    assert_ne!(a, b);
    assert_ne!(a, c);
    assert_ne!(b, c);
}
