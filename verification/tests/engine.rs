//! Whole requests on values written out by hand.

use trait_impl_stubs::completion::{complete_trait_impl, resolve_target_trait};
use trait_impl_stubs::missing::{has_name, is_implemented, is_missing, item_provides, missing_members};
use trait_impl_stubs::model::{
    AssociatedTypeMember, CallableMember, CompletionContext, CompletionItem, CompletionItemKind,
    Completions, ConstantMember, ImplBlock, ImplementationMember, InterfaceDefinition,
    InterfaceMember, Resolution,
};

fn callable(name: &str) -> InterfaceMember {
    InterfaceMember::Callable(CallableMember {
        name: name.to_string(),
        generic_params: Vec::new(),
        self_param: None,
        params: Vec::new(),
        ret_type: None,
        where_predicates: Vec::new(),
        docs: None,
    })
}

fn constant(name: Option<&str>) -> InterfaceMember {
    InterfaceMember::Constant(ConstantMember { name: name.map(|n| n.to_string()), docs: None })
}

fn associated_type(name: &str) -> InterfaceMember {
    InterfaceMember::AssociatedType(AssociatedTypeMember { name: name.to_string(), docs: None })
}

fn fn_impl(name: &str) -> ImplementationMember {
    ImplementationMember::CallableImpl { name: Some(name.to_string()) }
}

fn const_impl(name: &str) -> ImplementationMember {
    ImplementationMember::ConstantImpl { name: Some(name.to_string()) }
}

fn type_impl(name: &str) -> ImplementationMember {
    ImplementationMember::AssociatedTypeImpl { name: Some(name.to_string()) }
}

fn interface(members: Vec<InterfaceMember>) -> Option<Resolution> {
    Some(Resolution::Interface(InterfaceDefinition { members }))
}

fn in_block(items: Vec<ImplementationMember>, offset: u32) -> CompletionContext {
    CompletionContext {
        impl_block: Some(ImplBlock { has_target_path: true, item_list: Some(items) }),
        in_function_body: false,
        offset,
    }
}

fn run(ctx: &CompletionContext, resolution: &Option<Resolution>) -> Vec<CompletionItem> {
    let mut acc = Completions::new();
    complete_trait_impl(&mut acc, ctx, resolution);
    acc.buf
}

fn labels(items: &[CompletionItem]) -> Vec<String> {
    items.iter().map(|c| c.label.clone()).collect()
}

fn names(found: &[&InterfaceMember]) -> Vec<Option<String>> {
    found
        .iter()
        .map(|m| match m {
            InterfaceMember::Callable(f) => Some(f.name.clone()),
            InterfaceMember::Constant(c) => c.name.clone(),
            InterfaceMember::AssociatedType(t) => Some(t.name.clone()),
        })
        .collect()
}

#[test]
fn one_of_two_callables_is_provided() {
    let resolution = interface(vec![callable("foo"), callable("bar")]);
    let found = run(&in_block(vec![fn_impl("foo")], 193), &resolution);
    assert_eq!(found.len(), 1);
    assert_eq!(found[0].label, "fn bar()");
    assert_eq!(found[0].insert_text, "fn bar() {}");
    assert_eq!(found[0].kind, CompletionItemKind::Function);
    assert_eq!(found[0].source_start, 193);
    assert_eq!(found[0].source_end, 193);
}

#[test]
fn path_resolved_to_a_concrete_type() {
    let ctx = in_block(Vec::new(), 0);
    assert!(run(&ctx, &Some(Resolution::ConcreteType)).is_empty());
    assert!(run(&ctx, &Some(Resolution::Enumeration)).is_empty());
    assert!(run(&ctx, &Some(Resolution::Other)).is_empty());
    assert!(run(&ctx, &None).is_empty());
}

#[test]
fn nothing_provided_offers_every_member_but_constants() {
    let resolution = interface(vec![
        callable("a"),
        constant(Some("N")),
        associated_type("Out"),
        constant(None),
        callable("b"),
    ]);
    let found = run(&in_block(Vec::new(), 5), &resolution);
    assert_eq!(labels(&found), vec!["fn a()", "type Out = ", "fn b()"]);
    assert!(found.iter().all(|c| c.source_start == 5 && c.source_end == 5));
}

#[test]
fn count_is_members_less_provided() {
    let members = || {
        vec![
            callable("a"),
            associated_type("B"),
            callable("c"),
            constant(Some("D")),
            associated_type("E"),
            callable("f"),
        ]
    };
    let provided = vec![fn_impl("c"), type_impl("B"), fn_impl("unrelated"), const_impl("D")];
    let found = run(&in_block(provided, 0), &interface(members()));
    // five members with a stub, two of them provided
    assert_eq!(found.len(), 5 - 2);
    assert_eq!(labels(&found), vec!["fn a()", "type E = ", "fn f()"]);
}

#[test]
fn everything_provided_offers_nothing() {
    let resolution = interface(vec![callable("a"), associated_type("B"), constant(Some("C"))]);
    let found = run(&in_block(vec![type_impl("B"), fn_impl("a")], 0), &resolution);
    assert!(found.is_empty());
}

#[test]
fn provided_members_are_not_offered_again() {
    let resolution = interface(vec![callable("a"), callable("b"), callable("a")]);
    let found = run(&in_block(vec![fn_impl("a")], 0), &resolution);
    assert_eq!(labels(&found), vec!["fn b()"]);
}

#[test]
fn constants_are_never_offered() {
    let resolution = interface(vec![constant(Some("A")), constant(None), constant(Some("B"))]);
    assert!(run(&in_block(Vec::new(), 0), &resolution).is_empty());
    assert!(run(&in_block(vec![const_impl("A")], 0), &resolution).is_empty());
}

#[test]
fn same_request_twice_gives_the_same_answer() {
    let resolution = interface(vec![callable("a"), associated_type("B"), callable("c")]);
    let ctx = in_block(vec![fn_impl("c")], 9);
    let first = run(&ctx, &resolution);
    let second = run(&ctx, &resolution);
    assert_eq!(first.len(), second.len());
    for (x, y) in first.iter().zip(second.iter()) {
        assert_eq!(x.label, y.label);
        assert_eq!(x.insert_text, y.insert_text);
        assert_eq!(x.kind, y.kind);
        assert_eq!(x.documentation, y.documentation);
        assert_eq!(x.source_start, y.source_start);
        assert_eq!(x.source_end, y.source_end);
    }
}

#[test]
fn candidates_follow_what_was_collected_before() {
    let resolution = interface(vec![callable("a")]);
    let ctx = in_block(Vec::new(), 0);
    let mut acc = Completions::new();
    complete_trait_impl(&mut acc, &ctx, &resolution);
    complete_trait_impl(&mut acc, &ctx, &Some(Resolution::ConcreteType));
    complete_trait_impl(&mut acc, &ctx, &interface(vec![associated_type("T")]));
    assert_eq!(labels(&acc.buf), vec!["fn a()", "type T = "]);
}

#[test]
fn no_block_at_the_cursor() {
    let ctx = CompletionContext { impl_block: None, in_function_body: false, offset: 0 };
    assert!(run(&ctx, &interface(vec![callable("a")])).is_empty());
}

#[test]
fn block_without_member_list() {
    let ctx = CompletionContext {
        impl_block: Some(ImplBlock { has_target_path: true, item_list: None }),
        in_function_body: false,
        offset: 0,
    };
    assert!(run(&ctx, &interface(vec![callable("a")])).is_empty());
}

#[test]
fn cursor_in_a_function_body() {
    let mut ctx = in_block(Vec::new(), 0);
    ctx.in_function_body = true;
    assert!(run(&ctx, &interface(vec![callable("a")])).is_empty());
}

#[test]
fn block_without_target_path() {
    let ctx = CompletionContext {
        impl_block: Some(ImplBlock { has_target_path: false, item_list: Some(Vec::new()) }),
        in_function_body: false,
        offset: 0,
    };
    assert!(run(&ctx, &interface(vec![callable("a")])).is_empty());
}

#[test]
fn resolver_keeps_interfaces_only() {
    let with_path = ImplBlock { has_target_path: true, item_list: None };
    let without_path = ImplBlock { has_target_path: false, item_list: None };
    let found = interface(vec![callable("a"), callable("b")]);
    assert_eq!(resolve_target_trait(&with_path, &found).map(|d| d.members.len()), Some(2));
    assert!(resolve_target_trait(&without_path, &found).is_none());
    assert!(resolve_target_trait(&with_path, &Some(Resolution::ConcreteType)).is_none());
    assert!(resolve_target_trait(&with_path, &Some(Resolution::Enumeration)).is_none());
    assert!(resolve_target_trait(&with_path, &Some(Resolution::Other)).is_none());
    assert!(resolve_target_trait(&with_path, &None).is_none());
}

#[test]
fn match_needs_kind_and_name() {
    assert!(item_provides(&fn_impl("x"), &callable("x")));
    assert!(!item_provides(&fn_impl("y"), &callable("x")));
    assert!(!item_provides(&fn_impl("X"), &callable("x")));
    assert!(!item_provides(&fn_impl("xx"), &callable("x")));
    assert!(!item_provides(&type_impl("x"), &callable("x")));
    assert!(!item_provides(&const_impl("x"), &callable("x")));
    assert!(item_provides(&type_impl("x"), &associated_type("x")));
    assert!(!item_provides(&fn_impl("x"), &associated_type("x")));
    assert!(item_provides(&const_impl("x"), &constant(Some("x"))));
    assert!(!item_provides(&const_impl("y"), &constant(Some("x"))));
    assert!(!item_provides(&fn_impl("x"), &constant(Some("x"))));
    assert!(!item_provides(&ImplementationMember::MacroCall, &callable("x")));
}

#[test]
fn members_without_a_name_match_nothing() {
    let nameless_fn = ImplementationMember::CallableImpl { name: None };
    let nameless_const = ImplementationMember::ConstantImpl { name: None };
    let nameless_type = ImplementationMember::AssociatedTypeImpl { name: None };
    assert!(!item_provides(&nameless_fn, &callable("")));
    assert!(!item_provides(&nameless_type, &associated_type("")));
    assert!(!item_provides(&nameless_const, &constant(Some(""))));
    assert!(!item_provides(&nameless_const, &constant(None)));
    assert!(!item_provides(&const_impl("x"), &constant(None)));
    assert!(!has_name(&None, &String::new()));
    assert!(has_name(&Some("a".to_string()), &"a".to_string()));
    assert!(!has_name(&Some("a".to_string()), &"b".to_string()));
}

#[test]
fn missing_keeps_named_constants_and_drops_nameless_ones() {
    let def = InterfaceDefinition {
        members: vec![
            callable("a"),
            constant(Some("N")),
            constant(None),
            associated_type("T"),
            constant(Some("M")),
        ],
    };
    let items = vec![const_impl("M"), fn_impl("a")];
    let found = missing_members(&def, &items);
    assert_eq!(names(&found), vec![Some("N".to_string()), Some("T".to_string())]);
    assert!(matches!(found[0], InterfaceMember::Constant(_)));
    assert!(matches!(found[1], InterfaceMember::AssociatedType(_)));
    assert!(!is_missing(&constant(None), &Vec::new()));
    assert!(is_missing(&constant(Some("N")), &items));
    assert!(!is_missing(&constant(Some("M")), &items));
    assert!(is_implemented(&callable("a"), &items));
    assert!(!is_implemented(&callable("b"), &items));
    assert!(!is_implemented(&callable("a"), &Vec::new()));
}

#[test]
fn missing_of_an_empty_interface() {
    let def = InterfaceDefinition { members: Vec::new() };
    assert!(missing_members(&def, &vec![fn_impl("a")]).is_empty());
    assert!(run(&in_block(vec![fn_impl("a")], 0), &interface(Vec::new())).is_empty());
}
