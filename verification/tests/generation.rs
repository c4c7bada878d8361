use ordinal_rpc::schema::Param;
use ordinal_rpc::schema::WireType;
use ordinal_rpc::validate::generate;
use ordinal_rpc::validate::DiagnosticKind;
use ordinal_rpc::validate::InterfaceDecl;
use ordinal_rpc::validate::InterfaceMember;
use ordinal_rpc::validate::MethodDecl;
use ordinal_rpc::world::world_declaration;

fn method(name: &str) -> MethodDecl {
    MethodDecl {
        name: name.to_owned(),
        has_receiver: true,
        is_const: false,
        is_async: false,
        has_generics: false,
        params: Vec::new(),
        ret: None,
    }
}

#[test]
fn world_declaration_generates_the_canonical_interface() {
    let decl = world_declaration();
    let (spec, diags) = generate(&decl);
    assert!(diags.is_empty());
    assert_eq!(spec.name, "World".to_owned());
    assert_eq!(spec.methods.len(), 1);
    assert_eq!(spec.methods[0].name, "ping".to_owned());
    assert_eq!(spec.methods[0].ordinal, 0);
    assert_eq!(spec.methods[0].params.len(), 1);
    assert_eq!(spec.methods[0].params[0].name, "num".to_owned());
    assert_eq!(spec.methods[0].params[0].ty, WireType::Unsigned);
    assert_eq!(spec.methods[0].ret, WireType::Text);
}

#[test]
fn validation_is_complete_in_one_pass() {
    // Five declared members, two of which violate constraints: one pass
    // yields exactly two diagnostics and three usable methods, with the
    // invalid positions in the middle.
    let mut bad_const = method("stale");
    bad_const.is_const = true;
    let mut bad_receiver = method("free");
    bad_receiver.has_receiver = false;
    let decl = InterfaceDecl {
        name: "Mixed".to_owned(),
        members: vec![
            InterfaceMember::Method(method("first")),
            InterfaceMember::Method(bad_const),
            InterfaceMember::Method(method("second")),
            InterfaceMember::Method(bad_receiver),
            InterfaceMember::Method(method("third")),
        ],
    };
    let (spec, diags) = generate(&decl);
    assert_eq!(diags.len(), 2);
    assert_eq!(diags[0].kind, DiagnosticKind::ConstUnsupported);
    assert_eq!(diags[0].construct, "stale".to_owned());
    assert_eq!(diags[1].kind, DiagnosticKind::UnsupportedReceiver);
    assert_eq!(diags[1].construct, "free".to_owned());
    assert_eq!(spec.methods.len(), 3);
    let names: Vec<String> = spec.methods.iter().map(|m| m.name.clone()).collect();
    assert_eq!(names, vec!["first".to_owned(), "second".to_owned(), "third".to_owned()]);
    let ordinals: Vec<usize> = spec.methods.iter().map(|m| m.ordinal).collect();
    assert_eq!(ordinals, vec![0, 1, 2]);
}

#[test]
fn ordinals_are_stable_across_regeneration() {
    // Re-generating from the same declaration yields the same ordinal for
    // each method: a pure function of declaration order.
    let decl = InterfaceDecl {
        name: "Twice".to_owned(),
        members: vec![
            InterfaceMember::Method(method("alpha")),
            InterfaceMember::Method(method("beta")),
            InterfaceMember::Method(method("gamma")),
        ],
    };
    let (first, _) = generate(&decl);
    let (second, _) = generate(&decl);
    assert_eq!(first.methods.len(), second.methods.len());
    for (a, b) in first.methods.iter().zip(second.methods.iter()) {
        assert_eq!(a.name, b.name);
        assert_eq!(a.ordinal, b.ordinal);
    }
}

#[test]
fn every_violation_kind_is_diagnosed() {
    let mut c = method("c");
    c.is_const = true;
    let mut a = method("a");
    a.is_async = true;
    let mut g = method("g");
    g.has_generics = true;
    let mut r = method("r");
    r.has_receiver = false;
    let decl = InterfaceDecl {
        name: "Bad".to_owned(),
        members: vec![
            InterfaceMember::Method(c),
            InterfaceMember::Method(a),
            InterfaceMember::Method(g),
            InterfaceMember::Method(r),
            InterfaceMember::Other("AN_ASSOCIATED_CONSTANT".to_owned()),
        ],
    };
    let (spec, diags) = generate(&decl);
    assert_eq!(spec.methods.len(), 0);
    assert_eq!(diags.len(), 5);
    assert_eq!(diags[0].kind, DiagnosticKind::ConstUnsupported);
    assert_eq!(diags[1].kind, DiagnosticKind::AsyncUnsupported);
    assert_eq!(diags[2].kind, DiagnosticKind::GenericsUnsupported);
    assert_eq!(diags[3].kind, DiagnosticKind::UnsupportedReceiver);
    assert_eq!(diags[4].kind, DiagnosticKind::NonMethodMember);
    assert_eq!(diags[4].construct, "AN_ASSOCIATED_CONSTANT".to_owned());
}

#[test]
fn constness_is_reported_before_asyncness() {
    // The checks run in a fixed order; a method violating several
    // constraints yields the first violation found.
    let mut both = method("worst");
    both.is_const = true;
    both.is_async = true;
    let decl = InterfaceDecl {
        name: "Order".to_owned(),
        members: vec![InterfaceMember::Method(both)],
    };
    let (_, diags) = generate(&decl);
    assert_eq!(diags.len(), 1);
    assert_eq!(diags[0].kind, DiagnosticKind::ConstUnsupported);
}

#[test]
fn missing_return_type_defaults_to_unit() {
    let decl = InterfaceDecl {
        name: "Quiet".to_owned(),
        members: vec![InterfaceMember::Method(method("notify"))],
    };
    let (spec, diags) = generate(&decl);
    assert!(diags.is_empty());
    assert_eq!(spec.methods[0].ret, WireType::Unit);
}

#[test]
fn empty_declaration_generates_empty_interface() {
    let decl = InterfaceDecl { name: "Nothing".to_owned(), members: Vec::new() };
    let (spec, diags) = generate(&decl);
    assert!(spec.methods.is_empty());
    assert!(diags.is_empty());
}

#[test]
fn parameters_carry_over_in_declaration_order() {
    let mut m = method("pair");
    m.params = vec![
        Param { name: "flag".to_owned(), ty: WireType::Boolean },
        Param { name: "label".to_owned(), ty: WireType::Text },
    ];
    m.ret = Some(WireType::Unsigned);
    let decl = InterfaceDecl {
        name: "Carry".to_owned(),
        members: vec![InterfaceMember::Method(m)],
    };
    let (spec, diags) = generate(&decl);
    assert!(diags.is_empty());
    let params = &spec.methods[0].params;
    assert_eq!(params.len(), 2);
    assert_eq!(params[0].name, "flag".to_owned());
    assert_eq!(params[0].ty, WireType::Boolean);
    assert_eq!(params[1].name, "label".to_owned());
    assert_eq!(params[1].ty, WireType::Text);
    assert_eq!(spec.methods[0].ret, WireType::Unsigned);
}
