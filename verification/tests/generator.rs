use web_rpc::decl::{
    AnnItem, ArgDecl, ArgPat, AttrDecl, DeclError, GroupItem, MethodDecl, RpcMethod, Service,
    ServiceDecl,
};
use web_rpc::generate::{service, ReturnDisposition};
use web_rpc::names::snake_to_camel;

fn ident(s: &str) -> Vec<u8> {
    s.as_bytes().to_vec()
}

fn typed_arg(name: &str, ty: &str) -> ArgDecl {
    ArgDecl::Typed { pat: ArgPat::Ident(ident(name)), ty: ident(ty) }
}

fn plain_method(name: &str, args: Vec<ArgDecl>, output: Option<&str>) -> MethodDecl {
    MethodDecl {
        attrs: vec![],
        is_async: false,
        name: ident(name),
        args,
        output: output.map(ident),
    }
}

fn post_attr(items: Vec<AnnItem>) -> AttrDecl {
    AttrDecl { path: ident("post"), items }
}

fn calculator_decl() -> ServiceDecl {
    ServiceDecl {
        attrs: vec![],
        name: ident("Calculator"),
        methods: vec![
            plain_method(
                "add",
                vec![typed_arg("left", "u32"), typed_arg("right", "u32")],
                Some("u32"),
            ),
            plain_method("is_forty_two", vec![typed_arg("value", "u32")], Some("bool")),
        ],
    }
}

#[test]
fn snake_to_camel_names() {
    assert_eq!(snake_to_camel(b"add"), b"Add".to_vec());
    assert_eq!(snake_to_camel(b"is_forty_two"), b"IsFortyTwo".to_vec());
    assert_eq!(snake_to_camel(b"_leading"), b"Leading".to_vec());
    assert_eq!(snake_to_camel(b"double__underscore"), b"DoubleUnderscore".to_vec());
    assert_eq!(snake_to_camel(b"ALL_CAPS"), b"AllCaps".to_vec());
    assert_eq!(snake_to_camel(b""), b"".to_vec());
}

#[test]
fn generates_calculator_items() {
    let g = service(&calculator_decl()).expect("well-formed declaration");

    assert_eq!(g.request_enum.name, ident("CalculatorRequest"));
    assert_eq!(g.request_enum.variants.len(), 2);
    assert_eq!(g.request_enum.variants[0].name, ident("Add"));
    assert_eq!(g.request_enum.variants[0].fields.len(), 2);
    assert_eq!(g.request_enum.variants[0].fields[0].name, ident("left"));
    assert_eq!(g.request_enum.variants[0].fields[0].ty, ident("u32"));
    assert_eq!(g.request_enum.variants[0].fields[1].name, ident("right"));
    assert_eq!(g.request_enum.variants[1].name, ident("IsFortyTwo"));
    assert_eq!(g.request_enum.variants[1].fields.len(), 1);

    assert_eq!(g.response_enum.name, ident("CalculatorResponse"));
    assert_eq!(g.response_enum.variants[0].payload, Some(ident("u32")));
    assert_eq!(g.response_enum.variants[1].payload, Some(ident("bool")));

    assert_eq!(g.service_trait.name, ident("Calculator"));
    assert_eq!(g.service_trait.methods.len(), 2);
    assert_eq!(g.service_trait.methods[0].name, ident("add"));
    assert_eq!(g.service_trait.methods[0].ret, ident("u32"));
    assert!(!g.service_trait.methods[0].is_async);

    assert_eq!(g.client.name, ident("CalculatorClient"));
    assert_eq!(g.client.request_enum, ident("CalculatorRequest"));
    assert_eq!(g.client.response_enum, ident("CalculatorResponse"));
    assert_eq!(g.client.methods[0].serialized, vec![ident("left"), ident("right")]);
    assert!(g.client.methods[0].posted.is_empty());
    assert!(!g.client.methods[0].return_posted);

    assert_eq!(g.server.name, ident("CalculatorServer"));
    assert_eq!(g.server.service, ident("Calculator"));
    assert_eq!(g.server.methods[0].variant, ident("Add"));
    assert_eq!(g.server.methods[0].call_args, vec![ident("left"), ident("right")]);
    assert_eq!(g.server.methods[0].ret, ReturnDisposition::Serialized);
}

#[test]
fn zero_parameter_method_gets_empty_variant() {
    let decl = ServiceDecl {
        attrs: vec![],
        name: ident("Ping"),
        methods: vec![plain_method("ping", vec![], None)],
    };
    let g = service(&decl).expect("well-formed declaration");
    assert_eq!(g.request_enum.variants.len(), 1);
    assert_eq!(g.request_enum.variants[0].name, ident("Ping"));
    assert!(g.request_enum.variants[0].fields.is_empty());
    assert_eq!(g.response_enum.variants[0].payload, None);
    assert_eq!(g.service_trait.methods[0].ret, ident("()"));
}

#[test]
fn posted_parameters_leave_the_request_variant() {
    let mut method = plain_method(
        "draw",
        vec![
            typed_arg("canvas", "OffscreenCanvas"),
            typed_arg("x", "u32"),
            typed_arg("overlay", "ImageBitmap"),
            typed_arg("y", "u32"),
        ],
        Some("u32"),
    );
    method.attrs = vec![post_attr(vec![
        AnnItem::Group { path: ident("transfer"), items: vec![GroupItem::Name(ident("canvas"))] },
        AnnItem::Name(ident("overlay")),
    ])];
    let decl = ServiceDecl { attrs: vec![], name: ident("Painter"), methods: vec![method] };
    let g = service(&decl).expect("well-formed declaration");

    // Serialized fields keep declaration order and skip the posted ones.
    let fields: Vec<Vec<u8>> = g.request_enum.variants[0]
        .fields
        .iter()
        .map(|p| p.name.clone())
        .collect();
    assert_eq!(fields, vec![ident("x"), ident("y")]);

    // Posted arguments travel out-of-band in declaration order.
    assert_eq!(g.client.methods[0].serialized, vec![ident("x"), ident("y")]);
    assert_eq!(g.client.methods[0].posted, vec![ident("canvas"), ident("overlay")]);
    assert_eq!(g.client.methods[0].transferred, vec![ident("canvas")]);

    // The server shifts the posted parameters off in the same order and
    // calls the implementation with every argument in declaration order.
    let extracted: Vec<Vec<u8>> = g.server.methods[0]
        .extracted
        .iter()
        .map(|p| p.name.clone())
        .collect();
    assert_eq!(extracted, vec![ident("canvas"), ident("overlay")]);
    assert_eq!(
        g.server.methods[0].call_args,
        vec![ident("canvas"), ident("x"), ident("overlay"), ident("y")]
    );
}

#[test]
fn posted_return_empties_the_response_variant() {
    let mut method = plain_method("render", vec![typed_arg("width", "u32")], Some("ImageBitmap"));
    method.attrs = vec![post_attr(vec![AnnItem::Group {
        path: ident("transfer"),
        items: vec![GroupItem::Name(ident("return"))],
    }])];
    let decl = ServiceDecl { attrs: vec![], name: ident("Renderer"), methods: vec![method] };
    let g = service(&decl).expect("well-formed declaration");

    assert_eq!(g.response_enum.variants[0].payload, None);
    assert!(g.client.methods[0].return_posted);
    assert_eq!(g.server.methods[0].ret, ReturnDisposition::Transferred);
}

#[test]
fn posted_by_value_return() {
    let mut method = plain_method("snapshot", vec![], Some("ImageBitmap"));
    method.attrs = vec![post_attr(vec![AnnItem::Name(ident("return"))])];
    let decl = ServiceDecl { attrs: vec![], name: ident("Camera"), methods: vec![method] };
    let g = service(&decl).expect("well-formed declaration");
    assert_eq!(g.response_enum.variants[0].payload, None);
    assert_eq!(g.server.methods[0].ret, ReturnDisposition::Posted);
}

#[test]
fn receiver_parameter_is_a_declaration_error() {
    let decl = MethodDecl {
        attrs: vec![],
        is_async: false,
        name: ident("bad"),
        args: vec![ArgDecl::Receiver, typed_arg("x", "u32")],
        output: None,
    };
    let errs = RpcMethod::from_decl(&decl).expect_err("receiver must be rejected");
    assert_eq!(errs, vec![DeclError::ReceiverNotAllowed]);
}

#[test]
fn pattern_parameter_is_a_declaration_error() {
    let decl = MethodDecl {
        attrs: vec![],
        is_async: false,
        name: ident("bad"),
        args: vec![ArgDecl::Typed { pat: ArgPat::Other, ty: ident("(u32, u32)") }],
        output: None,
    };
    let errs = RpcMethod::from_decl(&decl).expect_err("patterns must be rejected");
    assert_eq!(errs, vec![DeclError::PatternNotAllowed]);
}

#[test]
fn malformed_post_attribute_is_a_declaration_error() {
    // A literal argument.
    let mut decl = plain_method("bad", vec![], None);
    decl.attrs = vec![post_attr(vec![AnnItem::Other])];
    let errs = RpcMethod::from_decl(&decl).expect_err("literal post argument");
    assert_eq!(errs, vec![DeclError::PostSyntax]);

    // A nested list that is not `transfer`.
    let mut decl = plain_method("bad", vec![], None);
    decl.attrs = vec![post_attr(vec![AnnItem::Group {
        path: ident("move"),
        items: vec![GroupItem::Name(ident("x"))],
    }])];
    let errs = RpcMethod::from_decl(&decl).expect_err("unknown annotation key");
    assert_eq!(errs, vec![DeclError::PostSyntax]);

    // An empty transfer list: wrong arity and no name.
    let mut decl = plain_method("bad", vec![], None);
    decl.attrs = vec![post_attr(vec![AnnItem::Group { path: ident("transfer"), items: vec![] }])];
    let errs = RpcMethod::from_decl(&decl).expect_err("empty transfer list");
    assert_eq!(errs, vec![DeclError::PostSyntax, DeclError::PostSyntax]);

    // A transfer list with two names: wrong arity alone.
    let mut decl = plain_method("bad", vec![], None);
    decl.attrs = vec![post_attr(vec![AnnItem::Group {
        path: ident("transfer"),
        items: vec![GroupItem::Name(ident("a")), GroupItem::Name(ident("b"))],
    }])];
    let errs = RpcMethod::from_decl(&decl).expect_err("transfer arity");
    assert_eq!(errs, vec![DeclError::PostSyntax]);
}

#[test]
fn attribute_errors_come_before_argument_errors() {
    let mut decl = plain_method("bad", vec![ArgDecl::Receiver], None);
    decl.attrs = vec![post_attr(vec![AnnItem::Other])];
    let errs = RpcMethod::from_decl(&decl).expect_err("two errors");
    assert_eq!(errs, vec![DeclError::PostSyntax, DeclError::ReceiverNotAllowed]);
}

#[test]
fn service_stops_at_the_first_bad_method() {
    let decl = ServiceDecl {
        attrs: vec![],
        name: ident("Mixed"),
        methods: vec![
            plain_method("fine", vec![typed_arg("x", "u32")], None),
            plain_method("bad", vec![ArgDecl::Receiver], None),
        ],
    };
    let errs = Service::from_decl(&decl).expect_err("second method is bad");
    assert_eq!(errs, vec![DeclError::ReceiverNotAllowed]);
    assert!(service(&decl).is_err());
}

#[test]
fn async_flag_carries_through() {
    let mut method = plain_method("fetch", vec![typed_arg("url", "String")], Some("String"));
    method.is_async = true;
    let decl = ServiceDecl { attrs: vec![], name: ident("Fetcher"), methods: vec![method] };
    let g = service(&decl).expect("well-formed declaration");
    assert!(g.service_trait.methods[0].is_async);
    assert!(g.server.methods[0].is_async);
}
