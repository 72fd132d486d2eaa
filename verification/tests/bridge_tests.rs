use std::collections::HashMap;

use jsii_kernel::BridgeError;
use jsii_kernel::Fault;
use jsii_kernel::HostValue;
use jsii_kernel::JsonNode;
use jsii_kernel::ScriptValue;
use jsii_kernel::bridge::Bridge;
use jsii_kernel::proxy::ClassInfo;
use jsii_kernel::proxy::EnumBinding;
use jsii_kernel::proxy::HostContext;
use jsii_kernel::proxy::HostOp;

fn empty_ctx() -> HostContext {
    HostContext { classes: HashMap::new(), enums: Vec::new() }
}

fn value_class_ctx(id: u64) -> HostContext {
    let mut classes = HashMap::new();
    classes.insert(
        id,
        ClassInfo {
            fails: false,
            ops: vec![
                HostOp { name: "getValue".to_string(), base: false, ret: "int".to_string() },
                HostOp { name: "doThing".to_string(), base: false, ret: "void".to_string() },
                HostOp { name: "equals".to_string(), base: false, ret: "boolean".to_string() },
                HostOp { name: "hashCode".to_string(), base: true, ret: "int".to_string() },
            ],
        },
    );
    HostContext { classes, enums: Vec::new() }
}

#[test]
fn round_trip_list() {
    let ctx = empty_ctx();
    let mut bridge = Bridge::new();
    let host = HostValue::List(vec![
        HostValue::Num((1.0f64).to_bits()),
        HostValue::Str("a".to_string()),
        HostValue::Bool(true),
    ]);
    let (fault, script) = bridge.to_script(&ctx, None, &host);
    assert_eq!(fault, None);
    let expected = ScriptValue::Array(vec![
        ScriptValue::Num((1.0f64).to_bits()),
        ScriptValue::Str("a".to_string()),
        ScriptValue::Bool(true),
    ]);
    assert_eq!(script, expected);

    // The widened double is preserved on the way out.
    match &script {
        ScriptValue::Array(items) => match items[0] {
            ScriptValue::Num(bits) => assert_eq!(f64::from_bits(bits), 1.0f64),
            _ => panic!("expected a number"),
        },
        _ => panic!("expected an array"),
    }

    // Strings and booleans also survive the return direction.
    let (f1, back_str) = bridge.to_host(None, &ScriptValue::Str("a".to_string()));
    assert_eq!(f1, None);
    assert_eq!(back_str, HostValue::Str("a".to_string()));
    let (f2, back_bool) = bridge.to_host(None, &ScriptValue::Bool(true));
    assert_eq!(f2, None);
    assert_eq!(back_bool, HostValue::Bool(true));

    // The lean return path refuses bare numbers and arrays.
    let (f3, back_num) = bridge.to_host(None, &ScriptValue::Num((1.0f64).to_bits()));
    assert_eq!(f3, Some(Fault::Conv));
    assert_eq!(back_num, HostValue::Null);
}

#[test]
fn prototype_isolation() {
    let ctx = empty_ctx();
    let mut bridge = Bridge::new();
    let host = HostValue::Dict(vec![(
        "toString".to_string(),
        HostValue::Num((1.0f64).to_bits()),
    )]);
    let (fault, script) = bridge.to_script(&ctx, None, &host);
    assert_eq!(fault, None);
    match script {
        ScriptValue::Record(entries) => {
            // Only the literal key is exposed: nothing ambient is reachable.
            assert_eq!(entries.len(), 1);
            assert_eq!(entries[0].0, "toString".to_string());
            assert_eq!(entries[0].1, ScriptValue::Num((1.0f64).to_bits()));
        }
        other => panic!("expected a record, got {:?}", other),
    }
}

#[test]
fn identity_two_crossings() {
    let ctx = value_class_ctx(7);
    let mut bridge = Bridge::new();
    let host = HostValue::HostObj { id: 7, peer: None };
    let (f1, first) = bridge.to_script(&ctx, None, &host);
    let (f2, second) = bridge.to_script(&ctx, None, &host);
    assert_eq!(f1, None);
    assert_eq!(f2, None);
    // Both crossings alias one script object: no duplicate proxy.
    assert_eq!(first, second);
    let handle = match first {
        ScriptValue::Object(h) => h,
        other => panic!("expected an object, got {:?}", other),
    };
    // Reading the proxy back resolves to the identical underlying object.
    let (f3, back) = bridge.to_host(None, &ScriptValue::Object(handle));
    assert_eq!(f3, None);
    assert_eq!(back, HostValue::HostObj { id: 7, peer: None });
}

#[test]
fn accessor_call_through() {
    let ctx = value_class_ctx(1);
    let mut bridge = Bridge::new();
    let (fault, proxy) = bridge.to_script(&ctx, None, &HostValue::HostObj { id: 1, peer: None });
    assert_eq!(fault, None);
    let handle = match proxy {
        ScriptValue::Object(h) => h,
        other => panic!("expected an object, got {:?}", other),
    };

    // Reading property `value` goes through the cached descriptor for the
    // host getter `getValue`.
    let desc = bridge.property_getter(handle, &"value".to_string()).expect("getter registered");
    assert_eq!(desc.target, "getValue".to_string());
    assert_eq!(desc.ret, "int".to_string());

    // The host getter returns 42; the result converts back with to_script.
    let host_result = HostValue::Num((42.0f64).to_bits());
    let (f2, script_result) = bridge.to_script(&ctx, None, &host_result);
    assert_eq!(f2, None);
    assert_eq!(script_result, ScriptValue::Num((42.0f64).to_bits()));

    // Writing fails: no setter operation exists, and the shape is sealed.
    let write = bridge.property_setter(handle, &"value".to_string());
    assert_eq!(write.unwrap_err(), BridgeError::NoSetter);
}

#[test]
fn method_stub_fails() {
    let ctx = value_class_ctx(1);
    let mut bridge = Bridge::new();
    let (_, proxy) = bridge.to_script(&ctx, None, &HostValue::HostObj { id: 1, peer: None });
    let handle = match proxy {
        ScriptValue::Object(h) => h,
        other => panic!("expected an object, got {:?}", other),
    };
    // Regular methods are stubs that unconditionally refuse invocation.
    let r = bridge.invoke_method(handle, &"doThing".to_string());
    assert_eq!(r.unwrap_err(), BridgeError::NotImplemented);
    // `equals` is a universal-base-type operation and was never registered.
    let r2 = bridge.invoke_method(handle, &"equals".to_string());
    assert_eq!(r2.unwrap_err(), BridgeError::Lookup(handle));
}

#[test]
fn enum_member_resolution() {
    let mut ctx = empty_ctx();
    ctx.enums.push(EnumBinding {
        fqn: "acme.Color".to_string(),
        member: "RED".to_string(),
        handle: 99,
    });
    let mut bridge = Bridge::new();
    let member = HostValue::EnumMember {
        fqn: Some("acme.Color".to_string()),
        name: "RED".to_string(),
    };
    let (fault, v) = bridge.to_script(&ctx, None, &member);
    assert_eq!(fault, None);
    assert_eq!(v, ScriptValue::Object(99));

    // A member whose type lacks the annotation fails conversion.
    let missing = HostValue::EnumMember { fqn: None, name: "RED".to_string() };
    let (f2, v2) = bridge.to_script(&ctx, None, &missing);
    assert_eq!(f2, Some(Fault::Conv));
    assert_eq!(v2, ScriptValue::Undefined);
}

#[test]
fn list_view_unwraps_one_level() {
    let ctx = empty_ctx();
    let mut bridge = Bridge::new();
    let wrapped = HostValue::ListView(Box::new(HostValue::List(vec![HostValue::Bool(false)])));
    let (fault, v) = bridge.to_script(&ctx, None, &wrapped);
    assert_eq!(fault, None);
    assert_eq!(v, ScriptValue::Array(vec![ScriptValue::Bool(false)]));
}

#[test]
fn json_node_crosses_structurally() {
    let ctx = empty_ctx();
    let mut bridge = Bridge::new();
    let node = HostValue::Json(JsonNode::Obj(vec![
        ("a".to_string(), JsonNode::Num((2.0f64).to_bits())),
        ("b".to_string(), JsonNode::Arr(vec![JsonNode::Str("x".to_string()), JsonNode::Null])),
    ]));
    let (fault, v) = bridge.to_script(&ctx, None, &node);
    assert_eq!(fault, None);
    assert_eq!(
        v,
        ScriptValue::Record(vec![
            ("a".to_string(), ScriptValue::Num((2.0f64).to_bits())),
            (
                "b".to_string(),
                ScriptValue::Array(vec![ScriptValue::Str("x".to_string()), ScriptValue::Null]),
            ),
        ])
    );
}

#[test]
fn dangling_token_is_lookup_fault() {
    let ctx = empty_ctx();
    let mut bridge = Bridge::new();
    let (fault, v) = bridge.to_script(&ctx, None, &HostValue::ObjectRef(5));
    assert_eq!(fault, Some(Fault::Dangling(5)));
    assert_eq!(v, ScriptValue::Undefined);
}

#[test]
fn pending_fault_short_circuits() {
    let ctx = value_class_ctx(3);
    let mut bridge = Bridge::new();
    // With a host exception pending nothing converts and nothing is built:
    // even a proxy-worthy object surfaces as script-undefined.
    let (fault, v) =
        bridge.to_script(&ctx, Some(Fault::Host), &HostValue::HostObj { id: 3, peer: None });
    assert_eq!(fault, Some(Fault::Host));
    assert_eq!(v, ScriptValue::Undefined);
    // The object was not minted: crossing it afresh still builds a new proxy.
    let (f2, v2) = bridge.to_script(&ctx, None, &HostValue::HostObj { id: 3, peer: None });
    assert_eq!(f2, None);
    assert!(matches!(v2, ScriptValue::Object(_)));
}

#[test]
fn introspection_failure_surfaces_undefined() {
    let mut classes = HashMap::new();
    classes.insert(4, ClassInfo { fails: true, ops: Vec::new() });
    let ctx = HostContext { classes, enums: Vec::new() };
    let mut bridge = Bridge::new();
    let (fault, v) = bridge.to_script(&ctx, None, &HostValue::HostObj { id: 4, peer: None });
    assert_eq!(fault, Some(Fault::Host));
    assert_eq!(v, ScriptValue::Undefined);
}

#[test]
fn engine_object_identity_on_return() {
    let ctx = empty_ctx();
    let mut bridge = Bridge::new();
    // An engine-owned object is minted one opaque reference...
    let (f1, first) = bridge.to_host(None, &ScriptValue::Object(123));
    let token = match first {
        HostValue::ObjectRef(t) => t,
        other => panic!("expected a minted reference, got {:?}", other),
    };
    assert_eq!(f1, None);
    // ...and crossing it again yields the same token, not a new one.
    let (f2, second) = bridge.to_host(None, &ScriptValue::Object(123));
    assert_eq!(f2, None);
    assert_eq!(second, HostValue::ObjectRef(token));
    // Presenting the token back resolves to the original engine object.
    let (f3, resolved) = bridge.to_script(&ctx, None, &HostValue::ObjectRef(token));
    assert_eq!(f3, None);
    assert_eq!(resolved, ScriptValue::Object(123));
}
