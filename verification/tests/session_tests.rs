use std::collections::HashMap;

use jsii_kernel::BridgeError;
use jsii_kernel::HostValue;
use jsii_kernel::ScriptValue;
use jsii_kernel::proxy::ClassInfo;
use jsii_kernel::proxy::HostContext;
use jsii_kernel::session::EngineCall;
use jsii_kernel::session::EngineReply;
use jsii_kernel::session::EntryPoints;
use jsii_kernel::session::Kernel;

fn all_entry_points() -> EntryPoints {
    EntryPoints {
        load: true,
        create: true,
        call: true,
        call_static: true,
        get: true,
        get_static: true,
        set: true,
    }
}

fn ready_kernel() -> Kernel {
    let mut kernel = Kernel::new();
    kernel.initialize(&all_entry_points()).expect("bootstrap succeeds");
    kernel
}

fn empty_ctx() -> HostContext {
    HostContext { classes: HashMap::new(), enums: Vec::new() }
}

#[test]
fn usage() {
    let mut kernel = ready_kernel();
    let manifest = "{\"name\":\"constructs\",\"version\":\"10.0.74\"}".to_string();
    let call = kernel
        .load(&"constructs".to_string(), &"10.0.74".to_string(), &manifest)
        .expect("matching manifest loads");
    assert_eq!(
        call,
        EngineCall::Load { name: "constructs".to_string(), entry: "index.js".to_string() }
    );
    kernel.finish_load(EngineReply::Value(ScriptValue::Undefined)).expect("load completes");
}

#[test]
fn archive_mismatch() {
    let mut kernel = ready_kernel();
    // The manifest declares foo@2.0.0 but the caller requests foo@1.0.0.
    let manifest = "{\"name\":\"foo\",\"version\":\"2.0.0\"}".to_string();
    let r = kernel.load(&"foo".to_string(), &"1.0.0".to_string(), &manifest);
    assert_eq!(r.unwrap_err(), BridgeError::Archive);
    // Nothing was installed and the session is free: a matching load works.
    let ok = kernel.load(&"foo".to_string(), &"2.0.0".to_string(), &manifest);
    assert!(ok.is_ok());
}

#[test]
fn archive_corrupt_manifest() {
    let mut kernel = ready_kernel();
    let garbage = "not json at all".to_string();
    let r = kernel.load(&"foo".to_string(), &"1.0.0".to_string(), &garbage);
    assert_eq!(r.unwrap_err(), BridgeError::Archive);
    let missing_version = "{\"name\":\"foo\"}".to_string();
    let r2 = kernel.load(&"foo".to_string(), &"1.0.0".to_string(), &missing_version);
    assert_eq!(r2.unwrap_err(), BridgeError::Archive);
}

#[test]
fn manifest_main_entry() {
    let mut kernel = ready_kernel();
    let manifest =
        "{\"name\":\"a\",\"version\":\"1.0.0\",\"main\":\"lib/app.js\"}".to_string();
    let call = kernel
        .load(&"a".to_string(), &"1.0.0".to_string(), &manifest)
        .expect("matching manifest loads");
    assert_eq!(
        call,
        EngineCall::Load { name: "a".to_string(), entry: "lib/app.js".to_string() }
    );
}

#[test]
fn unknown_type_create() {
    let mut kernel = ready_kernel();
    let ctx = empty_ctx();
    let call = kernel
        .create(&ctx, &"nonexistent#Type".to_string(), &Vec::new())
        .expect("request lowers");
    assert_eq!(
        call,
        EngineCall::Create { fqn: "nonexistent#Type".to_string(), args: Vec::new() }
    );
    // The dispatcher hands back nothing: a construction error, no object.
    let r = kernel.finish_create(EngineReply::NoValue);
    assert_eq!(r.unwrap_err(), BridgeError::Construction);
}

#[test]
fn busy_guard() {
    let mut kernel = ready_kernel();
    let ctx = empty_ctx();
    kernel.create(&ctx, &"acme.Thing".to_string(), &Vec::new()).expect("first operation enters");
    // A second operation on the mid-operation session fails immediately...
    let second = kernel.create(&ctx, &"acme.Other".to_string(), &Vec::new());
    assert_eq!(second.unwrap_err(), BridgeError::Busy);
    let third = kernel.get_static(&"acme.Other".to_string(), &"x".to_string());
    assert_eq!(third.unwrap_err(), BridgeError::Busy);
    // ...and leaves engine state unaffected: the first finishes normally.
    let done = kernel.finish_create(EngineReply::Value(ScriptValue::Object(50)));
    assert!(done.is_ok());
    // The session is free again.
    let fourth = kernel.get_static(&"acme.Other".to_string(), &"x".to_string());
    assert!(fourth.is_ok());
}

#[test]
fn missing_entry_point_faults() {
    let mut kernel = Kernel::new();
    let mut eps = all_entry_points();
    eps.get_static = false;
    let r = kernel.initialize(&eps);
    assert_eq!(r.unwrap_err(), BridgeError::Protocol);
    // Faulted is terminal: operations are refused.
    let op = kernel.get_static(&"acme.Thing".to_string(), &"x".to_string());
    assert_eq!(op.unwrap_err(), BridgeError::NotReady);
    // And the bootstrap cannot be retried.
    let again = kernel.initialize(&all_entry_points());
    assert_eq!(again.unwrap_err(), BridgeError::NotReady);
}

#[test]
fn operation_before_bootstrap() {
    let mut kernel = Kernel::new();
    let op = kernel.get_static(&"acme.Thing".to_string(), &"x".to_string());
    assert_eq!(op.unwrap_err(), BridgeError::NotReady);
}

#[test]
fn receiver_resolves_to_original_object() {
    let mut kernel = ready_kernel();
    let ctx = empty_ctx();
    // Create an engine object and keep the opaque reference it raised to.
    kernel.create(&ctx, &"acme.Thing".to_string(), &Vec::new()).expect("request lowers");
    let created = kernel
        .finish_create(EngineReply::Value(ScriptValue::Object(50)))
        .expect("object raises");
    let token = match created {
        HostValue::ObjectRef(t) => t,
        other => panic!("expected a minted reference, got {:?}", other),
    };
    // Calling through the reference resolves back to the original script
    // object rather than minting a new proxy.
    let call = kernel
        .call(
            &ctx,
            &HostValue::ObjectRef(token),
            &"greet".to_string(),
            &vec![HostValue::Str("hi".to_string())],
        )
        .expect("request lowers");
    assert_eq!(
        call,
        EngineCall::Call {
            recv: ScriptValue::Object(50),
            method: "greet".to_string(),
            args: vec![ScriptValue::Str("hi".to_string())],
        }
    );
    let result = kernel
        .finish_call(EngineReply::Value(ScriptValue::Str("hello".to_string())))
        .expect("value raises");
    assert_eq!(result, HostValue::Str("hello".to_string()));
}

#[test]
fn target_exception_propagates_verbatim() {
    let mut kernel = ready_kernel();
    let ctx = empty_ctx();
    kernel
        .call_static(
            &ctx,
            &"acme.Thing".to_string(),
            &"explode".to_string(),
            &Vec::new(),
        )
        .expect("request lowers");
    let thrown = ScriptValue::Str("boom".to_string());
    let r = kernel.finish_call_static(EngineReply::Threw(thrown));
    // The exact thrown value comes back, never wrapped.
    assert_eq!(r.unwrap_err(), BridgeError::Target(ScriptValue::Str("boom".to_string())));
}

#[test]
fn set_returns_nothing() {
    let mut kernel = ready_kernel();
    let ctx = empty_ctx();
    kernel.create(&ctx, &"acme.Thing".to_string(), &Vec::new()).expect("request lowers");
    let created = kernel
        .finish_create(EngineReply::Value(ScriptValue::Object(8)))
        .expect("object raises");
    let call = kernel
        .set(&ctx, &created, &"name".to_string(), &HostValue::Str("x".to_string()))
        .expect("request lowers");
    assert_eq!(
        call,
        EngineCall::SetProp {
            recv: ScriptValue::Object(8),
            property: "name".to_string(),
            value: ScriptValue::Str("x".to_string()),
        }
    );
    let done = kernel.finish_set(EngineReply::Value(ScriptValue::Undefined));
    assert_eq!(done, Ok(()));
}

#[test]
fn static_get_flow() {
    let mut kernel = ready_kernel();
    let call = kernel
        .get_static(&"acme.Thing".to_string(), &"VERSION".to_string())
        .expect("request enters");
    assert_eq!(
        call,
        EngineCall::GetStatic { fqn: "acme.Thing".to_string(), property: "VERSION".to_string() }
    );
    let r = kernel
        .finish_get_static(EngineReply::Value(ScriptValue::Str("1.2.3".to_string())))
        .expect("value raises");
    assert_eq!(r, HostValue::Str("1.2.3".to_string()));
}

#[test]
fn conversion_error_aborts_operation() {
    let mut kernel = ready_kernel();
    let ctx = empty_ctx();
    // An enum member without the required annotation cannot cross.
    let bad = HostValue::EnumMember { fqn: None, name: "RED".to_string() };
    let r = kernel.create(&ctx, &"acme.Thing".to_string(), &vec![bad]);
    assert_eq!(r.unwrap_err(), BridgeError::Conversion);
    // The failed operation never entered: the session is not busy.
    let ok = kernel.get_static(&"acme.Thing".to_string(), &"x".to_string());
    assert!(ok.is_ok());
}

#[test]
fn pending_host_exception_propagates() {
    let mut kernel = ready_kernel();
    let mut classes = HashMap::new();
    classes.insert(9, ClassInfo { fails: true, ops: Vec::new() });
    let ctx = HostContext { classes, enums: Vec::new() };
    // Introspection raises inside the host mid-conversion: the pending host
    // exception aborts the operation unchanged, never masked.
    let r = kernel.create(
        &ctx,
        &"acme.Thing".to_string(),
        &vec![HostValue::HostObj { id: 9, peer: None }],
    );
    assert_eq!(r.unwrap_err(), BridgeError::HostException);
}

#[test]
fn dangling_receiver_is_lookup_error() {
    let mut kernel = ready_kernel();
    let ctx = empty_ctx();
    let r = kernel.get(&ctx, &HostValue::ObjectRef(77), &"x".to_string());
    assert_eq!(r.unwrap_err(), BridgeError::Lookup(77));
}

#[test]
fn reentrant_callback_uses_entered_session() {
    let mut kernel = ready_kernel();
    let mut classes = HashMap::new();
    classes.insert(
        21,
        ClassInfo {
            fails: false,
            ops: vec![jsii_kernel::proxy::HostOp {
                name: "getValue".to_string(),
                base: false,
                ret: "int".to_string(),
            }],
        },
    );
    let ctx = HostContext { classes, enums: Vec::new() };
    // A host object crosses as a constructor argument: a proxy is minted.
    let call = kernel
        .create(&ctx, &"acme.Thing".to_string(), &vec![HostValue::HostObj { id: 21, peer: None }])
        .expect("request lowers");
    let proxy_handle = match call {
        EngineCall::Create { ref args, .. } => match args[0] {
            ScriptValue::Object(h) => h,
            ref other => panic!("expected a proxy object, got {:?}", other),
        },
        ref other => panic!("expected a create call, got {:?}", other),
    };
    // While the create is mid-flight, engine-side code reads the proxy's
    // property: the callback reuses the same entered session — the
    // conversion entry points are not busy-guarded.
    let target = {
        let desc = kernel
            .property_getter(proxy_handle, &"value".to_string())
            .expect("getter registered");
        desc.target.clone()
    };
    assert_eq!(target, "getValue".to_string());
    // The host getter's result converts inside the same session context.
    let (fault, script_result) =
        kernel.lower_value(&ctx, None, &HostValue::Num((42.0f64).to_bits()));
    assert_eq!(fault, None);
    assert_eq!(script_result, ScriptValue::Num((42.0f64).to_bits()));
    // The outer operation then completes normally.
    let done = kernel.finish_create(EngineReply::Value(ScriptValue::Object(60)));
    assert!(done.is_ok());
}

#[test]
fn reply_out_of_turn_is_protocol_error() {
    let mut kernel = ready_kernel();
    let r = kernel.finish_call(EngineReply::NoValue);
    assert_eq!(r.unwrap_err(), BridgeError::Protocol);
    let ctx = empty_ctx();
    kernel.create(&ctx, &"acme.Thing".to_string(), &Vec::new()).expect("request enters");
    // Finishing the wrong operation kind is refused and changes nothing.
    let r2 = kernel.finish_get(EngineReply::Value(ScriptValue::Undefined));
    assert_eq!(r2.unwrap_err(), BridgeError::Protocol);
    let done = kernel.finish_create(EngineReply::Value(ScriptValue::Object(1)));
    assert!(done.is_ok());
}
