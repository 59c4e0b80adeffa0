use napi_core::class::{register_js, CallContext, Module};
use napi_core::engine::{Env, NativeCallback};
use napi_core::status::Status;
use napi_core::values::{JsNumber, NapiValue};

#[test]
fn register_js_exports_the_class_factory() {
    let mut env = Env::new();
    let mut module = Module::new();
    register_js(&mut env, &mut module).unwrap();
    assert_eq!(module.exports.len(), 1);
    assert_eq!(module.exports[0].0, "createTestClass");
    let factory = module.exports[0].1;
    // invoking the exported factory through the bridge yields the class
    let class = env.call_function(factory, 0, &vec![]).unwrap();
    let seed = env.create_int32(7).unwrap();
    let obj = env.new_instance(class, &vec![seed.0.raw]).unwrap();
    let count = env.get_named_property_raw(obj.0.raw, "count").unwrap();
    let n = JsNumber::from_raw(&env, count).unwrap();
    assert_eq!(n.get_int32(&env).unwrap(), 7);
}

#[test]
fn constructor_stores_count_and_add_count_adds() {
    let mut env = Env::new();
    let ctx = CallContext { this: 0, args: Vec::new() };
    let class = napi_core::class::create_test_class(&mut env, &ctx).unwrap();
    let seed = env.create_int32(5).unwrap();
    let obj = env.new_instance(class.0.raw, &vec![seed.0.raw]).unwrap();

    let count = env.get_named_property_raw(obj.0.raw, "count").unwrap();
    let n = JsNumber::from_raw(&env, count).unwrap();
    assert_eq!(n.get_int32(&env).unwrap(), 5);

    // the instance carries the class's addCount method
    let method = env.get_named_property_raw(obj.0.raw, "addCount").unwrap();
    let add = env.create_int32(3).unwrap();
    env.call_function(method, obj.0.raw, &vec![add.0.raw]).unwrap();

    let count = env.get_named_property_raw(obj.0.raw, "count").unwrap();
    let n = JsNumber::from_raw(&env, count).unwrap();
    assert_eq!(n.get_int32(&env).unwrap(), 8);
}

#[test]
fn constructor_rejects_a_non_number_argument() {
    let mut env = Env::new();
    let ctx = CallContext { this: 0, args: Vec::new() };
    let class = napi_core::class::create_test_class(&mut env, &ctx).unwrap();
    let text = env.create_string("five").unwrap();
    let e = env.new_instance(class.0.raw, &vec![text.0.raw]).unwrap_err();
    assert_eq!(e.status, Status::WrongTypeHandle);
}

#[test]
fn constructor_rejects_a_missing_argument() {
    let mut env = Env::new();
    let ctx = CallContext { this: 0, args: Vec::new() };
    let class = napi_core::class::create_test_class(&mut env, &ctx).unwrap();
    let e = env.new_instance(class.0.raw, &vec![]).unwrap_err();
    assert_eq!(e.status, Status::InvalidArgument);
}

#[test]
fn calling_a_non_function_is_rejected() {
    let mut env = Env::new();
    let n = env.create_int32(4).unwrap();
    let e = env.call_function(n.0.raw, 0, &vec![]).unwrap_err();
    assert_eq!(e.status, Status::InvalidArgument);
}

#[test]
fn js_function_call_marshals_any_arity() {
    let mut env = Env::new();
    let raw = env.create_function(NativeCallback::Recorder).unwrap().0.raw;
    let f = napi_core::function::JsFunction::from_raw(&env, raw).unwrap();
    let mut args = Vec::new();
    for i in 0..12 {
        let n = env.create_int32(i).unwrap();
        args.push(napi_core::values::JsUnknown::from_raw(&env, n.0.raw).unwrap());
    }
    let ret = f.call(&mut env, None, &args).unwrap();
    // the model call returns the engine's undefined
    assert_eq!(ret.0.raw, 0);
    assert_eq!(env.function_call_count(raw).unwrap(), 1);
    assert_eq!(env.function_call_arity(raw, 0).unwrap(), 12);
    for i in 0..12 {
        assert_eq!(
            env.function_call_arg(raw, 0, i as usize).unwrap(),
            napi_core::engine::ArgSnapshot::Num(i as i64)
        );
    }
}

#[test]
fn recorder_functions_log_their_invocations() {
    let mut env = Env::new();
    let f = env.create_function(NativeCallback::Recorder).unwrap();
    let a = env.create_int32(10).unwrap();
    let b = env.create_int32(20).unwrap();
    env.call_function(f.0.raw, 0, &vec![a.0.raw, b.0.raw]).unwrap();
    assert_eq!(env.function_call_count(f.0.raw).unwrap(), 1);
    assert_eq!(env.function_call_arity(f.0.raw, 0).unwrap(), 2);
    assert_eq!(
        env.function_call_arg(f.0.raw, 0, 0).unwrap(),
        napi_core::engine::ArgSnapshot::Num(10)
    );
    assert_eq!(
        env.function_call_arg(f.0.raw, 0, 1).unwrap(),
        napi_core::engine::ArgSnapshot::Num(20)
    );
}
