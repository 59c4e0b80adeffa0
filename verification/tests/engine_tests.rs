use napi_core::engine::Env;
use napi_core::status::{Error, Status};
use napi_core::values::{JsNumber, JsString, JsUnknown, NapiValue};

#[test]
fn int32_round_trip() {
    let mut env = Env::new();
    let n = env.create_int32(-42).unwrap();
    assert_eq!(n.get_int32(&env).unwrap(), -42);
}

#[test]
fn uint32_too_large_for_int32() {
    let mut env = Env::new();
    let n = env.create_uint32(4_000_000_000).unwrap();
    let e = n.get_int32(&env).unwrap_err();
    assert_eq!(e.status, Status::GenericFailure);
}

#[test]
fn coerce_number_to_string_renders_decimal() {
    let mut env = Env::new();
    let n = env.create_int32(-42).unwrap();
    let s = env.coerce_to_string(n.raw_value()).unwrap();
    assert_eq!(s.get_value(&env), "-42");

    let z = env.create_int32(0).unwrap();
    let s = env.coerce_to_string(z.raw_value()).unwrap();
    assert_eq!(s.get_value(&env), "0");

    let big = env.create_uint32(4_000_000_000).unwrap();
    let s = env.coerce_to_string(big.raw_value()).unwrap();
    assert_eq!(s.get_value(&env), "4000000000");
}

#[test]
fn coerce_undefined_to_string() {
    let mut env = Env::new();
    let u = env.get_undefined().unwrap();
    let s = env.coerce_to_string(u.0.raw).unwrap();
    assert_eq!(s.get_value(&env), "undefined");
}

#[test]
fn coerce_text_to_number_fails() {
    let mut env = Env::new();
    let t = env.create_string("seven").unwrap();
    let e = env.coerce_to_number(t.0.raw).unwrap_err();
    assert_eq!(e.status, Status::GenericFailure);
}

#[test]
fn coerce_date_to_number_gives_epoch_millis() {
    let mut env = Env::new();
    let d = env.create_date(1700000000000).unwrap();
    let n = env.coerce_to_number(d).unwrap();
    let s = env.coerce_to_string(n.raw_value()).unwrap();
    assert_eq!(s.get_value(&env), "1700000000000");
}

#[test]
fn coerce_undefined_to_object_is_rejected() {
    let mut env = Env::new();
    let e = env.coerce_to_object(0).unwrap_err();
    assert_eq!(e.status, Status::ObjectExpected);
}

#[test]
fn named_properties_behave_like_a_map() {
    let mut env = Env::new();
    let obj = env.create_object().unwrap();
    let a = env.create_int32(1).unwrap();
    let b = env.create_int32(2).unwrap();
    env.set_named_property_raw(obj.0.raw, "a", a.0.raw).unwrap();
    env.set_named_property_raw(obj.0.raw, "b", b.0.raw).unwrap();
    assert_eq!(env.get_named_property_raw(obj.0.raw, "a").unwrap(), a.0.raw);
    assert_eq!(env.get_named_property_raw(obj.0.raw, "b").unwrap(), b.0.raw);
    let c = env.create_int32(3).unwrap();
    env.set_named_property_raw(obj.0.raw, "a", c.0.raw).unwrap();
    assert_eq!(env.get_named_property_raw(obj.0.raw, "a").unwrap(), c.0.raw);
    assert_eq!(env.get_named_property_raw(obj.0.raw, "b").unwrap(), b.0.raw);
    // a missing property reads as the canonical undefined
    assert_eq!(env.get_named_property_raw(obj.0.raw, "missing").unwrap(), 0);
}

#[test]
fn setting_property_on_non_object_is_rejected() {
    let mut env = Env::new();
    let n = env.create_int32(7).unwrap();
    let e = env.set_named_property_raw(n.0.raw, "x", 0).unwrap_err();
    assert_eq!(e.status, Status::ObjectExpected);
}

#[test]
fn dead_handle_queries_are_rejected() {
    let env = Env::new();
    let e = env.is_date(999).unwrap_err();
    assert_eq!(e.status, Status::InvalidArgument);
    let e = JsNumber::from_raw(&env, 999).unwrap_err();
    assert_eq!(e.status, Status::InvalidArgument);
}

#[test]
fn checked_construction_validates_kind() {
    let mut env = Env::new();
    let t = env.create_string("hi").unwrap();
    let e = JsNumber::from_raw(&env, t.0.raw).unwrap_err();
    assert_eq!(e.status, Status::WrongTypeHandle);
    assert!(JsString::from_raw(&env, t.0.raw).is_ok());
    assert!(JsUnknown::from_raw(&env, t.0.raw).is_ok());
}

#[test]
fn thrown_exception_blocks_calls_until_cleared() {
    let mut env = Env::new();
    let f = env.create_function(napi_core::engine::NativeCallback::Recorder).unwrap();
    env.throw(Error::new(Status::Unknown, "boom".to_owned())).unwrap();
    assert!(env.is_exception_pending());
    let e = env.call_function(f.0.raw, 0, &vec![]).unwrap_err();
    assert_eq!(e.status, Status::PendingException);
    assert_eq!(env.function_call_count(f.0.raw).unwrap(), 0);
    let exc = env.get_and_clear_last_exception().unwrap();
    assert!(!env.is_exception_pending());
    let s = env.coerce_to_string(exc.0.raw).unwrap();
    assert_eq!(s.get_value(&env), "boom");
    // with the exception cleared the engine accepts calls again
    assert!(env.call_function(f.0.raw, 0, &vec![]).is_ok());
    assert_eq!(env.function_call_count(f.0.raw).unwrap(), 1);
}

#[test]
fn throwing_twice_is_rejected() {
    let mut env = Env::new();
    env.throw(Error::new(Status::Unknown, "first".to_owned())).unwrap();
    let e = env.throw(Error::new(Status::Unknown, "second".to_owned())).unwrap_err();
    assert_eq!(e.status, Status::PendingException);
}

#[test]
fn scope_teardown_releases_fresh_slots() {
    let mut env = Env::new();
    let keep = env.create_int32(5).unwrap();
    let mark = env.slots.len();
    let _scratch = env.create_int32(6).unwrap();
    env.close_scope(mark);
    assert_eq!(env.slots.len(), mark);
    assert_eq!(keep.get_int32(&env).unwrap(), 5);
}
