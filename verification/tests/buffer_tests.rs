use napi_core::buffer::JsBuffer;
use napi_core::class::CallContext;
use napi_core::engine::{Env, NativeCallback};
use napi_core::status::Status;
use napi_core::values::NapiValue;

#[test]
fn buffer_view_matches_reported_length() {
    let mut env = Env::new();
    let buf = env.create_buffer_with_data(vec![1, 2, 3]).unwrap();
    assert_eq!(buf.data.len(), 3);
    assert_eq!(buf.data, vec![1, 2, 3]);
    let again = JsBuffer::from_raw(&env, buf.value.0.raw).unwrap();
    assert_eq!(again.data, vec![1, 2, 3]);
}

#[test]
fn zero_length_buffer_view_is_empty_and_safe() {
    let mut env = Env::new();
    let buf = env.create_buffer_with_data(Vec::new()).unwrap();
    assert_eq!(buf.data.len(), 0);
    assert!(buf.data.iter().next().is_none());
    let again = JsBuffer::from_raw(&env, buf.value.0.raw).unwrap();
    assert!(again.data.is_empty());
}

#[test]
fn buffer_from_raw_rejects_other_kinds() {
    let mut env = Env::new();
    let n = env.create_int32(5).unwrap();
    let e = JsBuffer::from_raw(&env, n.0.raw).unwrap_err();
    assert_eq!(e.status, Status::WrongTypeHandle);
}

#[test]
fn kind_predicates_answer_without_failing() {
    let mut env = Env::new();
    let buf = env.create_buffer_with_data(vec![9]).unwrap();
    assert_eq!(buf.is_buffer(&env).unwrap(), true);
    assert_eq!(buf.is_typedarray(&env).unwrap(), true);
    assert_eq!(buf.is_array(&env).unwrap(), false);
    assert_eq!(buf.is_date(&env).unwrap(), false);
    assert_eq!(buf.is_dataview(&env).unwrap(), false);
    assert_eq!(buf.is_error(&env).unwrap(), false);
}

#[test]
fn kind_predicates_recognise_each_kind() {
    let mut env = Env::new();
    let d = env.create_date(0).unwrap();
    let a = env.create_array().unwrap();
    let v = env.create_dataview(vec![1]).unwrap();
    assert_eq!(env.is_date(d).unwrap(), true);
    assert_eq!(env.is_array(a).unwrap(), true);
    assert_eq!(env.is_dataview(v).unwrap(), true);
    assert_eq!(env.is_buffer(a).unwrap(), false);
    assert_eq!(env.is_typedarray(d).unwrap(), false);
}

#[test]
fn buffer_coercions() {
    let mut env = Env::new();
    let buf = env.create_buffer_with_data(vec![1, 2]).unwrap();
    let raw = buf.value.0.raw;
    let e = JsBuffer::from_raw(&env, raw).unwrap().coerce_to_number(&mut env).unwrap_err();
    assert_eq!(e.status, Status::GenericFailure);
    let s = JsBuffer::from_raw(&env, raw).unwrap().coerce_to_string(&mut env).unwrap();
    assert_eq!(s.get_value(&env), "[object Object]");
    let o = JsBuffer::from_raw(&env, raw).unwrap().coerce_to_object(&mut env).unwrap();
    assert_eq!(o.0.raw, raw);
    let u = buf.into_unknown(&env).unwrap();
    assert_eq!(u.0.raw, raw);
}

#[test]
fn instanceof_reports_false_without_raising() {
    let mut env = Env::new();
    let buf = env.create_buffer_with_data(vec![1]).unwrap();
    let f = env.create_function(NativeCallback::Recorder).unwrap();
    assert_eq!(buf.instanceof(&env, f).unwrap(), false);
    // a non-function constructor is rejected, not answered
    let n = env.create_int32(1).unwrap();
    let buf2 = JsBuffer::from_raw(&env, buf.value.0.raw).unwrap();
    let e = buf2.instanceof(&env, n).unwrap_err();
    assert_eq!(e.status, Status::InvalidArgument);
}

#[test]
fn instanceof_reports_true_for_instances() {
    let mut env = Env::new();
    let ctx = CallContext { this: 0, args: Vec::new() };
    let class = napi_core::class::create_test_class(&mut env, &ctx).unwrap();
    let seed = env.create_int32(5).unwrap();
    let obj = env.new_instance(class.0.raw, &vec![seed.0.raw]).unwrap();
    assert_eq!(env.instance_of(obj.0.raw, class.0.raw).unwrap(), true);
    let other = env.create_function(NativeCallback::Recorder).unwrap();
    assert_eq!(env.instance_of(obj.0.raw, other.0.raw).unwrap(), false);
    // primitives are never instances
    assert_eq!(env.instance_of(seed.0.raw, class.0.raw).unwrap(), false);
}
