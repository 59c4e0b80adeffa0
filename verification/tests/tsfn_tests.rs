use napi_core::class::CallContext;
use napi_core::engine::{ArgSnapshot, Env, NativeCallback};
use napi_core::status::{Error, Status};
use napi_core::threadsafe_function::{
    ThreadsafeFunction, ThreadsafeFunctionCallMode, ThreadsafeFunctionReleaseMode,
};
use napi_core::tsfn::{
    deliver_read_result, test_threadsafe_function, test_tsfn_error, HandleNumber,
};
use napi_core::values::NapiValue;

#[test]
fn calls_before_release_all_execute_in_order() {
    let mut env = Env::new();
    let f = env.create_function(NativeCallback::Recorder).unwrap();
    let mut tsfn = ThreadsafeFunction::create(&env, &f, HandleNumber, 0).unwrap();
    for i in 0..3u8 {
        let s = tsfn.call(Ok(vec![i]), ThreadsafeFunctionCallMode::Blocking);
        assert_eq!(s, Status::Success);
    }
    tsfn.release(ThreadsafeFunctionReleaseMode::Release);
    let n = tsfn.drain(&mut env);
    assert_eq!(n, 3);
    assert!(tsfn.is_done());
    assert_eq!(env.function_call_count(f.0.raw).unwrap(), 3);
    for i in 0..3u8 {
        assert_eq!(env.function_call_arity(f.0.raw, i as usize).unwrap(), 1);
        assert_eq!(
            env.function_call_arg(f.0.raw, i as usize, 0).unwrap(),
            ArgSnapshot::Num(i as i64)
        );
    }
}

#[test]
fn items_enqueued_before_release_still_execute_and_later_calls_are_closed() {
    let mut env = Env::new();
    let f = env.create_function(NativeCallback::Recorder).unwrap();
    let mut tsfn = ThreadsafeFunction::create(&env, &f, HandleNumber, 0).unwrap();
    assert_eq!(tsfn.call(Ok(vec![1]), ThreadsafeFunctionCallMode::Blocking), Status::Success);
    assert_eq!(tsfn.call(Ok(vec![2]), ThreadsafeFunctionCallMode::Blocking), Status::Success);
    assert_eq!(tsfn.release(ThreadsafeFunctionReleaseMode::Release), Status::Success);
    // the bridge is released: new calls fail with Closed and never execute
    assert_eq!(tsfn.call(Ok(vec![3]), ThreadsafeFunctionCallMode::Blocking), Status::Closed);
    let n = tsfn.drain(&mut env);
    assert_eq!(n, 2);
    assert_eq!(env.function_call_count(f.0.raw).unwrap(), 2);
    assert_eq!(env.function_call_arg(f.0.raw, 0, 0).unwrap(), ArgSnapshot::Num(1));
    assert_eq!(env.function_call_arg(f.0.raw, 1, 0).unwrap(), ArgSnapshot::Num(2));
}

#[test]
fn abort_discards_queued_items_without_invoking() {
    let mut env = Env::new();
    let f = env.create_function(NativeCallback::Recorder).unwrap();
    let mut tsfn = ThreadsafeFunction::create(&env, &f, HandleNumber, 0).unwrap();
    for i in 0..5u8 {
        tsfn.call(Ok(vec![i]), ThreadsafeFunctionCallMode::Blocking);
    }
    assert_eq!(tsfn.abort(), Status::Success);
    // aborting again changes nothing
    assert_eq!(tsfn.release(ThreadsafeFunctionReleaseMode::Abort), Status::Success);
    assert_eq!(tsfn.call(Ok(vec![9]), ThreadsafeFunctionCallMode::NonBlocking), Status::Closed);
    let n = tsfn.drain(&mut env);
    assert_eq!(n, 0);
    assert_eq!(env.function_call_count(f.0.raw).unwrap(), 0);
}

#[test]
fn release_counts_down_permits_before_closing() {
    let mut env = Env::new();
    let f = env.create_function(NativeCallback::Recorder).unwrap();
    let mut tsfn = ThreadsafeFunction::create(&env, &f, HandleNumber, 2).unwrap();
    assert_eq!(tsfn.release(ThreadsafeFunctionReleaseMode::Release), Status::Success);
    // one permit is still out: calls are accepted
    assert_eq!(tsfn.call(Ok(vec![1]), ThreadsafeFunctionCallMode::Blocking), Status::Success);
    assert_eq!(tsfn.release(ThreadsafeFunctionReleaseMode::Release), Status::Success);
    assert_eq!(tsfn.call(Ok(vec![2]), ThreadsafeFunctionCallMode::Blocking), Status::Closed);
    // releasing a released bridge reports Closed and changes nothing
    assert_eq!(tsfn.release(ThreadsafeFunctionReleaseMode::Release), Status::Closed);
}

#[test]
fn bounded_queue_reports_queue_full() {
    let env = Env::new();
    let mut env = env;
    let f = env.create_function(NativeCallback::Recorder).unwrap();
    let mut tsfn =
        ThreadsafeFunction::create_with_queue_limit(&env, &f, HandleNumber, 1, 0).unwrap();
    assert_eq!(tsfn.call(Ok(vec![1]), ThreadsafeFunctionCallMode::NonBlocking), Status::Success);
    assert_eq!(tsfn.call(Ok(vec![2]), ThreadsafeFunctionCallMode::NonBlocking), Status::QueueFull);
    // draining frees space, after which calls are accepted again
    let n = tsfn.drain(&mut env);
    assert_eq!(n, 1);
    assert_eq!(tsfn.call(Ok(vec![3]), ThreadsafeFunctionCallMode::NonBlocking), Status::Success);
}

#[test]
fn error_item_throws_instead_of_invoking() {
    let mut env = Env::new();
    let f = env.create_function(NativeCallback::Recorder).unwrap();
    let mut tsfn = ThreadsafeFunction::create(&env, &f, HandleNumber, 0).unwrap();
    tsfn.call(Err(Error::new(Status::Unknown, "invalid".to_owned())), ThreadsafeFunctionCallMode::Blocking);
    tsfn.release(ThreadsafeFunctionReleaseMode::Release);
    let n = tsfn.drain(&mut env);
    assert_eq!(n, 1);
    assert_eq!(env.function_call_count(f.0.raw).unwrap(), 0);
    assert!(env.is_exception_pending());
    let exc = env.get_and_clear_last_exception().unwrap();
    let s = env.coerce_to_string(exc.0.raw).unwrap();
    assert_eq!(s.get_value(&env), "invalid");
}

#[test]
fn error_item_stops_the_drain_until_the_exception_is_handled() {
    let mut env = Env::new();
    let f = env.create_function(NativeCallback::Recorder).unwrap();
    let mut tsfn = ThreadsafeFunction::create(&env, &f, HandleNumber, 0).unwrap();
    tsfn.call(Ok(vec![1]), ThreadsafeFunctionCallMode::Blocking);
    tsfn.call(Err(Error::new(Status::Unknown, "stop".to_owned())), ThreadsafeFunctionCallMode::Blocking);
    tsfn.call(Ok(vec![2]), ThreadsafeFunctionCallMode::Blocking);
    tsfn.release(ThreadsafeFunctionReleaseMode::Release);
    let n = tsfn.drain(&mut env);
    assert_eq!(n, 2);
    assert_eq!(env.function_call_count(f.0.raw).unwrap(), 1);
    // the engine handles the exception, then keeps draining
    env.get_and_clear_last_exception().unwrap();
    let n = tsfn.drain(&mut env);
    assert_eq!(n, 1);
    assert_eq!(env.function_call_count(f.0.raw).unwrap(), 2);
    assert_eq!(env.function_call_arg(f.0.raw, 1, 0).unwrap(), ArgSnapshot::Num(2));
}

#[test]
fn worker_enqueues_payload_twice_then_releases() {
    let mut env = Env::new();
    let f = env.create_function(NativeCallback::Recorder).unwrap();
    let ctx = CallContext { this: 0, args: vec![f.0.raw] };
    let r = test_threadsafe_function(&mut env, &ctx).unwrap();
    assert_eq!(r.0.raw, 0);
    assert_eq!(env.function_call_count(f.0.raw).unwrap(), 2);
    for call in 0..2usize {
        assert_eq!(env.function_call_arity(f.0.raw, call).unwrap(), 4);
        assert_eq!(env.function_call_arg(f.0.raw, call, 0).unwrap(), ArgSnapshot::Num(42));
        assert_eq!(env.function_call_arg(f.0.raw, call, 1).unwrap(), ArgSnapshot::Num(1));
        assert_eq!(env.function_call_arg(f.0.raw, call, 2).unwrap(), ArgSnapshot::Num(2));
        assert_eq!(env.function_call_arg(f.0.raw, call, 3).unwrap(), ArgSnapshot::Num(3));
    }
}

#[test]
fn worker_enqueues_unknown_error_with_message_invalid() {
    let mut env = Env::new();
    let f = env.create_function(NativeCallback::Recorder).unwrap();
    let ctx = CallContext { this: 0, args: vec![f.0.raw] };
    test_tsfn_error(&mut env, &ctx).unwrap();
    assert_eq!(env.function_call_count(f.0.raw).unwrap(), 0);
    assert!(env.is_exception_pending());
    let exc = env.get_and_clear_last_exception().unwrap();
    let s = env.coerce_to_string(exc.0.raw).unwrap();
    assert_eq!(s.get_value(&env), "invalid");
}

#[test]
fn file_content_is_delivered_as_one_buffer_invocation() {
    let mut env = Env::new();
    let f = env.create_function(NativeCallback::Recorder).unwrap();
    deliver_read_result(&mut env, &f, Ok(vec![9, 8, 7])).unwrap();
    assert_eq!(env.function_call_count(f.0.raw).unwrap(), 1);
    assert_eq!(env.function_call_arity(f.0.raw, 0).unwrap(), 1);
    assert_eq!(
        env.function_call_arg(f.0.raw, 0, 0).unwrap(),
        ArgSnapshot::Bytes(vec![9, 8, 7])
    );
}

#[test]
fn failed_read_is_delivered_as_a_thrown_exception() {
    let mut env = Env::new();
    let f = env.create_function(NativeCallback::Recorder).unwrap();
    deliver_read_result(
        &mut env,
        &f,
        Err(Error::new(Status::Unknown, "failed to read file".to_owned())),
    )
    .unwrap();
    assert_eq!(env.function_call_count(f.0.raw).unwrap(), 0);
    assert!(env.is_exception_pending());
    let exc = env.get_and_clear_last_exception().unwrap();
    let s = env.coerce_to_string(exc.0.raw).unwrap();
    assert_eq!(s.get_value(&env), "failed to read file");
}

#[test]
fn passing_a_non_function_to_the_worker_demo_fails() {
    let mut env = Env::new();
    let n = env.create_int32(1).unwrap();
    let ctx = CallContext { this: 0, args: vec![n.0.raw] };
    let e = test_threadsafe_function(&mut env, &ctx).unwrap_err();
    assert_eq!(e.status, Status::WrongTypeHandle);
    let ctx = CallContext { this: 0, args: Vec::new() };
    let e = test_tsfn_error(&mut env, &ctx).unwrap_err();
    assert_eq!(e.status, Status::InvalidArgument);
}
