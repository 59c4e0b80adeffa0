//! Demonstration uses of the cross-thread bridge: a transformer that turns
//! a byte payload into one number handle per byte, one that turns it into
//! a single buffer handle, and the script-visible entry points that drive
//! them.
//!
//! In the original deployment the `call` and `release` steps run on worker
//! threads; the engine thread only drains. The observable protocol is the
//! sequential one modeled here: accepted items drain in submission order.

use vstd::prelude::*;
use vstd::string::StringExecFns;

use crate::class::CallContext;
use crate::engine::{copy_bytes, record_model, value_model, EngineValue, Env, SnapModel};
use crate::function::JsFunction;
use crate::status::{Error, Status};
use crate::threadsafe_function::{
    spec_deliverable, spec_delivered_models, ThreadsafeFunction, ThreadsafeFunctionCallMode,
    ThreadsafeFunctionReleaseMode, ToJs,
};
use crate::values::{JsUndefined, JsUnknown, NapiValue, Value, ValueType};

verus! {

/// Resolves a byte payload to one engine number per byte, in order.
#[derive(Clone, Copy, Debug)]
pub struct HandleNumber;

impl ToJs for HandleNumber {
    type Output = Vec<u8>;

    open spec fn resolve_ok(&self, output: Vec<u8>) -> bool {
        true
    }

    open spec fn args_model(&self, output: Vec<u8>) -> Seq<SnapModel> {
        output@.map_values(|b: u8| SnapModel::Num(b as i64))
    }

    #[verifier::loop_isolation(false)]
    fn resolve(&self, env: &mut Env, output: Vec<u8>) -> (r: Result<Vec<JsUnknown>, Error>) {
        let mut items: Vec<JsUnknown> = Vec::new();
        let mut i: usize = 0;
        while i < output.len()
            invariant
                i <= output@.len(),
                env.wf(),
                Env::extends(*old(env), *env),
                env.pending_exception == old(env).pending_exception,
                items@.len() == i,
                forall|j: int| 0 <= j < i ==> (#[trigger] items@[j]).0.raw < env.slots@.len(),
                forall|j: int| 0 <= j < i
                    ==> value_model(env.slots@[(#[trigger] items@[j]).0.raw as int])
                        == SnapModel::Num(output@[j] as i64),
            decreases output@.len() - i,
        {
            let value = match env.create_uint32(output[i] as u32) {
                Ok(v) => v,
                Err(e) => {
                    return Err(e);
                },
            };
            items.push(JsUnknown(Value { raw: value.0.raw, kind: ValueType::Unknown }));
            i = i + 1;
        }
        proof {
            assert(crate::engine::spec_arg_models(*env, items@.map_values(|h: JsUnknown| h.0.raw))
                =~= self.args_model(output));
        }
        Ok(items)
    }
}

/// Resolves a byte payload to a single buffer handle holding those bytes.
#[derive(Clone, Copy, Debug)]
pub struct HandleBuffer;

impl ToJs for HandleBuffer {
    type Output = Vec<u8>;

    open spec fn resolve_ok(&self, output: Vec<u8>) -> bool {
        true
    }

    open spec fn args_model(&self, output: Vec<u8>) -> Seq<SnapModel> {
        seq![SnapModel::Bytes(output@)]
    }

    fn resolve(&self, env: &mut Env, output: Vec<u8>) -> (r: Result<Vec<JsUnknown>, Error>) {
        let buf = match env.create_buffer_with_data(output) {
            Ok(b) => b,
            Err(e) => {
                return Err(e);
            },
        };
        let value = match buf.into_unknown(env) {
            Ok(u) => u,
            Err(e) => {
                return Err(e);
            },
        };
        let mut items: Vec<JsUnknown> = Vec::new();
        items.push(value);
        proof {
            assert(crate::engine::spec_arg_models(*env, items@.map_values(|h: JsUnknown| h.0.raw))
                =~= self.args_model(output));
        }
        Ok(items)
    }
}

/// The payload both demonstration workers enqueue.
pub open spec fn demo_payload_model() -> Seq<SnapModel> {
    seq![SnapModel::Num(42), SnapModel::Num(1), SnapModel::Num(2), SnapModel::Num(3)]
}

/// Enqueues the demonstration payload twice through one bridge over the
/// script function passed as the first argument, releases the bridge, and
/// lets the engine drain: the function is invoked exactly twice, in
/// submission order, each invocation receiving the four payload numbers.
pub fn test_threadsafe_function(env: &mut Env, ctx: &CallContext) -> (r: Result<JsUndefined, Error>)
    requires
        old(env).wf(),
        ctx.wf(*old(env)),
        old(env).exception_clear(),
    ensures
        final(env).wf(),
        ctx.args@.len() == 0 ==> (r matches Err(e) && e.status == Status::InvalidArgument
            && *final(env) == *old(env)),
        ctx.args@.len() > 0 && !(old(env).slot(ctx.args@[0]) is Function)
            ==> (r matches Err(e) && e.status == Status::WrongTypeHandle
                && *final(env) == *old(env)),
        ctx.args@.len() > 0 && old(env).slot(ctx.args@[0]) is Function ==> {
            let f = ctx.args@[0];
            let count0 = old(env).slot(f)->Function_calls@.len();
            &&& r matches Ok(u) && u.0.raw == 0
            &&& final(env).slots@.len() == old(env).slots@.len()
            &&& final(env).exception_clear()
            &&& forall|i: int| 0 <= i < old(env).slots@.len() && i != f
                ==> final(env).slots@[i] == old(env).slots@[i]
            &&& final(env).slot(f) is Function
            &&& final(env).slot(f)->Function_callback == old(env).slot(f)->Function_callback
            &&& final(env).slot(f)->Function_calls@.len() == count0 + 2
            &&& forall|i: int| 0 <= i < count0
                ==> final(env).slot(f)->Function_calls@[i]
                    == old(env).slot(f)->Function_calls@[i]
            &&& record_model(final(env).slot(f)->Function_calls@[count0 as int]) == demo_payload_model()
            &&& record_model(final(env).slot(f)->Function_calls@[count0 as int + 1]) == demo_payload_model()
            &&& final(env).slot(f)->Function_calls@[count0 as int].this == 0
            &&& final(env).slot(f)->Function_calls@[count0 as int + 1].this == 0
        },
{
    let func: JsFunction = match ctx.get(env, 0) {
        Ok(f) => f,
        Err(e) => {
            return Err(e);
        },
    };
    let to_js = HandleNumber;
    let mut tsfn = match ThreadsafeFunction::create(env, &func, to_js, 0) {
        Ok(t) => t,
        Err(e) => {
            return Err(e);
        },
    };
    let output: Vec<u8> = make_demo_payload();
    let first = copy_bytes(&output);
    let ghost p1 = first;
    let s1 = tsfn.call(Ok(first), ThreadsafeFunctionCallMode::Blocking);
    let _ = s1;
    let second = copy_bytes(&output);
    let ghost p2 = second;
    let s2 = tsfn.call(Ok(second), ThreadsafeFunctionCallMode::Blocking);
    let _ = s2;
    let s3 = tsfn.release(ThreadsafeFunctionReleaseMode::Release);
    let _ = s3;
    proof {
        let q = tsfn.queue@;
        assert(q.len() == 2);
        assert(q[0] == Ok::<Vec<u8>, Error>(p1));
        assert(q[1] == Ok::<Vec<u8>, Error>(p2));
        assert(q.drop_first() =~= seq![Ok::<Vec<u8>, Error>(p2)]);
        assert(q.drop_first().drop_first() =~= Seq::<Result<Vec<u8>, Error>>::empty());
        assert(spec_deliverable(to_js, q.drop_first().drop_first()) == 0);
        assert(spec_deliverable(to_js, q.drop_first()) == 1);
        assert(spec_deliverable(to_js, q) == 2);
        assert(to_js.args_model(p1) =~= demo_payload_model());
        assert(to_js.args_model(p2) =~= demo_payload_model());
        assert(spec_delivered_models(to_js, q.drop_first().drop_first())
            =~= Seq::<Seq<SnapModel>>::empty());
        assert(spec_delivered_models(to_js, q.drop_first()) =~= seq![to_js.args_model(p2)]);
        assert(spec_delivered_models(to_js, q)
            =~= seq![to_js.args_model(p1), to_js.args_model(p2)]);
        assert(spec_delivered_models(to_js, q)[0] == to_js.args_model(p1));
        assert(spec_delivered_models(to_js, q)[1] == to_js.args_model(p2));
    }
    let ghost q = tsfn.queue@;
    let n = tsfn.drain(env);
    let _ = n;
    proof {
        let f = func.0.raw;
        let c0 = old(env).slot(f)->Function_calls@.len() as int;
        assert(record_model(env.slot(f)->Function_calls@[c0 + 0])
            == spec_delivered_models(to_js, q)[0]);
        assert(record_model(env.slot(f)->Function_calls@[c0 + 1])
            == spec_delivered_models(to_js, q)[1]);
        assert(env.slot(f)->Function_calls@[c0 + 0].this == 0);
        assert(env.slot(f)->Function_calls@[c0 + 1].this == 0);
    }
    env.get_undefined()
}

/// The demonstration payload bytes.
fn make_demo_payload() -> (r: Vec<u8>)
    ensures
        r@ =~= seq![42u8, 1u8, 2u8, 3u8],
{
    let mut v: Vec<u8> = Vec::new();
    v.push(42);
    v.push(1);
    v.push(2);
    v.push(3);
    v
}

/// Enqueues one error item through a bridge over the script function
/// passed as the first argument, releases, and lets the engine drain: the
/// function is never invoked; instead the engine thread observes a thrown
/// exception carrying the error's message.
pub fn test_tsfn_error(env: &mut Env, ctx: &CallContext) -> (r: Result<JsUndefined, Error>)
    requires
        old(env).wf(),
        ctx.wf(*old(env)),
        old(env).exception_clear(),
    ensures
        final(env).wf(),
        ctx.args@.len() == 0 ==> (r matches Err(e) && e.status == Status::InvalidArgument
            && *final(env) == *old(env)),
        ctx.args@.len() > 0 && !(old(env).slot(ctx.args@[0]) is Function)
            ==> (r matches Err(e) && e.status == Status::WrongTypeHandle
                && *final(env) == *old(env)),
        ctx.args@.len() > 0 && old(env).slot(ctx.args@[0]) is Function ==> {
            let f = ctx.args@[0];
            &&& r matches Ok(u) && u.0.raw == 0
            &&& final(env).slots@.len() == old(env).slots@.len() + 1
            &&& !final(env).exception_clear()
            &&& final(env).pending_exception == Some(old(env).slots.len())
            &&& final(env).slot(old(env).slots.len()) matches EngineValue::ErrorObject { message }
                && message@ == "invalid"@
            &&& forall|i: int| 0 <= i < old(env).slots@.len() && i != f
                ==> final(env).slots@[i] == old(env).slots@[i]
            &&& final(env).slot(f) is Function
            &&& final(env).slot(f)->Function_calls@.len()
                == old(env).slot(f)->Function_calls@.len()
        },
{
    let func: JsFunction = match ctx.get(env, 0) {
        Ok(f) => f,
        Err(e) => {
            return Err(e);
        },
    };
    let to_js = HandleNumber;
    let mut tsfn = match ThreadsafeFunction::create(env, &func, to_js, 0) {
        Ok(t) => t,
        Err(e) => {
            return Err(e);
        },
    };
    let item = Error::new(Status::Unknown, "invalid".to_owned());
    let ghost g_item = item;
    let s1 = tsfn.call(Err(item), ThreadsafeFunctionCallMode::Blocking);
    let _ = s1;
    let s2 = tsfn.release(ThreadsafeFunctionReleaseMode::Release);
    let _ = s2;
    proof {
        let q = tsfn.queue@;
        assert(q.len() == 1);
        assert(q[0] == Err::<Vec<u8>, Error>(g_item));
        assert(spec_deliverable(to_js, q) == 0);
    }
    let n = tsfn.drain(env);
    let _ = n;
    env.get_undefined()
}

/// Delivers the outcome of reading a file — its bytes, or the read error —
/// through a bridge over `func`: a successful read becomes one invocation
/// receiving a buffer handle over exactly those bytes; a failed read
/// becomes a thrown exception carrying the error's message.
pub fn deliver_read_result(env: &mut Env, func: &JsFunction, ret: Result<Vec<u8>, Error>) -> (r: Result<JsUndefined, Error>)
    requires
        old(env).wf(),
        func.valid(old(env)),
        old(env).exception_clear(),
    ensures
        final(env).wf(),
        r matches Ok(u) && u.0.raw == 0,
        ret matches Ok(content) ==> {
            let f = func.0.raw;
            let count0 = old(env).slot(f)->Function_calls@.len();
            &&& final(env).slots@.len() == old(env).slots@.len()
            &&& final(env).exception_clear()
            &&& forall|i: int| 0 <= i < old(env).slots@.len() && i != f
                ==> final(env).slots@[i] == old(env).slots@[i]
            &&& final(env).slot(f) is Function
            &&& final(env).slot(f)->Function_calls@.len() == count0 + 1
            &&& record_model(final(env).slot(f)->Function_calls@[count0 as int])
                == seq![SnapModel::Bytes(content@)]
            &&& final(env).slot(f)->Function_calls@[count0 as int].this == 0
        },
        ret matches Err(e) ==> {
            &&& final(env).slots@.len() == old(env).slots@.len() + 1
            &&& !final(env).exception_clear()
            &&& final(env).slot(old(env).slots.len()) matches EngineValue::ErrorObject { message }
                && message@ == e.reason@
            &&& final(env).slot(func.0.raw)->Function_calls@.len()
                == old(env).slot(func.0.raw)->Function_calls@.len()
        },
{
    let to_js = HandleBuffer;
    let mut tsfn = match ThreadsafeFunction::create(env, func, to_js, 0) {
        Ok(t) => t,
        Err(e) => {
            return Err(e);
        },
    };
    let ghost g_ret = ret;
    let s1 = tsfn.call(ret, ThreadsafeFunctionCallMode::Blocking);
    let _ = s1;
    let s2 = tsfn.release(ThreadsafeFunctionReleaseMode::Release);
    let _ = s2;
    proof {
        let q = tsfn.queue@;
        assert(q.len() == 1);
        assert(q[0] == g_ret);
        if g_ret is Ok {
            assert(q.drop_first() =~= Seq::<Result<Vec<u8>, Error>>::empty());
            assert(spec_deliverable(to_js, q.drop_first()) == 0);
            assert(spec_deliverable(to_js, q) == 1);
            assert(spec_delivered_models(to_js, q.drop_first())
                =~= Seq::<Seq<SnapModel>>::empty());
            assert(spec_delivered_models(to_js, q)
                =~= seq![to_js.args_model(g_ret->Ok_0)]);
            assert(spec_delivered_models(to_js, q)[0] == to_js.args_model(g_ret->Ok_0));
        } else {
            assert(spec_deliverable(to_js, q) == 0);
        }
    }
    let ghost q = tsfn.queue@;
    let n = tsfn.drain(env);
    let _ = n;
    proof {
        if g_ret is Ok {
            let f = func.0.raw;
            let c0 = old(env).slot(f)->Function_calls@.len() as int;
            assert(record_model(env.slot(f)->Function_calls@[c0 + 0])
                == spec_delivered_models(to_js, q)[0]);
            assert(env.slot(f)->Function_calls@[c0 + 0].this == 0);
        }
    }
    env.get_undefined()
}

} // verus!
