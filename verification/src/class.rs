//! Class and method registration over the invocation bridge, and the
//! engine-side dispatch of native callbacks.
//!
//! The effect of each native callback is captured by a relational spec
//! function, so that both the callback itself and the dispatching
//! `Env::call_function` can state exactly what one invocation does.

use vstd::prelude::*;
use vstd::string::StringExecFns;

use crate::engine::{
    record_step, snapshot_args, spec_arg_models, spec_prop_lookup, spec_prop_or_undefined,
    CallRecord, EngineValue, Env, NativeCallback,
};
use crate::function::JsFunction;
use crate::status::{Error, Status};
use crate::values::{JsNumber, JsObject, JsUndefined, NapiValue};

verus! {

/// The calling context a native callback receives: the receiver and the
/// raw argument handles of one invocation.
pub struct CallContext {
    pub this: usize,
    pub args: Vec<usize>,
}

impl CallContext {
    /// Every raw handle of the context is live in `env`.
    pub open spec fn wf(&self, env: Env) -> bool {
        &&& env.has_slot(self.this)
        &&& forall|i: int| 0 <= i < self.args@.len() ==> env.has_slot(#[trigger] self.args@[i])
    }

    /// Fetches argument `index` as a typed handle, validating its kind;
    /// fails with `InvalidArgument` when fewer arguments were passed.
    pub fn get<V: NapiValue>(&self, env: &Env, index: usize) -> (r: Result<V, Error>)
        ensures
            index >= self.args@.len() ==> (r matches Err(e)
                && e.status == Status::InvalidArgument && e.exception is None),
            index < self.args@.len() ==> {
                &&& (r is Ok <==> V::construct_ok(env, self.args@[index as int]))
                &&& (r matches Ok(v) ==> v.valid(env) && v.raw_spec() == self.args@[index as int])
                &&& (r matches Err(e) ==> e.status == V::construct_err(env, self.args@[index as int])
                    && e.exception is None)
            },
    {
        if index < self.args.len() {
            V::from_raw(env, self.args[index])
        } else {
            Err(Error::new(Status::InvalidArgument, String::from_str("argument index out of range")))
        }
    }

    /// The receiver, wrapped without validation: sound only where the call
    /// site already guarantees its kind, as the engine does for receivers
    /// it vends to callbacks.
    pub fn this_unchecked<V: NapiValue>(&self, env: &Env) -> (r: V)
        requires
            V::construct_ok(env, self.this),
        ensures
            r.valid(env),
            r.raw_spec() == self.this as int,
    {
        V::from_raw_unchecked(env, self.this)
    }
}

/// A named method descriptor used when defining a class.
pub struct Property {
    pub name: String,
    pub method: NativeCallback,
}

impl Property {
    /// A descriptor with the given name and no method yet.
    pub fn new(env: &Env, name: &str) -> (r: Result<Property, Error>)
        ensures
            r matches Ok(p) && p.name@ == name@ && p.method == NativeCallback::Recorder,
    {
        let _ = env;
        Ok(Property { name: name.to_owned(), method: NativeCallback::Recorder })
    }

    /// The same descriptor, bound to a native method.
    pub fn with_method(self, callback: NativeCallback) -> (r: Property)
        ensures
            r.name@ == self.name@,
            r.method == callback,
    {
        Property { name: self.name, method: callback }
    }
}

/// A module being registered: its named exports, each a script-visible
/// function.
pub struct Module {
    pub exports: Vec<(String, usize)>,
}

impl Module {
    /// A module with no exports yet.
    pub fn new() -> (m: Module)
        ensures
            m.exports@.len() == 0,
    {
        Module { exports: Vec::new() }
    }

    /// Creates a fresh function slot for `callback` and exports it under
    /// `name`.
    pub fn create_named_method(&mut self, env: &mut Env, name: &str, callback: NativeCallback) -> (r: Result<(), Error>)
        requires
            old(env).wf(),
        ensures
            final(env).wf(),
            r is Ok,
            final(env).slots@.len() == old(env).slots@.len() + 1,
            Env::extends(*old(env), *final(env)),
            final(env).pending_exception == old(env).pending_exception,
            final(env).slot(old(env).slots.len()) matches EngineValue::Function { callback: cb, methods, calls }
                && cb == callback && methods@.len() == 0 && calls@.len() == 0,
            final(self).exports@.len() == old(self).exports@.len() + 1,
            forall|i: int| 0 <= i < old(self).exports@.len()
                ==> final(self).exports@[i] == old(self).exports@[i],
            final(self).exports@.last().0@ == name@,
            final(self).exports@.last().1 == old(env).slots@.len(),
    {
        let f = match env.create_function(callback) {
            Ok(f) => f,
            Err(e) => {
                return Err(e);
            },
        };
        self.exports.push((name.to_owned(), f.0.raw));
        Ok(())
    }
}

/// Registers this crate's demonstration class factory on the module.
pub fn register_js(env: &mut Env, module: &mut Module) -> (r: Result<(), Error>)
    requires
        old(env).wf(),
    ensures
        final(env).wf(),
        r is Ok,
        final(env).slots@.len() == old(env).slots@.len() + 1,
        Env::extends(*old(env), *final(env)),
        final(env).pending_exception == old(env).pending_exception,
        final(env).slot(old(env).slots.len()) matches EngineValue::Function { callback: cb, methods, calls }
            && cb == NativeCallback::CreateTestClass && methods@.len() == 0 && calls@.len() == 0,
        final(module).exports@.len() == old(module).exports@.len() + 1,
        forall|i: int| 0 <= i < old(module).exports@.len()
            ==> final(module).exports@[i] == old(module).exports@[i],
        final(module).exports@.last().0@ == "createTestClass"@,
        final(module).exports@.last().1 == old(env).slots@.len(),
{
    match module.create_named_method(env, "createTestClass", NativeCallback::CreateTestClass) {
        Ok(()) => Ok(()),
        Err(e) => Err(e),
    }
}

/// The value fits a 32-bit signed integer.
pub open spec fn fits_i32(n: i64) -> bool {
    i32::MIN <= n <= i32::MAX
}

/// What defining the demonstration class does: one method slot for
/// `addCount`, then the class slot whose constructor stores its argument.
pub open spec fn create_class_effect(pre: Env, this: usize, args: Seq<usize>, post: Env, r: Result<usize, Error>) -> bool {
    &&& post.slots@.len() == pre.slots@.len() + 2
    &&& Env::extends(pre, post)
    &&& post.pending_exception == pre.pending_exception
    &&& post.slot(pre.slots.len()) matches EngineValue::Function { callback, methods, calls }
        && callback == NativeCallback::AddCount && methods@.len() == 0 && calls@.len() == 0
    &&& post.slot((pre.slots.len() + 1) as usize) matches EngineValue::Function { callback, methods, calls }
        && callback == NativeCallback::TestClassConstructor && calls@.len() == 0
        && methods@.len() == 1 && methods@[0].0@ == "addCount"@
        && methods@[0].1 == pre.slots@.len()
    &&& r == Ok::<usize, Error>((pre.slots.len() + 1) as usize)
}

/// What the class constructor does: reads its first argument as a 32-bit
/// number and binds it as the receiver's `count` property, consuming one
/// fresh number slot; each failure leaves the context unchanged except
/// that a kind failure of the receiver is discovered only after the number
/// was allocated.
pub open spec fn constructor_effect(pre: Env, this: usize, args: Seq<usize>, post: Env, r: Result<usize, Error>) -> bool {
    if !crate::engine::is_object_kind(pre.slot(this)) {
        r matches Err(e) && e.status == Status::ObjectExpected && e.exception is None && post == pre
    } else if args.len() == 0 {
        r matches Err(e) && e.status == Status::InvalidArgument && e.exception is None && post == pre
    } else if !pre.has_slot(args[0]) {
        r matches Err(e) && e.status == Status::InvalidArgument && e.exception is None && post == pre
    } else if !(pre.slot(args[0]) is Number) {
        r matches Err(e) && e.status == Status::WrongTypeHandle && e.exception is None && post == pre
    } else if !fits_i32(pre.slot(args[0])->Number_0) {
        r matches Err(e) && e.status == Status::GenericFailure && e.exception is None && post == pre
    } else if !(pre.slot(this) is Object) {
        &&& post.slots@.len() == pre.slots@.len() + 1
        &&& Env::extends(pre, post)
        &&& post.pending_exception == pre.pending_exception
        &&& post.slot(pre.slots.len()) == EngineValue::Number(pre.slot(args[0])->Number_0)
        &&& r matches Err(e) && e.status == Status::ObjectExpected && e.exception is None
    } else {
        &&& post.slots@.len() == pre.slots@.len() + 1
        &&& post.pending_exception == pre.pending_exception
        &&& forall|i: int| 0 <= i < pre.slots@.len() && i != this
            ==> post.slots@[i] == pre.slots@[i]
        &&& post.slot(pre.slots.len()) == EngineValue::Number(pre.slot(args[0])->Number_0)
        &&& post.slot(this) is Object
        &&& post.slot(this)->Object_born_of == pre.slot(this)->Object_born_of
        &&& spec_prop_lookup(post.slot(this)->Object_properties@, "count"@)
            == Some(pre.slots.len())
        &&& forall|other: Seq<char>| other != "count"@
            ==> spec_prop_lookup(post.slot(this)->Object_properties@, other)
                == spec_prop_lookup(pre.slot(this)->Object_properties@, other)
        &&& r == Ok::<usize, Error>(0usize)
    }
}

/// What the `addCount` method does: adds its 32-bit argument to the
/// receiver's 32-bit `count` property, rebinding `count` to a fresh number
/// slot; every failure leaves the context unchanged.
pub open spec fn add_count_effect(pre: Env, this: usize, args: Seq<usize>, post: Env, r: Result<usize, Error>) -> bool {
    if !crate::engine::is_object_kind(pre.slot(this)) {
        r matches Err(e) && e.status == Status::ObjectExpected && e.exception is None && post == pre
    } else if args.len() == 0 {
        r matches Err(e) && e.status == Status::InvalidArgument && e.exception is None && post == pre
    } else if !pre.has_slot(args[0]) {
        r matches Err(e) && e.status == Status::InvalidArgument && e.exception is None && post == pre
    } else if !(pre.slot(args[0]) is Number) {
        r matches Err(e) && e.status == Status::WrongTypeHandle && e.exception is None && post == pre
    } else if !fits_i32(pre.slot(args[0])->Number_0) {
        r matches Err(e) && e.status == Status::GenericFailure && e.exception is None && post == pre
    } else if !(pre.slot(this) is Object) {
        r matches Err(e) && e.status == Status::ObjectExpected && e.exception is None && post == pre
    } else if !pre.has_slot(spec_prop_or_undefined(pre, this, "count"@)) {
        r matches Err(e) && e.status == Status::InvalidArgument && e.exception is None && post == pre
    } else if !(pre.slot(spec_prop_or_undefined(pre, this, "count"@)) is Number) {
        r matches Err(e) && e.status == Status::WrongTypeHandle && e.exception is None && post == pre
    } else if !fits_i32(pre.slot(spec_prop_or_undefined(pre, this, "count"@))->Number_0) {
        r matches Err(e) && e.status == Status::GenericFailure && e.exception is None && post == pre
    } else if !fits_i32(
        (pre.slot(spec_prop_or_undefined(pre, this, "count"@))->Number_0
            + pre.slot(args[0])->Number_0) as i64,
    ) {
        r matches Err(e) && e.status == Status::GenericFailure && e.exception is None && post == pre
    } else {
        &&& post.slots@.len() == pre.slots@.len() + 1
        &&& post.pending_exception == pre.pending_exception
        &&& forall|i: int| 0 <= i < pre.slots@.len() && i != this
            ==> post.slots@[i] == pre.slots@[i]
        &&& post.slot(pre.slots.len()) == EngineValue::Number(
            (pre.slot(spec_prop_or_undefined(pre, this, "count"@))->Number_0
                + pre.slot(args[0])->Number_0) as i64,
        )
        &&& post.slot(this) is Object
        &&& post.slot(this)->Object_born_of == pre.slot(this)->Object_born_of
        &&& spec_prop_lookup(post.slot(this)->Object_properties@, "count"@)
            == Some(pre.slots.len())
        &&& forall|other: Seq<char>| other != "count"@
            ==> spec_prop_lookup(post.slot(this)->Object_properties@, other)
                == spec_prop_lookup(pre.slot(this)->Object_properties@, other)
        &&& r == Ok::<usize, Error>(0usize)
    }
}

/// What dispatching one invocation to a native callback does. A plain
/// script function (`Recorder`) changes nothing beyond the record and
/// returns `undefined`.
pub open spec fn callback_effect(cb: NativeCallback, mid: Env, this: usize, args: Seq<usize>, post: Env, r: Result<usize, Error>) -> bool {
    match cb {
        NativeCallback::Recorder => post == mid && r == Ok::<usize, Error>(0usize),
        NativeCallback::TestClassConstructor => constructor_effect(mid, this, args, post, r),
        NativeCallback::AddCount => add_count_effect(mid, this, args, post, r),
        NativeCallback::CreateTestClass => create_class_effect(mid, this, args, post, r),
    }
}

/// What one call through the invocation bridge does: a dead or wrongly
/// kinded target, or an exception already in flight, fails without effect;
/// otherwise exactly one invocation record is appended and the dispatched
/// callback's own effect holds on top of it.
pub open spec fn invocation_post(pre: Env, post: Env, func: usize, this: usize, args: Seq<usize>, r: Result<usize, Error>) -> bool {
    &&& (!(pre.slot(func) is Function) ==> (r matches Err(e)
        && e.status == Status::InvalidArgument && e.exception is None && post == pre))
    &&& (pre.slot(func) is Function && !pre.exception_clear() ==> (r matches Err(e)
        && e.status == Status::PendingException && e.exception is None && post == pre))
    &&& (pre.slot(func) is Function && pre.exception_clear() ==> exists|mid: Env|
        #[trigger] record_step(pre, mid, func, this, spec_arg_models(pre, args))
            && callback_effect(pre.slot(func)->Function_callback, mid, this, args, post, r))
}

/// Copies a vector of raw handles.
fn copy_raws(src: &Vec<usize>) -> (r: Vec<usize>)
    ensures
        r@ == src@,
{
    let mut out: Vec<usize> = Vec::new();
    let mut i: usize = 0;
    while i < src.len()
        invariant
            i <= src@.len(),
            out@ =~= src@.subrange(0, i as int),
        decreases src@.len() - i,
    {
        out.push(src[i]);
        i = i + 1;
    }
    proof {
        assert(out@ =~= src@);
    }
    out
}

/// The class constructor: stores its first argument as the receiver's
/// `count` property.
pub fn test_class_constructor(env: &mut Env, ctx: &CallContext) -> (r: Result<JsUndefined, Error>)
    requires
        old(env).wf(),
        ctx.wf(*old(env)),
        crate::engine::is_object_kind(old(env).slot(ctx.this)),
    ensures
        final(env).wf(),
        constructor_effect(*old(env), ctx.this, ctx.args@, *final(env), (match r {
            Ok(u) => Ok(u.0.raw),
            Err(e) => Err(e),
        })),
{
    let this: JsObject = ctx.this_unchecked(env);
    let count: JsNumber = match ctx.get(env, 0) {
        Ok(c) => c,
        Err(e) => {
            return Err(e);
        },
    };
    let c32: i32 = match count.get_int32(env) {
        Ok(v) => v,
        Err(e) => {
            return Err(e);
        },
    };
    let num = match env.create_int32(c32) {
        Ok(n) => n,
        Err(e) => {
            return Err(e);
        },
    };
    match env.set_named_property_raw(this.0.raw, "count", num.0.raw) {
        Ok(()) => {},
        Err(e) => {
            return Err(e);
        },
    }
    env.get_undefined()
}

/// The `addCount` method: adds its argument to the receiver's `count`.
pub fn add_count(env: &mut Env, ctx: &CallContext) -> (r: Result<JsUndefined, Error>)
    requires
        old(env).wf(),
        ctx.wf(*old(env)),
        crate::engine::is_object_kind(old(env).slot(ctx.this)),
    ensures
        final(env).wf(),
        add_count_effect(*old(env), ctx.this, ctx.args@, *final(env), (match r {
            Ok(u) => Ok(u.0.raw),
            Err(e) => Err(e),
        })),
{
    let this: JsObject = ctx.this_unchecked(env);
    let add_h: JsNumber = match ctx.get(env, 0) {
        Ok(c) => c,
        Err(e) => {
            return Err(e);
        },
    };
    let add: i32 = match add_h.get_int32(env) {
        Ok(v) => v,
        Err(e) => {
            return Err(e);
        },
    };
    let count_raw = match env.get_named_property_raw(this.0.raw, "count") {
        Ok(v) => v,
        Err(e) => {
            return Err(e);
        },
    };
    let count_h: JsNumber = match JsNumber::from_raw(env, count_raw) {
        Ok(h) => h,
        Err(e) => {
            return Err(e);
        },
    };
    let count: i32 = match count_h.get_int32(env) {
        Ok(v) => v,
        Err(e) => {
            return Err(e);
        },
    };
    let sum: i64 = count as i64 + add as i64;
    if sum < i32::MIN as i64 || sum > i32::MAX as i64 {
        return Err(Error::new(Status::GenericFailure, String::from_str("count overflows 32 bits")));
    }
    let num = match env.create_int32(sum as i32) {
        Ok(n) => n,
        Err(e) => {
            return Err(e);
        },
    };
    match env.set_named_property_raw(this.0.raw, "count", num.0.raw) {
        Ok(()) => {},
        Err(e) => {
            return Err(e);
        },
    }
    env.get_undefined()
}

/// The class factory: defines the demonstration class with its `addCount`
/// method.
pub fn create_test_class(env: &mut Env, ctx: &CallContext) -> (r: Result<JsFunction, Error>)
    requires
        old(env).wf(),
    ensures
        final(env).wf(),
        create_class_effect(*old(env), ctx.this, ctx.args@, *final(env), (match r {
            Ok(f) => Ok(f.0.raw),
            Err(e) => Err(e),
        })),
{
    let prop = match Property::new(env, "addCount") {
        Ok(p) => p,
        Err(e) => {
            return Err(e);
        },
    };
    let add_count_method = prop.with_method(NativeCallback::AddCount);
    let mut properties: Vec<Property> = Vec::new();
    properties.push(add_count_method);
    let r = env.define_class("TestClass", NativeCallback::TestClassConstructor, &properties);
    proof {
        assert(properties@[0].method == NativeCallback::AddCount);
        assert(properties@[0].name@ == "addCount"@);
    }
    r
}

impl Env {
    /// Defines a class: one fresh function slot per method descriptor, then
    /// the class's own function slot carrying the constructor callback and
    /// the method table.
    pub fn define_class(&mut self, name: &str, constructor: NativeCallback, properties: &Vec<Property>) -> (r: Result<JsFunction, Error>)
        requires
            old(self).wf(),
        ensures
            final(self).wf(),
            final(self).slots@.len() == old(self).slots@.len() + properties@.len() + 1,
            Env::extends(*old(self), *final(self)),
            final(self).pending_exception == old(self).pending_exception,
            forall|i: int| 0 <= i < properties@.len()
                ==> (final(self).slots@[old(self).slots@.len() + i]
                    matches EngineValue::Function { callback, methods, calls }
                    && callback == (#[trigger] properties@[i]).method && methods@.len() == 0 && calls@.len() == 0),
            r matches Ok(h) && h.0.raw == old(self).slots@.len() + properties@.len()
                && h.valid(final(self)),
            final(self).slot((old(self).slots@.len() + properties@.len()) as usize)
                matches EngineValue::Function { callback, methods, calls }
                && callback == constructor && calls@.len() == 0
                && methods@.len() == properties@.len()
                && (forall|i: int| 0 <= i < properties@.len()
                    ==> (#[trigger] methods@[i]).0@ == properties@[i].name@
                        && methods@[i].1 == old(self).slots@.len() + i),
    {
        let _ = name;
        let ghost base = self.slots@.len();
        let mut methods: Vec<(String, usize)> = Vec::new();
        let mut i: usize = 0;
        while i < properties.len()
            invariant
                old(self).wf(),
                self.wf(),
                i <= properties@.len(),
                self.slots@.len() == base + i,
                base == old(self).slots@.len(),
                Env::extends(*old(self), *self),
                self.pending_exception == old(self).pending_exception,
                forall|j: int| 0 <= j < i
                    ==> ((#[trigger] self.slots@[base + j])
                        matches EngineValue::Function { callback, methods: ms, calls }
                        && callback == properties@[j].method && ms@.len() == 0 && calls@.len() == 0),
                methods@.len() == i,
                forall|j: int| 0 <= j < i
                    ==> (#[trigger] methods@[j]).0@ == properties@[j].name@
                        && methods@[j].1 == base + j,
            decreases properties@.len() - i,
        {
            let f = match self.create_function(properties[i].method) {
                Ok(f) => f,
                Err(e) => {
                    return Err(e);
                },
            };
            methods.push((properties[i].name.clone(), f.0.raw));
            i = i + 1;
        }
        let class_raw = self.push_slot(EngineValue::Function {
            callback: constructor,
            methods,
            calls: Vec::new(),
        });
        Ok(JsFunction(crate::values::Value { raw: class_raw, kind: crate::values::ValueType::Function }))
    }

    /// One call through the invocation bridge: validates the target, checks
    /// that no exception is in flight, appends the invocation record, and
    /// dispatches the target's callback. A failure during execution is
    /// surfaced as an `Error` to the caller, never thrown through the
    /// bridge.
    pub fn call_function(&mut self, func: usize, this: usize, args: &Vec<usize>) -> (r: Result<usize, Error>)
        requires
            old(self).wf(),
            old(self).has_slot(func),
            old(self).has_slot(this),
            forall|i: int| 0 <= i < args@.len() ==> old(self).has_slot(#[trigger] args@[i]),
        ensures
            final(self).wf(),
            invocation_post(*old(self), *final(self), func, this, args@, r),
            r matches Ok(v) ==> final(self).has_slot(v),
    {
        let cb: NativeCallback = match &self.slots[func] {
            EngineValue::Function { callback, .. } => *callback,
            _ => {
                return Err(Error::new(Status::InvalidArgument, String::from_str("target is not a function")));
            },
        };
        if self.pending_exception.is_some() {
            return Err(Error::new(Status::PendingException, String::from_str("an exception is already in flight")));
        }
        let snaps = snapshot_args(self, args);
        let rec = CallRecord { this, args: snaps };
        match &mut self.slots[func] {
            EngineValue::Function { calls, .. } => {
                calls.push(rec);
            },
            _ => {
                proof {
                    assert(false);
                }
            },
        }
        let ghost mid = *self;
        proof {
            assert(record_step(*old(self), mid, func, this, spec_arg_models(*old(self), args@)));
        }
        match cb {
            NativeCallback::Recorder => {
                proof {
                    assert(callback_effect(cb, mid, this, args@, *self, Ok::<usize, Error>(0usize)));
                }
                Ok(0)
            },
            NativeCallback::TestClassConstructor => {
                if !is_object_kind_exec(self, this) {
                    let e = Error::new(Status::ObjectExpected, String::from_str("receiver is not an object"));
                    proof {
                        assert(callback_effect(cb, mid, this, args@, *self, Err::<usize, Error>(e)));
                    }
                    return Err(e);
                }
                let ctx = CallContext { this, args: copy_raws(args) };
                let r0 = test_class_constructor(self, &ctx);
                match r0 {
                    Ok(u) => {
                        proof {
                            assert(callback_effect(cb, mid, this, args@, *self, Ok::<usize, Error>(u.0.raw)));
                        }
                        Ok(u.0.raw)
                    },
                    Err(e) => {
                        proof {
                            assert(callback_effect(cb, mid, this, args@, *self, Err::<usize, Error>(e)));
                        }
                        Err(e)
                    },
                }
            },
            NativeCallback::AddCount => {
                if !is_object_kind_exec(self, this) {
                    let e = Error::new(Status::ObjectExpected, String::from_str("receiver is not an object"));
                    proof {
                        assert(callback_effect(cb, mid, this, args@, *self, Err::<usize, Error>(e)));
                    }
                    return Err(e);
                }
                let ctx = CallContext { this, args: copy_raws(args) };
                let r0 = add_count(self, &ctx);
                match r0 {
                    Ok(u) => {
                        proof {
                            assert(callback_effect(cb, mid, this, args@, *self, Ok::<usize, Error>(u.0.raw)));
                        }
                        Ok(u.0.raw)
                    },
                    Err(e) => {
                        proof {
                            assert(callback_effect(cb, mid, this, args@, *self, Err::<usize, Error>(e)));
                        }
                        Err(e)
                    },
                }
            },
            NativeCallback::CreateTestClass => {
                let ctx = CallContext { this, args: copy_raws(args) };
                let r0 = create_test_class(self, &ctx);
                match r0 {
                    Ok(f) => {
                        proof {
                            assert(callback_effect(cb, mid, this, args@, *self, Ok::<usize, Error>(f.0.raw)));
                        }
                        Ok(f.0.raw)
                    },
                    Err(e) => {
                        proof {
                            assert(callback_effect(cb, mid, this, args@, *self, Err::<usize, Error>(e)));
                        }
                        Err(e)
                    },
                }
            },
        }
    }
}


/// Seeding one instance: a fresh object tagged with its constructor and
/// carrying a copy of the class's method table, before the constructor
/// itself runs.
pub open spec fn instance_seeded(pre: Env, post: Env, constructor: usize) -> bool {
    &&& post.slots@.len() == pre.slots@.len() + 1
    &&& Env::extends(pre, post)
    &&& post.pending_exception == pre.pending_exception
    &&& post.slot(pre.slots.len()) matches EngineValue::Object { properties, born_of }
        && born_of == Some(constructor)
        && properties@.len() == pre.slot(constructor)->Function_methods@.len()
        && (forall|i: int| 0 <= i < properties@.len()
            ==> (#[trigger] properties@[i]).0@ == pre.slot(constructor)->Function_methods@[i].0@
                && properties@[i].1 == pre.slot(constructor)->Function_methods@[i].1)
}

impl Env {
    /// Instantiates `constructor`: allocates the instance — tagged with its
    /// constructor, carrying the class's method table — then runs the
    /// constructor on it through the invocation bridge. The instance
    /// remains an object born of `constructor`, whatever the constructor
    /// itself did.
    pub fn new_instance(&mut self, constructor: usize, args: &Vec<usize>) -> (r: Result<JsObject, Error>)
        requires
            old(self).wf(),
            old(self).has_slot(constructor),
            forall|i: int| 0 <= i < args@.len() ==> old(self).has_slot(#[trigger] args@[i]),
        ensures
            final(self).wf(),
            !(old(self).slot(constructor) is Function) ==> (r matches Err(e)
                && e.status == Status::InvalidArgument && e.exception is None
                && *final(self) == *old(self)),
            old(self).slot(constructor) is Function && !old(self).exception_clear()
                ==> (r matches Err(e) && e.status == Status::PendingException
                    && e.exception is None && *final(self) == *old(self)),
            old(self).slot(constructor) is Function && old(self).exception_clear() ==> {
                let obj = old(self).slots.len();
                &&& final(self).slots@.len() > old(self).slots@.len()
                &&& forall|i: int| 0 <= i < old(self).slots@.len() && i != constructor
                    ==> final(self).slots@[i] == old(self).slots@[i]
                &&& final(self).slot(obj) is Object
                &&& final(self).slot(obj)->Object_born_of == Some(constructor)
                &&& (r matches Ok(h) ==> h.0.raw == obj && h.valid(final(self)))
                &&& exists|mid: Env| #[trigger] instance_seeded(*old(self), mid, constructor)
                    && (exists|r2: Result<usize, Error>|
                        invocation_post(mid, *final(self), constructor, obj, args@, r2)
                            && (r is Ok <==> r2 is Ok)
                            && (r matches Err(e) ==> r2 == Err::<usize, Error>(e)))
            },
    {
        if !matches!(&self.slots[constructor], EngineValue::Function { .. }) {
            return Err(Error::new(Status::InvalidArgument, String::from_str("constructor is not a function")));
        }
        if self.pending_exception.is_some() {
            return Err(Error::new(Status::PendingException, String::from_str("an exception is already in flight")));
        }
        let mut props: Vec<(String, usize)> = Vec::new();
        match &self.slots[constructor] {
            EngineValue::Function { methods, .. } => {
                let mut i: usize = 0;
                while i < methods.len()
                    invariant
                        i <= methods@.len(),
                        props@.len() == i,
                        forall|j: int| 0 <= j < i
                            ==> (#[trigger] props@[j]).0@ == methods@[j].0@
                                && props@[j].1 == methods@[j].1,
                    decreases methods@.len() - i,
                {
                    props.push((methods[i].0.clone(), methods[i].1));
                    i = i + 1;
                }
            },
            _ => {
                proof {
                    assert(false);
                }
            },
        }
        let obj = self.push_slot(EngineValue::Object { properties: props, born_of: Some(constructor) });
        let ghost mid = *self;
        proof {
            assert(instance_seeded(*old(self), mid, constructor));
        }
        let cr = self.call_function(constructor, obj, args);
        proof {
            let cb = mid.slot(constructor)->Function_callback;
            let midc = choose|m: Env|
                #[trigger] record_step(mid, m, constructor, obj, spec_arg_models(mid, args@))
                    && callback_effect(cb, m, obj, args@, *self, cr);
            assert(record_step(mid, midc, constructor, obj, spec_arg_models(mid, args@)));
            assert(self.slot(obj) is Object);
            assert(self.slot(obj)->Object_born_of == Some(constructor));
        }
        match cr {
            Ok(_) => Ok(JsObject(crate::values::Value { raw: obj, kind: crate::values::ValueType::Object })),
            Err(e) => Err(e),
        }
    }
}

/// Whether the value behind `raw` is of an object kind.
fn is_object_kind_exec(env: &Env, raw: usize) -> (r: bool)
    requires
        env.has_slot(raw),
    ensures
        r == crate::engine::is_object_kind(env.slot(raw)),
{
    match &env.slots[raw] {
        EngineValue::Undefined => false,
        EngineValue::Number(_) => false,
        EngineValue::Text(_) => false,
        _ => true,
    }
}

} // verus!
