//! The cross-thread invocation bridge: worker threads enqueue calls into
//! one script-visible function; the engine thread drains the queue between
//! turns of its own event loop.
//!
//! The bridge is a state machine: `Active` while callers hold permits,
//! `Released` once the last permit is given back (remaining queued calls
//! still drain), `Aborted` after immediate teardown (queued calls are
//! discarded). Queue mutation is serialized by the embedding interface; the
//! model here exposes the resulting sequential semantics, so the one point
//! where a concurrent `Blocking` caller would suspend on a full queue is
//! reported to the caller as the queue-full condition instead.

use vstd::prelude::*;

use crate::class::callback_effect;
use crate::engine::{record_step, spec_arg_models, EngineValue, Env, SnapModel};
use crate::function::JsFunction;
use crate::status::{Error, Status};
use crate::values::{JsUnknown, NapiValue};

verus! {

/// How an enqueue behaves when the queue is at capacity: `Blocking`
/// suspends the calling worker until space frees up or the bridge is
/// aborted; `NonBlocking` reports the full queue at once.
#[derive(Clone, Copy, Debug, PartialEq, Eq, Structural)]
pub enum ThreadsafeFunctionCallMode {
    Blocking,
    NonBlocking,
}

/// Two-phase teardown: `Release` gives back one caller permit, `Abort`
/// tears the bridge down immediately, discarding the queue.
#[derive(Clone, Copy, Debug, PartialEq, Eq, Structural)]
pub enum ThreadsafeFunctionReleaseMode {
    Release,
    Abort,
}

/// The lifecycle of one bridge.
#[derive(Clone, Copy, Debug, PartialEq, Eq, Structural)]
pub enum TsfnState {
    Active,
    Released,
    Aborted,
}

/// A transformer: converts one worker-produced payload into the handles a
/// single invocation receives, inside a fresh scope on the engine thread.
pub trait ToJs: Sized {
    type Output;

    /// Whether resolution succeeds on this payload.
    spec fn resolve_ok(&self, output: Self::Output) -> bool;

    /// The snapshot models of the handles resolution produces.
    spec fn args_model(&self, output: Self::Output) -> Seq<SnapModel>;

    /// Builds the invocation's handles from the payload, creating fresh
    /// engine values only.
    fn resolve(&self, env: &mut Env, output: Self::Output) -> (r: Result<Vec<JsUnknown>, Error>)
        requires
            old(env).wf(),
        ensures
            final(env).wf(),
            Env::extends(*old(env), *final(env)),
            final(env).pending_exception == old(env).pending_exception,
            r is Ok <==> self.resolve_ok(output),
            r matches Ok(hs) ==> {
                &&& forall|i: int| 0 <= i < hs@.len()
                    ==> final(env).has_slot((#[trigger] hs@[i]).0.raw)
                &&& spec_arg_models(*final(env), hs@.map_values(|h: JsUnknown| h.0.raw))
                    == self.args_model(output)
            },
    ;
}

/// How many items at the head of the queue would be delivered as
/// invocations before the drain first throws (an error item, or a payload
/// the transformer rejects) — the whole queue, if none does.
pub open spec fn spec_deliverable<T: ToJs>(to_js: T, items: Seq<Result<T::Output, Error>>) -> int
    decreases items.len(),
{
    if items.len() == 0 {
        0
    } else {
        match items[0] {
            Ok(p) => if to_js.resolve_ok(p) {
                1 + spec_deliverable(to_js, items.drop_first())
            } else {
                0
            },
            Err(_) => 0,
        }
    }
}

/// The argument models of the invocations the deliverable prefix produces,
/// in submission order.
pub open spec fn spec_delivered_models<T: ToJs>(to_js: T, items: Seq<Result<T::Output, Error>>) -> Seq<Seq<SnapModel>>
    decreases items.len(),
{
    if items.len() == 0 {
        Seq::empty()
    } else {
        match items[0] {
            Ok(p) => if to_js.resolve_ok(p) {
                seq![to_js.args_model(p)] + spec_delivered_models(to_js, items.drop_first())
            } else {
                Seq::empty()
            },
            Err(_) => Seq::empty(),
        }
    }
}

/// The deliverable prefix is a prefix: never negative, never past the end,
/// and it yields exactly one invocation per deliverable item.
pub proof fn lemma_deliverable_bounds<T: ToJs>(to_js: T, items: Seq<Result<T::Output, Error>>)
    ensures
        0 <= spec_deliverable(to_js, items) <= items.len(),
        spec_delivered_models(to_js, items).len() == spec_deliverable(to_js, items),
    decreases items.len(),
{
    if items.len() == 0 {
    } else {
        lemma_deliverable_bounds(to_js, items.drop_first());
    }
}

/// Within the deliverable prefix, the invocation at position `i` carries
/// exactly the models of the payload submitted at position `i`: delivery
/// preserves submission order and coalesces nothing.
pub proof fn lemma_delivery_preserves_order<T: ToJs>(to_js: T, items: Seq<Result<T::Output, Error>>, i: int)
    requires
        0 <= i < spec_deliverable(to_js, items),
    ensures
        items[i] matches Ok(p) && to_js.resolve_ok(p)
            && spec_delivered_models(to_js, items)[i] == to_js.args_model(p),
    decreases i,
{
    lemma_deliverable_bounds(to_js, items);
    lemma_deliverable_bounds(to_js, items.drop_first());
    if i == 0 {
    } else {
        lemma_delivery_preserves_order(to_js, items.drop_first(), i - 1);
        assert(items.drop_first()[i - 1] == items[i]);
    }
}

/// A queue of payloads the transformer accepts throughout — no error
/// items — is deliverable in full: draining it invokes the wrapped
/// function exactly once per submitted item.
pub proof fn lemma_all_payloads_deliver<T: ToJs>(to_js: T, items: Seq<Result<T::Output, Error>>)
    requires
        forall|i: int| 0 <= i < items.len()
            ==> ((#[trigger] items[i]) matches Ok(p) && to_js.resolve_ok(p)),
    ensures
        spec_deliverable(to_js, items) == items.len(),
    decreases items.len(),
{
    if items.len() == 0 {
    } else {
        assert(items[0] is Ok);
        assert forall|i: int| 0 <= i < items.drop_first().len()
            implies ((#[trigger] items.drop_first()[i]) matches Ok(p) && to_js.resolve_ok(p)) by {
            assert(items.drop_first()[i] == items[i + 1]);
        }
        lemma_all_payloads_deliver(to_js, items.drop_first());
    }
}

/// Throwing one error as an engine exception: one fresh error object,
/// marked pending; everything older is untouched.
pub open spec fn drain_threw(pre: Env, post: Env, message: Seq<char>) -> bool {
    &&& post.slots@.len() == pre.slots@.len() + 1
    &&& Env::extends(pre, post)
    &&& post.slot(pre.slots.len()) matches EngineValue::ErrorObject { message: m } && m@ == message
    &&& post.pending_exception == Some(pre.slots.len())
}

/// The cross-thread-safe wrapper around one script-visible function: the
/// wrapped function's raw handle, the transformer, the caller permits, the
/// queue bound (zero meaning unbounded), the lifecycle state, and the call
/// queue.
#[derive(Debug)]
pub struct ThreadsafeFunction<T: ToJs> {
    pub func: usize,
    pub to_js: T,
    pub thread_count: usize,
    pub max_queue_size: usize,
    pub state: TsfnState,
    pub queue: Vec<Result<T::Output, Error>>,
}

impl<T: ToJs> ThreadsafeFunction<T> {
    /// The wrapped handle refers to a live script-visible function.
    pub open spec fn wf(&self, env: Env) -> bool {
        &&& env.has_slot(self.func)
        &&& env.slot(self.func) is Function
    }

    /// Calls are currently accepted.
    pub open spec fn accepting(&self) -> bool {
        self.state is Active
    }

    /// The queue is bounded and at capacity.
    pub open spec fn queue_full(&self) -> bool {
        self.max_queue_size != 0 && self.queue@.len() >= self.max_queue_size
    }

    /// Everything but the queue and the lifecycle fields is as in `other`.
    pub open spec fn same_target(&self, other: &Self) -> bool {
        &&& self.func == other.func
        &&& self.to_js == other.to_js
        &&& self.max_queue_size == other.max_queue_size
    }

    /// Released and fully drained: the bridge's work is over and it is
    /// ready to be destroyed.
    pub fn is_done(&self) -> (r: bool)
        ensures
            r == (self.state is Released && self.queue@.len() == 0),
    {
        matches!(self.state, TsfnState::Released) && self.queue.len() == 0
    }

    /// Creates a bridge over `func` in the `Active` state with the given
    /// caller-permit count (zero, by convention, meaning the callers manage
    /// themselves) and an unbounded queue. Must run on the engine thread.
    pub fn create(env: &Env, func: &JsFunction, to_js: T, initial_thread_count: usize) -> (r: Result<Self, Error>)
        requires
            env.wf(),
            func.valid(env),
        ensures
            r matches Ok(t) && t.func == func.0.raw && t.to_js == to_js
                && t.thread_count == initial_thread_count && t.max_queue_size == 0
                && t.state is Active && t.queue@.len() == 0 && t.wf(*env),
    {
        Ok(ThreadsafeFunction {
            func: func.0.raw,
            to_js,
            thread_count: initial_thread_count,
            max_queue_size: 0,
            state: TsfnState::Active,
            queue: Vec::new(),
        })
    }

    /// As `create`, with a bounded queue: once `max_queue_size` items are
    /// waiting, further calls meet the queue-full condition.
    pub fn create_with_queue_limit(env: &Env, func: &JsFunction, to_js: T, max_queue_size: usize, initial_thread_count: usize) -> (r: Result<Self, Error>)
        requires
            env.wf(),
            func.valid(env),
        ensures
            r matches Ok(t) && t.func == func.0.raw && t.to_js == to_js
                && t.thread_count == initial_thread_count && t.max_queue_size == max_queue_size
                && t.state is Active && t.queue@.len() == 0 && t.wf(*env),
    {
        Ok(ThreadsafeFunction {
            func: func.0.raw,
            to_js,
            thread_count: initial_thread_count,
            max_queue_size,
            state: TsfnState::Active,
            queue: Vec::new(),
        })
    }

    /// Enqueues one payload (or error) for delivery, callable from any
    /// permitted thread. After release or abort the call fails with
    /// `Closed` and has no side effect; on a full queue it is not enqueued
    /// and the queue-full condition is reported (a concurrent `Blocking`
    /// caller would suspend here instead, retrying until space or abort —
    /// the sequential model hands that retry loop to the caller). The
    /// caller learns only whether enqueueing succeeded, never how the
    /// eventual invocation fared.
    pub fn call(&mut self, value: Result<T::Output, Error>, mode: ThreadsafeFunctionCallMode) -> (s: Status)
        ensures
            !old(self).accepting() ==> s == Status::Closed && *final(self) == *old(self),
            old(self).accepting() && old(self).queue_full() ==> s == Status::QueueFull
                && *final(self) == *old(self),
            old(self).accepting() && !old(self).queue_full() ==> s == Status::Success
                && final(self).queue@ == old(self).queue@.push(value)
                && final(self).state == old(self).state
                && final(self).thread_count == old(self).thread_count
                && final(self).same_target(old(self)),
    {
        let _ = mode;
        if !matches!(self.state, TsfnState::Active) {
            return Status::Closed;
        }
        if self.max_queue_size != 0 && self.queue.len() >= self.max_queue_size {
            return Status::QueueFull;
        }
        self.queue.push(value);
        Status::Success
    }

    /// Gives back one caller permit (`Release`) or tears the bridge down at
    /// once (`Abort`). Releasing the last permit moves the bridge to
    /// `Released`: already-queued items still drain, new calls are
    /// rejected. Aborting discards every queued item, so none of them ever
    /// invokes the function; aborting again changes nothing. The permit
    /// count never goes below zero.
    pub fn release(&mut self, mode: ThreadsafeFunctionReleaseMode) -> (s: Status)
        ensures
            mode is Abort ==> s == Status::Success
                && final(self).state is Aborted && final(self).queue@.len() == 0
                && final(self).thread_count == 0
                && final(self).same_target(old(self)),
            mode is Release && !old(self).accepting() ==> s == Status::Closed
                && *final(self) == *old(self),
            mode is Release && old(self).accepting() ==> s == Status::Success
                && final(self).queue@ == old(self).queue@
                && final(self).same_target(old(self))
                && final(self).thread_count == (if old(self).thread_count <= 1 { 0int } else {
                    old(self).thread_count - 1
                })
                && final(self).state == (if old(self).thread_count <= 1 { TsfnState::Released } else {
                    TsfnState::Active
                }),
    {
        match mode {
            ThreadsafeFunctionReleaseMode::Abort => {
                self.state = TsfnState::Aborted;
                self.thread_count = 0;
                self.queue.clear();
                Status::Success
            },
            ThreadsafeFunctionReleaseMode::Release => {
                if !matches!(self.state, TsfnState::Active) {
                    return Status::Closed;
                }
                if self.thread_count <= 1 {
                    self.thread_count = 0;
                    self.state = TsfnState::Released;
                } else {
                    self.thread_count = self.thread_count - 1;
                }
                Status::Success
            },
        }
    }

    /// Immediate teardown: discards every queued item.
    pub fn abort(&mut self) -> (s: Status)
        ensures
            s == Status::Success,
            final(self).state is Aborted,
            final(self).queue@.len() == 0,
            final(self).thread_count == 0,
            final(self).same_target(old(self)),
    {
        self.release(ThreadsafeFunctionReleaseMode::Abort)
    }

    /// One drain step on the engine thread. Does nothing after abort, on an
    /// empty queue, or while an exception is pending. Otherwise it takes
    /// the head item and, in a fresh scope: a payload the transformer
    /// accepts becomes one invocation of the wrapped function (receiver
    /// `undefined`), after which the scope is torn down so none of the
    /// transformer's handles survive; an error item (or a rejected payload)
    /// becomes a thrown engine exception and no invocation.
    pub fn drain_one(&mut self, env: &mut Env) -> (stepped: bool)
        requires
            old(self).wf(*old(env)),
            old(env).wf(),
        ensures
            final(env).wf(),
            final(self).wf(*final(env)),
            final(self).state == old(self).state,
            final(self).thread_count == old(self).thread_count,
            final(self).same_target(old(self)),
            (old(self).state is Aborted || old(self).queue@.len() == 0
                || !old(env).exception_clear()) ==> !stepped
                && *final(self) == *old(self) && *final(env) == *old(env),
            !(old(self).state is Aborted || old(self).queue@.len() == 0
                || !old(env).exception_clear()) ==> {
                &&& stepped
                &&& final(self).queue@ == old(self).queue@.drop_first()
                &&& (old(self).queue@[0] matches Ok(p) ==> {
                    &&& (old(self).to_js.resolve_ok(p) ==> record_step(*old(env), *final(env),
                        old(self).func, 0, old(self).to_js.args_model(p)))
                    &&& (!old(self).to_js.resolve_ok(p) ==> {
                        &&& final(env).slots@.len() == old(env).slots@.len() + 1
                        &&& Env::extends(*old(env), *final(env))
                        &&& final(env).slot(old(env).slots.len()) is ErrorObject
                        &&& final(env).pending_exception == Some(old(env).slots.len())
                    })
                })
                &&& (old(self).queue@[0] matches Err(e)
                    ==> drain_threw(*old(env), *final(env), e.reason@))
            },
    {
        if matches!(self.state, TsfnState::Aborted) {
            return false;
        }
        if self.queue.len() == 0 {
            return false;
        }
        if env.is_exception_pending() {
            return false;
        }
        let item = self.queue.remove(0);
        proof {
            assert(self.queue@ =~= old(self).queue@.drop_first());
        }
        let mark = env.slots.len();
        match item {
            Ok(payload) => {
                let ghost g_payload = payload;
                let resolved = self.to_js.resolve(env, payload);
                match resolved {
                    Ok(handles) => {
                        let ghost e1 = *env;
                        let mut raws: Vec<usize> = Vec::new();
                        let mut i: usize = 0;
                        while i < handles.len()
                            invariant
                                i <= handles@.len(),
                                raws@ =~= handles@.subrange(0, i as int).map_values(|h: JsUnknown| h.0.raw),
                                forall|j: int| 0 <= j < handles@.len()
                                    ==> e1.has_slot((#[trigger] handles@[j]).0.raw),
                                *env == e1,
                            decreases handles@.len() - i,
                        {
                            raws.push(handles[i].raw_value());
                            proof {
                                assert(raws@ =~= handles@.subrange(0, i + 1).map_values(
                                    |h: JsUnknown| h.0.raw,
                                ));
                            }
                            i = i + 1;
                        }
                        proof {
                            assert(raws@ =~= handles@.map_values(|h: JsUnknown| h.0.raw));
                        }
                        let cr = env.call_function(self.func, 0, &raws);
                        let _ = cr;
                        proof {
                            let e2 = *env;
                            let mid = choose|mid: Env|
                                #[trigger] record_step(e1, mid, old(self).func, 0,
                                    spec_arg_models(e1, raws@))
                                    && callback_effect(e1.slot(old(self).func)->Function_callback,
                                        mid, 0, raws@, e2, (match cr {
                                        Ok(v) => Ok(v),
                                        Err(e) => Err(e),
                                    }));
                            assert(record_step(e1, mid, old(self).func, 0, spec_arg_models(e1, raws@)));
                            assert(e2.slots@.len() >= mark);
                            assert(e2.pending_exception is None);
                        }
                        env.close_scope(mark);
                        proof {
                            assert(record_step(*old(env), *env, old(self).func, 0,
                                old(self).to_js.args_model(g_payload)));
                        }
                        true
                    },
                    Err(e2) => {
                        env.close_scope(mark);
                        let thrown = env.throw(e2);
                        let _ = thrown;
                        true
                    },
                }
            },
            Err(e) => {
                let thrown = env.throw(e);
                let _ = thrown;
                true
            },
        }
    }

    /// Drains cooperatively until the queue is empty, the bridge is
    /// aborted, or a thrown exception stops the engine thread; returns how
    /// many items came off the queue. Each deliverable item becomes
    /// exactly one invocation of the wrapped function, in submission
    /// order; the first faulting item, if reached, is thrown and the rest
    /// of the queue stays put.
    pub fn drain(&mut self, env: &mut Env) -> (n: usize)
        requires
            old(self).wf(*old(env)),
            old(env).wf(),
        ensures
            final(env).wf(),
            final(self).wf(*final(env)),
            final(self).state == old(self).state,
            final(self).thread_count == old(self).thread_count,
            final(self).same_target(old(self)),
            (old(self).state is Aborted || !old(env).exception_clear()) ==> n == 0
                && *final(self) == *old(self) && *final(env) == *old(env),
            !(old(self).state is Aborted || !old(env).exception_clear()) ==> {
                let items = old(self).queue@;
                let k = spec_deliverable(old(self).to_js, items);
                let count0 = old(env).slot(old(self).func)->Function_calls@.len();
                &&& (k == items.len() ==> {
                    &&& n == k
                    &&& final(self).queue@.len() == 0
                    &&& final(env).slots@.len() == old(env).slots@.len()
                    &&& final(env).pending_exception == old(env).pending_exception
                    &&& forall|i: int| 0 <= i < old(env).slots@.len() && i != old(self).func
                        ==> final(env).slots@[i] == old(env).slots@[i]
                })
                &&& (k < items.len() ==> {
                    &&& n == k + 1
                    &&& final(self).queue@ == items.skip(k + 1)
                    &&& final(env).slots@.len() == old(env).slots@.len() + 1
                    &&& !final(env).exception_clear()
                    &&& final(env).pending_exception == Some(old(env).slots.len())
                    &&& final(env).slot(old(env).slots.len()) is ErrorObject
                    &&& forall|i: int| 0 <= i < old(env).slots@.len() && i != old(self).func
                        ==> final(env).slots@[i] == old(env).slots@[i]
                    &&& (items[k as int] matches Err(e)
                        ==> final(env).slot(old(env).slots.len())->ErrorObject_message@ == e.reason@)
                })
                &&& final(env).slot(old(self).func) is Function
                &&& final(env).slot(old(self).func)->Function_callback
                    == old(env).slot(old(self).func)->Function_callback
                &&& final(env).slot(old(self).func)->Function_calls@.len() == count0 + k
                &&& forall|i: int| 0 <= i < count0
                    ==> final(env).slot(old(self).func)->Function_calls@[i]
                        == old(env).slot(old(self).func)->Function_calls@[i]
                &&& forall|i: int| 0 <= i < k ==> {
                    let rec = #[trigger] final(env).slot(old(self).func)->Function_calls@[count0 + i];
                    crate::engine::record_model(rec)
                        == spec_delivered_models(old(self).to_js, items)[i]
                        && rec.this == 0
                }
            },
    {
        if matches!(self.state, TsfnState::Aborted) {
            return 0;
        }
        if env.is_exception_pending() {
            return 0;
        }
        let ghost items = old(self).queue@;
        let ghost g_to_js = old(self).to_js;
        let ghost k = spec_deliverable(g_to_js, items);
        let ghost func = old(self).func;
        let ghost count0 = old(env).slot(func)->Function_calls@.len();
        proof {
            lemma_deliverable_bounds(g_to_js, items);
            assert(items.skip(0) =~= items);
            assert(items.len() == old(self).queue.len());
        }
        let mut n: usize = 0;
        loop
            invariant
                env.wf(),
                self.wf(*env),
                old(self).wf(*old(env)),
                old(env).wf(),
                items == old(self).queue@,
                g_to_js == old(self).to_js,
                k == spec_deliverable(g_to_js, items),
                func == old(self).func,
                count0 == old(env).slot(func)->Function_calls@.len(),
                self.state == old(self).state,
                self.thread_count == old(self).thread_count,
                self.same_target(old(self)),
                self.func == func,
                self.to_js == g_to_js,
                !(old(self).state is Aborted),
                0 <= k <= items.len(),
                spec_delivered_models(g_to_js, items).len() == k,
                n <= items.len(),
                env.slot(func) is Function,
                env.slot(func)->Function_callback == old(env).slot(func)->Function_callback,
                forall|i: int| 0 <= i < count0
                    ==> env.slot(func)->Function_calls@[i]
                        == old(env).slot(func)->Function_calls@[i],
                env.exception_clear() ==> {
                    &&& n <= k
                    &&& self.queue@ == items.skip(n as int)
                    &&& spec_deliverable(g_to_js, items.skip(n as int)) == k - n
                    &&& env.slots@.len() == old(env).slots@.len()
                    &&& env.pending_exception == old(env).pending_exception
                    &&& forall|i: int| 0 <= i < old(env).slots@.len() && i != func
                        ==> env.slots@[i] == old(env).slots@[i]
                    &&& env.slot(func)->Function_calls@.len() == count0 + n
                },
                !env.exception_clear() ==> {
                    &&& n == k + 1
                    &&& self.queue@ == items.skip(n as int)
                    &&& env.slots@.len() == old(env).slots@.len() + 1
                    &&& env.pending_exception == Some(old(env).slots.len())
                    &&& env.slot(old(env).slots.len()) is ErrorObject
                    &&& forall|i: int| 0 <= i < old(env).slots@.len() && i != func
                        ==> env.slots@[i] == old(env).slots@[i]
                    &&& (items[k as int] matches Err(e)
                        ==> env.slot(old(env).slots.len())->ErrorObject_message@ == e.reason@)
                    &&& env.slot(func)->Function_calls@.len() == count0 + k
                },
                forall|i: int| 0 <= i < env.slot(func)->Function_calls@.len() - count0 ==> {
                    let rec = #[trigger] env.slot(func)->Function_calls@[count0 + i];
                    crate::engine::record_model(rec)
                        == spec_delivered_models(g_to_js, items)[i]
                        && rec.this == 0
                },
                items.len() <= usize::MAX,
            ensures
                env.exception_clear() ==> n == k && self.queue@.len() == 0,
                !env.exception_clear() ==> n == k + 1 && k < items.len(),
            decreases self.queue@.len(),
        {
            let ghost n0 = n as int;
            let ghost env0 = *env;
            let ghost queue0 = self.queue@;
            let stepped = self.drain_one(env);
            if !stepped {
                proof {
                    if env.exception_clear() {
                        assert(self.queue@.len() == 0);
                        assert(items.skip(n0).len() == 0);
                        assert(n0 == items.len());
                        assert(n0 == k);
                    }
                }
                break;
            }
            proof {
                assert(env0.exception_clear());
                assert(queue0 == items.skip(n0));
                assert(queue0.len() > 0);
                assert(n0 < items.len());
                let head = queue0[0];
                assert(items.skip(n0)[0] == head);
                assert(self.queue@ =~= items.skip(n0 + 1));
                match head {
                    Ok(p) => {
                        if g_to_js.resolve_ok(p) {
                            assert(spec_deliverable(g_to_js, items.skip(n0)) ==
                                1 + spec_deliverable(g_to_js, items.skip(n0).drop_first()));
                            assert(items.skip(n0).drop_first() =~= items.skip(n0 + 1));
                            lemma_deliverable_bounds(g_to_js, items.skip(n0).drop_first());
                            assert(n0 < k);
                            lemma_delivery_preserves_order(g_to_js, items, n0);
                            assert(items[n0] == head);
                            assert(record_step(env0, *env, func, 0, g_to_js.args_model(p)));
                            assert(env.slot(func)->Function_calls@.last()
                                == env.slot(func)->Function_calls@[count0 + n0]);
                        } else {
                            assert(spec_deliverable(g_to_js, items.skip(n0)) == 0);
                            assert(k == n0);
                            assert(items[k as int] == head);
                        }
                    },
                    Err(e) => {
                        assert(spec_deliverable(g_to_js, items.skip(n0)) == 0);
                        assert(k == n0);
                        assert(items[k as int] == head);
                        assert(drain_threw(env0, *env, e.reason@));
                    },
                }
            }
            n = n + 1;
            proof {
                if env.exception_clear() {
                    assert(items.skip(n0).drop_first() =~= items.skip(n as int));
                }
            }
        }
        n
    }
}

} // verus!
