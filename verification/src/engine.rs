//! The engine-thread execution context.
//!
//! The host engine owns every script-visible value; native code reaches them
//! only through raw handles mediated by the per-engine-thread `Env`. This
//! module models that engine as explicit data: a slot store of engine values
//! indexed by raw handles, plus the at-most-one pending exception. Every
//! operation of the embedding interface that the rest of the crate relies on
//! is an `Env` method with an exact contract.

use vstd::prelude::*;
use vstd::string::StringExecFns;

use crate::status::{Error, Status};
use crate::values::{JsNumber, JsObject, JsString, JsUndefined, JsUnknown, ValueType, Value};

verus! {

broadcast use vstd::string::group_string_axioms;

/// The native callbacks a script-visible function slot can dispatch to.
///
/// `Recorder` stands for a plain script function: invoking it only records
/// the call. The other variants are the native methods this crate registers.
#[derive(Clone, Copy, Debug, PartialEq, Eq, Structural)]
pub enum NativeCallback {
    Recorder,
    TestClassConstructor,
    AddCount,
    CreateTestClass,
}

/// What one argument of a recorded invocation looked like at call time:
/// numbers and buffer contents are kept, every other kind is opaque.
#[derive(Debug, PartialEq, Eq)]
pub enum ArgSnapshot {
    Num(i64),
    Bytes(Vec<u8>),
    Other,
}

/// The mathematical form of an `ArgSnapshot`.
pub enum SnapModel {
    Num(i64),
    Bytes(Seq<u8>),
    Other,
}

/// The model of an executable snapshot.
pub open spec fn snap_model(s: ArgSnapshot) -> SnapModel {
    match s {
        ArgSnapshot::Num(n) => SnapModel::Num(n),
        ArgSnapshot::Bytes(b) => SnapModel::Bytes(b@),
        ArgSnapshot::Other => SnapModel::Other,
    }
}

/// The snapshot model an engine value presents to a recorded invocation.
pub open spec fn value_model(v: EngineValue) -> SnapModel {
    match v {
        EngineValue::Number(n) => SnapModel::Num(n),
        EngineValue::Buffer(b) => SnapModel::Bytes(b@),
        _ => SnapModel::Other,
    }
}

/// One recorded invocation of a script-visible function: the receiver's raw
/// handle and a snapshot of each argument, in call order.
#[derive(Debug)]
pub struct CallRecord {
    pub this: usize,
    pub args: Vec<ArgSnapshot>,
}

/// The models of a record's arguments, in call order.
pub open spec fn record_model(r: CallRecord) -> Seq<SnapModel> {
    r.args@.map_values(|s: ArgSnapshot| snap_model(s))
}

/// A script-visible value as the engine owns it.
#[derive(Debug)]
pub enum EngineValue {
    Undefined,
    Number(i64),
    Text(String),
    Object { properties: Vec<(String, usize)>, born_of: Option<usize> },
    ArrayObj(Vec<usize>),
    Buffer(Vec<u8>),
    DataView(Vec<u8>),
    Date(i64),
    Function { callback: NativeCallback, methods: Vec<(String, usize)>, calls: Vec<CallRecord> },
    ErrorObject { message: String },
}

/// Kinds that behave as objects on the script side.
pub open spec fn is_object_kind(v: EngineValue) -> bool {
    ||| v is Object
    ||| v is ArrayObj
    ||| v is Buffer
    ||| v is DataView
    ||| v is Date
    ||| v is Function
    ||| v is ErrorObject
}

/// The integral value a kind coerces to, when it has one.
pub open spec fn spec_num_coercion(v: EngineValue) -> Option<i64> {
    match v {
        EngineValue::Number(n) => Some(n),
        EngineValue::Date(d) => Some(d),
        _ => None,
    }
}

/// The decimal digits of a natural number, most significant first.
pub open spec fn spec_dec_nat(n: nat) -> Seq<char>
    decreases n,
{
    if n < 10 {
        seq![spec_digit_char(n as int)]
    } else {
        spec_dec_nat(n / 10).push(spec_digit_char((n % 10) as int))
    }
}

/// The digit character for a value below ten.
pub open spec fn spec_digit_char(d: int) -> char {
    if d == 0 { '0' }
    else if d == 1 { '1' }
    else if d == 2 { '2' }
    else if d == 3 { '3' }
    else if d == 4 { '4' }
    else if d == 5 { '5' }
    else if d == 6 { '6' }
    else if d == 7 { '7' }
    else if d == 8 { '8' }
    else { '9' }
}

/// The decimal rendering of a signed value.
pub open spec fn spec_dec_i64(n: i64) -> Seq<char> {
    if n < 0 {
        "-"@ + spec_dec_nat((-(n as int)) as nat)
    } else {
        spec_dec_nat(n as nat)
    }
}

/// The text every kind coerces to in this model engine: primitives render
/// themselves, dates render their epoch milliseconds, errors render their
/// message, and other object kinds render opaquely.
pub open spec fn spec_string_form(v: EngineValue) -> Seq<char> {
    match v {
        EngineValue::Undefined => "undefined"@,
        EngineValue::Number(n) => spec_dec_i64(n),
        EngineValue::Text(s) => s@,
        EngineValue::Date(d) => spec_dec_i64(d),
        EngineValue::ErrorObject { message } => message@,
        EngineValue::Function { .. } => "function"@,
        _ => "[object Object]"@,
    }
}

/// First-match lookup of a named property.
pub open spec fn spec_prop_lookup(props: Seq<(String, usize)>, name: Seq<char>) -> Option<usize>
    decreases props.len(),
{
    if props.len() == 0 {
        None
    } else if props[0].0@ == name {
        Some(props[0].1)
    } else {
        spec_prop_lookup(props.drop_first(), name)
    }
}

/// The single engine-thread execution context: the slot store of
/// engine-owned values, and the at-most-one exception in flight.
#[derive(Debug)]
pub struct Env {
    pub slots: Vec<EngineValue>,
    pub pending_exception: Option<usize>,
}

impl Env {
    /// Whether a raw handle refers to a live slot.
    pub open spec fn has_slot(self, raw: usize) -> bool {
        raw < self.slots@.len()
    }

    /// The engine value a raw handle refers to.
    pub open spec fn slot(self, raw: usize) -> EngineValue {
        self.slots@[raw as int]
    }

    /// No exception is in flight on the engine thread.
    pub open spec fn exception_clear(self) -> bool {
        self.pending_exception is None
    }

    /// The context's invariant: slot zero is the canonical `undefined`, and
    /// a pending exception always refers to a live error object.
    pub open spec fn wf(self) -> bool {
        &&& self.slots@.len() >= 1
        &&& self.slots@[0] is Undefined
        &&& match self.pending_exception {
            Some(r) => r < self.slots@.len() && self.slots@[r as int] is ErrorObject,
            None => true,
        }
    }

    /// Every slot of `pre` is unchanged in `post`; `post` may hold more.
    pub open spec fn extends(pre: Env, post: Env) -> bool {
        &&& pre.slots@.len() <= post.slots@.len()
        &&& forall|i: int| 0 <= i < pre.slots@.len() ==> post.slots@[i] == pre.slots@[i]
    }

    /// A fresh context, as the host runtime hands it to extension code
    /// before any extension code runs.
    pub fn new() -> (env: Env)
        ensures
            env.wf(),
            env.slots@.len() == 1,
            env.slots@[0] is Undefined,
            env.exception_clear(),
    {
        let mut slots: Vec<EngineValue> = Vec::new();
        slots.push(EngineValue::Undefined);
        Env { slots, pending_exception: None }
    }

    /// Appends a fresh engine value, returning its raw handle.
    pub(crate) fn push_slot(&mut self, v: EngineValue) -> (raw: usize)
        ensures
            final(self).slots@ == old(self).slots@.push(v),
            raw == old(self).slots@.len(),
            final(self).pending_exception == old(self).pending_exception,
    {
        let raw = self.slots.len();
        self.slots.push(v);
        raw
    }

    /// The engine's canonical `undefined` value. The engine always has it at
    /// hand, so the call is owed success.
    pub fn get_undefined(&self) -> (r: Result<JsUndefined, Error>)
        requires
            self.wf(),
        ensures
            r matches Ok(u) && u.0.raw == 0 && u.valid(self),
    {
        Ok(JsUndefined(Value { raw: 0, kind: ValueType::Undefined }))
    }

    /// Allocates a new engine number from a 32-bit signed value.
    pub fn create_int32(&mut self, value: i32) -> (r: Result<JsNumber, Error>)
        requires
            old(self).wf(),
        ensures
            final(self).wf(),
            final(self).slots@ == old(self).slots@.push(EngineValue::Number(value as i64)),
            final(self).pending_exception == old(self).pending_exception,
            r matches Ok(h) && h.0.raw == old(self).slots@.len() && h.valid(final(self)),
            r matches Ok(h) && h.spec_value(final(self)) == value as i64,
    {
        let raw = self.push_slot(EngineValue::Number(value as i64));
        Ok(JsNumber(Value { raw, kind: ValueType::Number }))
    }

    /// Allocates a new engine number from a 32-bit unsigned value.
    pub fn create_uint32(&mut self, value: u32) -> (r: Result<JsNumber, Error>)
        requires
            old(self).wf(),
        ensures
            final(self).wf(),
            final(self).slots@ == old(self).slots@.push(EngineValue::Number(value as i64)),
            final(self).pending_exception == old(self).pending_exception,
            r matches Ok(h) && h.0.raw == old(self).slots@.len() && h.valid(final(self)),
            r matches Ok(h) && h.spec_value(final(self)) == value as i64,
    {
        let raw = self.push_slot(EngineValue::Number(value as i64));
        Ok(JsNumber(Value { raw, kind: ValueType::Number }))
    }

    /// Allocates a new engine string holding the given text.
    pub fn create_string(&mut self, s: &str) -> (r: Result<JsString, Error>)
        requires
            old(self).wf(),
        ensures
            final(self).wf(),
            final(self).slots@.len() == old(self).slots@.len() + 1,
            Env::extends(*old(self), *final(self)),
            final(self).slot(old(self).slots@.len() as usize) matches EngineValue::Text(t) && t@ == s@,
            final(self).pending_exception == old(self).pending_exception,
            r matches Ok(h) && h.0.raw == old(self).slots@.len() && h.valid(final(self)),
    {
        let raw = self.push_slot(EngineValue::Text(s.to_owned()));
        Ok(JsString(Value { raw, kind: ValueType::Text }))
    }

    /// Allocates a new buffer owned by the engine, seeded with `data`.
    pub fn create_buffer_raw(&mut self, data: Vec<u8>) -> (r: Result<usize, Error>)
        requires
            old(self).wf(),
        ensures
            final(self).wf(),
            final(self).slots@ == old(self).slots@.push(EngineValue::Buffer(data)),
            final(self).pending_exception == old(self).pending_exception,
            r matches Ok(raw) && raw == old(self).slots@.len(),
    {
        Ok(self.push_slot(EngineValue::Buffer(data)))
    }

    /// Allocates a new engine date from epoch milliseconds.
    pub fn create_date(&mut self, ms: i64) -> (r: Result<usize, Error>)
        requires
            old(self).wf(),
        ensures
            final(self).wf(),
            final(self).slots@ == old(self).slots@.push(EngineValue::Date(ms)),
            final(self).pending_exception == old(self).pending_exception,
            r matches Ok(raw) && raw == old(self).slots@.len(),
    {
        Ok(self.push_slot(EngineValue::Date(ms)))
    }

    /// Allocates a new, empty engine array.
    pub fn create_array(&mut self) -> (r: Result<usize, Error>)
        requires
            old(self).wf(),
        ensures
            final(self).wf(),
            final(self).slots@.len() == old(self).slots@.len() + 1,
            Env::extends(*old(self), *final(self)),
            final(self).slot(old(self).slots@.len() as usize) matches EngineValue::ArrayObj(a) && a@.len() == 0,
            final(self).pending_exception == old(self).pending_exception,
            r matches Ok(raw) && raw == old(self).slots@.len(),
    {
        Ok(self.push_slot(EngineValue::ArrayObj(Vec::new())))
    }

    /// Allocates a new data view over the given bytes.
    pub fn create_dataview(&mut self, data: Vec<u8>) -> (r: Result<usize, Error>)
        requires
            old(self).wf(),
        ensures
            final(self).wf(),
            final(self).slots@ == old(self).slots@.push(EngineValue::DataView(data)),
            final(self).pending_exception == old(self).pending_exception,
            r matches Ok(raw) && raw == old(self).slots@.len(),
    {
        Ok(self.push_slot(EngineValue::DataView(data)))
    }

    /// Allocates a new, empty plain object.
    pub fn create_object(&mut self) -> (r: Result<JsObject, Error>)
        requires
            old(self).wf(),
        ensures
            final(self).wf(),
            final(self).slots@.len() == old(self).slots@.len() + 1,
            Env::extends(*old(self), *final(self)),
            final(self).slot(old(self).slots@.len() as usize) matches EngineValue::Object { properties, born_of }
                && properties@.len() == 0 && born_of is None,
            final(self).pending_exception == old(self).pending_exception,
            r matches Ok(h) && h.0.raw == old(self).slots@.len() && h.valid(final(self)),
    {
        let raw = self.push_slot(EngineValue::Object { properties: Vec::new(), born_of: None });
        Ok(JsObject(Value { raw, kind: ValueType::Object }))
    }

    /// Coerces the value behind `raw` to a number, allocating a fresh number
    /// slot; fails exactly when the kind has no integral form.
    pub fn coerce_to_number(&mut self, raw: usize) -> (r: Result<JsNumber, Error>)
        requires
            old(self).wf(),
            old(self).has_slot(raw),
        ensures
            final(self).wf(),
            r is Ok <==> spec_num_coercion(old(self).slot(raw)) is Some,
            spec_num_coercion(old(self).slot(raw)) matches Some(v) ==>
                final(self).slots@ == old(self).slots@.push(EngineValue::Number(v)),
            r matches Ok(h) ==> h.0.raw == old(self).slots@.len() && h.valid(final(self))
                && final(self).pending_exception == old(self).pending_exception,
            r matches Err(e) ==> *final(self) == *old(self) && e.status == Status::GenericFailure
                && e.exception is None,
    {
        let n: i64 = match &self.slots[raw] {
            EngineValue::Number(n) => *n,
            EngineValue::Date(d) => *d,
            _ => {
                return Err(Error::new(
                    Status::GenericFailure,
                    String::from_str("value has no numeric form"),
                ));
            },
        };
        let fresh = self.push_slot(EngineValue::Number(n));
        Ok(JsNumber(Value { raw: fresh, kind: ValueType::Number }))
    }

    /// Coerces the value behind `raw` to a string, allocating a fresh text
    /// slot holding its textual form. Every kind has one, so the call is
    /// owed success.
    pub fn coerce_to_string(&mut self, raw: usize) -> (r: Result<JsString, Error>)
        requires
            old(self).wf(),
            old(self).has_slot(raw),
        ensures
            final(self).wf(),
            final(self).slots@.len() == old(self).slots@.len() + 1,
            Env::extends(*old(self), *final(self)),
            final(self).pending_exception == old(self).pending_exception,
            final(self).slot(old(self).slots.len()) matches EngineValue::Text(t)
                && t@ == spec_string_form(old(self).slot(raw)),
            r matches Ok(h) && h.0.raw == old(self).slots@.len() && h.valid(final(self)),
    {
        let s: String = match &self.slots[raw] {
            EngineValue::Undefined => String::from_str("undefined"),
            EngineValue::Number(n) => dec_string_i64(*n),
            EngineValue::Text(t) => t.clone(),
            EngineValue::Date(d) => dec_string_i64(*d),
            EngineValue::ErrorObject { message } => message.clone(),
            EngineValue::Function { .. } => String::from_str("function"),
            _ => String::from_str("[object Object]"),
        };
        let fresh = self.push_slot(EngineValue::Text(s));
        Ok(JsString(Value { raw: fresh, kind: ValueType::Text }))
    }

    /// Coerces the value behind `raw` to an object. Object kinds coerce to
    /// themselves; numbers and strings get a fresh wrapper object; only
    /// `undefined` is rejected, with `ObjectExpected`.
    pub fn coerce_to_object(&mut self, raw: usize) -> (r: Result<JsObject, Error>)
        requires
            old(self).wf(),
            old(self).has_slot(raw),
        ensures
            final(self).wf(),
            old(self).slot(raw) is Undefined ==> (r matches Err(e)
                && e.status == Status::ObjectExpected && e.exception is None
                && *final(self) == *old(self)),
            is_object_kind(old(self).slot(raw)) ==> (r matches Ok(h)
                && h.0.raw == raw && *final(self) == *old(self) && h.valid(final(self))),
            old(self).slot(raw) is Number || old(self).slot(raw) is Text ==> {
                &&& final(self).slots@.len() == old(self).slots@.len() + 1
                &&& Env::extends(*old(self), *final(self))
                &&& final(self).pending_exception == old(self).pending_exception
                &&& final(self).slot(old(self).slots.len()) matches EngineValue::Object { properties, born_of }
                    && properties@.len() == 0 && born_of is None
                &&& r matches Ok(h) && h.0.raw == old(self).slots@.len() && h.valid(final(self))
            },
    {
        let tag: u8 = match &self.slots[raw] {
            EngineValue::Undefined => 0,
            EngineValue::Number(_) => 1,
            EngineValue::Text(_) => 1,
            _ => 2,
        };
        if tag == 0 {
            Err(Error::new(Status::ObjectExpected, String::from_str("undefined has no object form")))
        } else if tag == 1 {
            self.create_object()
        } else {
            Ok(JsObject(Value { raw, kind: ValueType::Object }))
        }
    }

    /// Whether the value behind `raw` is a date; a kind query never fails on
    /// a live handle.
    pub fn is_date(&self, raw: usize) -> (r: Result<bool, Error>)
        ensures
            r is Ok <==> self.has_slot(raw),
            r matches Ok(b) ==> b == (self.slot(raw) is Date),
            r matches Err(e) ==> e.status == Status::InvalidArgument && e.exception is None,
    {
        if raw < self.slots.len() {
            Ok(matches!(&self.slots[raw], EngineValue::Date(_)))
        } else {
            Err(Error::new(Status::InvalidArgument, String::from_str("dead handle")))
        }
    }

    /// Whether the value behind `raw` is an error object.
    pub fn is_error(&self, raw: usize) -> (r: Result<bool, Error>)
        ensures
            r is Ok <==> self.has_slot(raw),
            r matches Ok(b) ==> b == (self.slot(raw) is ErrorObject),
            r matches Err(e) ==> e.status == Status::InvalidArgument && e.exception is None,
    {
        if raw < self.slots.len() {
            Ok(matches!(&self.slots[raw], EngineValue::ErrorObject { .. }))
        } else {
            Err(Error::new(Status::InvalidArgument, String::from_str("dead handle")))
        }
    }

    /// Whether the value behind `raw` is a typed array; in this model engine
    /// buffers are the typed-array kind.
    pub fn is_typedarray(&self, raw: usize) -> (r: Result<bool, Error>)
        ensures
            r is Ok <==> self.has_slot(raw),
            r matches Ok(b) ==> b == (self.slot(raw) is Buffer),
            r matches Err(e) ==> e.status == Status::InvalidArgument && e.exception is None,
    {
        if raw < self.slots.len() {
            Ok(matches!(&self.slots[raw], EngineValue::Buffer(_)))
        } else {
            Err(Error::new(Status::InvalidArgument, String::from_str("dead handle")))
        }
    }

    /// Whether the value behind `raw` is a data view.
    pub fn is_dataview(&self, raw: usize) -> (r: Result<bool, Error>)
        ensures
            r is Ok <==> self.has_slot(raw),
            r matches Ok(b) ==> b == (self.slot(raw) is DataView),
            r matches Err(e) ==> e.status == Status::InvalidArgument && e.exception is None,
    {
        if raw < self.slots.len() {
            Ok(matches!(&self.slots[raw], EngineValue::DataView(_)))
        } else {
            Err(Error::new(Status::InvalidArgument, String::from_str("dead handle")))
        }
    }

    /// Whether the value behind `raw` is an array.
    pub fn is_array(&self, raw: usize) -> (r: Result<bool, Error>)
        ensures
            r is Ok <==> self.has_slot(raw),
            r matches Ok(b) ==> b == (self.slot(raw) is ArrayObj),
            r matches Err(e) ==> e.status == Status::InvalidArgument && e.exception is None,
    {
        if raw < self.slots.len() {
            Ok(matches!(&self.slots[raw], EngineValue::ArrayObj(_)))
        } else {
            Err(Error::new(Status::InvalidArgument, String::from_str("dead handle")))
        }
    }

    /// Whether the value behind `raw` is a buffer.
    pub fn is_buffer(&self, raw: usize) -> (r: Result<bool, Error>)
        ensures
            r is Ok <==> self.has_slot(raw),
            r matches Ok(b) ==> b == (self.slot(raw) is Buffer),
            r matches Err(e) ==> e.status == Status::InvalidArgument && e.exception is None,
    {
        if raw < self.slots.len() {
            Ok(matches!(&self.slots[raw], EngineValue::Buffer(_)))
        } else {
            Err(Error::new(Status::InvalidArgument, String::from_str("dead handle")))
        }
    }

    /// Whether the value behind `raw` was constructed by `constructor`.
    /// Returns `false`, without raising, for any live value that is not an
    /// instance; fails only when a handle is dead or the constructor is not
    /// a function.
    pub fn instance_of(&self, raw: usize, constructor: usize) -> (r: Result<bool, Error>)
        ensures
            r is Ok <==> self.has_slot(raw) && self.has_slot(constructor)
                && self.slot(constructor) is Function,
            r matches Ok(b) ==> b == (self.slot(raw) matches EngineValue::Object { born_of: Some(c), .. }
                && c == constructor),
            r matches Err(e) ==> e.status == Status::InvalidArgument && e.exception is None,
    {
        if raw >= self.slots.len() || constructor >= self.slots.len() {
            return Err(Error::new(Status::InvalidArgument, String::from_str("dead handle")));
        }
        if !matches!(&self.slots[constructor], EngineValue::Function { .. }) {
            return Err(Error::new(Status::InvalidArgument, String::from_str("constructor is not a function")));
        }
        match &self.slots[raw] {
            EngineValue::Object { born_of: Some(c), .. } => Ok(*c == constructor),
            _ => Ok(false),
        }
    }

    /// Raises `e` as an exception on the engine thread: materializes an
    /// error object and marks it pending. Fails if an exception is already
    /// in flight.
    pub fn throw(&mut self, e: Error) -> (r: Result<(), Error>)
        requires
            old(self).wf(),
        ensures
            final(self).wf(),
            old(self).exception_clear() ==> {
                &&& r is Ok
                &&& final(self).slots@.len() == old(self).slots@.len() + 1
                &&& Env::extends(*old(self), *final(self))
                &&& final(self).slot(old(self).slots.len()) matches EngineValue::ErrorObject { message }
                    && message@ == e.reason@
                &&& final(self).pending_exception == Some(old(self).slots.len())
            },
            !old(self).exception_clear() ==> (r matches Err(e2)
                && e2.status == Status::PendingException && e2.exception is None
                && *final(self) == *old(self)),
    {
        if self.pending_exception.is_some() {
            return Err(Error::new(Status::PendingException, String::from_str("an exception is already in flight")));
        }
        let raw = self.push_slot(EngineValue::ErrorObject { message: e.reason });
        self.pending_exception = Some(raw);
        Ok(())
    }

    /// Whether an exception is in flight on the engine thread.
    pub fn is_exception_pending(&self) -> (r: bool)
        ensures
            r == !self.exception_clear(),
    {
        self.pending_exception.is_some()
    }

    /// Takes the pending exception, if any, clearing it; the engine thread
    /// may then proceed with further calls.
    pub fn get_and_clear_last_exception(&mut self) -> (r: Option<JsUnknown>)
        requires
            old(self).wf(),
        ensures
            final(self).wf(),
            final(self).slots@ == old(self).slots@,
            final(self).exception_clear(),
            old(self).pending_exception matches Some(p) ==> r matches Some(h)
                && h.0.raw == p && h.valid(final(self)),
            old(self).pending_exception is None ==> r is None,
    {
        match self.pending_exception {
            Some(p) => {
                self.pending_exception = None;
                Some(JsUnknown(Value { raw: p, kind: ValueType::Unknown }))
            },
            None => None,
        }
    }
}

/// The raw handle a named property of `obj` resolves to: a missing
/// property reads as the canonical `undefined` at slot zero.
pub open spec fn spec_prop_or_undefined(env: Env, obj: usize, name: Seq<char>) -> usize {
    match spec_prop_lookup(env.slot(obj)->Object_properties@, name) {
        Some(p) => p,
        None => 0,
    }
}

/// `post` differs from `pre` exactly by one invocation record, with the
/// given receiver and argument models, appended to the function slot `func`.
pub open spec fn record_step(pre: Env, post: Env, func: usize, this: usize, models: Seq<SnapModel>) -> bool {
    &&& post.slots@.len() == pre.slots@.len()
    &&& post.pending_exception == pre.pending_exception
    &&& forall|i: int| 0 <= i < pre.slots@.len() && i != func ==> post.slots@[i] == pre.slots@[i]
    &&& pre.has_slot(func)
    &&& pre.slot(func) is Function
    &&& post.slot(func) is Function
    &&& post.slot(func)->Function_callback == pre.slot(func)->Function_callback
    &&& post.slot(func)->Function_methods@ == pre.slot(func)->Function_methods@
    &&& post.slot(func)->Function_calls@.len() == pre.slot(func)->Function_calls@.len() + 1
    &&& forall|i: int| 0 <= i < pre.slot(func)->Function_calls@.len()
        ==> post.slot(func)->Function_calls@[i] == pre.slot(func)->Function_calls@[i]
    &&& record_model(post.slot(func)->Function_calls@.last()) == models
    &&& post.slot(func)->Function_calls@.last().this == this
}

/// The snapshot models of the values behind a sequence of raw handles.
pub open spec fn spec_arg_models(env: Env, args: Seq<usize>) -> Seq<SnapModel> {
    args.map_values(|a: usize| value_model(env.slots@[a as int]))
}

/// A property found at index `i`, with no earlier match, is what lookup
/// returns.
proof fn lemma_prop_lookup_first(props: Seq<(String, usize)>, name: Seq<char>, i: int)
    requires
        0 <= i < props.len(),
        props[i].0@ == name,
        forall|j: int| 0 <= j < i ==> props[j].0@ != name,
    ensures
        spec_prop_lookup(props, name) == Some(props[i].1),
    decreases i,
{
    if i == 0 {
    } else {
        assert(props[0].0@ != name);
        assert forall|j: int| 0 <= j < i - 1 implies props.drop_first()[j].0@ != name by {
            assert(props.drop_first()[j] == props[j + 1]);
        }
        assert(props.drop_first()[i - 1] == props[i]);
        lemma_prop_lookup_first(props.drop_first(), name, i - 1);
    }
}

/// A name matched by no property is not found.
proof fn lemma_prop_lookup_absent(props: Seq<(String, usize)>, name: Seq<char>)
    requires
        forall|j: int| 0 <= j < props.len() ==> props[j].0@ != name,
    ensures
        spec_prop_lookup(props, name) is None,
    decreases props.len(),
{
    if props.len() == 0 {
    } else {
        assert forall|j: int| 0 <= j < props.drop_first().len() implies props.drop_first()[j].0@ != name by {
            assert(props.drop_first()[j] == props[j + 1]);
        }
        lemma_prop_lookup_absent(props.drop_first(), name);
    }
}

/// Replacing the property at `i` with one of the same name leaves every
/// other name's lookup unchanged.
proof fn lemma_prop_lookup_update_other(props: Seq<(String, usize)>, i: int, p: (String, usize), other: Seq<char>)
    requires
        0 <= i < props.len(),
        props[i].0@ == p.0@,
        other != p.0@,
    ensures
        spec_prop_lookup(props.update(i, p), other) == spec_prop_lookup(props, other),
    decreases props.len(),
{
    let u = props.update(i, p);
    if i == 0 {
        assert(u[0] == p);
        assert(u.drop_first() =~= props.drop_first());
    } else {
        assert(u[0] == props[0]);
        if props[0].0@ == other {
        } else {
            assert(u.drop_first() =~= props.drop_first().update(i - 1, p));
            lemma_prop_lookup_update_other(props.drop_first(), i - 1, p, other);
        }
    }
}

/// Appending a property leaves every other name's lookup unchanged.
proof fn lemma_prop_lookup_push_other(props: Seq<(String, usize)>, p: (String, usize), other: Seq<char>)
    requires
        other != p.0@,
    ensures
        spec_prop_lookup(props.push(p), other) == spec_prop_lookup(props, other),
    decreases props.len(),
{
    if props.len() == 0 {
        assert(props.push(p).len() == 1);
        assert(props.push(p)[0] == p);
        assert(props.push(p)[0].0@ != other);
        assert(props.push(p).drop_first() =~= props);
        assert(spec_prop_lookup(props.push(p).drop_first(), other) == spec_prop_lookup(props, other));
    } else {
        assert(props.push(p)[0] == props[0]);
        if props[0].0@ == other {
        } else {
            assert(props.push(p).drop_first() =~= props.drop_first().push(p));
            lemma_prop_lookup_push_other(props.drop_first(), p, other);
        }
    }
}

/// Finds the first property with the given name, if any.
fn prop_find(props: &Vec<(String, usize)>, name: &String) -> (r: Option<usize>)
    ensures
        r matches Some(i) ==> i < props@.len() && props@[i as int].0@ == name@
            && (forall|j: int| 0 <= j < i ==> props@[j].0@ != name@),
        r is None ==> forall|j: int| 0 <= j < props@.len() ==> props@[j].0@ != name@,
{
    let mut i: usize = 0;
    while i < props.len()
        invariant
            i <= props@.len(),
            forall|j: int| 0 <= j < i ==> props@[j].0@ != name@,
        decreases props@.len() - i,
    {
        if props[i].0 == *name {
            return Some(i);
        }
        i = i + 1;
    }
    None
}

/// Binds `name` to `value`, replacing an existing binding of that name and
/// leaving every other binding's lookup as it was.
fn set_prop(props: &mut Vec<(String, usize)>, name: String, value: usize)
    ensures
        spec_prop_lookup(final(props)@, name@) == Some(value),
        forall|other: Seq<char>| other != name@
            ==> spec_prop_lookup(final(props)@, other) == spec_prop_lookup(old(props)@, other),
{
    let ghost gname = name@;
    let found = prop_find(props, &name);
    match found {
        Some(i) => {
            props[i] = (name, value);
            proof {
                assert(props@ == old(props)@.update(i as int, props@[i as int]));
                lemma_prop_lookup_first(props@, gname, i as int);
                assert forall|other: Seq<char>| other != gname
                    implies spec_prop_lookup(props@, other) == spec_prop_lookup(old(props)@, other) by {
                    lemma_prop_lookup_update_other(old(props)@, i as int, props@[i as int], other);
                }
            }
        },
        None => {
            let ghost pre = props@;
            props.push((name, value));
            proof {
                assert forall|j: int| 0 <= j < pre.len() implies props@[j].0@ != gname by {
                    assert(props@[j] == pre[j]);
                }
                lemma_prop_lookup_first(props@, gname, pre.len() as int);
                assert forall|other: Seq<char>| other != gname
                    implies spec_prop_lookup(props@, other) == spec_prop_lookup(pre, other) by {
                    lemma_prop_lookup_push_other(pre, props@[pre.len() as int], other);
                }
            }
        },
    }
}

/// Copies a byte vector element by element.
pub fn copy_bytes(src: &Vec<u8>) -> (r: Vec<u8>)
    ensures
        r@ == src@,
{
    let mut out: Vec<u8> = Vec::new();
    let mut i: usize = 0;
    while i < src.len()
        invariant
            i <= src@.len(),
            out@ =~= src@.subrange(0, i as int),
        decreases src@.len() - i,
    {
        out.push(src[i]);
        i = i + 1;
    }
    proof {
        assert(out@ =~= src@);
    }
    out
}

/// The snapshot an engine value leaves in an invocation record.
fn snapshot_of(v: &EngineValue) -> (s: ArgSnapshot)
    ensures
        snap_model(s) == value_model(*v),
{
    match v {
        EngineValue::Number(n) => ArgSnapshot::Num(*n),
        EngineValue::Buffer(b) => ArgSnapshot::Bytes(copy_bytes(b)),
        _ => ArgSnapshot::Other,
    }
}

/// A fresh copy of a recorded snapshot, with the same model.
fn copy_snapshot(s: &ArgSnapshot) -> (r: ArgSnapshot)
    ensures
        snap_model(r) == snap_model(*s),
{
    match s {
        ArgSnapshot::Num(n) => ArgSnapshot::Num(*n),
        ArgSnapshot::Bytes(b) => ArgSnapshot::Bytes(copy_bytes(b)),
        ArgSnapshot::Other => ArgSnapshot::Other,
    }
}

/// Snapshots every argument of an invocation, in order.
pub(crate) fn snapshot_args(env: &Env, args: &Vec<usize>) -> (r: Vec<ArgSnapshot>)
    requires
        forall|i: int| 0 <= i < args@.len() ==> env.has_slot(#[trigger] args@[i]),
    ensures
        r@.map_values(|s: ArgSnapshot| snap_model(s)) == spec_arg_models(*env, args@),
{
    let mut out: Vec<ArgSnapshot> = Vec::new();
    let mut i: usize = 0;
    while i < args.len()
        invariant
            i <= args@.len(),
            out@.len() == i,
            forall|i2: int| 0 <= i2 < args@.len() ==> env.has_slot(#[trigger] args@[i2]),
            forall|j: int| 0 <= j < i ==> snap_model(#[trigger] out@[j]) == value_model(env.slots@[args@[j] as int]),
        decreases args@.len() - i,
    {
        let a = args[i];
        out.push(snapshot_of(&env.slots[a]));
        i = i + 1;
    }
    proof {
        assert(out@.map_values(|s: ArgSnapshot| snap_model(s)) =~= spec_arg_models(*env, args@));
    }
    out
}

impl Env {
    /// Binds a named property on a plain object; fails with
    /// `ObjectExpected` on any other kind, without effect.
    pub fn set_named_property_raw(&mut self, obj: usize, name: &str, value: usize) -> (r: Result<(), Error>)
        requires
            old(self).wf(),
            old(self).has_slot(obj),
            old(self).has_slot(value),
        ensures
            final(self).wf(),
            r is Ok <==> old(self).slot(obj) is Object,
            r matches Err(e) ==> e.status == Status::ObjectExpected && e.exception is None
                && *final(self) == *old(self),
            r is Ok ==> {
                &&& final(self).slots@.len() == old(self).slots@.len()
                &&& final(self).pending_exception == old(self).pending_exception
                &&& forall|i: int| 0 <= i < old(self).slots@.len() && i != obj
                    ==> final(self).slots@[i] == old(self).slots@[i]
                &&& final(self).slot(obj) is Object
                &&& final(self).slot(obj)->Object_born_of == old(self).slot(obj)->Object_born_of
                &&& spec_prop_lookup(final(self).slot(obj)->Object_properties@, name@) == Some(value)
                &&& forall|other: Seq<char>| other != name@
                    ==> spec_prop_lookup(final(self).slot(obj)->Object_properties@, other)
                        == spec_prop_lookup(old(self).slot(obj)->Object_properties@, other)
            },
    {
        let key: String = name.to_owned();
        if !matches!(&self.slots[obj], EngineValue::Object { .. }) {
            return Err(Error::new(Status::ObjectExpected, String::from_str("not a plain object")));
        }
        match &mut self.slots[obj] {
            EngineValue::Object { properties, .. } => {
                set_prop(properties, key, value);
            },
            _ => {
                proof {
                    assert(false);
                }
            },
        }
        Ok(())
    }

    /// Reads the raw handle behind a named property of a plain object; a
    /// missing property reads as `undefined`.
    pub fn get_named_property_raw(&self, obj: usize, name: &str) -> (r: Result<usize, Error>)
        requires
            self.wf(),
            self.has_slot(obj),
        ensures
            r is Ok <==> self.slot(obj) is Object,
            r matches Err(e) ==> e.status == Status::ObjectExpected && e.exception is None,
            r matches Ok(v) ==> v == spec_prop_or_undefined(*self, obj, name@),
    {
        let key: String = name.to_owned();
        match &self.slots[obj] {
            EngineValue::Object { properties, .. } => {
                match prop_find(properties, &key) {
                    Some(i) => {
                        proof {
                            lemma_prop_lookup_first(properties@, key@, i as int);
                        }
                        Ok(properties[i].1)
                    },
                    None => {
                        proof {
                            lemma_prop_lookup_absent(properties@, key@);
                        }
                        Ok(0)
                    },
                }
            },
            _ => Err(Error::new(Status::ObjectExpected, String::from_str("not a plain object"))),
        }
    }

    /// Allocates a fresh script-visible function slot dispatching to the
    /// given native callback, with no methods and an empty invocation log.
    pub fn create_function(&mut self, callback: NativeCallback) -> (r: Result<crate::function::JsFunction, Error>)
        requires
            old(self).wf(),
        ensures
            final(self).wf(),
            final(self).slots@.len() == old(self).slots@.len() + 1,
            Env::extends(*old(self), *final(self)),
            final(self).pending_exception == old(self).pending_exception,
            final(self).slot(old(self).slots.len()) matches EngineValue::Function { callback: cb, methods, calls }
                && cb == callback && methods@.len() == 0 && calls@.len() == 0,
            r matches Ok(h) && h.0.raw == old(self).slots@.len() && h.valid(final(self)),
    {
        let raw = self.push_slot(EngineValue::Function {
            callback,
            methods: Vec::new(),
            calls: Vec::new(),
        });
        Ok(crate::function::JsFunction(Value { raw, kind: ValueType::Function }))
    }

    /// Tears down an environment scope: every slot created at or after
    /// `mark` is released and must not be referred to again. The canonical
    /// `undefined` and any pending exception must predate the scope.
    pub fn close_scope(&mut self, mark: usize)
        requires
            old(self).wf(),
            1 <= mark <= old(self).slots@.len(),
            old(self).pending_exception matches Some(p) ==> p < mark,
        ensures
            final(self).wf(),
            final(self).slots@ == old(self).slots@.subrange(0, mark as int),
            final(self).pending_exception == old(self).pending_exception,
    {
        self.slots.truncate(mark);
    }

    /// How many invocations of the function behind `func` the engine has
    /// recorded.
    pub fn function_call_count(&self, func: usize) -> (r: Result<usize, Error>)
        ensures
            r is Ok <==> self.has_slot(func) && self.slot(func) is Function,
            r matches Ok(n) ==> n == self.slot(func)->Function_calls@.len(),
            r matches Err(e) ==> e.status == Status::InvalidArgument && e.exception is None,
    {
        if func < self.slots.len() {
            match &self.slots[func] {
                EngineValue::Function { calls, .. } => Ok(calls.len()),
                _ => Err(Error::new(Status::InvalidArgument, String::from_str("not a function"))),
            }
        } else {
            Err(Error::new(Status::InvalidArgument, String::from_str("dead handle")))
        }
    }

    /// How many arguments the recorded invocation `call` of `func` carried.
    pub fn function_call_arity(&self, func: usize, call: usize) -> (r: Result<usize, Error>)
        ensures
            r is Ok <==> self.has_slot(func) && self.slot(func) is Function
                && call < self.slot(func)->Function_calls@.len(),
            r matches Ok(n) ==> n == record_model(self.slot(func)->Function_calls@[call as int]).len(),
            r matches Err(e) ==> e.status == Status::InvalidArgument && e.exception is None,
    {
        if func < self.slots.len() {
            match &self.slots[func] {
                EngineValue::Function { calls, .. } => {
                    if call < calls.len() {
                        Ok(calls[call].args.len())
                    } else {
                        Err(Error::new(Status::InvalidArgument, String::from_str("no such invocation")))
                    }
                },
                _ => Err(Error::new(Status::InvalidArgument, String::from_str("not a function"))),
            }
        } else {
            Err(Error::new(Status::InvalidArgument, String::from_str("dead handle")))
        }
    }

    /// The snapshot of argument `arg` of the recorded invocation `call` of
    /// `func`.
    pub fn function_call_arg(&self, func: usize, call: usize, arg: usize) -> (r: Result<ArgSnapshot, Error>)
        ensures
            r is Ok <==> self.has_slot(func) && self.slot(func) is Function
                && call < self.slot(func)->Function_calls@.len()
                && arg < record_model(self.slot(func)->Function_calls@[call as int]).len(),
            r matches Ok(s) ==> snap_model(s)
                == record_model(self.slot(func)->Function_calls@[call as int])[arg as int],
            r matches Err(e) ==> e.status == Status::InvalidArgument && e.exception is None,
    {
        if func < self.slots.len() {
            match &self.slots[func] {
                EngineValue::Function { calls, .. } => {
                    if call < calls.len() {
                        let rec = &calls[call];
                        if arg < rec.args.len() {
                            Ok(copy_snapshot(&rec.args[arg]))
                        } else {
                            Err(Error::new(Status::InvalidArgument, String::from_str("no such argument")))
                        }
                    } else {
                        Err(Error::new(Status::InvalidArgument, String::from_str("no such invocation")))
                    }
                },
                _ => Err(Error::new(Status::InvalidArgument, String::from_str("not a function"))),
            }
        } else {
            Err(Error::new(Status::InvalidArgument, String::from_str("dead handle")))
        }
    }
}

/// Renders one decimal digit as a string slice.
fn digit_str(d: u64) -> (r: &'static str)
    requires
        d < 10,
    ensures
        r@ == seq![spec_digit_char(d as int)],
{
    proof {
        reveal_strlit("0");
        reveal_strlit("1");
        reveal_strlit("2");
        reveal_strlit("3");
        reveal_strlit("4");
        reveal_strlit("5");
        reveal_strlit("6");
        reveal_strlit("7");
        reveal_strlit("8");
        reveal_strlit("9");
    }
    if d == 0 {
        proof { assert("0"@ =~= seq![spec_digit_char(0)]); }
        "0"
    } else if d == 1 {
        proof { assert("1"@ =~= seq![spec_digit_char(1)]); }
        "1"
    } else if d == 2 {
        proof { assert("2"@ =~= seq![spec_digit_char(2)]); }
        "2"
    } else if d == 3 {
        proof { assert("3"@ =~= seq![spec_digit_char(3)]); }
        "3"
    } else if d == 4 {
        proof { assert("4"@ =~= seq![spec_digit_char(4)]); }
        "4"
    } else if d == 5 {
        proof { assert("5"@ =~= seq![spec_digit_char(5)]); }
        "5"
    } else if d == 6 {
        proof { assert("6"@ =~= seq![spec_digit_char(6)]); }
        "6"
    } else if d == 7 {
        proof { assert("7"@ =~= seq![spec_digit_char(7)]); }
        "7"
    } else if d == 8 {
        proof { assert("8"@ =~= seq![spec_digit_char(8)]); }
        "8"
    } else {
        proof { assert("9"@ =~= seq![spec_digit_char(9)]); }
        "9"
    }
}

/// Appends the decimal digits of `n` to `s`.
fn push_dec(s: &mut String, n: u64)
    ensures
        final(s)@ == old(s)@ + spec_dec_nat(n as nat),
    decreases n,
{
    if n < 10 {
        s.append(digit_str(n));
        proof {
            assert(final(s)@ =~= old(s)@ + spec_dec_nat(n as nat));
        }
    } else {
        push_dec(s, n / 10);
        s.append(digit_str(n % 10));
        proof {
            assert((n / 10) as nat == (n as nat) / 10);
            assert((n % 10) as nat == (n as nat) % 10);
            assert(final(s)@ =~= old(s)@ + spec_dec_nat(n as nat));
        }
    }
}

/// The decimal rendering of a signed 64-bit value.
fn dec_string_i64(n: i64) -> (r: String)
    ensures
        r@ == spec_dec_i64(n),
{
    let mut s = String::new();
    if n < 0 {
        s.append("-");
        let m: u64 = ((-(n + 1)) as u64) + 1;
        proof {
            assert(m as nat == (-(n as int)) as nat);
        }
        push_dec(&mut s, m);
        proof {
            assert(s@ =~= spec_dec_i64(n));
        }
    } else {
        push_dec(&mut s, n as u64);
        proof {
            assert(s@ =~= spec_dec_i64(n));
        }
    }
    s
}

} // verus!
