//! Typed, scope-checked handles over raw engine values.
//!
//! A raw handle is only an index the engine hands out; it says nothing about
//! the kind of value behind it, and it is valid only while its slot lives.
//! The typed wrappers below can be built solely through validated
//! (`from_raw`) or explicitly unchecked (`from_raw_unchecked`) paths, and
//! each carries a validity predicate tying it to the context that produced
//! it: a handle whose predicate no longer holds must not be used.

use vstd::prelude::*;

use crate::engine::{is_object_kind, Env};
use crate::status::{Error, Status};

verus! {

/// The kind tag a typed handle carries.
#[derive(Clone, Copy, Debug, PartialEq, Eq, Structural)]
pub enum ValueType {
    Undefined,
    Number,
    Text,
    Object,
    Function,
    Unknown,
}

/// A raw engine handle together with the kind its wrapper vouches for.
#[derive(Clone, Copy, Debug)]
pub struct Value {
    pub raw: usize,
    pub kind: ValueType,
}

/// The common shape of every typed handle: a raw value accessor, a validity
/// predicate against the owning context, and the validated and unchecked
/// construction paths from a raw handle.
pub trait NapiValue: Sized {
    /// The raw handle this wrapper carries.
    spec fn raw_spec(&self) -> int;

    /// The wrapper refers to a live slot of the kind it vouches for.
    spec fn valid(&self, env: &Env) -> bool;

    /// Validated construction succeeds on this raw handle.
    spec fn construct_ok(env: &Env, raw: usize) -> bool;

    /// The status reported when validated construction fails.
    spec fn construct_err(env: &Env, raw: usize) -> Status;

    fn raw_value(&self) -> (r: usize)
        ensures
            r as int == self.raw_spec(),
    ;

    /// Validated construction: checks that the raw handle is live and of the
    /// expected kind before wrapping it.
    fn from_raw(env: &Env, raw: usize) -> (r: Result<Self, Error>)
        ensures
            r is Ok <==> Self::construct_ok(env, raw),
            r matches Ok(v) ==> v.valid(env) && v.raw_spec() == raw as int,
            r matches Err(e) ==> e.status == Self::construct_err(env, raw) && e.exception is None,
    ;

    /// Unchecked construction: sound only where the call site already
    /// guarantees the raw handle's kind.
    fn from_raw_unchecked(env: &Env, raw: usize) -> (r: Self)
        requires
            Self::construct_ok(env, raw),
        ensures
            r.valid(env),
            r.raw_spec() == raw as int,
    ;
}

/// A handle to the engine's `undefined` value.
#[derive(Debug)]
pub struct JsUndefined(pub Value);

/// A handle to an engine number.
#[derive(Debug)]
pub struct JsNumber(pub Value);

/// A handle to an engine string.
#[derive(Debug)]
pub struct JsString(pub Value);

/// A handle to an engine object (anything object-like on the script side).
#[derive(Debug)]
pub struct JsObject(pub Value);

/// A handle whose kind has not been refined yet.
#[derive(Debug)]
pub struct JsUnknown(pub Value);

impl JsUndefined {
    pub open spec fn valid(&self, env: &Env) -> bool {
        &&& env.has_slot(self.0.raw)
        &&& env.slot(self.0.raw) is Undefined
        &&& self.0.kind is Undefined
    }
}

impl JsNumber {
    pub open spec fn valid(&self, env: &Env) -> bool {
        &&& env.has_slot(self.0.raw)
        &&& env.slot(self.0.raw) is Number
        &&& self.0.kind is Number
    }

    /// The integral value behind this handle.
    pub open spec fn spec_value(&self, env: &Env) -> i64 {
        env.slot(self.0.raw)->Number_0
    }

    /// Reads the value behind this handle as a 32-bit signed integer,
    /// failing exactly when it does not fit.
    pub fn get_int32(&self, env: &Env) -> (r: Result<i32, Error>)
        requires
            self.valid(env),
        ensures
            r is Ok <==> i32::MIN <= self.spec_value(env) <= i32::MAX,
            r matches Ok(v) ==> v == self.spec_value(env),
            r matches Err(e) ==> e.status == Status::GenericFailure && e.exception is None,
    {
        let n: i64 = match &env.slots[self.0.raw] {
            crate::engine::EngineValue::Number(n) => *n,
            _ => 0,
        };
        if n >= i32::MIN as i64 && n <= i32::MAX as i64 {
            Ok(n as i32)
        } else {
            Err(Error::new(Status::GenericFailure, String::from_str("number does not fit in 32 bits")))
        }
    }
}

impl JsString {
    pub open spec fn valid(&self, env: &Env) -> bool {
        &&& env.has_slot(self.0.raw)
        &&& env.slot(self.0.raw) is Text
        &&& self.0.kind is Text
    }

    /// The text behind this handle.
    pub open spec fn spec_text(&self, env: &Env) -> Seq<char> {
        env.slot(self.0.raw)->Text_0@
    }

    /// Reads the text behind this handle.
    pub fn get_value(&self, env: &Env) -> (r: String)
        requires
            self.valid(env),
        ensures
            r@ == self.spec_text(env),
    {
        match &env.slots[self.0.raw] {
            crate::engine::EngineValue::Text(s) => s.clone(),
            _ => String::new(),
        }
    }
}

impl JsObject {
    pub open spec fn valid(&self, env: &Env) -> bool {
        &&& env.has_slot(self.0.raw)
        &&& is_object_kind(env.slot(self.0.raw))
        &&& self.0.kind is Object
    }
}

impl JsUnknown {
    pub open spec fn valid(&self, env: &Env) -> bool {
        &&& env.has_slot(self.0.raw)
        &&& self.0.kind is Unknown
    }
}

impl NapiValue for JsUndefined {
    open spec fn raw_spec(&self) -> int {
        self.0.raw as int
    }

    open spec fn valid(&self, env: &Env) -> bool {
        JsUndefined::valid(self, env)
    }

    open spec fn construct_ok(env: &Env, raw: usize) -> bool {
        env.has_slot(raw) && env.slot(raw) is Undefined
    }

    open spec fn construct_err(env: &Env, raw: usize) -> Status {
        if !env.has_slot(raw) {
            Status::InvalidArgument
        } else {
            Status::WrongTypeHandle
        }
    }

    fn raw_value(&self) -> usize {
        self.0.raw
    }

    fn from_raw(env: &Env, raw: usize) -> Result<Self, Error> {
        if raw >= env.slots.len() {
            return Err(Error::new(Status::InvalidArgument, String::from_str("dead handle")));
        }
        match &env.slots[raw] {
            crate::engine::EngineValue::Undefined => Ok(JsUndefined(Value { raw, kind: ValueType::Undefined })),
            _ => Err(Error::new(Status::WrongTypeHandle, String::from_str("expected undefined"))),
        }
    }

    fn from_raw_unchecked(env: &Env, raw: usize) -> Self {
        JsUndefined(Value { raw, kind: ValueType::Undefined })
    }
}

impl NapiValue for JsNumber {
    open spec fn raw_spec(&self) -> int {
        self.0.raw as int
    }

    open spec fn valid(&self, env: &Env) -> bool {
        JsNumber::valid(self, env)
    }

    open spec fn construct_ok(env: &Env, raw: usize) -> bool {
        env.has_slot(raw) && env.slot(raw) is Number
    }

    open spec fn construct_err(env: &Env, raw: usize) -> Status {
        if !env.has_slot(raw) {
            Status::InvalidArgument
        } else {
            Status::WrongTypeHandle
        }
    }

    fn raw_value(&self) -> usize {
        self.0.raw
    }

    fn from_raw(env: &Env, raw: usize) -> Result<Self, Error> {
        if raw >= env.slots.len() {
            return Err(Error::new(Status::InvalidArgument, String::from_str("dead handle")));
        }
        match &env.slots[raw] {
            crate::engine::EngineValue::Number(_) => Ok(JsNumber(Value { raw, kind: ValueType::Number })),
            _ => Err(Error::new(Status::WrongTypeHandle, String::from_str("expected a number"))),
        }
    }

    fn from_raw_unchecked(env: &Env, raw: usize) -> Self {
        JsNumber(Value { raw, kind: ValueType::Number })
    }
}

impl NapiValue for JsString {
    open spec fn raw_spec(&self) -> int {
        self.0.raw as int
    }

    open spec fn valid(&self, env: &Env) -> bool {
        JsString::valid(self, env)
    }

    open spec fn construct_ok(env: &Env, raw: usize) -> bool {
        env.has_slot(raw) && env.slot(raw) is Text
    }

    open spec fn construct_err(env: &Env, raw: usize) -> Status {
        if !env.has_slot(raw) {
            Status::InvalidArgument
        } else {
            Status::WrongTypeHandle
        }
    }

    fn raw_value(&self) -> usize {
        self.0.raw
    }

    fn from_raw(env: &Env, raw: usize) -> Result<Self, Error> {
        if raw >= env.slots.len() {
            return Err(Error::new(Status::InvalidArgument, String::from_str("dead handle")));
        }
        match &env.slots[raw] {
            crate::engine::EngineValue::Text(_) => Ok(JsString(Value { raw, kind: ValueType::Text })),
            _ => Err(Error::new(Status::WrongTypeHandle, String::from_str("expected a string"))),
        }
    }

    fn from_raw_unchecked(env: &Env, raw: usize) -> Self {
        JsString(Value { raw, kind: ValueType::Text })
    }
}

impl NapiValue for JsObject {
    open spec fn raw_spec(&self) -> int {
        self.0.raw as int
    }

    open spec fn valid(&self, env: &Env) -> bool {
        JsObject::valid(self, env)
    }

    open spec fn construct_ok(env: &Env, raw: usize) -> bool {
        env.has_slot(raw) && is_object_kind(env.slot(raw))
    }

    open spec fn construct_err(env: &Env, raw: usize) -> Status {
        if !env.has_slot(raw) {
            Status::InvalidArgument
        } else {
            Status::WrongTypeHandle
        }
    }

    fn raw_value(&self) -> usize {
        self.0.raw
    }

    fn from_raw(env: &Env, raw: usize) -> Result<Self, Error> {
        if raw >= env.slots.len() {
            return Err(Error::new(Status::InvalidArgument, String::from_str("dead handle")));
        }
        match &env.slots[raw] {
            crate::engine::EngineValue::Undefined => Err(Error::new(Status::WrongTypeHandle, String::from_str("expected an object"))),
            crate::engine::EngineValue::Number(_) => Err(Error::new(Status::WrongTypeHandle, String::from_str("expected an object"))),
            crate::engine::EngineValue::Text(_) => Err(Error::new(Status::WrongTypeHandle, String::from_str("expected an object"))),
            _ => Ok(JsObject(Value { raw, kind: ValueType::Object })),
        }
    }

    fn from_raw_unchecked(env: &Env, raw: usize) -> Self {
        JsObject(Value { raw, kind: ValueType::Object })
    }
}

impl NapiValue for JsUnknown {
    open spec fn raw_spec(&self) -> int {
        self.0.raw as int
    }

    open spec fn valid(&self, env: &Env) -> bool {
        JsUnknown::valid(self, env)
    }

    open spec fn construct_ok(env: &Env, raw: usize) -> bool {
        env.has_slot(raw)
    }

    open spec fn construct_err(env: &Env, raw: usize) -> Status {
        Status::InvalidArgument
    }

    fn raw_value(&self) -> usize {
        self.0.raw
    }

    fn from_raw(env: &Env, raw: usize) -> Result<Self, Error> {
        if raw < env.slots.len() {
            Ok(JsUnknown(Value { raw, kind: ValueType::Unknown }))
        } else {
            Err(Error::new(Status::InvalidArgument, String::from_str("dead handle")))
        }
    }

    fn from_raw_unchecked(env: &Env, raw: usize) -> Self {
        JsUnknown(Value { raw, kind: ValueType::Unknown })
    }
}

} // verus!
