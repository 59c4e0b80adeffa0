//! Buffer handles: typed references to engine-owned byte data, carrying a
//! borrowed view of the bytes that is valid only while the backing slot
//! lives.

use vstd::prelude::*;
use vstd::string::StringExecFns;

use crate::engine::{copy_bytes, EngineValue, Env};
use crate::status::{Error, Status};
use crate::values::{JsNumber, JsObject, JsString, JsUnknown, NapiValue, Value, ValueType};

verus! {

/// A handle to an engine-owned buffer, together with its byte view. The
/// view mirrors the backing bytes exactly — same length, same contents —
/// and must not be relied on past the handle's validity.
#[derive(Debug)]
pub struct JsBuffer {
    pub value: JsObject,
    pub data: Vec<u8>,
}

impl JsBuffer {
    /// The handle refers to a live buffer slot and its view mirrors the
    /// slot's bytes.
    pub open spec fn valid(&self, env: &Env) -> bool {
        &&& env.has_slot(self.value.0.raw)
        &&& env.slot(self.value.0.raw) matches EngineValue::Buffer(b) && b@ == self.data@
        &&& self.value.0.kind is Object
    }

    /// Forgets the kind refinement, keeping the same raw handle.
    pub fn into_unknown(self, env: &Env) -> (r: Result<JsUnknown, Error>)
        ensures
            r is Ok <==> env.has_slot(self.value.0.raw),
            r matches Ok(u) ==> u.0.raw == self.value.0.raw && u.valid(env),
            r matches Err(e) ==> e.status == Status::InvalidArgument && e.exception is None,
    {
        JsUnknown::from_raw(env, self.value.0.raw)
    }

    /// Coerces the buffer to a number. A buffer has no integral form in
    /// this model engine, so the coercion always fails, without effect.
    pub fn coerce_to_number(self, env: &mut Env) -> (r: Result<JsNumber, Error>)
        requires
            old(env).wf(),
            self.valid(old(env)),
        ensures
            final(env).wf(),
            r matches Err(e) && e.status == Status::GenericFailure && e.exception is None,
            *final(env) == *old(env),
    {
        env.coerce_to_number(self.value.0.raw)
    }

    /// Coerces the buffer to a string: a fresh text slot holding the
    /// opaque object rendering.
    pub fn coerce_to_string(self, env: &mut Env) -> (r: Result<JsString, Error>)
        requires
            old(env).wf(),
            self.valid(old(env)),
        ensures
            final(env).wf(),
            final(env).slots@.len() == old(env).slots@.len() + 1,
            Env::extends(*old(env), *final(env)),
            final(env).pending_exception == old(env).pending_exception,
            final(env).slot(old(env).slots.len()) matches EngineValue::Text(t)
                && t@ == "[object Object]"@,
            r matches Ok(h) && h.0.raw == old(env).slots@.len() && h.valid(final(env)),
    {
        env.coerce_to_string(self.value.0.raw)
    }

    /// Coerces the buffer to an object: a buffer already is one, so the
    /// same raw handle comes back and nothing changes.
    pub fn coerce_to_object(self, env: &mut Env) -> (r: Result<JsObject, Error>)
        requires
            old(env).wf(),
            self.valid(old(env)),
        ensures
            final(env).wf(),
            r matches Ok(h) && h.0.raw == self.value.0.raw && h.valid(final(env)),
            *final(env) == *old(env),
    {
        env.coerce_to_object(self.value.0.raw)
    }

    /// A buffer is not a date.
    pub fn is_date(&self, env: &Env) -> (r: Result<bool, Error>)
        requires
            self.valid(env),
        ensures
            r matches Ok(b) && b == false,
    {
        env.is_date(self.value.0.raw)
    }

    /// A buffer is not an error object.
    pub fn is_error(&self, env: &Env) -> (r: Result<bool, Error>)
        requires
            self.valid(env),
        ensures
            r matches Ok(b) && b == false,
    {
        env.is_error(self.value.0.raw)
    }

    /// A buffer is the typed-array kind of this model engine.
    pub fn is_typedarray(&self, env: &Env) -> (r: Result<bool, Error>)
        requires
            self.valid(env),
        ensures
            r matches Ok(b) && b == true,
    {
        env.is_typedarray(self.value.0.raw)
    }

    /// A buffer is not a data view.
    pub fn is_dataview(&self, env: &Env) -> (r: Result<bool, Error>)
        requires
            self.valid(env),
        ensures
            r matches Ok(b) && b == false,
    {
        env.is_dataview(self.value.0.raw)
    }

    /// A buffer is not an array.
    pub fn is_array(&self, env: &Env) -> (r: Result<bool, Error>)
        requires
            self.valid(env),
        ensures
            r matches Ok(b) && b == false,
    {
        env.is_array(self.value.0.raw)
    }

    /// A buffer is a buffer.
    pub fn is_buffer(&self, env: &Env) -> (r: Result<bool, Error>)
        requires
            self.valid(env),
        ensures
            r matches Ok(b) && b == true,
    {
        env.is_buffer(self.value.0.raw)
    }

    /// A buffer was constructed by no script-defined constructor, so the
    /// check reports `false` — without raising — whenever the constructor
    /// handle is a live function.
    pub fn instanceof<Constructor: NapiValue>(&self, env: &Env, constructor: Constructor) -> (r: Result<bool, Error>)
        requires
            self.valid(env),
        ensures
            r is Ok <==> 0 <= constructor.raw_spec() < env.slots@.len()
                && env.slots@[constructor.raw_spec()] is Function,
            r matches Ok(b) ==> b == false,
            r matches Err(e) ==> e.status == Status::InvalidArgument && e.exception is None,
    {
        env.instance_of(self.value.0.raw, constructor.raw_value())
    }
}

/// A buffer handle's exposed byte view agrees with the engine exactly:
/// same bytes, hence the same length the creating call reported; a
/// zero-length buffer has an empty, safely readable view.
pub proof fn lemma_buffer_view_matches(h: &JsBuffer, env: &Env)
    requires
        h.valid(env),
    ensures
        env.slot(h.value.0.raw) matches EngineValue::Buffer(b) && b@ == h.data@
            && b@.len() == h.data@.len(),
{
}

impl NapiValue for JsBuffer {
    open spec fn raw_spec(&self) -> int {
        self.value.0.raw as int
    }

    open spec fn valid(&self, env: &Env) -> bool {
        JsBuffer::valid(self, env)
    }

    open spec fn construct_ok(env: &Env, raw: usize) -> bool {
        env.has_slot(raw) && env.slot(raw) is Buffer
    }

    open spec fn construct_err(env: &Env, raw: usize) -> Status {
        if !env.has_slot(raw) {
            Status::InvalidArgument
        } else {
            Status::WrongTypeHandle
        }
    }

    fn raw_value(&self) -> usize {
        self.value.0.raw
    }

    /// Checked construction reads the buffer's backing data and length
    /// from the engine, so the resulting view mirrors them exactly.
    fn from_raw(env: &Env, raw: usize) -> Result<Self, Error> {
        if raw >= env.slots.len() {
            return Err(Error::new(Status::InvalidArgument, String::from_str("dead handle")));
        }
        match &env.slots[raw] {
            EngineValue::Buffer(b) => Ok(JsBuffer {
                value: JsObject(Value { raw, kind: ValueType::Object }),
                data: copy_bytes(b),
            }),
            _ => Err(Error::new(Status::WrongTypeHandle, String::from_str("expected a buffer"))),
        }
    }

    fn from_raw_unchecked(env: &Env, raw: usize) -> Self {
        let data = match &env.slots[raw] {
            EngineValue::Buffer(b) => copy_bytes(b),
            _ => Vec::new(),
        };
        JsBuffer { value: JsObject(Value { raw, kind: ValueType::Object }), data }
    }
}

impl Env {
    /// Allocates a buffer owned by the engine, seeded with `data`, and
    /// hands back a handle whose view equals those bytes.
    pub fn create_buffer_with_data(&mut self, data: Vec<u8>) -> (r: Result<JsBuffer, Error>)
        requires
            old(self).wf(),
        ensures
            final(self).wf(),
            final(self).slots@.len() == old(self).slots@.len() + 1,
            Env::extends(*old(self), *final(self)),
            final(self).pending_exception == old(self).pending_exception,
            final(self).slot(old(self).slots.len()) matches EngineValue::Buffer(b) && b@ == data@,
            r matches Ok(h) && h.value.0.raw == old(self).slots@.len()
                && h.data@ == data@ && h.valid(final(self)),
    {
        let view = copy_bytes(&data);
        let raw = self.push_slot(EngineValue::Buffer(data));
        Ok(JsBuffer { value: JsObject(Value { raw, kind: ValueType::Object }), data: view })
    }
}

} // verus!
