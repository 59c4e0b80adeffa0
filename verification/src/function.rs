//! The synchronous invocation bridge from the engine thread into a
//! script-visible function.

use vstd::prelude::*;
use vstd::string::StringExecFns;

use crate::engine::{record_step, spec_arg_models, Env};
use crate::status::{Error, Status};
use crate::values::{JsObject, JsUnknown, NapiValue, Value, ValueType};

verus! {

/// A handle to a script-visible function.
#[derive(Debug)]
pub struct JsFunction(pub Value);

impl JsFunction {
    pub open spec fn valid(&self, env: &Env) -> bool {
        &&& env.has_slot(self.0.raw)
        &&& env.slot(self.0.raw) is Function
        &&& self.0.kind is Function
    }
}

impl NapiValue for JsFunction {
    open spec fn raw_spec(&self) -> int {
        self.0.raw as int
    }

    open spec fn valid(&self, env: &Env) -> bool {
        JsFunction::valid(self, env)
    }

    open spec fn construct_ok(env: &Env, raw: usize) -> bool {
        env.has_slot(raw) && env.slot(raw) is Function
    }

    open spec fn construct_err(env: &Env, raw: usize) -> Status {
        if !env.has_slot(raw) {
            Status::InvalidArgument
        } else {
            Status::WrongTypeHandle
        }
    }

    fn raw_value(&self) -> usize {
        self.0.raw
    }

    fn from_raw(env: &Env, raw: usize) -> Result<Self, Error> {
        if raw >= env.slots.len() {
            return Err(Error::new(Status::InvalidArgument, String::from_str("dead handle")));
        }
        match &env.slots[raw] {
            crate::engine::EngineValue::Function { .. } => Ok(JsFunction(Value { raw, kind: ValueType::Function })),
            _ => Err(Error::new(Status::WrongTypeHandle, String::from_str("expected a function"))),
        }
    }

    fn from_raw_unchecked(env: &Env, raw: usize) -> Self {
        JsFunction(Value { raw, kind: ValueType::Function })
    }
}

/// Invoking a function leaves exactly one new invocation record on its
/// slot and otherwise reports what the dispatched callback did; this holds
/// whichever callback the slot carries. When the wrapped function is a
/// plain script function (`Recorder`), the record is the only change.
impl JsFunction {
    /// Calls the function synchronously on the engine thread, with `this`
    /// defaulting to the engine's `undefined`. The argument buffer is sized
    /// dynamically, so any arity is marshalled faithfully.
    pub fn call(&self, env: &mut Env, this: Option<&JsObject>, args: &Vec<JsUnknown>) -> (r: Result<JsUnknown, Error>)
        requires
            old(env).wf(),
            self.valid(old(env)),
            this matches Some(t) ==> old(env).has_slot(t.0.raw),
            forall|i: int| 0 <= i < args@.len() ==> old(env).has_slot(#[trigger] args@[i].0.raw),
        ensures
            final(env).wf(),
            crate::class::invocation_post(
                *old(env),
                *final(env),
                self.0.raw,
                (match this {
                    Some(t) => t.0.raw,
                    None => 0,
                }),
                args@.map_values(|h: JsUnknown| h.0.raw),
                (match r {
                    Ok(h) => Ok(h.0.raw),
                    Err(e) => Err(e),
                }),
            ),
            r matches Ok(h) ==> h.valid(final(env)),
    {
        let raw_this: usize = match this {
            Some(t) => t.0.raw,
            None => {
                let u = match env.get_undefined() {
                    Ok(u) => u,
                    Err(e) => {
                        return Err(e);
                    },
                };
                u.0.raw
            },
        };
        let mut raw_args: Vec<usize> = Vec::new();
        let mut i: usize = 0;
        while i < args.len()
            invariant
                i <= args@.len(),
                raw_args@ =~= args@.subrange(0, i as int).map_values(|h: JsUnknown| h.0.raw),
            decreases args@.len() - i,
        {
            raw_args.push(args[i].raw_value());
            proof {
                assert(raw_args@ =~= args@.subrange(0, i + 1).map_values(|h: JsUnknown| h.0.raw));
            }
            i = i + 1;
        }
        proof {
            assert(raw_args@ =~= args@.map_values(|h: JsUnknown| h.0.raw));
        }
        let out = env.call_function(self.0.raw, raw_this, &raw_args);
        match out {
            Ok(raw) => Ok(JsUnknown(Value { raw, kind: ValueType::Unknown })),
            Err(e) => Err(e),
        }
    }
}

} // verus!
