//! The invoker's argument decoding: each request argument, taken in its
//! declared order, is dispatched on its wire type tag and decoded into
//! the runtime value handed to the invoked function.

use vstd::prelude::*;

use crate::runtime::Value;
use crate::ty::Type;
use crate::ty::spec_to_value;
use crate::ty::spec_type_of;
use crate::wire::Wire;
use crate::wire::WireV;
use crate::wire::spec_get;

verus! {

/// Why a request argument could not be decoded.
#[derive(Debug, Clone, Copy, PartialEq, Eq, Structural)]
pub enum ArgumentError {
    /// The argument carries no type-tag entry.
    MissingTypeTag,
    /// The type tag names no type the invoker can dispatch on.
    UnknownTypeTag,
    /// The tag was recognized but the value does not fit its decoder.
    UndecodableValue,
}

/// Decodes one argument: read its type tag, dispatch, decode the value.
pub open spec fn spec_decode_argument(w: WireV) -> Result<Seq<char>, ArgumentError> {
    if !(w is Obj) {
        Err(ArgumentError::MissingTypeTag)
    } else {
        match spec_get(w->Obj_0, "Z1K1"@) {
            Option::None => Err(ArgumentError::MissingTypeTag),
            Option::Some(tag) => match spec_type_of(tag) {
                Option::None => Err(ArgumentError::UnknownTypeTag),
                Option::Some(t) => match spec_to_value(t, w) {
                    Option::None => Err(ArgumentError::UndecodableValue),
                    Option::Some(text) => Ok(text),
                },
            },
        }
    }
}

/// Decodes a request's arguments, in the order given, into the value
/// sequence handed to the invoked function. The order is the caller's
/// declared argument order, never an ambient map order. The first
/// argument that fails aborts the request, before any compile or
/// invocation.
pub fn decode_arguments(args: &Vec<(String, Wire)>) -> (r: Result<Vec<Value>, ArgumentError>)
    ensures
        r matches Ok(vals) ==> vals@.len() == args@.len() && (forall|i: int|
            0 <= i < args@.len() ==> #[trigger] spec_decode_argument(args@[i].1@) == Ok::<
                Seq<char>,
                ArgumentError,
            >(vals@[i]@)),
        r matches Err(e) ==> exists|i: int|
            0 <= i < args@.len() && #[trigger] spec_decode_argument(args@[i].1@) == Err::<
                Seq<char>,
                ArgumentError,
            >(e) && (forall|j: int| 0 <= j < i ==> spec_decode_argument(args@[j].1@) is Ok),
{
    let n = args.len();
    let mut vals: Vec<Value> = Vec::new();
    let mut i: usize = 0;
    while i < n
        invariant
            0 <= i <= n,
            n == args@.len(),
            vals@.len() == i,
            forall|j: int|
                0 <= j < i ==> #[trigger] spec_decode_argument(args@[j].1@) == Ok::<
                    Seq<char>,
                    ArgumentError,
                >(vals@[j]@),
        decreases n - i,
    {
        let w = &args[i].1;
        let tag = match w.get("Z1K1") {
            Option::Some(t) => t,
            Option::None => {
                proof {
                    assert(spec_decode_argument(args@[i as int].1@) == Err::<
                        Seq<char>,
                        ArgumentError,
                    >(ArgumentError::MissingTypeTag));
                }
                return Err(ArgumentError::MissingTypeTag);
            },
        };
        let t = match Type::from_json(tag) {
            Option::Some(t) => t,
            Option::None => {
                proof {
                    assert(spec_decode_argument(args@[i as int].1@) == Err::<
                        Seq<char>,
                        ArgumentError,
                    >(ArgumentError::UnknownTypeTag));
                }
                return Err(ArgumentError::UnknownTypeTag);
            },
        };
        let v = match t.to_value(w) {
            Option::Some(v) => v,
            Option::None => {
                proof {
                    assert(spec_decode_argument(args@[i as int].1@) == Err::<
                        Seq<char>,
                        ArgumentError,
                    >(ArgumentError::UndecodableValue));
                }
                return Err(ArgumentError::UndecodableValue);
            },
        };
        vals.push(v);
        i += 1;
    }
    Ok(vals)
}

} // verus!
