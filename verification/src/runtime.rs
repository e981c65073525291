//! The runtime value union and the compact binary encoding that carries
//! value sequences and call outcomes across the invocation boundary.

use vstd::prelude::*;

use crate::ffi::Bytes;

verus! {

/// A runtime value handed to or returned by invoked code: a closed
/// tagged union, today holding strings only, designed to extend.
#[derive(Debug, PartialEq, Eq, Clone)]
pub enum Value {
    String(String),
}

impl View for Value {
    type V = Seq<char>;

    open spec fn view(&self) -> Seq<char> {
        self->String_0@
    }
}

/// A conversion mismatch: the kind of value expected and the kind found.
#[derive(Debug, PartialEq, Eq, Clone, Copy)]
pub struct ExpectedFound {
    pub expected: &'static str,
    pub found: &'static str,
}

impl ExpectedFound {
    /// The mismatch, spelled out.
    pub fn message(&self) -> (r: String)
        ensures
            r@ == "expected "@ + self.expected@ + ", found "@ + self.found@,
    {
        let mut s = String::from_str("expected ");
        s.append(self.expected);
        s.append(", found ");
        s.append(self.found);
        s
    }
}

impl Value {
    /// Capability-checked conversion to a host string: succeeds exactly
    /// on the string variant, which today is every value.
    pub fn try_into_string(self) -> (r: Result<String, ExpectedFound>)
        ensures
            r is Ok,
            r->Ok_0@ == self@,
    {
        match self {
            Value::String(s) => Ok(s),
        }
    }
}

/// A host value that can enter the runtime value space.
pub trait IntoValue: Sized {
    /// The text the value carries into the value space.
    spec fn spec_value(&self) -> Seq<char>;

    /// Converts the host value into a runtime value.
    fn into_value(self) -> (v: Value)
        ensures
            v@ == self.spec_value(),
    ;
}

impl IntoValue for String {
    open spec fn spec_value(&self) -> Seq<char> {
        self@
    }

    fn into_value(self) -> (v: Value) {
        Value::String(self)
    }
}

impl<'a> IntoValue for &'a str {
    open spec fn spec_value(&self) -> Seq<char> {
        self@
    }

    fn into_value(self) -> (v: Value) {
        Value::String(self.to_owned())
    }
}

/// A fault of the binary codec at the invocation boundary.
#[derive(Debug, PartialEq, Eq, Clone, Copy)]
pub enum CodecError {
    /// The value could not be serialized.
    Encode,
    /// The bytes do not decode as the expected shape.
    Decode,
}

/// The texts a value sequence carries, in order.
pub open spec fn values_view(vs: Seq<Value>) -> Seq<Seq<char>> {
    vs.map_values(|v: Value| v@)
}

/// The texts a string sequence carries, in order.
pub open spec fn strings_view(vs: Seq<String>) -> Seq<Seq<char>> {
    vs.map_values(|s: String| s@)
}

/// An outcome, reduced to the texts it carries.
pub open spec fn outcome_view(o: Result<Value, String>) -> Result<Seq<char>, Seq<char>> {
    match o {
        Ok(v) => Ok(v@),
        Err(m) => Err(m@),
    }
}

/// The compact binary encoding of a sequence of value texts.
pub uninterp spec fn values_encoding(vs: Seq<Seq<char>>) -> Seq<u8>;

/// The compact binary encoding of a call outcome.
pub uninterp spec fn outcome_encoding(o: Result<Seq<char>, Seq<char>>) -> Seq<u8>;

/// Relies on postcard::to_stdvec: the encoding of a string sequence is a
/// function of the strings alone, and the allocating serializer always
/// succeeds on string data (its byte sink and `serialize_str` have no
/// failing path).
#[verifier::external_body]
fn postcard_encode_strings(vs: &Vec<String>) -> (r: Result<Vec<u8>, CodecError>)
    ensures
        r is Ok,
        r matches Ok(b) ==> b@ == values_encoding(strings_view(vs@)),
{
    match postcard::to_stdvec(vs) {
        Ok(b) => Ok(b),
        Err(_) => Err(CodecError::Encode),
    }
}

/// Relies on postcard::from_bytes together with postcard's round-trip
/// guarantee: decoding the exact encoding of a string sequence yields
/// that sequence back.
#[verifier::external_body]
fn postcard_decode_strings(b: &[u8]) -> (r: Result<Vec<String>, CodecError>)
    ensures
        r is Err ==> forall|vs: Seq<Seq<char>>| b@ != values_encoding(vs),
        r matches Ok(out) ==> forall|vs: Seq<Seq<char>>|
            b@ == values_encoding(vs) ==> strings_view(out@) == vs,
{
    match postcard::from_bytes::<Vec<String>>(b) {
        Ok(v) => Ok(v),
        Err(_) => Err(CodecError::Decode),
    }
}

/// Relies on postcard::to_stdvec: the encoding of an outcome is a
/// function of the texts it carries alone, and the allocating
/// serializer always succeeds on string data (its byte sink and
/// `serialize_str` have no failing path).
#[verifier::external_body]
fn postcard_encode_outcome(o: &Result<String, String>) -> (r: Result<Vec<u8>, CodecError>)
    ensures
        r is Ok,
        r matches Ok(b) ==> b@ == outcome_encoding(
            match o {
                Ok(s) => Ok(s@),
                Err(m) => Err(m@),
            },
        ),
{
    match postcard::to_stdvec(o) {
        Ok(b) => Ok(b),
        Err(_) => Err(CodecError::Encode),
    }
}

/// Relies on postcard::from_bytes together with postcard's round-trip
/// guarantee: decoding the exact encoding of an outcome yields that
/// outcome back.
#[verifier::external_body]
fn postcard_decode_outcome(b: &[u8]) -> (r: Result<Result<String, String>, CodecError>)
    ensures
        r is Err ==> forall|o: Result<Seq<char>, Seq<char>>| b@ != outcome_encoding(o),
        r matches Ok(out) ==> forall|o: Result<Seq<char>, Seq<char>>|
            b@ == outcome_encoding(o) ==> (match out {
                Ok(s) => Ok(s@),
                Err(m) => Err(m@),
            }) == o,
{
    match postcard::from_bytes::<Result<String, String>>(b) {
        Ok(v) => Ok(v),
        Err(_) => Err(CodecError::Decode),
    }
}

/// Encodes a value sequence for the crossing: it always succeeds, and
/// the bytes are exactly the encoding of the values' texts.
pub fn encode_values(values: &Vec<Value>) -> (r: Result<Vec<u8>, CodecError>)
    ensures
        r is Ok,
        r matches Ok(b) ==> b@ == values_encoding(values_view(values@)),
{
    let mut texts: Vec<String> = Vec::new();
    let n = values.len();
    let mut i: usize = 0;
    while i < n
        invariant
            0 <= i <= n,
            n == values@.len(),
            texts@.len() == i,
            forall|j: int| 0 <= j < i ==> #[trigger] texts@[j]@ == values@[j]@,
        decreases n - i,
    {
        match &values[i] {
            Value::String(s) => {
                texts.push(s.clone());
            },
        }
        i += 1;
    }
    proof {
        assert(strings_view(texts@) =~= values_view(values@));
    }
    postcard_encode_strings(&texts)
}

/// Decodes the bytes of a borrowed view back into a value sequence: fed
/// the exact encoding of a sequence of texts, it yields values carrying
/// those texts, in order.
pub fn bytes_to_values(b: Bytes) -> (r: Result<Vec<Value>, CodecError>)
    ensures
        forall|vs: Seq<Seq<char>>|
            b@ == values_encoding(vs) ==> (r matches Ok(out) && values_view(out@) == vs),
        r is Err ==> forall|vs: Seq<Seq<char>>| b@ != values_encoding(vs),
{
    let texts = match postcard_decode_strings(b.as_slice()) {
        Ok(t) => t,
        Err(e) => {
            proof {
                assert(forall|vs: Seq<Seq<char>>| b@ != values_encoding(vs));
            }
            return Err(e);
        },
    };
    let mut values: Vec<Value> = Vec::new();
    let n = texts.len();
    let mut i: usize = 0;
    while i < n
        invariant
            0 <= i <= n,
            n == texts@.len(),
            values@.len() == i,
            forall|j: int| 0 <= j < i ==> #[trigger] values@[j]@ == texts@[j]@,
        decreases n - i,
    {
        values.push(Value::String(texts[i].clone()));
        i += 1;
    }
    proof {
        assert(values_view(values@) =~= strings_view(texts@));
    }
    Ok(values)
}

/// Encodes a call outcome for the return crossing: it always succeeds,
/// and the bytes are exactly the encoding of the outcome's texts.
pub fn encode_outcome(outcome: &Result<Value, String>) -> (r: Result<Vec<u8>, CodecError>)
    ensures
        r is Ok,
        r matches Ok(b) ==> b@ == outcome_encoding(outcome_view(*outcome)),
{
    let plain: Result<String, String> = match outcome {
        Ok(v) => match v {
            Value::String(s) => Ok(s.clone()),
        },
        Err(m) => Err(m.clone()),
    };
    postcard_encode_outcome(&plain)
}

/// Decodes a returned outcome: fed the exact encoding of an outcome, it
/// yields that outcome back, the value side carrying the same text.
pub fn decode_outcome(b: &[u8]) -> (r: Result<Result<Value, String>, CodecError>)
    ensures
        forall|o: Result<Seq<char>, Seq<char>>|
            b@ == outcome_encoding(o) ==> (r matches Ok(out) && outcome_view(out) == o),
        r is Err ==> forall|o: Result<Seq<char>, Seq<char>>| b@ != outcome_encoding(o),
{
    match postcard_decode_outcome(b) {
        Ok(plain) => match plain {
            Ok(s) => Ok(Ok(Value::String(s))),
            Err(m) => Ok(Err(m)),
        },
        Err(e) => Err(e),
    }
}

/// Pulls the declared number of arguments off a decoded value sequence,
/// converting each to a host string: succeeds exactly when enough values
/// are there; too few is the fault invoked code reports as running out
/// of values.
pub fn take_string_args(values: &Vec<Value>, count: usize) -> (r: Result<Vec<String>, String>)
    ensures
        count <= values@.len() ==> (r matches Ok(args) && args@.len() == count && (forall|i: int|
            0 <= i < count ==> #[trigger] args@[i]@ == values@[i]@)),
        count > values@.len() ==> (r matches Err(m) && m@ == "out of values"@),
{
    if count > values.len() {
        return Err(String::from_str("out of values"));
    }
    let mut args: Vec<String> = Vec::new();
    let mut i: usize = 0;
    while i < count
        invariant
            0 <= i <= count,
            count <= values@.len(),
            args@.len() == i,
            forall|j: int| 0 <= j < i ==> #[trigger] args@[j]@ == values@[j]@,
        decreases count - i,
    {
        match &values[i] {
            Value::String(s) => {
                args.push(s.clone());
            },
        }
        i += 1;
    }
    Ok(args)
}

/// The argument phase of the generated entry point: decode the bytes
/// that crossed the boundary and pull the declared number of string
/// arguments. A fault is reported in the invoked code's own error
/// channel, as a message, never by stopping the host.
pub fn decode_call_input(input: Bytes, count: usize) -> (r: Result<Vec<String>, String>)
    ensures
        forall|vs: Seq<Seq<char>>|
            #![trigger values_encoding(vs)]
            input@ == values_encoding(vs) && count <= vs.len() ==> (r matches Ok(args)
                && args@.len() == count && (forall|i: int|
                0 <= i < count ==> #[trigger] args@[i]@ == vs[i])),
        forall|vs: Seq<Seq<char>>|
            #![trigger values_encoding(vs)]
            input@ == values_encoding(vs) && count > vs.len() ==> (r matches Err(m) && m@
                == "out of values"@),
        r matches Err(m) ==> m@ == "out of values"@ || (m@ == "undecodable argument bytes"@
            && (forall|vs: Seq<Seq<char>>| input@ != values_encoding(vs))),
{
    let values = match bytes_to_values(input) {
        Ok(v) => v,
        Err(_) => {
            return Err(String::from_str("undecodable argument bytes"));
        },
    };
    take_string_args(&values, count)
}

} // verus!
