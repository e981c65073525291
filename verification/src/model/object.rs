//! The generic object envelope: every wire object is a record whose first
//! entry carries the type descriptor under the tag key, followed by the
//! payload's own fields merged at the same level.

use vstd::prelude::*;

use crate::label::LabelMismatch;
use crate::wire::Wire;
use crate::wire::WireV;
use crate::wire::entries_view;
use crate::wire::lemma_entries_view_concat;
use crate::wire::lemma_entries_view_index;
use crate::wire::lemma_entries_view_len;
use crate::wire::string_eq_str;
use crate::wire::wire_eq;
use vstd::slice::slice_subrange;

verus! {

/// A structural fault found while reading a wire object.
#[derive(Debug, PartialEq, Eq, Clone)]
pub enum WireError {
    /// The record does not open with the type-tag entry.
    ExpectedTypeTag,
    /// The type-tag entry does not carry the expected descriptor.
    WrongTypeTag,
    /// A list level does not carry the element entry where one is due.
    ExpectedElement,
    /// A list level does not carry the remainder entry after its element.
    ExpectedRemainder,
    /// The payload's own fields do not fit the expected shape.
    BadFields,
    /// A label string differs from the one expected: names both.
    LabelMismatch(LabelMismatch),
}

/// The envelope opens with a tag entry holding a label string that is
/// not the expected identifier: the mismatch that decoding names.
pub open spec fn label_tag_mismatch<T: ZObject>(w: WireV) -> bool {
    &&& w is Obj
    &&& w->Obj_0.len() >= 1
    &&& w->Obj_0[0].0 == "Z1K1"@
    &&& w->Obj_0[0].1 is Str
    &&& T::type_tag_spec() is Str
    &&& w->Obj_0[0].1->Str_0 != T::type_tag_spec()->Str_0
}

/// A type that takes part in the wire notation: it knows its own type
/// descriptor, lays its fields out as wire entries, and reads them back.
pub trait ZObject: View + Sized {
    /// The wire descriptor (type tag) of this type.
    spec fn type_tag_spec() -> WireV;

    /// The value's own fields, as ordered wire entries, without the
    /// envelope's tag entry.
    spec fn fields_spec(v: Self::V) -> Seq<(Seq<char>, WireV)>;

    /// Reads a value back from its field entries; `None` on any
    /// structural mismatch.
    spec fn parse_fields_spec(fields: Seq<(Seq<char>, WireV)>) -> Option<Self::V>;

    /// Reading back the fields that a value lays out yields that value.
    proof fn lemma_parse_of_fields(v: Self::V)
        ensures
            Self::parse_fields_spec(Self::fields_spec(v)) == Option::Some(v),
    ;

    /// Builds the wire descriptor of this type.
    fn type_tag() -> (w: Wire)
        ensures
            w@ == Self::type_tag_spec(),
    ;

    /// Lays the value's fields out as wire entries.
    fn to_fields(&self) -> (r: Vec<(String, Wire)>)
        ensures
            entries_view(r@) == Self::fields_spec(self@),
    ;

    /// Reads a value from field entries, exactly when the model parse
    /// succeeds.
    fn from_fields(fields: &[(String, Wire)]) -> (r: Result<Self, WireError>)
        ensures
            match r {
                Ok(v) => Self::parse_fields_spec(entries_view(fields@)) == Option::Some(v@),
                Err(_) => Self::parse_fields_spec(entries_view(fields@)) is None,
            },
    ;
}

/// The envelope of a value: a record opening with the tag entry, the
/// value's own fields following at the same level.
pub open spec fn env_view<T: ZObject>(v: T::V) -> WireV {
    WireV::Obj(seq![("Z1K1"@, T::type_tag_spec())] + T::fields_spec(v))
}

/// Reads a value out of an envelope: the record must open with the tag
/// entry carrying this type's descriptor; the remaining entries are the
/// value's fields.
pub open spec fn parse_env_spec<T: ZObject>(w: WireV) -> Option<T::V> {
    if w is Obj && w->Obj_0.len() >= 1 && w->Obj_0[0].0 == "Z1K1"@ && w->Obj_0[0].1
        == T::type_tag_spec() {
        T::parse_fields_spec(w->Obj_0.drop_first())
    } else {
        Option::None
    }
}

/// An envelope built for a value always opens with the statically
/// expected descriptor for the value's type, whatever the value holds.
pub proof fn lemma_envelope_tag<T: ZObject>(v: T::V)
    ensures
        env_view::<T>(v) is Obj,
        env_view::<T>(v)->Obj_0.len() >= 1,
        env_view::<T>(v)->Obj_0[0] == ("Z1K1"@, T::type_tag_spec()),
{
}

/// Reading an envelope built for a value yields that value back.
pub proof fn lemma_envelope_round_trip<T: ZObject>(v: T::V)
    ensures
        parse_env_spec::<T>(env_view::<T>(v)) == Option::Some(v),
{
    T::lemma_parse_of_fields(v);
    assert((seq![("Z1K1"@, T::type_tag_spec())] + T::fields_spec(v)).drop_first()
        =~= T::fields_spec(v));
}

/// Serializes a value inside its envelope.
pub fn serialize<T: ZObject>(value: &T) -> (w: Wire)
    ensures
        w@ == env_view::<T>(value@),
{
    let mut fields: Vec<(String, Wire)> = Vec::new();
    fields.push(("Z1K1".to_owned(), T::type_tag()));
    let ghost head = fields@;
    let mut rest = value.to_fields();
    let ghost restv = rest@;
    fields.append(&mut rest);
    proof {
        lemma_entries_view_concat(head, restv);
        assert(head.drop_first().len() == 0);
        assert(entries_view(head.drop_first()) =~= Seq::empty());
        assert(entries_view(head) =~= seq![("Z1K1"@, T::type_tag_spec())]);
        assert(entries_view(fields@) =~= seq![("Z1K1"@, T::type_tag_spec())]
            + T::fields_spec(value@));
    }
    Wire::Obj(fields)
}

/// Deserializes a value out of its envelope, exactly when the model
/// parse succeeds.
pub fn deserialize<T: ZObject>(w: &Wire) -> (r: Result<T, WireError>)
    ensures
        match r {
            Ok(v) => parse_env_spec::<T>(w@) == Option::Some(v@),
            Err(_) => parse_env_spec::<T>(w@) is None,
        },
        label_tag_mismatch::<T>(w@) ==> (r matches Err(e) && e matches WireError::LabelMismatch(m)
            && m.expected@ == T::type_tag_spec()->Str_0 && m.found@ == w@->Obj_0[0].1->Str_0),
{
    match w {
        Wire::Str(_) => Err(WireError::ExpectedTypeTag),
        Wire::Obj(fields) => {
            if fields.len() == 0 {
                proof {
                    lemma_entries_view_len(fields@);
                }
                return Err(WireError::ExpectedTypeTag);
            }
            proof {
                lemma_entries_view_index(fields@, 0);
            }
            if !string_eq_str(&fields[0].0, "Z1K1") {
                return Err(WireError::ExpectedTypeTag);
            }
            let tag = T::type_tag();
            if !wire_eq(&fields[0].1, &tag) {
                match (&fields[0].1, tag) {
                    (Wire::Str(found), Wire::Str(expected)) => {
                        return Err(WireError::LabelMismatch(LabelMismatch {
                            expected,
                            found: found.clone(),
                        }));
                    },
                    _ => {
                        return Err(WireError::WrongTypeTag);
                    },
                }
            }
            let rest = slice_subrange(fields.as_slice(), 1, fields.len());
            proof {
                assert(rest@ =~= fields@.drop_first());
                assert(entries_view(fields@).drop_first() =~= entries_view(fields@.drop_first()));
            }
            T::from_fields(rest)
        },
    }
}

/// A wire object together with its envelope: holds the payload value;
/// the tag entry is derived from the type when serialized.
#[derive(Debug, PartialEq, Eq)]
pub struct Object<T: ZObject> {
    pub value: T,
}

impl<T: ZObject> Object<T> {
    /// Wraps a value for transport inside its envelope.
    pub fn new(value: T) -> (r: Object<T>)
        ensures
            r.value == value,
    {
        Object { value }
    }

    /// Serializes the wrapped value inside its envelope.
    pub fn to_wire(&self) -> (w: Wire)
        ensures
            w@ == env_view::<T>(self.value@),
    {
        serialize(&self.value)
    }

    /// Deserializes an enveloped value, exactly when the model parse
    /// succeeds.
    pub fn from_wire(w: &Wire) -> (r: Result<Object<T>, WireError>)
        ensures
            match r {
                Ok(o) => parse_env_spec::<T>(w@) == Option::Some(o.value@),
                Err(_) => parse_env_spec::<T>(w@) is None,
            },
            label_tag_mismatch::<T>(w@) ==> (r matches Err(e) && e matches
                WireError::LabelMismatch(m) && m.expected@ == T::type_tag_spec()->Str_0
                && m.found@ == w@->Obj_0[0].1->Str_0),
    {
        match deserialize::<T>(w) {
            Ok(value) => Ok(Object { value }),
            Err(e) => Err(e),
        }
    }
}

} // verus!
