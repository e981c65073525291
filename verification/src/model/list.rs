//! The typed-list codec: variable-length sequences encoded as
//! right-nested two-branch records.
//!
//! On the wire a list is a linked structure: a non-empty list is a record
//! with an element entry (the head, in its envelope) and a remainder entry
//! (the enveloped encoding of the tail); the empty list is the empty
//! record. Depth therefore equals length, and both the encoder and the
//! decoder work iteratively rather than by recursion.

use vstd::prelude::*;

use crate::model::object::WireError;
use crate::model::object::ZObject;
use crate::model::object::env_view;
use crate::model::object::lemma_envelope_round_trip;
use crate::model::object::parse_env_spec;
use crate::model::object::deserialize;
use crate::model::object::serialize;
use crate::wire::Wire;
use crate::wire::WireV;
use crate::wire::entries_size;
use crate::wire::entries_view;
use crate::wire::lemma_entries_size_index;
use crate::wire::lemma_entries_size_skip;
use crate::wire::lemma_entries_view_all;
use crate::wire::lemma_entries_view_concat;
use crate::wire::string_eq_str;
use crate::wire::wire_eq;
use crate::wire::wire_view;
use vstd::slice::slice_subrange;

verus! {

/// The descriptor of a list whose elements are of type `T`: a
/// function-call record applying the list constructor to `T`'s own
/// descriptor.
pub open spec fn list_tag_spec<T: ZObject>() -> WireV {
    WireV::Obj(
        seq![
            (
                "Z1K1"@,
                WireV::Obj(seq![("Z1K1"@, WireV::Str("Z9"@)), ("Z9K1"@, WireV::Str("Z7"@))]),
            ),
            (
                "Z7K1"@,
                WireV::Obj(seq![("Z1K1"@, WireV::Str("Z9"@)), ("Z9K1"@, WireV::Str("Z881"@))]),
            ),
            ("Z881K1"@, WireV::Obj(seq![("Z1K1"@, WireV::Str("Z9"@)), ("Z9K1"@, T::type_tag_spec())])),
        ],
    )
}

/// One level of the encoded list, without its own tag entry: empty for
/// the empty list; else the element entry holding the head's envelope,
/// then the remainder entry holding the tagged encoding of the tail.
pub open spec fn list_fields_spec<T: ZObject>(elems: Seq<T::V>) -> Seq<(Seq<char>, WireV)>
    decreases elems.len(),
{
    if elems.len() == 0 {
        Seq::empty()
    } else {
        seq![
            ("K1"@, env_view::<T>(elems[0])),
            (
                "K2"@,
                WireV::Obj(
                    seq![("Z1K1"@, list_tag_spec::<T>())] + list_fields_spec::<T>(
                        elems.drop_first(),
                    ),
                ),
            ),
        ]
    }
}

/// Reads a list's elements from one level's fields, the level's own tag
/// entry already consumed; `None` on any structural mismatch.
pub open spec fn parse_list_fields_spec<T: ZObject>(
    fields: Seq<(Seq<char>, WireV)>,
) -> Option<Seq<T::V>>
    decreases entries_size(fields),
{
    if fields.len() == 0 {
        Option::Some(Seq::empty())
    } else if fields.len() == 2 && fields[0].0 == "K1"@ && fields[1].0 == "K2"@ {
        match parse_env_spec::<T>(fields[0].1) {
            Option::None => Option::None,
            Option::Some(head) => {
                let k2 = fields[1].1;
                if k2 is Obj && k2->Obj_0.len() >= 1 && k2->Obj_0[0].0 == "Z1K1"@
                    && k2->Obj_0[0].1 == list_tag_spec::<T>() {
                    proof {
                        lemma_entries_size_index(fields, 1);
                        lemma_entries_size_skip(k2->Obj_0, 1);
                        assert(k2->Obj_0.drop_first() =~= k2->Obj_0.skip(1));
                    }
                    match parse_list_fields_spec::<T>(k2->Obj_0.drop_first()) {
                        Option::None => Option::None,
                        Option::Some(tail) => Option::Some(seq![head] + tail),
                    }
                } else {
                    Option::None
                }
            },
        }
    } else {
        Option::None
    }
}

/// Encoding then decoding a list's elements yields them back unchanged.
pub proof fn lemma_list_round_trip<T: ZObject>(elems: Seq<T::V>)
    ensures
        parse_list_fields_spec::<T>(list_fields_spec::<T>(elems)) == Option::Some(elems),
    decreases elems.len(),
{
    if elems.len() == 0 {
        assert(parse_list_fields_spec::<T>(list_fields_spec::<T>(elems)) == Option::Some(
            Seq::<T::V>::empty(),
        ));
        assert(Seq::<T::V>::empty() =~= elems);
    } else {
        lemma_envelope_round_trip::<T>(elems[0]);
        lemma_list_round_trip::<T>(elems.drop_first());
        let fields = list_fields_spec::<T>(elems);
        let k2 = fields[1].1;
        assert(k2->Obj_0.drop_first() =~= list_fields_spec::<T>(elems.drop_first()));
        assert(seq![elems[0]] + elems.drop_first() =~= elems);
    }
}

/// An ordered sequence of typed elements, owning them.
#[derive(Debug, PartialEq, Eq)]
pub struct TypedList<T: ZObject> {
    pub inner: Vec<T>,
}

impl<T: ZObject> View for TypedList<T> {
    type V = Seq<T::V>;

    open spec fn view(&self) -> Seq<T::V> {
        self.inner@.map_values(|t: T| t@)
    }
}

impl<T: ZObject> ZObject for TypedList<T> {
    open spec fn type_tag_spec() -> WireV {
        list_tag_spec::<T>()
    }

    open spec fn fields_spec(v: Seq<T::V>) -> Seq<(Seq<char>, WireV)> {
        list_fields_spec::<T>(v)
    }

    open spec fn parse_fields_spec(fields: Seq<(Seq<char>, WireV)>) -> Option<Seq<T::V>> {
        parse_list_fields_spec::<T>(fields)
    }

    proof fn lemma_parse_of_fields(v: Seq<T::V>) {
        lemma_list_round_trip::<T>(v);
    }

    fn type_tag() -> (w: Wire) {
        let mut call_ref: Vec<(String, Wire)> = Vec::new();
        call_ref.push(("Z1K1".to_owned(), Wire::str_of("Z9")));
        call_ref.push(("Z9K1".to_owned(), Wire::str_of("Z7")));
        let mut ctor_ref: Vec<(String, Wire)> = Vec::new();
        ctor_ref.push(("Z1K1".to_owned(), Wire::str_of("Z9")));
        ctor_ref.push(("Z9K1".to_owned(), Wire::str_of("Z881")));
        let mut elem_ref: Vec<(String, Wire)> = Vec::new();
        elem_ref.push(("Z1K1".to_owned(), Wire::str_of("Z9")));
        elem_ref.push(("Z9K1".to_owned(), T::type_tag()));
        let mut tag: Vec<(String, Wire)> = Vec::new();
        tag.push(("Z1K1".to_owned(), Wire::Obj(call_ref)));
        tag.push(("Z7K1".to_owned(), Wire::Obj(ctor_ref)));
        tag.push(("Z881K1".to_owned(), Wire::Obj(elem_ref)));
        let w = Wire::Obj(tag);
        proof {
            lemma_entries_view_all(tag@);
            lemma_entries_view_all(tag@[0].1->Obj_0@);
            lemma_entries_view_all(tag@[1].1->Obj_0@);
            lemma_entries_view_all(tag@[2].1->Obj_0@);
            assert(wire_view(tag@[0].1)->Obj_0 =~= seq![
                ("Z1K1"@, WireV::Str("Z9"@)),
                ("Z9K1"@, WireV::Str("Z7"@)),
            ]);
            assert(wire_view(tag@[1].1)->Obj_0 =~= seq![
                ("Z1K1"@, WireV::Str("Z9"@)),
                ("Z9K1"@, WireV::Str("Z881"@)),
            ]);
            assert(wire_view(tag@[2].1)->Obj_0 =~= seq![
                ("Z1K1"@, WireV::Str("Z9"@)),
                ("Z9K1"@, T::type_tag_spec()),
            ]);
            assert(w@->Obj_0 =~= list_tag_spec::<T>()->Obj_0);
            assert(w@ =~= list_tag_spec::<T>());
        }
        w
    }

    fn to_fields(&self) -> (r: Vec<(String, Wire)>) {
        let n = self.inner.len();
        let mut acc: Vec<(String, Wire)> = Vec::new();
        let mut i: usize = n;
        proof {
            assert(self@.skip(n as int) =~= Seq::empty());
            assert(entries_view(acc@) =~= Seq::empty());
        }
        while i > 0
            invariant
                0 <= i <= n,
                n == self.inner.len(),
                entries_view(acc@) == list_fields_spec::<T>(self@.skip(i as int)),
            decreases i,
        {
            i = i - 1;
            let head_env = serialize::<T>(&self.inner[i]);
            let tag = Self::type_tag();
            let mut level: Vec<(String, Wire)> = Vec::new();
            level.push(("Z1K1".to_owned(), tag));
            let ghost level_head = level@;
            let ghost acc_old = acc@;
            let mut moved = acc;
            level.append(&mut moved);
            let mut next: Vec<(String, Wire)> = Vec::new();
            next.push(("K1".to_owned(), head_env));
            next.push(("K2".to_owned(), Wire::Obj(level)));
            proof {
                lemma_entries_view_concat(level_head, acc_old);
                lemma_entries_view_all(level_head);
                assert(entries_view(level_head) =~= seq![("Z1K1"@, list_tag_spec::<T>())]);
                lemma_entries_view_all(next@);
                assert(self@[i as int] == self.inner@[i as int]@);
                assert(self@.skip(i as int).len() == n - i);
                assert(self@.skip(i as int)[0] == self@[i as int]);
                assert(self@.skip(i as int).drop_first() =~= self@.skip(i as int + 1));
                assert(entries_view(next@) =~= list_fields_spec::<T>(self@.skip(i as int)));
            }
            acc = next;
        }
        proof {
            assert(self@.skip(0) =~= self@);
        }
        acc
    }

    fn from_fields(fields: &[(String, Wire)]) -> (r: Result<Self, WireError>) {
        let mut visitor: TypedListVisitor<T> = TypedListVisitor {
            entries: Vec::new(),
            expecting_type: false,
        };
        let mut cur: &[(String, Wire)] = fields;
        proof {
            assert(visitor.entries@.map_values(|t: T| t@) =~= Seq::<T::V>::empty());
        }
        loop
            invariant
                ({
                    let full = parse_list_fields_spec::<T>(entries_view(fields@));
                    let rest = visitor_rest_spec::<T>(visitor.expecting_type, entries_view(cur@));
                    &&& rest is Some ==> full == Option::Some(
                        visitor.entries@.map_values(|t: T| t@) + rest->Some_0,
                    )
                    &&& rest is None ==> full is None
                }),
            decreases entries_size(entries_view(cur@)) + (if visitor.expecting_type {
                1int
            } else {
                0int
            }),
        {
            proof {
                lemma_entries_view_all(cur@);
            }
            if visitor.expecting_type {
                if cur.len() == 0 {
                    return Err(WireError::ExpectedTypeTag);
                }
                if !string_eq_str(&cur[0].0, "Z1K1") {
                    return Err(WireError::ExpectedTypeTag);
                }
                let tag = Self::type_tag();
                if !wire_eq(&cur[0].1, &tag) {
                    return Err(WireError::WrongTypeTag);
                }
                visitor.expecting_type = false;
                let next = slice_subrange(cur, 1, cur.len());
                proof {
                    assert(next@ =~= cur@.drop_first());
                    assert(entries_view(cur@).drop_first() =~= entries_view(next@));
                    lemma_entries_size_skip(entries_view(cur@), 1);
                    assert(entries_view(cur@).drop_first() =~= entries_view(cur@).skip(1));
                }
                cur = next;
            } else {
                if cur.len() == 0 {
                    let list = TypedList { inner: visitor.entries };
                    proof {
                        assert(entries_view(cur@) =~= Seq::empty());
                        assert(list@ + Seq::<T::V>::empty() =~= list@);
                    }
                    return Ok(list);
                }
                if cur.len() != 2 {
                    return Err(WireError::BadFields);
                }
                if !string_eq_str(&cur[0].0, "K1") {
                    return Err(WireError::ExpectedElement);
                }
                if !string_eq_str(&cur[1].0, "K2") {
                    return Err(WireError::ExpectedRemainder);
                }
                let head = match deserialize::<T>(&cur[0].1) {
                    Ok(h) => h,
                    Err(e) => {
                        return Err(e);
                    },
                };
                match &cur[1].1 {
                    Wire::Str(_) => {
                        return Err(WireError::ExpectedTypeTag);
                    },
                    Wire::Obj(inner) => {
                        let ghost out_old = visitor.entries@;
                        let ghost cur_old = cur@;
                        visitor.entries.push(head);
                        visitor.expecting_type = true;
                        let next = inner.as_slice();
                        proof {
                            lemma_entries_view_all(inner@);
                            let evc = entries_view(cur_old);
                            let evi = entries_view(inner@);
                            assert(evc[1].1 == WireV::Obj(evi));
                            lemma_entries_size_index(evc, 1);
                            assert(entries_size(evi) + 1 < entries_size(evc) + 1);
                            assert(visitor.entries@.map_values(|t: T| t@) =~= out_old.map_values(
                                |t: T| t@,
                            ) + seq![head@]);
                            let rest_old = parse_list_fields_spec::<T>(evc);
                            let rest_new = visitor_rest_spec::<T>(true, evi);
                            if rest_new is Some {
                                assert(rest_old == Option::Some(seq![head@] + rest_new->Some_0));
                                assert(out_old.map_values(|t: T| t@) + (seq![head@]
                                    + rest_new->Some_0) =~= visitor.entries@.map_values(|t: T| t@)
                                    + rest_new->Some_0);
                            }
                        }
                        cur = next;
                    },
                }
            }
        }
    }
}

/// The decode protocol's working state: the elements read so far, and
/// whether the entry owed next is the level's own type tag.
pub struct TypedListVisitor<T: ZObject> {
    pub entries: Vec<T>,
    pub expecting_type: bool,
}

/// What remains to be read at the decoder's cursor: with the tag owed,
/// the level must open with the tag entry before its fields; with the
/// tag consumed, the fields themselves.
pub open spec fn visitor_rest_spec<T: ZObject>(
    expecting_type: bool,
    fields: Seq<(Seq<char>, WireV)>,
) -> Option<Seq<T::V>> {
    if expecting_type {
        if fields.len() >= 1 && fields[0].0 == "Z1K1"@ && fields[0].1 == list_tag_spec::<T>() {
            parse_list_fields_spec::<T>(fields.drop_first())
        } else {
            Option::None
        }
    } else {
        parse_list_fields_spec::<T>(fields)
    }
}

} // verus!
