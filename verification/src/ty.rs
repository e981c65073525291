//! Argument type dispatch: inspecting a wire type descriptor to pick the
//! decoder for an argument value.

use vstd::prelude::*;

use crate::runtime::Value;
use crate::wire::Wire;
use crate::wire::WireV;
use crate::wire::lemma_entries_view_all;
use crate::wire::spec_get;
use crate::wire::string_eq_str;
use crate::wire::wire_eq;

verus! {

/// The wire types the invoker can dispatch on when decoding arguments.
/// Today only the string leaf has a decoder wired.
#[derive(Debug, Clone, Copy, PartialEq, Eq, Structural)]
pub enum Type {
    String,
    /// The unit value.
    Unit,
    Boolean,
    List,
    Pair,
    TypedMap,
}

/// The descriptor tag of a function-call object: a reference to the
/// call type.
pub open spec fn call_tag_view() -> WireV {
    WireV::Obj(seq![("Z1K1"@, WireV::Str("Z9"@)), ("Z9K1"@, WireV::Str("Z7"@))])
}

/// Reads a type descriptor: the string identifier names the string
/// type; a reference to the unit names the unit; a function-call record
/// names the list or pair constructor by its call target.
pub open spec fn spec_type_of(w: WireV) -> Option<Type> {
    if w is Str {
        if w->Str_0 == "Z6"@ {
            Option::Some(Type::String)
        } else {
            Option::None
        }
    } else {
        match spec_get(w->Obj_0, "Z1K1"@) {
            Option::None => Option::None,
            Option::Some(tag) => if tag is Str {
                if tag->Str_0 == "Z9"@ {
                    match spec_get(w->Obj_0, "Z9K1"@) {
                        Option::Some(id) => if id is Str && id->Str_0 == "Z21"@ {
                            Option::Some(Type::Unit)
                        } else {
                            Option::None
                        },
                        Option::None => Option::None,
                    }
                } else {
                    Option::None
                }
            } else {
                if tag == call_tag_view() {
                    match spec_get(w->Obj_0, "Z7K1"@) {
                        Option::Some(target) => if target is Obj {
                            match spec_get(target->Obj_0, "Z9K1"@) {
                                Option::Some(id) => if id is Str && id->Str_0 == "Z881"@ {
                                    Option::Some(Type::List)
                                } else if id is Str && id->Str_0 == "Z882"@ {
                                    Option::Some(Type::Pair)
                                } else {
                                    Option::None
                                },
                                Option::None => Option::None,
                            }
                        } else {
                            Option::None
                        },
                        Option::None => Option::None,
                    }
                } else {
                    Option::None
                }
            },
        }
    }
}

/// The value text an argument of a given type carries: today only the
/// string type is wired, reading the text field of the string record.
pub open spec fn spec_to_value(t: Type, w: WireV) -> Option<Seq<char>> {
    if t == Type::String {
        if w is Obj {
            match spec_get(w->Obj_0, "Z6K1"@) {
                Option::Some(v) => if v is Str {
                    Option::Some(v->Str_0)
                } else {
                    Option::None
                },
                Option::None => Option::None,
            }
        } else {
            Option::None
        }
    } else {
        Option::None
    }
}

/// Builds the function-call descriptor tag.
fn call_tag() -> (w: Wire)
    ensures
        w@ == call_tag_view(),
{
    let mut entries: Vec<(String, Wire)> = Vec::new();
    entries.push(("Z1K1".to_owned(), Wire::str_of("Z9")));
    entries.push(("Z9K1".to_owned(), Wire::str_of("Z7")));
    let w = Wire::Obj(entries);
    proof {
        lemma_entries_view_all(entries@);
        assert(w@->Obj_0 =~= call_tag_view()->Obj_0);
        assert(w@ =~= call_tag_view());
    }
    w
}

impl Type {
    /// Reads a type descriptor off the wire, exactly as the model
    /// dispatch does.
    pub fn from_json(w: &Wire) -> (r: Option<Type>)
        ensures
            r == spec_type_of(w@),
    {
        match w {
            Wire::Str(s) => {
                if string_eq_str(s, "Z6") {
                    Option::Some(Type::String)
                } else {
                    Option::None
                }
            },
            Wire::Obj(_) => {
                let tag = match w.get("Z1K1") {
                    Option::Some(t) => t,
                    Option::None => {
                        return Option::None;
                    },
                };
                match tag {
                    Wire::Str(ty) => {
                        if !string_eq_str(ty, "Z9") {
                            return Option::None;
                        }
                        match w.get("Z9K1") {
                            Option::Some(id_wire) => match id_wire {
                                Wire::Str(id) => {
                                    if string_eq_str(id, "Z21") {
                                        Option::Some(Type::Unit)
                                    } else {
                                        Option::None
                                    }
                                },
                                Wire::Obj(_) => Option::None,
                            },
                            Option::None => Option::None,
                        }
                    },
                    Wire::Obj(_) => {
                        let expected = call_tag();
                        if !wire_eq(tag, &expected) {
                            return Option::None;
                        }
                        let target = match w.get("Z7K1") {
                            Option::Some(t) => t,
                            Option::None => {
                                return Option::None;
                            },
                        };
                        match target {
                            Wire::Str(_) => Option::None,
                            Wire::Obj(_) => match target.get("Z9K1") {
                                Option::Some(id_wire) => match id_wire {
                                    Wire::Str(id) => {
                                        if string_eq_str(id, "Z881") {
                                            Option::Some(Type::List)
                                        } else if string_eq_str(id, "Z882") {
                                            Option::Some(Type::Pair)
                                        } else {
                                            Option::None
                                        }
                                    },
                                    Wire::Obj(_) => Option::None,
                                },
                                Option::None => Option::None,
                            },
                        }
                    },
                }
            },
        }
    }

    /// Decodes an argument value of this type into a runtime value:
    /// wired for the string type, whose record carries its text.
    pub fn to_value(self, v: &Wire) -> (r: Option<Value>)
        ensures
            match r {
                Option::Some(val) => spec_to_value(self, v@) == Option::Some(val@),
                Option::None => spec_to_value(self, v@) is None,
            },
    {
        match self {
            Type::String => match v.get("Z6K1") {
                Option::Some(text) => match text {
                    Wire::Str(s) => Option::Some(Value::String(s.clone())),
                    Wire::Obj(_) => Option::None,
                },
                Option::None => Option::None,
            },
            _ => Option::None,
        }
    }
}

} // verus!
