//! The typed object catalog: the concrete record shapes that travel on
//! the wire, each with its envelope descriptor and field layout.

use vstd::prelude::*;

pub mod list;
pub mod object;

use self::list::TypedList;

use crate::wire::Wire;
use crate::wire::WireV;
use crate::wire::entries_view;
use crate::wire::lemma_entries_view_all;
use crate::wire::lemma_entries_view_index;
use crate::wire::lemma_entries_view_len;
use crate::wire::string_eq_str;
use crate::wire::wire_view;

use crate::label::LabelMismatch;

use self::object::WireError;
use self::object::ZObject;
use self::object::deserialize;
use self::object::env_view;
use self::object::lemma_envelope_round_trip;
use self::object::parse_env_spec;
use self::object::serialize;

verus! {

/// A string payload: a record with the single field holding the text.
#[derive(Debug, PartialEq, Eq)]
pub struct ZString {
    pub value: String,
}

impl View for ZString {
    type V = Seq<char>;

    open spec fn view(&self) -> Seq<char> {
        self.value@
    }
}

impl ZString {
    /// Builds a string payload from a string slice.
    pub fn from_str_slice(value: &str) -> (r: ZString)
        ensures
            r@ == value@,
    {
        ZString { value: value.to_owned() }
    }
}

impl ZObject for ZString {
    open spec fn type_tag_spec() -> WireV {
        WireV::Str("Z6"@)
    }

    open spec fn fields_spec(v: Seq<char>) -> Seq<(Seq<char>, WireV)> {
        seq![("Z6K1"@, WireV::Str(v))]
    }

    open spec fn parse_fields_spec(fields: Seq<(Seq<char>, WireV)>) -> Option<Seq<char>> {
        if fields.len() == 1 && fields[0].0 == "Z6K1"@ && fields[0].1 is Str {
            Option::Some(fields[0].1->Str_0)
        } else {
            Option::None
        }
    }

    proof fn lemma_parse_of_fields(v: Seq<char>) {
    }

    fn type_tag() -> (w: Wire) {
        Wire::str_of("Z6")
    }

    fn to_fields(&self) -> (r: Vec<(String, Wire)>) {
        let mut fields: Vec<(String, Wire)> = Vec::new();
        fields.push(("Z6K1".to_owned(), Wire::Str(self.value.clone())));
        proof {
            assert(fields@.len() == 1);
            assert(fields@[0].0@ == "Z6K1"@);
            assert(wire_view(fields@[0].1) == WireV::Str(self.value@));
            assert(fields@.drop_first().len() == 0);
            assert(entries_view(fields@.drop_first()) =~= Seq::empty());
            assert(entries_view(fields@) =~= seq![("Z6K1"@, WireV::Str(self.value@))]);
        }
        fields
    }

    fn from_fields(fields: &[(String, Wire)]) -> (r: Result<Self, WireError>) {
        proof {
            lemma_entries_view_len(fields@);
        }
        if fields.len() != 1 {
            return Err(WireError::BadFields);
        }
        proof {
            lemma_entries_view_index(fields@, 0);
        }
        if !string_eq_str(&fields[0].0, "Z6K1") {
            return Err(WireError::BadFields);
        }
        match &fields[0].1 {
            Wire::Str(s) => Ok(ZString { value: s.clone() }),
            Wire::Obj(_) => Err(WireError::BadFields),
        }
    }
}

/// A reference payload: names another wire object by its identifier.
/// The identifier is carried as it stands; where a context demands one
/// fixed referent (the unit, say), the caller holds the decoded value
/// to it with `expect_id`, which names both sides on a mismatch.
#[derive(Debug, PartialEq, Eq)]
pub struct Reference {
    pub id: String,
}

impl View for Reference {
    type V = Seq<char>;

    open spec fn view(&self) -> Seq<char> {
        self.id@
    }
}

impl Reference {
    /// Checks that this reference names the given identifier, as the
    /// typed reference forms require: succeeds exactly on that
    /// identifier; a mismatch names both the expected and the found.
    pub fn expect_id(&self, id: &str) -> (r: Result<(), LabelMismatch>)
        ensures
            r is Ok <==> self.id@ == id@,
            r matches Err(e) ==> e.expected@ == id@ && e.found@ == self.id@,
    {
        if string_eq_str(&self.id, id) {
            Ok(())
        } else {
            Err(LabelMismatch { expected: id.to_owned(), found: self.id.clone() })
        }
    }
}

impl ZObject for Reference {
    open spec fn type_tag_spec() -> WireV {
        WireV::Str("Z9"@)
    }

    open spec fn fields_spec(v: Seq<char>) -> Seq<(Seq<char>, WireV)> {
        seq![("Z9K1"@, WireV::Str(v))]
    }

    open spec fn parse_fields_spec(fields: Seq<(Seq<char>, WireV)>) -> Option<Seq<char>> {
        if fields.len() == 1 && fields[0].0 == "Z9K1"@ && fields[0].1 is Str {
            Option::Some(fields[0].1->Str_0)
        } else {
            Option::None
        }
    }

    proof fn lemma_parse_of_fields(v: Seq<char>) {
    }

    fn type_tag() -> (w: Wire) {
        Wire::str_of("Z9")
    }

    fn to_fields(&self) -> (r: Vec<(String, Wire)>) {
        let mut fields: Vec<(String, Wire)> = Vec::new();
        fields.push(("Z9K1".to_owned(), Wire::Str(self.id.clone())));
        proof {
            assert(fields@.len() == 1);
            assert(fields@[0].0@ == "Z9K1"@);
            assert(wire_view(fields@[0].1) == WireV::Str(self.id@));
            assert(fields@.drop_first().len() == 0);
            assert(entries_view(fields@.drop_first()) =~= Seq::empty());
            assert(entries_view(fields@) =~= seq![("Z9K1"@, WireV::Str(self.id@))]);
        }
        fields
    }

    fn from_fields(fields: &[(String, Wire)]) -> (r: Result<Self, WireError>) {
        proof {
            lemma_entries_view_len(fields@);
        }
        if fields.len() != 1 {
            return Err(WireError::BadFields);
        }
        proof {
            lemma_entries_view_index(fields@, 0);
        }
        if !string_eq_str(&fields[0].0, "Z9K1") {
            return Err(WireError::BadFields);
        }
        match &fields[0].1 {
            Wire::Str(s) => Ok(Reference { id: s.clone() }),
            Wire::Obj(_) => Err(WireError::BadFields),
        }
    }
}

/// The enveloped reference descriptor naming a type by its identifier.
pub open spec fn ref_tag_view(id: Seq<char>) -> WireV {
    WireV::Obj(seq![("Z1K1"@, WireV::Str("Z9"@)), ("Z9K1"@, WireV::Str(id))])
}

/// Builds the enveloped reference descriptor for a type identifier.
pub fn ref_tag(id: &str) -> (w: Wire)
    ensures
        w@ == ref_tag_view(id@),
{
    let mut entries: Vec<(String, Wire)> = Vec::new();
    entries.push(("Z1K1".to_owned(), Wire::str_of("Z9")));
    entries.push(("Z9K1".to_owned(), Wire::str_of(id)));
    let w = Wire::Obj(entries);
    proof {
        lemma_entries_view_all(entries@);
        assert(w@->Obj_0 =~= ref_tag_view(id@)->Obj_0);
        assert(w@ =~= ref_tag_view(id@));
    }
    w
}

/// A pair payload: two enveloped values side by side.
#[derive(Debug, PartialEq, Eq)]
pub struct Pair<A: ZObject, B: ZObject> {
    pub left: A,
    pub right: B,
}

impl<A: ZObject, B: ZObject> View for Pair<A, B> {
    type V = (A::V, B::V);

    open spec fn view(&self) -> (A::V, B::V) {
        (self.left@, self.right@)
    }
}

impl<A: ZObject, B: ZObject> ZObject for Pair<A, B> {
    open spec fn type_tag_spec() -> WireV {
        ref_tag_view("Z22"@)
    }

    open spec fn fields_spec(v: (A::V, B::V)) -> Seq<(Seq<char>, WireV)> {
        seq![("Z22K1"@, env_view::<A>(v.0)), ("Z22K2"@, env_view::<B>(v.1))]
    }

    open spec fn parse_fields_spec(fields: Seq<(Seq<char>, WireV)>) -> Option<(A::V, B::V)> {
        if fields.len() == 2 && fields[0].0 == "Z22K1"@ && fields[1].0 == "Z22K2"@ {
            match parse_env_spec::<A>(fields[0].1) {
                Option::Some(a) => match parse_env_spec::<B>(fields[1].1) {
                    Option::Some(b) => Option::Some((a, b)),
                    Option::None => Option::None,
                },
                Option::None => Option::None,
            }
        } else {
            Option::None
        }
    }

    proof fn lemma_parse_of_fields(v: (A::V, B::V)) {
        lemma_envelope_round_trip::<A>(v.0);
        lemma_envelope_round_trip::<B>(v.1);
    }

    fn type_tag() -> (w: Wire) {
        ref_tag("Z22")
    }

    fn to_fields(&self) -> (r: Vec<(String, Wire)>) {
        let mut fields: Vec<(String, Wire)> = Vec::new();
        fields.push(("Z22K1".to_owned(), serialize(&self.left)));
        fields.push(("Z22K2".to_owned(), serialize(&self.right)));
        proof {
            lemma_entries_view_all(fields@);
            assert(entries_view(fields@) =~= Self::fields_spec(self@));
        }
        fields
    }

    fn from_fields(fields: &[(String, Wire)]) -> (r: Result<Self, WireError>) {
        proof {
            lemma_entries_view_all(fields@);
        }
        if fields.len() != 2 {
            return Err(WireError::BadFields);
        }
        if !string_eq_str(&fields[0].0, "Z22K1") {
            return Err(WireError::BadFields);
        }
        if !string_eq_str(&fields[1].0, "Z22K2") {
            return Err(WireError::BadFields);
        }
        let left = match deserialize::<A>(&fields[0].1) {
            Ok(a) => a,
            Err(e) => {
                return Err(e);
            },
        };
        let right = match deserialize::<B>(&fields[1].1) {
            Ok(b) => b,
            Err(e) => {
                return Err(e);
            },
        };
        Ok(Pair { left, right })
    }
}

/// A programming-language payload: the language's code string.
#[derive(Debug, PartialEq, Eq)]
pub struct ProgrammingLanguage {
    pub code: ZString,
}

impl View for ProgrammingLanguage {
    type V = Seq<char>;

    open spec fn view(&self) -> Seq<char> {
        self.code@
    }
}

impl ZObject for ProgrammingLanguage {
    open spec fn type_tag_spec() -> WireV {
        ref_tag_view("Z61"@)
    }

    open spec fn fields_spec(v: Seq<char>) -> Seq<(Seq<char>, WireV)> {
        seq![("Z61K1"@, env_view::<ZString>(v))]
    }

    open spec fn parse_fields_spec(fields: Seq<(Seq<char>, WireV)>) -> Option<Seq<char>> {
        if fields.len() == 1 && fields[0].0 == "Z61K1"@ {
            parse_env_spec::<ZString>(fields[0].1)
        } else {
            Option::None
        }
    }

    proof fn lemma_parse_of_fields(v: Seq<char>) {
        lemma_envelope_round_trip::<ZString>(v);
    }

    fn type_tag() -> (w: Wire) {
        ref_tag("Z61")
    }

    fn to_fields(&self) -> (r: Vec<(String, Wire)>) {
        let mut fields: Vec<(String, Wire)> = Vec::new();
        fields.push(("Z61K1".to_owned(), serialize(&self.code)));
        proof {
            lemma_entries_view_all(fields@);
            assert(entries_view(fields@) =~= Self::fields_spec(self@));
        }
        fields
    }

    fn from_fields(fields: &[(String, Wire)]) -> (r: Result<Self, WireError>) {
        proof {
            lemma_entries_view_all(fields@);
        }
        if fields.len() != 1 {
            return Err(WireError::BadFields);
        }
        if !string_eq_str(&fields[0].0, "Z61K1") {
            return Err(WireError::BadFields);
        }
        match deserialize::<ZString>(&fields[0].1) {
            Ok(code) => Ok(ProgrammingLanguage { code }),
            Err(e) => Err(e),
        }
    }
}

/// A code payload: the language it is written in, and the source text.
#[derive(Debug, PartialEq, Eq)]
pub struct Code {
    pub language: ProgrammingLanguage,
    pub code: ZString,
}

impl View for Code {
    type V = (Seq<char>, Seq<char>);

    open spec fn view(&self) -> (Seq<char>, Seq<char>) {
        (self.language@, self.code@)
    }
}

impl ZObject for Code {
    open spec fn type_tag_spec() -> WireV {
        ref_tag_view("Z16"@)
    }

    open spec fn fields_spec(v: (Seq<char>, Seq<char>)) -> Seq<(Seq<char>, WireV)> {
        seq![
            ("Z16K1"@, env_view::<ProgrammingLanguage>(v.0)),
            ("Z16K2"@, env_view::<ZString>(v.1)),
        ]
    }

    open spec fn parse_fields_spec(fields: Seq<(Seq<char>, WireV)>) -> Option<
        (Seq<char>, Seq<char>),
    > {
        if fields.len() == 2 && fields[0].0 == "Z16K1"@ && fields[1].0 == "Z16K2"@ {
            match parse_env_spec::<ProgrammingLanguage>(fields[0].1) {
                Option::Some(lang) => match parse_env_spec::<ZString>(fields[1].1) {
                    Option::Some(text) => Option::Some((lang, text)),
                    Option::None => Option::None,
                },
                Option::None => Option::None,
            }
        } else {
            Option::None
        }
    }

    proof fn lemma_parse_of_fields(v: (Seq<char>, Seq<char>)) {
        lemma_envelope_round_trip::<ProgrammingLanguage>(v.0);
        lemma_envelope_round_trip::<ZString>(v.1);
    }

    fn type_tag() -> (w: Wire) {
        ref_tag("Z16")
    }

    fn to_fields(&self) -> (r: Vec<(String, Wire)>) {
        let mut fields: Vec<(String, Wire)> = Vec::new();
        fields.push(("Z16K1".to_owned(), serialize(&self.language)));
        fields.push(("Z16K2".to_owned(), serialize(&self.code)));
        proof {
            lemma_entries_view_all(fields@);
            assert(entries_view(fields@) =~= Self::fields_spec(self@));
        }
        fields
    }

    fn from_fields(fields: &[(String, Wire)]) -> (r: Result<Self, WireError>) {
        proof {
            lemma_entries_view_all(fields@);
        }
        if fields.len() != 2 {
            return Err(WireError::BadFields);
        }
        if !string_eq_str(&fields[0].0, "Z16K1") {
            return Err(WireError::BadFields);
        }
        if !string_eq_str(&fields[1].0, "Z16K2") {
            return Err(WireError::BadFields);
        }
        let language = match deserialize::<ProgrammingLanguage>(&fields[0].1) {
            Ok(l) => l,
            Err(e) => {
                return Err(e);
            },
        };
        match deserialize::<ZString>(&fields[1].1) {
            Ok(code) => Ok(Code { language, code }),
            Err(e) => Err(e),
        }
    }
}

/// A natural-language payload: the language code and its aliases.
#[derive(Debug, PartialEq, Eq)]
pub struct NaturalLanguage {
    pub code: ZString,
    pub code_aliases: TypedList<ZString>,
}

impl View for NaturalLanguage {
    type V = (Seq<char>, Seq<Seq<char>>);

    open spec fn view(&self) -> (Seq<char>, Seq<Seq<char>>) {
        (self.code@, self.code_aliases@)
    }
}

impl ZObject for NaturalLanguage {
    open spec fn type_tag_spec() -> WireV {
        ref_tag_view("Z60"@)
    }

    open spec fn fields_spec(v: (Seq<char>, Seq<Seq<char>>)) -> Seq<(Seq<char>, WireV)> {
        seq![
            ("Z60K1"@, env_view::<ZString>(v.0)),
            ("Z60K2"@, env_view::<TypedList<ZString>>(v.1)),
        ]
    }

    open spec fn parse_fields_spec(fields: Seq<(Seq<char>, WireV)>) -> Option<
        (Seq<char>, Seq<Seq<char>>),
    > {
        if fields.len() == 2 && fields[0].0 == "Z60K1"@ && fields[1].0 == "Z60K2"@ {
            match parse_env_spec::<ZString>(fields[0].1) {
                Option::Some(code) => match parse_env_spec::<TypedList<ZString>>(fields[1].1) {
                    Option::Some(aliases) => Option::Some((code, aliases)),
                    Option::None => Option::None,
                },
                Option::None => Option::None,
            }
        } else {
            Option::None
        }
    }

    proof fn lemma_parse_of_fields(v: (Seq<char>, Seq<Seq<char>>)) {
        lemma_envelope_round_trip::<ZString>(v.0);
        lemma_envelope_round_trip::<TypedList<ZString>>(v.1);
    }

    fn type_tag() -> (w: Wire) {
        ref_tag("Z60")
    }

    fn to_fields(&self) -> (r: Vec<(String, Wire)>) {
        let mut fields: Vec<(String, Wire)> = Vec::new();
        fields.push(("Z60K1".to_owned(), serialize(&self.code)));
        fields.push(("Z60K2".to_owned(), serialize(&self.code_aliases)));
        proof {
            lemma_entries_view_all(fields@);
            assert(entries_view(fields@) =~= Self::fields_spec(self@));
        }
        fields
    }

    fn from_fields(fields: &[(String, Wire)]) -> (r: Result<Self, WireError>) {
        proof {
            lemma_entries_view_all(fields@);
        }
        if fields.len() != 2 {
            return Err(WireError::BadFields);
        }
        if !string_eq_str(&fields[0].0, "Z60K1") {
            return Err(WireError::BadFields);
        }
        if !string_eq_str(&fields[1].0, "Z60K2") {
            return Err(WireError::BadFields);
        }
        let code = match deserialize::<ZString>(&fields[0].1) {
            Ok(c) => c,
            Err(e) => {
                return Err(e);
            },
        };
        match deserialize::<TypedList<ZString>>(&fields[1].1) {
            Ok(code_aliases) => Ok(NaturalLanguage { code, code_aliases }),
            Err(e) => Err(e),
        }
    }
}

/// A monolingual text payload: a text together with its language.
#[derive(Debug, PartialEq, Eq)]
pub struct MonolingualText {
    pub language: NaturalLanguage,
    pub text: ZString,
}

impl View for MonolingualText {
    type V = ((Seq<char>, Seq<Seq<char>>), Seq<char>);

    open spec fn view(&self) -> ((Seq<char>, Seq<Seq<char>>), Seq<char>) {
        (self.language@, self.text@)
    }
}

impl ZObject for MonolingualText {
    open spec fn type_tag_spec() -> WireV {
        ref_tag_view("Z11"@)
    }

    open spec fn fields_spec(v: ((Seq<char>, Seq<Seq<char>>), Seq<char>)) -> Seq<
        (Seq<char>, WireV),
    > {
        seq![
            ("Z11K1"@, env_view::<NaturalLanguage>(v.0)),
            ("Z12K1"@, env_view::<ZString>(v.1)),
        ]
    }

    open spec fn parse_fields_spec(fields: Seq<(Seq<char>, WireV)>) -> Option<
        ((Seq<char>, Seq<Seq<char>>), Seq<char>),
    > {
        if fields.len() == 2 && fields[0].0 == "Z11K1"@ && fields[1].0 == "Z12K1"@ {
            match parse_env_spec::<NaturalLanguage>(fields[0].1) {
                Option::Some(language) => match parse_env_spec::<ZString>(fields[1].1) {
                    Option::Some(text) => Option::Some((language, text)),
                    Option::None => Option::None,
                },
                Option::None => Option::None,
            }
        } else {
            Option::None
        }
    }

    proof fn lemma_parse_of_fields(v: ((Seq<char>, Seq<Seq<char>>), Seq<char>)) {
        lemma_envelope_round_trip::<NaturalLanguage>(v.0);
        lemma_envelope_round_trip::<ZString>(v.1);
    }

    fn type_tag() -> (w: Wire) {
        ref_tag("Z11")
    }

    fn to_fields(&self) -> (r: Vec<(String, Wire)>) {
        let mut fields: Vec<(String, Wire)> = Vec::new();
        fields.push(("Z11K1".to_owned(), serialize(&self.language)));
        fields.push(("Z12K1".to_owned(), serialize(&self.text)));
        proof {
            lemma_entries_view_all(fields@);
            assert(entries_view(fields@) =~= Self::fields_spec(self@));
        }
        fields
    }

    fn from_fields(fields: &[(String, Wire)]) -> (r: Result<Self, WireError>) {
        proof {
            lemma_entries_view_all(fields@);
        }
        if fields.len() != 2 {
            return Err(WireError::BadFields);
        }
        if !string_eq_str(&fields[0].0, "Z11K1") {
            return Err(WireError::BadFields);
        }
        if !string_eq_str(&fields[1].0, "Z12K1") {
            return Err(WireError::BadFields);
        }
        let language = match deserialize::<NaturalLanguage>(&fields[0].1) {
            Ok(l) => l,
            Err(e) => {
                return Err(e);
            },
        };
        match deserialize::<ZString>(&fields[1].1) {
            Ok(text) => Ok(MonolingualText { language, text }),
            Err(e) => Err(e),
        }
    }
}

/// A multilingual text payload: one text per language.
#[derive(Debug, PartialEq, Eq)]
pub struct MultilingualText {
    pub texts: TypedList<MonolingualText>,
}

impl View for MultilingualText {
    type V = Seq<((Seq<char>, Seq<Seq<char>>), Seq<char>)>;

    open spec fn view(&self) -> Seq<((Seq<char>, Seq<Seq<char>>), Seq<char>)> {
        self.texts@
    }
}

impl ZObject for MultilingualText {
    open spec fn type_tag_spec() -> WireV {
        ref_tag_view("Z12"@)
    }

    open spec fn fields_spec(v: Seq<((Seq<char>, Seq<Seq<char>>), Seq<char>)>) -> Seq<
        (Seq<char>, WireV),
    > {
        seq![("Z12K1"@, env_view::<TypedList<MonolingualText>>(v))]
    }

    open spec fn parse_fields_spec(fields: Seq<(Seq<char>, WireV)>) -> Option<
        Seq<((Seq<char>, Seq<Seq<char>>), Seq<char>)>,
    > {
        if fields.len() == 1 && fields[0].0 == "Z12K1"@ {
            parse_env_spec::<TypedList<MonolingualText>>(fields[0].1)
        } else {
            Option::None
        }
    }

    proof fn lemma_parse_of_fields(v: Seq<((Seq<char>, Seq<Seq<char>>), Seq<char>)>) {
        lemma_envelope_round_trip::<TypedList<MonolingualText>>(v);
    }

    fn type_tag() -> (w: Wire) {
        ref_tag("Z12")
    }

    fn to_fields(&self) -> (r: Vec<(String, Wire)>) {
        let mut fields: Vec<(String, Wire)> = Vec::new();
        fields.push(("Z12K1".to_owned(), serialize(&self.texts)));
        proof {
            lemma_entries_view_all(fields@);
            assert(entries_view(fields@) =~= Self::fields_spec(self@));
        }
        fields
    }

    fn from_fields(fields: &[(String, Wire)]) -> (r: Result<Self, WireError>) {
        proof {
            lemma_entries_view_all(fields@);
        }
        if fields.len() != 1 {
            return Err(WireError::BadFields);
        }
        if !string_eq_str(&fields[0].0, "Z12K1") {
            return Err(WireError::BadFields);
        }
        match deserialize::<TypedList<MonolingualText>>(&fields[0].1) {
            Ok(texts) => Ok(MultilingualText { texts }),
            Err(e) => Err(e),
        }
    }
}

/// A function-call payload: the function applied, with the call's own
/// argument fields merged at the same level.
#[derive(Debug, PartialEq, Eq)]
pub struct FunctionCall<Func: ZObject, Args: ZObject> {
    pub function: Func,
    pub args: Args,
}

impl<Func: ZObject, Args: ZObject> View for FunctionCall<Func, Args> {
    type V = (Func::V, Args::V);

    open spec fn view(&self) -> (Func::V, Args::V) {
        (self.function@, self.args@)
    }
}

impl<Func: ZObject, Args: ZObject> ZObject for FunctionCall<Func, Args> {
    open spec fn type_tag_spec() -> WireV {
        ref_tag_view("Z7"@)
    }

    open spec fn fields_spec(v: (Func::V, Args::V)) -> Seq<(Seq<char>, WireV)> {
        seq![("Z7K1"@, env_view::<Func>(v.0))] + Args::fields_spec(v.1)
    }

    open spec fn parse_fields_spec(fields: Seq<(Seq<char>, WireV)>) -> Option<(Func::V, Args::V)> {
        if fields.len() >= 1 && fields[0].0 == "Z7K1"@ {
            match parse_env_spec::<Func>(fields[0].1) {
                Option::Some(f) => match Args::parse_fields_spec(fields.drop_first()) {
                    Option::Some(a) => Option::Some((f, a)),
                    Option::None => Option::None,
                },
                Option::None => Option::None,
            }
        } else {
            Option::None
        }
    }

    proof fn lemma_parse_of_fields(v: (Func::V, Args::V)) {
        lemma_envelope_round_trip::<Func>(v.0);
        Args::lemma_parse_of_fields(v.1);
        assert((seq![("Z7K1"@, env_view::<Func>(v.0))] + Args::fields_spec(v.1)).drop_first()
            =~= Args::fields_spec(v.1));
    }

    fn type_tag() -> (w: Wire) {
        ref_tag("Z7")
    }

    fn to_fields(&self) -> (r: Vec<(String, Wire)>) {
        let mut fields: Vec<(String, Wire)> = Vec::new();
        fields.push(("Z7K1".to_owned(), serialize(&self.function)));
        let ghost head = fields@;
        let mut rest = self.args.to_fields();
        let ghost restv = rest@;
        fields.append(&mut rest);
        proof {
            crate::wire::lemma_entries_view_concat(head, restv);
            lemma_entries_view_all(head);
            assert(entries_view(head) =~= seq![("Z7K1"@, env_view::<Func>(self.function@))]);
            assert(entries_view(fields@) =~= Self::fields_spec(self@));
        }
        fields
    }

    fn from_fields(fields: &[(String, Wire)]) -> (r: Result<Self, WireError>) {
        proof {
            lemma_entries_view_all(fields@);
        }
        if fields.len() == 0 {
            return Err(WireError::BadFields);
        }
        if !string_eq_str(&fields[0].0, "Z7K1") {
            return Err(WireError::BadFields);
        }
        let function = match deserialize::<Func>(&fields[0].1) {
            Ok(f) => f,
            Err(e) => {
                return Err(e);
            },
        };
        let rest = vstd::slice::slice_subrange(fields, 1, fields.len());
        proof {
            assert(rest@ =~= fields@.drop_first());
            assert(entries_view(fields@).drop_first() =~= entries_view(fields@.drop_first()));
        }
        match Args::from_fields(rest) {
            Ok(args) => Ok(FunctionCall { function, args }),
            Err(e) => Err(e),
        }
    }
}

/// An argument declaration: its type, its key, and its label.
#[derive(Debug, PartialEq, Eq)]
pub struct Argument<Type: ZObject> {
    pub ty: Type,
    pub key: ZString,
    pub label: MultilingualText,
}

impl<Type: ZObject> View for Argument<Type> {
    type V = (Type::V, Seq<char>, Seq<((Seq<char>, Seq<Seq<char>>), Seq<char>)>);

    open spec fn view(&self) -> (
        Type::V,
        Seq<char>,
        Seq<((Seq<char>, Seq<Seq<char>>), Seq<char>)>,
    ) {
        (self.ty@, self.key@, self.label@)
    }
}

impl<Type: ZObject> ZObject for Argument<Type> {
    open spec fn type_tag_spec() -> WireV {
        ref_tag_view("Z17"@)
    }

    open spec fn fields_spec(
        v: (Type::V, Seq<char>, Seq<((Seq<char>, Seq<Seq<char>>), Seq<char>)>),
    ) -> Seq<(Seq<char>, WireV)> {
        seq![
            ("Z17K1"@, env_view::<Type>(v.0)),
            ("Z17K2"@, env_view::<ZString>(v.1)),
            ("Z17K3"@, env_view::<MultilingualText>(v.2)),
        ]
    }

    open spec fn parse_fields_spec(fields: Seq<(Seq<char>, WireV)>) -> Option<
        (Type::V, Seq<char>, Seq<((Seq<char>, Seq<Seq<char>>), Seq<char>)>),
    > {
        if fields.len() == 3 && fields[0].0 == "Z17K1"@ && fields[1].0 == "Z17K2"@ && fields[2].0
            == "Z17K3"@ {
            match parse_env_spec::<Type>(fields[0].1) {
                Option::Some(ty) => match parse_env_spec::<ZString>(fields[1].1) {
                    Option::Some(key) => match parse_env_spec::<MultilingualText>(fields[2].1) {
                        Option::Some(label) => Option::Some((ty, key, label)),
                        Option::None => Option::None,
                    },
                    Option::None => Option::None,
                },
                Option::None => Option::None,
            }
        } else {
            Option::None
        }
    }

    proof fn lemma_parse_of_fields(
        v: (Type::V, Seq<char>, Seq<((Seq<char>, Seq<Seq<char>>), Seq<char>)>),
    ) {
        lemma_envelope_round_trip::<Type>(v.0);
        lemma_envelope_round_trip::<ZString>(v.1);
        lemma_envelope_round_trip::<MultilingualText>(v.2);
    }

    fn type_tag() -> (w: Wire) {
        ref_tag("Z17")
    }

    fn to_fields(&self) -> (r: Vec<(String, Wire)>) {
        let mut fields: Vec<(String, Wire)> = Vec::new();
        fields.push(("Z17K1".to_owned(), serialize(&self.ty)));
        fields.push(("Z17K2".to_owned(), serialize(&self.key)));
        fields.push(("Z17K3".to_owned(), serialize(&self.label)));
        proof {
            lemma_entries_view_all(fields@);
            assert(entries_view(fields@) =~= Self::fields_spec(self@));
        }
        fields
    }

    fn from_fields(fields: &[(String, Wire)]) -> (r: Result<Self, WireError>) {
        proof {
            lemma_entries_view_all(fields@);
        }
        if fields.len() != 3 {
            return Err(WireError::BadFields);
        }
        if !string_eq_str(&fields[0].0, "Z17K1") {
            return Err(WireError::BadFields);
        }
        if !string_eq_str(&fields[1].0, "Z17K2") {
            return Err(WireError::BadFields);
        }
        if !string_eq_str(&fields[2].0, "Z17K3") {
            return Err(WireError::BadFields);
        }
        let ty = match deserialize::<Type>(&fields[0].1) {
            Ok(t) => t,
            Err(e) => {
                return Err(e);
            },
        };
        let key = match deserialize::<ZString>(&fields[1].1) {
            Ok(k) => k,
            Err(e) => {
                return Err(e);
            },
        };
        match deserialize::<MultilingualText>(&fields[2].1) {
            Ok(label) => Ok(Argument { ty, key, label }),
            Err(e) => Err(e),
        }
    }
}

/// An implementation payload: the function it implements, and its code.
#[derive(Debug, PartialEq, Eq)]
pub struct Implementation<Fn: ZObject> {
    pub function: Fn,
    pub code: Code,
}

impl<Fn: ZObject> View for Implementation<Fn> {
    type V = (Fn::V, (Seq<char>, Seq<char>));

    open spec fn view(&self) -> (Fn::V, (Seq<char>, Seq<char>)) {
        (self.function@, self.code@)
    }
}

impl<Fn: ZObject> ZObject for Implementation<Fn> {
    open spec fn type_tag_spec() -> WireV {
        ref_tag_view("Z14"@)
    }

    open spec fn fields_spec(v: (Fn::V, (Seq<char>, Seq<char>))) -> Seq<(Seq<char>, WireV)> {
        seq![("Z14K1"@, env_view::<Fn>(v.0)), ("Z14K3"@, env_view::<Code>(v.1))]
    }

    open spec fn parse_fields_spec(fields: Seq<(Seq<char>, WireV)>) -> Option<
        (Fn::V, (Seq<char>, Seq<char>)),
    > {
        if fields.len() == 2 && fields[0].0 == "Z14K1"@ && fields[1].0 == "Z14K3"@ {
            match parse_env_spec::<Fn>(fields[0].1) {
                Option::Some(f) => match parse_env_spec::<Code>(fields[1].1) {
                    Option::Some(c) => Option::Some((f, c)),
                    Option::None => Option::None,
                },
                Option::None => Option::None,
            }
        } else {
            Option::None
        }
    }

    proof fn lemma_parse_of_fields(v: (Fn::V, (Seq<char>, Seq<char>))) {
        lemma_envelope_round_trip::<Fn>(v.0);
        lemma_envelope_round_trip::<Code>(v.1);
    }

    fn type_tag() -> (w: Wire) {
        ref_tag("Z14")
    }

    fn to_fields(&self) -> (r: Vec<(String, Wire)>) {
        let mut fields: Vec<(String, Wire)> = Vec::new();
        fields.push(("Z14K1".to_owned(), serialize(&self.function)));
        fields.push(("Z14K3".to_owned(), serialize(&self.code)));
        proof {
            lemma_entries_view_all(fields@);
            assert(entries_view(fields@) =~= Self::fields_spec(self@));
        }
        fields
    }

    fn from_fields(fields: &[(String, Wire)]) -> (r: Result<Self, WireError>) {
        proof {
            lemma_entries_view_all(fields@);
        }
        if fields.len() != 2 {
            return Err(WireError::BadFields);
        }
        if !string_eq_str(&fields[0].0, "Z14K1") {
            return Err(WireError::BadFields);
        }
        if !string_eq_str(&fields[1].0, "Z14K3") {
            return Err(WireError::BadFields);
        }
        let function = match deserialize::<Fn>(&fields[0].1) {
            Ok(f) => f,
            Err(e) => {
                return Err(e);
            },
        };
        match deserialize::<Code>(&fields[1].1) {
            Ok(code) => Ok(Implementation { function, code }),
            Err(e) => Err(e),
        }
    }
}

/// A function record: its declared arguments, return type, test cases,
/// implementations, and identity. A plain record; it does not itself
/// travel inside an envelope.
#[derive(Debug, PartialEq, Eq)]
pub struct Function<Type: ZObject, ReturnType: ZObject, TestCase: ZObject, Impl: ZObject, Identity: ZObject> {
    pub arguments: TypedList<Argument<Type>>,
    pub return_type: ReturnType,
    pub test_cases: TypedList<TestCase>,
    pub implementations: TypedList<Impl>,
    pub identity: Identity,
}

/// The argument record of the typed-list constructor: the element type
/// it is applied to.
#[derive(Debug, PartialEq, Eq)]
pub struct TypeListArgs<T: ZObject> {
    pub ty: T,
}

impl<T: ZObject> TypeListArgs<T> {
    /// Wraps the element type a list constructor is applied to.
    pub fn new(ty: T) -> (r: TypeListArgs<T>)
        ensures
            r.ty == ty,
    {
        TypeListArgs { ty }
    }
}

} // verus!
