//! The label catalog: a closed set of zero-size markers, each bound to
//! one wire identifier. A label decodes exactly from its literal
//! identifier and always encodes as that literal.

use vstd::prelude::*;

verus! {

/// The mismatch reported when a wire string is not a label's
/// identifier: the identifier expected and the string found.
#[derive(Debug, PartialEq, Eq, Clone)]
pub struct LabelMismatch {
    pub expected: String,
    pub found: String,
}

/// A closed-set marker standing for one wire type identifier.
pub trait ZLabel: Sized {
    /// The wire identifier this label is bound to.
    spec fn spec_label() -> Seq<char>;

    /// The identifier as emitted on the wire.
    fn label() -> (r: &'static str)
        ensures
            r@ == Self::spec_label(),
    ;

    /// The marker value itself.
    fn value() -> Self;
}

/// Decodes a wire string as the label `L`: succeeds exactly when the
/// string equals the label's identifier; any other string is rejected,
/// naming both the expected and the found value.
pub fn decode_label<L: ZLabel>(s: &str) -> (r: Result<L, LabelMismatch>)
    ensures
        r is Ok <==> s@ == L::spec_label(),
        r matches Err(e) ==> e.expected@ == L::spec_label() && e.found@ == s@,
{
    let expected: String = L::label().to_owned();
    let found: String = s.to_owned();
    if found.eq(&expected) {
        Ok(L::value())
    } else {
        Err(LabelMismatch { expected, found })
    }
}

/// Encodes a label: always emits its literal identifier.
pub fn encode_label<L: ZLabel>(_marker: &L) -> (r: String)
    ensures
        r@ == L::spec_label(),
{
    L::label().to_owned()
}

/// Marker for the string type.
#[derive(Debug, Default, PartialEq, Eq, Clone, Copy)]
pub struct Z6;

impl ZLabel for Z6 {
    open spec fn spec_label() -> Seq<char> {
        "Z6"@
    }

    fn label() -> (r: &'static str) {
        "Z6"
    }

    fn value() -> Self {
        Z6
    }
}

/// Marker for the function-call type.
#[derive(Debug, Default, PartialEq, Eq, Clone, Copy)]
pub struct Z7;

impl ZLabel for Z7 {
    open spec fn spec_label() -> Seq<char> {
        "Z7"@
    }

    fn label() -> (r: &'static str) {
        "Z7"
    }

    fn value() -> Self {
        Z7
    }
}

/// Marker for the reference type.
#[derive(Debug, Default, PartialEq, Eq, Clone, Copy)]
pub struct Z9;

impl ZLabel for Z9 {
    open spec fn spec_label() -> Seq<char> {
        "Z9"@
    }

    fn label() -> (r: &'static str) {
        "Z9"
    }

    fn value() -> Self {
        Z9
    }
}

/// Marker for the monolingual-text type.
#[derive(Debug, Default, PartialEq, Eq, Clone, Copy)]
pub struct Z11;

impl ZLabel for Z11 {
    open spec fn spec_label() -> Seq<char> {
        "Z11"@
    }

    fn label() -> (r: &'static str) {
        "Z11"
    }

    fn value() -> Self {
        Z11
    }
}

/// Marker for the multilingual-text type.
#[derive(Debug, Default, PartialEq, Eq, Clone, Copy)]
pub struct Z12;

impl ZLabel for Z12 {
    open spec fn spec_label() -> Seq<char> {
        "Z12"@
    }

    fn label() -> (r: &'static str) {
        "Z12"
    }

    fn value() -> Self {
        Z12
    }
}

/// Marker for the implementation type.
#[derive(Debug, Default, PartialEq, Eq, Clone, Copy)]
pub struct Z14;

impl ZLabel for Z14 {
    open spec fn spec_label() -> Seq<char> {
        "Z14"@
    }

    fn label() -> (r: &'static str) {
        "Z14"
    }

    fn value() -> Self {
        Z14
    }
}

/// Marker for the code type.
#[derive(Debug, Default, PartialEq, Eq, Clone, Copy)]
pub struct Z16;

impl ZLabel for Z16 {
    open spec fn spec_label() -> Seq<char> {
        "Z16"@
    }

    fn label() -> (r: &'static str) {
        "Z16"
    }

    fn value() -> Self {
        Z16
    }
}

/// Marker for the argument-declaration type.
#[derive(Debug, Default, PartialEq, Eq, Clone, Copy)]
pub struct Z17;

impl ZLabel for Z17 {
    open spec fn spec_label() -> Seq<char> {
        "Z17"@
    }

    fn label() -> (r: &'static str) {
        "Z17"
    }

    fn value() -> Self {
        Z17
    }
}

/// Marker for the pair type.
#[derive(Debug, Default, PartialEq, Eq, Clone, Copy)]
pub struct Z22;

impl ZLabel for Z22 {
    open spec fn spec_label() -> Seq<char> {
        "Z22"@
    }

    fn label() -> (r: &'static str) {
        "Z22"
    }

    fn value() -> Self {
        Z22
    }
}

/// Marker for the unit value.
#[derive(Debug, Default, PartialEq, Eq, Clone, Copy)]
pub struct Z24;

impl ZLabel for Z24 {
    open spec fn spec_label() -> Seq<char> {
        "Z24"@
    }

    fn label() -> (r: &'static str) {
        "Z24"
    }

    fn value() -> Self {
        Z24
    }
}

/// Marker for the natural-language type.
#[derive(Debug, Default, PartialEq, Eq, Clone, Copy)]
pub struct Z60;

impl ZLabel for Z60 {
    open spec fn spec_label() -> Seq<char> {
        "Z60"@
    }

    fn label() -> (r: &'static str) {
        "Z60"
    }

    fn value() -> Self {
        Z60
    }
}

/// Marker for the programming-language type.
#[derive(Debug, Default, PartialEq, Eq, Clone, Copy)]
pub struct Z61;

impl ZLabel for Z61 {
    open spec fn spec_label() -> Seq<char> {
        "Z61"@
    }

    fn label() -> (r: &'static str) {
        "Z61"
    }

    fn value() -> Self {
        Z61
    }
}

/// Marker for the typed-list constructor.
#[derive(Debug, Default, PartialEq, Eq, Clone, Copy)]
pub struct Z881;

impl ZLabel for Z881 {
    open spec fn spec_label() -> Seq<char> {
        "Z881"@
    }

    fn label() -> (r: &'static str) {
        "Z881"
    }

    fn value() -> Self {
        Z881
    }
}

} // verus!
