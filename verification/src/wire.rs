//! The wire value tree: a self-describing record notation in which every
//! node is either a string leaf or an ordered record of key/value entries.

use vstd::prelude::*;

verus! {

/// Mathematical model of a wire value: a string leaf or an ordered
/// sequence of key/value entries.
#[verifier::ext_equal]
pub enum WireV {
    Str(Seq<char>),
    Obj(Seq<(Seq<char>, WireV)>),
}

/// A wire value: either a string leaf or an ordered record.
/// Records keep their entries in wire order; entry order is significant
/// for the typed-list encoding.
#[derive(Debug, PartialEq, Eq)]
pub enum Wire {
    Str(String),
    Obj(Vec<(String, Wire)>),
}

/// The model of a wire value: leaves become character sequences and
/// records become entry sequences, in order.
pub open spec fn wire_view(w: Wire) -> WireV
    decreases w,
{
    if w is Str {
        WireV::Str(w->Str_0@)
    } else {
        WireV::Obj(entries_view(w->Obj_0@))
    }
}

/// The model of a record's entry list, in order.
pub open spec fn entries_view(entries: Seq<(String, Wire)>) -> Seq<(Seq<char>, WireV)>
    decreases entries,
{
    if entries.len() == 0 {
        Seq::empty()
    } else {
        seq![(entries[0].0@, wire_view(entries[0].1))] + entries_view(entries.drop_first())
    }
}

impl View for Wire {
    type V = WireV;

    open spec fn view(&self) -> WireV {
        wire_view(*self)
    }
}

pub proof fn lemma_entries_view_len(entries: Seq<(String, Wire)>)
    ensures
        entries_view(entries).len() == entries.len(),
    decreases entries.len(),
{
    if entries.len() > 0 {
        lemma_entries_view_len(entries.drop_first());
    }
}

pub proof fn lemma_entries_view_index(entries: Seq<(String, Wire)>, i: int)
    requires
        0 <= i < entries.len(),
    ensures
        entries_view(entries).len() == entries.len(),
        entries_view(entries)[i] == (entries[i].0@, wire_view(entries[i].1)),
    decreases entries.len(),
{
    lemma_entries_view_len(entries);
    if i > 0 {
        lemma_entries_view_index(entries.drop_first(), i - 1);
    }
}

pub proof fn lemma_entries_view_all(entries: Seq<(String, Wire)>)
    ensures
        entries_view(entries).len() == entries.len(),
        forall|i: int|
            0 <= i < entries.len() ==> #[trigger] entries_view(entries)[i] == (
                entries[i].0@,
                wire_view(entries[i].1),
            ),
{
    lemma_entries_view_len(entries);
    assert forall|i: int| 0 <= i < entries.len() implies #[trigger] entries_view(entries)[i] == (
        entries[i].0@,
        wire_view(entries[i].1),
    ) by {
        lemma_entries_view_index(entries, i);
    }
}

pub proof fn lemma_entries_view_concat(a: Seq<(String, Wire)>, b: Seq<(String, Wire)>)
    ensures
        entries_view(a + b) == entries_view(a) + entries_view(b),
    decreases a.len(),
{
    if a.len() == 0 {
        assert(a + b =~= b);
        assert(entries_view(a) + entries_view(b) =~= entries_view(b));
    } else {
        lemma_entries_view_concat(a.drop_first(), b);
        assert((a + b).drop_first() =~= a.drop_first() + b);
        assert(entries_view(a + b) =~= entries_view(a) + entries_view(b));
    }
}

/// Size of a wire model term: the number of nodes in the tree.
pub open spec fn wire_size(w: WireV) -> nat
    decreases w,
{
    if w is Str {
        1
    } else {
        1 + entries_size(w->Obj_0)
    }
}

/// Combined size of an entry sequence's values.
pub open spec fn entries_size(entries: Seq<(Seq<char>, WireV)>) -> nat
    decreases entries,
{
    if entries.len() == 0 {
        0
    } else {
        1 + wire_size(entries[0].1) + entries_size(entries.drop_first())
    }
}

pub proof fn lemma_entries_size_skip(entries: Seq<(Seq<char>, WireV)>, i: int)
    requires
        0 <= i <= entries.len(),
    ensures
        entries_size(entries.skip(i)) <= entries_size(entries),
    decreases i,
{
    if i > 0 {
        lemma_entries_size_skip(entries, i - 1);
        if entries.skip(i - 1).len() > 0 {
            assert(entries.skip(i - 1).drop_first() =~= entries.skip(i));
        }
    } else {
        assert(entries.skip(0) =~= entries);
    }
}

pub proof fn lemma_entries_size_index(entries: Seq<(Seq<char>, WireV)>, i: int)
    requires
        0 <= i < entries.len(),
    ensures
        wire_size(entries[i].1) < entries_size(entries),
    decreases i,
{
    if i == 0 {
    } else {
        lemma_entries_size_index(entries.drop_first(), i - 1);
    }
}

/// Looks a key up among entries: the value of the first entry whose key
/// matches, if any.
pub open spec fn spec_get(entries: Seq<(Seq<char>, WireV)>, key: Seq<char>) -> Option<WireV>
    decreases entries,
{
    if entries.len() == 0 {
        Option::None
    } else if entries[0].0 == key {
        Option::Some(entries[0].1)
    } else {
        spec_get(entries.drop_first(), key)
    }
}

/// Compares a string against a string slice by contents.
pub fn string_eq_str(a: &String, b: &str) -> (r: bool)
    ensures
        r == (a@ == b@),
{
    let bs: String = b.to_owned();
    a.eq(&bs)
}

/// Deep structural equality of two wire values, equivalent to equality
/// of their models.
pub fn wire_eq(a: &Wire, b: &Wire) -> (r: bool)
    ensures
        r == (a@ == b@),
    decreases *a,
{
    match (a, b) {
        (Wire::Str(x), Wire::Str(y)) => x.eq(y),
        (Wire::Obj(xs), Wire::Obj(ys)) => {
            if xs.len() != ys.len() {
                proof {
                    lemma_entries_view_len(xs@);
                    lemma_entries_view_len(ys@);
                }
                false
            } else {
                let n = xs.len();
                let mut i: usize = 0;
                let mut same = true;
                proof {
                    lemma_entries_view_len(xs@);
                    lemma_entries_view_len(ys@);
                }
                while i < n
                    invariant
                        0 <= i <= n,
                        n == xs@.len() == ys@.len(),
                        entries_view(xs@).len() == n,
                        entries_view(ys@).len() == n,
                        a == Wire::Obj(*xs),
                        b == Wire::Obj(*ys),
                        same ==> forall|j: int|
                            0 <= j < i ==> #[trigger] entries_view(xs@)[j] == entries_view(ys@)[j],
                        !same ==> a@ != b@,
                    decreases n - i + (if same { 1int } else { 0int }),
                {
                    if same {
                        proof {
                            lemma_entries_view_index(xs@, i as int);
                            lemma_entries_view_index(ys@, i as int);
                        }
                        let keys_same = xs[i].0 == ys[i].0;
                        proof {
                            assert(decreases_to!(*a => a->Obj_0));
                            assert(decreases_to!(a->Obj_0 => a->Obj_0@));
                            assert(decreases_to!(a->Obj_0@ => a->Obj_0@[i as int]));
                        }
                        let vals_same = wire_eq(&xs[i].1, &ys[i].1);
                        if !(keys_same && vals_same) {
                            proof {
                                assert(entries_view(xs@)[i as int] != entries_view(ys@)[i as int]);
                                assert(entries_view(xs@) != entries_view(ys@));
                            }
                            same = false;
                        }
                    }
                    i += 1;
                }
                proof {
                    if same {
                        assert(entries_view(xs@) =~= entries_view(ys@));
                        assert(a@ == b@);
                    }
                }
                same
            }
        },
        _ => {
            proof {
                assert(a@ != b@);
            }
            false
        },
    }
}

impl Wire {
    /// Builds a string leaf.
    pub fn str_of(s: &str) -> (w: Wire)
        ensures
            w@ == WireV::Str(s@),
    {
        Wire::Str(s.to_owned())
    }

    /// The value of the first entry whose key matches, if this is a
    /// record holding one.
    pub fn get<'a>(&'a self, key: &str) -> (r: Option<&'a Wire>)
        ensures
            match r {
                Option::Some(w) => self@ is Obj && spec_get(self@->Obj_0, key@)
                    == Option::Some(w@),
                Option::None => self@ is Str || (self@ is Obj && spec_get(
                    self@->Obj_0,
                    key@,
                ) is None),
            },
    {
        match self {
            Wire::Str(_) => Option::None,
            Wire::Obj(entries) => {
                let n = entries.len();
                let mut i: usize = 0;
                proof {
                    lemma_entries_view_len(entries@);
                    assert(entries_view(entries@).skip(0) =~= entries_view(entries@));
                }
                while i < n
                    invariant
                        0 <= i <= n,
                        n == entries@.len(),
                        *self == Wire::Obj(*entries),
                        entries_view(entries@).len() == n,
                        spec_get(entries_view(entries@), key@) == spec_get(
                            entries_view(entries@).skip(i as int),
                            key@,
                        ),
                    decreases n - i,
                {
                    proof {
                        lemma_entries_view_index(entries@, i as int);
                        assert(entries_view(entries@).skip(i as int)[0] == entries_view(entries@)[i as int]);
                    }
                    if string_eq_str(&entries[i].0, key) {
                        return Option::Some(&entries[i].1);
                    }
                    proof {
                        assert(entries_view(entries@).skip(i as int).drop_first() =~= entries_view(
                            entries@,
                        ).skip(i as int + 1));
                    }
                    i += 1;
                }
                proof {
                    assert(entries_view(entries@).skip(n as int) =~= Seq::empty());
                }
                Option::None
            },
        }
    }
}

} // verus!
