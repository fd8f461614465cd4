//! Script values that outlive a script run: globals, save data and recorded
//! external inputs. Floating-point values are kept as their `f64` bit
//! patterns so that they compare and serialize exactly.
use vstd::prelude::*;

verus! {

broadcast use vstd::std_specs::vec::axiom_vec_decreases_to_view;

#[derive(Debug, PartialEq)]
pub enum StoredValue {
    Bool(bool),
    Int(i64),
    /// The IEEE-754 bits of an `f64` (`f64::to_bits`).
    Float(u64),
    String(String),
    Array(Vec<StoredValue>),
    Record(Vec<(String, StoredValue)>),
}

/// The contents of a stored value, with strings taken by their characters.
pub enum StoredValueView {
    Bool(bool),
    Int(i64),
    Float(u64),
    String(Seq<char>),
    Array(Seq<StoredValueView>),
    Record(Seq<(Seq<char>, StoredValueView)>),
}

pub open spec fn stored_view(v: StoredValue) -> StoredValueView
    decreases v,
{
    match v {
        StoredValue::Bool(b) => StoredValueView::Bool(b),
        StoredValue::Int(i) => StoredValueView::Int(i),
        StoredValue::Float(f) => StoredValueView::Float(f),
        StoredValue::String(s) => StoredValueView::String(s@),
        StoredValue::Array(items) => StoredValueView::Array(
            Seq::new(
                items@.len(),
                |i: int|
                    if 0 <= i < items@.len() {
                        stored_view(items@[i])
                    } else {
                        StoredValueView::Bool(false)
                    },
            ),
        ),
        StoredValue::Record(entries) => StoredValueView::Record(
            Seq::new(
                entries@.len(),
                |i: int|
                    if 0 <= i < entries@.len() {
                        (entries@[i].0@, stored_view(entries@[i].1))
                    } else {
                        (Seq::empty(), StoredValueView::Bool(false))
                    },
            ),
        ),
    }
}

impl View for StoredValue {
    type V = StoredValueView;

    open spec fn view(&self) -> StoredValueView {
        stored_view(*self)
    }
}

impl StoredValue {
    /// A copy with the same contents.
    pub fn duplicate(&self) -> (r: StoredValue)
        ensures
            r@ == self@,
        decreases self,
    {
        match self {
            StoredValue::Bool(b) => StoredValue::Bool(*b),
            StoredValue::Int(i) => StoredValue::Int(*i),
            StoredValue::Float(f) => StoredValue::Float(*f),
            StoredValue::String(s) => StoredValue::String(s.clone()),
            StoredValue::Array(items) => {
                let mut out: Vec<StoredValue> = Vec::new();
                let mut i: usize = 0;
                while i < items.len()
                    invariant
                        *self == StoredValue::Array(*items),
                        0 <= i <= items@.len(),
                        out@.len() == i,
                        forall|j: int| 0 <= j < i ==> (#[trigger] out@[j])@ == items@[j]@,
                    decreases items@.len() - i,
                {
                    assert(decreases_to!(*self => self->Array_0));
                    assert(decreases_to!(*items => items@));
                    assert(decreases_to!(items@ => items@[i as int]));
                    out.push(items[i].duplicate());
                    i = i + 1;
                }
                let r = StoredValue::Array(out);
                let ghost a = Seq::new(
                    out@.len(),
                    |i: int|
                        if 0 <= i < out@.len() {
                            stored_view(out@[i])
                        } else {
                            StoredValueView::Bool(false)
                        },
                );
                let ghost b = Seq::new(
                    items@.len(),
                    |i: int|
                        if 0 <= i < items@.len() {
                            stored_view(items@[i])
                        } else {
                            StoredValueView::Bool(false)
                        },
                );
                assert(a =~= b);
                assert(stored_view(r)->Array_0 =~= a);
                assert(stored_view(*self)->Array_0 =~= b);
                r
            },
            StoredValue::Record(entries) => {
                let mut out: Vec<(String, StoredValue)> = Vec::new();
                let mut i: usize = 0;
                while i < entries.len()
                    invariant
                        *self == StoredValue::Record(*entries),
                        0 <= i <= entries@.len(),
                        out@.len() == i,
                        forall|j: int|
                            0 <= j < i ==> (#[trigger] out@[j]).0@ == entries@[j].0@
                                && out@[j].1@ == entries@[j].1@,
                    decreases entries@.len() - i,
                {
                    assert(decreases_to!(*self => self->Record_0));
                    assert(decreases_to!(*entries => entries@));
                    assert(decreases_to!(entries@ => entries@[i as int]));
                    assert(decreases_to!(entries@[i as int] => entries@[i as int].1));
                    let value = entries[i].1.duplicate();
                    out.push((entries[i].0.clone(), value));
                    i = i + 1;
                }
                let r = StoredValue::Record(out);
                let ghost a = Seq::new(
                    out@.len(),
                    |i: int|
                        if 0 <= i < out@.len() {
                            (out@[i].0@, stored_view(out@[i].1))
                        } else {
                            (Seq::<char>::empty(), StoredValueView::Bool(false))
                        },
                );
                let ghost b = Seq::new(
                    entries@.len(),
                    |i: int|
                        if 0 <= i < entries@.len() {
                            (entries@[i].0@, stored_view(entries@[i].1))
                        } else {
                            (Seq::<char>::empty(), StoredValueView::Bool(false))
                        },
                );
                assert(a =~= b);
                assert(stored_view(r)->Record_0 =~= a);
                assert(stored_view(*self)->Record_0 =~= b);
                r
            },
        }
    }
}

} // verus!
