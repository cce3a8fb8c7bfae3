//! Values bound to the placeholders of a statement.

use vstd::prelude::*;

verus! {

/// One bound value of the argument list.
#[derive(Debug, PartialEq, Eq)]
pub enum Value {
    Null,
    Bool(bool),
    Int(i64),
    Text(String),
    Blob(Vec<u8>),
}

/// What a [`Value`] holds.
pub enum ValueView {
    Null,
    Bool(bool),
    Int(i64),
    Text(Seq<char>),
    Blob(Seq<u8>),
}

impl View for Value {
    type V = ValueView;

    open spec fn view(&self) -> ValueView {
        match self {
            Value::Null => ValueView::Null,
            Value::Bool(b) => ValueView::Bool(*b),
            Value::Int(i) => ValueView::Int(*i),
            Value::Text(s) => ValueView::Text(s@),
            Value::Blob(b) => ValueView::Blob(b@),
        }
    }
}

/// The views of a sequence of values, in order.
pub open spec fn values(items: Seq<Value>) -> Seq<ValueView> {
    items.map_values(|v: Value| v@)
}

impl Value {
    /// A text value holding a copy of `s`.
    pub fn text(s: &str) -> (out: Value)
        ensures
            out@ == ValueView::Text(s@),
    {
        Value::Text(s.to_owned())
    }
}

impl Clone for Value {
    fn clone(&self) -> (out: Value)
        ensures
            out@ == self@,
    {
        match self {
            Value::Null => Value::Null,
            Value::Bool(b) => Value::Bool(*b),
            Value::Int(i) => Value::Int(*i),
            Value::Text(s) => Value::Text(s.clone()),
            Value::Blob(b) => {
                let mut copy: Vec<u8> = Vec::new();
                let mut i: usize = 0;
                while i < b.len()
                    invariant
                        i <= b.len(),
                        copy@ == b@.take(i as int),
                    decreases b.len() - i,
                {
                    copy.push(b[i]);
                    proof {
                        assert(b@.take(i + 1) =~= b@.take(i as int).push(b@[i as int]));
                    }
                    i += 1;
                }
                proof {
                    assert(b@.take(b@.len() as int) =~= b@);
                }
                Value::Blob(copy)
            },
        }
    }
}

/// Copies a list of values.
pub fn clone_values(items: &Vec<Value>) -> (out: Vec<Value>)
    ensures
        values(out@) == values(items@),
{
    let mut out: Vec<Value> = Vec::new();
    let mut i: usize = 0;
    while i < items.len()
        invariant
            i <= items.len(),
            values(out@) == values(items@).take(i as int),
        decreases items.len() - i,
    {
        out.push(items[i].clone());
        proof {
            assert(values(out@) =~= values(items@).take(i as int).push(items@[i as int]@));
            assert(values(items@).take(i + 1) =~= values(items@).take(i as int).push(
                items@[i as int]@,
            ));
        }
        i += 1;
    }
    proof {
        assert(values(items@).take(items@.len() as int) =~= values(items@));
    }
    out
}

} // verus!
