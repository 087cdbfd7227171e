use vstd::prelude::*;

verus! {

/// The type of a column: text or a 32-bit integer.
#[derive(Clone, Copy, Debug, PartialEq, Eq, Structural)]
pub enum Kind {
    Text,
    Int,
}

/// A value bound to a statement parameter, or held in a column of a row.
#[derive(Clone, Debug, PartialEq, Eq)]
pub enum Value {
    Text(String),
    Int(i32),
}

/// The mathematical content of a `Value`.
pub enum Datum {
    Text(Seq<char>),
    Int(i32),
}

impl Datum {
    pub open spec fn kind(self) -> Kind {
        match self {
            Datum::Text(_) => Kind::Text,
            Datum::Int(_) => Kind::Int,
        }
    }
}

impl View for Value {
    type V = Datum;

    open spec fn view(&self) -> Datum {
        match self {
            Value::Text(s) => Datum::Text(s@),
            Value::Int(n) => Datum::Int(*n),
        }
    }
}

impl DeepView for Value {
    type V = Datum;

    open spec fn deep_view(&self) -> Datum {
        self@
    }
}

impl Value {
    pub fn kind(&self) -> (r: Kind)
        ensures
            r == self@.kind(),
    {
        match self {
            Value::Text(_) => Kind::Text,
            Value::Int(_) => Kind::Int,
        }
    }

    /// A copy of this value with the same content.
    pub fn duplicate(&self) -> (r: Value)
        ensures
            r@ == self@,
    {
        match self {
            Value::Text(s) => Value::Text(s.clone()),
            Value::Int(n) => Value::Int(*n),
        }
    }

    /// Whether the two values have the same content.
    pub fn same_as(&self, other: &Value) -> (r: bool)
        ensures
            r == (self@ == other@),
    {
        match self {
            Value::Text(a) => match other {
                Value::Text(b) => *a == *b,
                Value::Int(_) => false,
            },
            Value::Int(a) => match other {
                Value::Text(_) => false,
                Value::Int(b) => *a == *b,
            },
        }
    }
}

/// A copy of a vector of values with the same contents.
pub fn duplicate_values(v: &Vec<Value>) -> (r: Vec<Value>)
    ensures
        r.deep_view() == v.deep_view(),
{
    let mut r: Vec<Value> = Vec::new();
    let mut i: usize = 0;
    while i < v.len()
        invariant
            i <= v@.len(),
            r@.len() == i,
            forall|j: int| 0 <= j < i ==> r@[j]@ == v@[j]@,
        decreases v@.len() - i,
    {
        r.push(v[i].duplicate());
        i = i + 1;
    }
    assert(r.deep_view() =~= v.deep_view());
    r
}

} // verus!
