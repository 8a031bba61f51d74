//! Runtime values and the tagged wrapper the stack stores them in.

use vstd::prelude::*;

verus! {

/// A runtime value: unit, number, string, or boolean.
///
/// A number is carried as the 64-bit pattern of its machine representation;
/// the machine never inspects or computes on it, it only copies it between
/// the constant pool, the stack and variable bindings.
#[derive(Debug, Eq)]
pub enum Data {
    Unit,
    Number(u64),
    String(String),
    Boolean(bool),
}

impl Clone for Data {
    /// Cloning yields a value equal to the original; constants and bindings
    /// are always copied, never shared.
    fn clone(&self) -> (res: Self)
        ensures
            res == *self,
    {
        match self {
            Data::Unit => Data::Unit,
            Data::Number(n) => Data::Number(*n),
            Data::String(s) => Data::String(s.clone()),
            Data::Boolean(b) => Data::Boolean(*b),
        }
    }
}

impl Data {
    /// Observable equality of two values: same shape, and equal contents
    /// (strings compare by their characters).
    pub open spec fn same_value(&self, other: &Data) -> bool {
        match (self, other) {
            (Data::Unit, Data::Unit) => true,
            (Data::Number(a), Data::Number(b)) => a == b,
            (Data::String(a), Data::String(b)) => a@ == b@,
            (Data::Boolean(a), Data::Boolean(b)) => a == b,
            _ => false,
        }
    }
}

impl PartialEq for Data {
    fn eq(&self, other: &Data) -> (r: bool) {
        match (self, other) {
            (Data::Unit, Data::Unit) => true,
            (Data::Number(a), Data::Number(b)) => *a == *b,
            (Data::String(a), Data::String(b)) => *a == *b,
            (Data::Boolean(a), Data::Boolean(b)) => *a == *b,
            _ => false,
        }
    }
}

impl vstd::std_specs::cmp::PartialEqSpecImpl for Data {
    open spec fn obeys_eq_spec() -> bool {
        true
    }

    open spec fn eq_spec(&self, other: &Data) -> bool {
        self.same_value(other)
    }
}

/// A wrapper around a runtime value. A wrapped value is always owned —
/// never a shared, reference-counted handle — and `deref` hands out the
/// independent copy that saving and loading require. Explicit copies in
/// place of sharing rule out aliasing without a garbage collector.
#[derive(Debug)]
pub struct Tagged(pub Data);

impl Tagged {
    /// Wraps an owned value.
    pub fn from(data: Data) -> (t: Tagged)
        ensures
            t == Tagged(data),
    {
        Tagged(data)
    }

    /// Extracts an owned copy of the wrapped value.
    pub fn deref(self) -> (d: Data)
        ensures
            d == self.0,
    {
        self.0
    }
}

} // verus!
