use vstd::prelude::*;

verus! {

/// A host value that may be absent (`nil`), or holds a value of the expected kind.
#[derive(Debug, Clone, Copy, PartialEq, Eq, Hash)]
pub enum Nilable<T> {
    Nil,
    Value(T),
}

/// Marks host values that can be read as a `Nilable`.
pub trait NilableConvert<T> {
}

} // verus!
