use vstd::prelude::*;

verus! {

/// A string, or a structured value of type `S`.
#[derive(Debug, PartialEq)]
pub enum StringOrStruct<S> {
    String(String),
    Struct(S),
}

/// A string, a structured value of type `S`, or a sequence of type `V`.
#[derive(Debug, PartialEq)]
pub enum StringOrStructOrVec<S, V> {
    String(String),
    Struct(S),
    Vec(V),
}

/// One value of type `S`, or a sequence of them.
#[derive(Debug, PartialEq)]
pub enum SingleOrVec<S> {
    Single(S),
    Vec(Vec<S>),
}

impl<S: Clone> StringOrStruct<S> {
    /// `copy` is a clone of `self`: the same variant, holding the same text
    /// or a payload that `S::clone` gives for the payload of `self`.
    pub open spec fn cloned_to(self, copy: Self) -> bool {
        match (self, copy) {
            (StringOrStruct::String(a), StringOrStruct::String(b)) => a == b,
            (StringOrStruct::Struct(a), StringOrStruct::Struct(b)) => cloned(a, b),
            _ => false,
        }
    }
}

impl<S: Clone> Clone for StringOrStruct<S> {
    fn clone(&self) -> (copy: Self)
        ensures
            self.cloned_to(copy),
    {
        match self {
            Self::String(as_string) => Self::String(as_string.clone()),
            Self::Struct(as_struct) => Self::Struct(as_struct.clone()),
        }
    }
}

impl<S: Clone, V: Clone> StringOrStructOrVec<S, V> {
    /// `copy` is a clone of `self`: the same variant, holding the same text
    /// or a payload that the payload's own `clone` gives.
    pub open spec fn cloned_to(self, copy: Self) -> bool {
        match (self, copy) {
            (StringOrStructOrVec::String(a), StringOrStructOrVec::String(b)) => a == b,
            (StringOrStructOrVec::Struct(a), StringOrStructOrVec::Struct(b)) => cloned(a, b),
            (StringOrStructOrVec::Vec(a), StringOrStructOrVec::Vec(b)) => cloned(a, b),
            _ => false,
        }
    }
}

impl<S: Clone, V: Clone> Clone for StringOrStructOrVec<S, V> {
    fn clone(&self) -> (copy: Self)
        ensures
            self.cloned_to(copy),
    {
        match self {
            Self::String(as_string) => Self::String(as_string.clone()),
            Self::Struct(as_struct) => Self::Struct(as_struct.clone()),
            Self::Vec(as_vec) => Self::Vec(as_vec.clone()),
        }
    }
}

impl<S: Clone> SingleOrVec<S> {
    /// `copy` is a clone of `self`: the same variant, holding a clone of the
    /// single value, or as many values, each a clone of the one at its index.
    pub open spec fn cloned_to(self, copy: Self) -> bool {
        match (self, copy) {
            (SingleOrVec::Single(a), SingleOrVec::Single(b)) => cloned(a, b),
            (SingleOrVec::Vec(a), SingleOrVec::Vec(b)) => {
                &&& a.len() == b.len()
                &&& forall|i: int| 0 <= i < a.len() ==> cloned(#[trigger] a[i], b[i])
            },
            _ => false,
        }
    }
}

impl<S: Clone> Clone for SingleOrVec<S> {
    fn clone(&self) -> (copy: Self)
        ensures
            self.cloned_to(copy),
    {
        match self {
            Self::Single(as_single) => Self::Single(as_single.clone()),
            Self::Vec(as_vec) => Self::Vec(as_vec.clone()),
        }
    }
}

} // verus!
