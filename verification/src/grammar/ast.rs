//! Arguments of gate invocations.

use vstd::prelude::*;

verus! {

/// An argument, as written in the body of a gate or at a call site.
#[derive(Debug, PartialEq, Eq)]
pub enum Argument {
    /// A bare name. Inside the body of a gate it refers to a formal parameter
    /// and waits to be resolved.
    Id(String),
    /// One position of a register: the register's name and the index.
    Item(String, usize),
}

/// What an [`Argument`] denotes: names as sequences of characters, the index
/// as a natural number.
pub enum ArgumentView {
    Id(Seq<char>),
    Item(Seq<char>, nat),
}

impl View for Argument {
    type V = ArgumentView;

    open spec fn view(&self) -> ArgumentView {
        match *self {
            Argument::Id(name) => ArgumentView::Id(name@),
            Argument::Item(register, index) => ArgumentView::Item(register@, index as nat),
        }
    }
}

impl Clone for Argument {
    /// The copy owns its strings: it shares nothing with `self`.
    fn clone(&self) -> (copy: Self)
        ensures
            copy == *self,
    {
        match self {
            Argument::Id(name) => Argument::Id(name.clone()),
            Argument::Item(register, index) => Argument::Item(register.clone(), *index),
        }
    }
}

} // verus!
