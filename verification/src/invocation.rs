//! A program to run, as the library hands it to whoever runs programs.

use vstd::prelude::*;

verus! {

/// A program and the arguments to run it with, in order.
#[derive(Debug, Clone, PartialEq, Eq)]
pub struct Invocation {
    /// The name of the program.
    pub program: String,
    /// Its arguments, without the program's own name.
    pub args: Vec<String>,
}

/// The model of an [`Invocation`].
pub struct InvocationView {
    pub program: Seq<char>,
    pub args: Seq<Seq<char>>,
}

/// The model of a list of strings: each as its sequence of characters.
pub open spec fn texts_of(list: Seq<String>) -> Seq<Seq<char>> {
    Seq::new(list.len(), |i: int| list[i]@)
}

impl View for Invocation {
    type V = InvocationView;

    open spec fn view(&self) -> InvocationView {
        InvocationView { program: self.program@, args: texts_of(self.args@) }
    }
}

/// Appends `text` to `list`.
pub fn push_text(list: &mut Vec<String>, text: String)
    ensures
        texts_of(final(list)@) == texts_of(old(list)@).push(text@),
{
    list.push(text);
}

/// The list with nothing in it.
pub fn no_texts() -> (list: Vec<String>)
    ensures
        texts_of(list@) == Seq::<Seq<char>>::empty(),
{
    let list: Vec<String> = Vec::new();
    list
}

} // verus!
