//! A single to-do entry: a description and a completed flag.

use vstd::prelude::*;

verus! {

/// The mathematical content of a [`Tudu`]: the description as a sequence of
/// characters and the completion flag.
pub struct TuduView {
    pub completed: bool,
    pub description: Seq<char>,
}

/// One to-do entry. The description is immutable after creation; the
/// completed flag is toggled in place.
#[derive(Debug)]
pub struct Tudu {
    pub completed: bool,
    pub description: String,
}

impl View for Tudu {
    type V = TuduView;

    open spec fn view(&self) -> TuduView {
        TuduView { completed: self.completed, description: self.description@ }
    }
}

impl Tudu {
    /// A fresh entry starts out uncompleted.
    pub fn new(description: String) -> (r: Tudu)
        ensures
            r@.completed == false,
            r@.description == description@,
    {
        Tudu { completed: false, description }
    }

    /// Flips the completed flag; the description is untouched.
    pub fn change_state(&mut self)
        ensures
            final(self)@.completed == !old(self)@.completed,
            final(self)@.description == old(self)@.description,
    {
        self.completed = !self.completed;
    }

    /// The list marker shown in front of the description: a check mark once
    /// the entry is completed, an empty box before.
    pub fn marker(&self) -> (c: char)
        ensures
            c == (if self@.completed { '\u{2713}' } else { '\u{2610}' }),
    {
        if self.completed {
            '\u{2713}'
        } else {
            '\u{2610}'
        }
    }
}

} // verus!
