//! The one-time cell: storage that is written once and then stays put.

use vstd::prelude::*;

verus! {

/// A slot that is written at most once. What was put into it keeps its place
/// for as long as the cell lives, so that an interrupt handler may refer to
/// it.
pub struct Forever<T> {
    slot: Option<T>,
}

impl<T> View for Forever<T> {
    type V = Option<T>;

    closed spec fn view(&self) -> Option<T> {
        self.slot
    }
}

impl<T> Forever<T> {
    /// An unwritten cell.
    pub fn new() -> (cell: Forever<T>)
        ensures
            cell@ is None,
    {
        Forever { slot: None }
    }

    /// Whether the cell has been written.
    pub fn is_written(&self) -> (written: bool)
        ensures
            written == (self@ is Some),
    {
        self.slot.is_some()
    }

    /// Writes the cell and hands out the value in its final place. A cell
    /// takes one write; a second one is a defect of the program, which the
    /// precondition rules out.
    pub fn put(&mut self, value: T) -> (stored: &mut T)
        requires
            old(self)@ is None,
        ensures
            *stored == value,
            final(self)@ == Some(*final(stored)),
    {
        self.slot.insert(value)
    }

    /// The value in the cell, once written.
    pub fn get(&self) -> (stored: Option<&T>)
        ensures
            stored == match self@ {
                Some(value) => Some(&value),
                None => None,
            },
    {
        self.slot.as_ref()
    }
}

} // verus!
