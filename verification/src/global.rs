//! A slot for a value that is set up once at start-up and only read afterwards.

use vstd::prelude::*;

verus! {

/// A cell that is filled at most once.
///
/// The cell is created empty, filled by [`GlobalOnceCell::init`] during start-up
/// and handed out by reference from then on.
pub struct GlobalOnceCell<T> {
    value: Option<T>,
}

impl<T> View for GlobalOnceCell<T> {
    type V = Option<T>;

    closed spec fn view(&self) -> Option<T> {
        self.value
    }
}

impl<T> GlobalOnceCell<T> {
    /// Creates a new empty cell.
    pub fn new() -> (cell: Self)
        ensures
            cell@ is None,
    {
        GlobalOnceCell { value: None }
    }

    /// Tells whether the cell has been filled.
    pub fn is_initialized(&self) -> (filled: bool)
        ensures
            filled == (self@ is Some),
    {
        self.value.is_some()
    }

    /// Fills the cell. A cell can be filled only once.
    pub fn init(&mut self, value: T)
        requires
            old(self)@ is None,
        ensures
            final(self)@ == Some(value),
    {
        self.value = Some(value);
    }

    /// Hands out the value of a filled cell.
    pub fn get(&self) -> (value: &T)
        requires
            self@ is Some,
        ensures
            self@ == Some(*value),
    {
        self.value.as_ref().unwrap()
    }
}

} // verus!
