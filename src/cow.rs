//! A shared, copy-on-write cell: handles made by `share` read the same
//! value, and writing through one handle never changes what another reads.
use std::rc::Rc;
use vstd::prelude::*;

verus! {

pub struct CowCell<T> {
    inner: Rc<T>,
}

impl<T> View for CowCell<T> {
    type V = T;

    closed spec fn view(&self) -> T {
        *self.inner
    }
}

impl<T> CowCell<T> {
    pub fn new(value: T) -> (r: CowCell<T>)
        ensures
            r@ == value,
    {
        CowCell { inner: Rc::new(value) }
    }

    pub fn get(&self) -> (r: &T)
        ensures
            *r == self@,
    {
        &self.inner
    }

    /// A second handle on the same value.
    pub fn share(&self) -> (r: CowCell<T>)
        ensures
            r@ == self@,
    {
        CowCell { inner: Rc::clone(&self.inner) }
    }

    /// Gives this handle a new value; other handles keep the old one.
    pub fn set(&mut self, value: T)
        ensures
            final(self)@ == value,
    {
        self.inner = Rc::new(value);
    }
}

} // verus!
