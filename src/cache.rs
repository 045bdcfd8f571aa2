use std::rc::Rc;
use vstd::prelude::*;

verus! {

/// A value computed at most once, on first demand, and then shared.
#[derive(Debug)]
pub struct Cache<V> {
    inner: Option<Rc<V>>,
}

impl<V> View for Cache<V> {
    type V = Option<V>;

    /// The value stored so far, if any.
    closed spec fn view(&self) -> Option<V> {
        match self.inner {
            Some(rc) => Some(*rc),
            None => None,
        }
    }
}

impl<V> Default for Cache<V> {
    fn default() -> (r: Self)
        ensures
            r@ is None,
    {
        Cache { inner: None }
    }
}

impl<V> Cache<V> {
    /// The stored value; the first call computes it with `generator` and
    /// stores it, later calls hand out the stored one without calling it.
    pub fn get<F: Fn() -> V>(&mut self, generator: F) -> (r: Rc<V>)
        requires
            old(self)@ is None ==> generator.requires(()),
        ensures
            final(self)@ == Some(*r),
            old(self)@ matches Some(v) ==> *r == v,
            old(self)@ is None ==> generator.ensures((), *r),
    {
        if let Some(existing) = &self.inner {
            return Rc::clone(existing);
        }
        let new = Rc::new(generator());
        self.inner = Some(Rc::clone(&new));
        new
    }
}

} // verus!
