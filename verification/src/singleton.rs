//! A slot for a value that exists once in the whole program, such as the
//! manager of a transport that an interrupt handler must reach. The slot is
//! filled once, at start, and afterwards only lends its value out for the
//! length of one closure. Using it before it is filled does nothing.

use vstd::prelude::*;

verus! {

/// A value that is set up at most once.
pub struct OnceSlot<T> {
    value: Option<T>,
}

impl<T> View for OnceSlot<T> {
    type V = Option<T>;

    closed spec fn view(&self) -> Option<T> {
        self.value
    }
}

impl<T> OnceSlot<T> {
    /// A slot that is not filled yet.
    pub fn empty() -> (slot: Self)
        ensures
            slot@ is None,
    {
        OnceSlot { value: None }
    }

    /// Whether the slot has been filled.
    pub fn is_initialized(&self) -> (filled: bool)
        ensures
            filled == (self@ is Some),
    {
        self.value.is_some()
    }

    /// Fills the slot, once. A second value is refused and handed back, and
    /// the slot keeps the first.
    pub fn init(&mut self, value: T) -> (r: Result<(), T>)
        ensures
            old(self)@ is None ==> r is Ok && final(self)@ == Some(value),
            old(self)@ is Some ==> r == Err::<(), T>(value) && final(self)@ == old(self)@,
    {
        if self.value.is_some() {
            Err(value)
        } else {
            self.value = Some(value);
            Ok(())
        }
    }

    /// Runs `f` on the value if the slot is filled, and does nothing if it
    /// is not. The slot stays filled, or empty, as it was.
    pub fn with<R, F: FnOnce(&mut T) -> R>(&mut self, f: F) -> (r: Option<R>)
        requires
            old(self)@ is Some ==> forall|v: &mut T| *v == old(self)@->Some_0 ==> f.requires((v,)),
        ensures
            old(self)@ is None ==> r is None && final(self)@ is None,
            old(self)@ is Some ==> r is Some && final(self)@ is Some && exists|v: &mut T|
                *v == old(self)@->Some_0 && *final(v) == final(self)@->Some_0 && f.ensures(
                    (v,),
                    r->Some_0,
                ),
    {
        match &mut self.value {
            Some(value) => Some(f(value)),
            None => None,
        }
    }
}

} // verus!
