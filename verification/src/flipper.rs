//! A single stored flag that is set once and flipped afterwards.

use vstd::prelude::*;

verus! {

/// Why a flag operation was refused.
#[derive(Clone, Copy, Debug, PartialEq, Eq)]
pub enum Error {
    /// No value is stored yet.
    NoneValue,
    /// A value is stored already.
    AlreadySet,
}

/// What a successful flag operation reports. The account that asked for it is
/// the caller's to attach.
#[derive(Clone, Copy, Debug, PartialEq, Eq)]
pub enum Event {
    /// A first value was stored.
    ValueStored { value: bool },
    /// The stored value was flipped to `new_value`.
    ValueFlipped { new_value: bool },
}

/// What `set_value` does to the stored flag and what it answers.
pub open spec fn value_set(stored: Option<bool>, value: bool) -> (Option<bool>, Result<Event, Error>) {
    match stored {
        Some(_) => (stored, Err(Error::AlreadySet)),
        None => (Some(value), Ok(Event::ValueStored { value })),
    }
}

/// What `flip_value` does to the stored flag and what it answers.
pub open spec fn value_flipped(stored: Option<bool>) -> (Option<bool>, Result<Event, Error>) {
    match stored {
        Some(value) => (Some(!value), Ok(Event::ValueFlipped { new_value: !value })),
        None => (stored, Err(Error::NoneValue)),
    }
}

/// The flag, if one is stored.
pub struct Pallet {
    stored: Option<bool>,
}

impl View for Pallet {
    type V = Option<bool>;

    closed spec fn view(&self) -> Option<bool> {
        self.stored
    }
}

impl Pallet {
    /// A pallet with nothing stored.
    pub fn new() -> (pallet: Self)
        ensures
            pallet@ is None,
    {
        Pallet { stored: None }
    }

    /// A pallet that holds what a host has kept.
    pub fn restore(stored: Option<bool>) -> (pallet: Self)
        ensures
            pallet@ == stored,
    {
        Pallet { stored }
    }

    /// The stored value, if there is one.
    pub fn value(&self) -> (stored: Option<bool>)
        ensures
            stored == self@,
    {
        self.stored
    }

    /// Stores `value`, unless a value is stored already.
    pub fn set_value(&mut self, value: bool) -> (r: Result<Event, Error>)
        ensures
            (final(self)@, r) == value_set(old(self)@, value),
    {
        if self.stored.is_some() {
            return Err(Error::AlreadySet);
        }
        self.stored = Some(value);
        Ok(Event::ValueStored { value })
    }

    /// Replaces the stored value by its negation.
    pub fn flip_value(&mut self) -> (r: Result<Event, Error>)
        ensures
            (final(self)@, r) == value_flipped(old(self)@),
    {
        let old_value = match self.stored {
            Some(value) => value,
            None => return Err(Error::NoneValue),
        };
        let new_value = !old_value;
        self.stored = Some(new_value);
        Ok(Event::ValueFlipped { new_value })
    }
}

/// Flipping twice gives the stored value back.
pub proof fn lemma_flip_twice(stored: Option<bool>)
    ensures
        value_flipped(value_flipped(stored).0).0 == stored,
{
}

} // verus!
