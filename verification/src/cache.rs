//! The secret as this process has it: a cell that is written at most once.

use vstd::prelude::*;
use crate::text::text_of;

verus! {

/// What the cell holds after an attempt to set it: what it held, if it held
/// anything; else the secret offered.
pub open spec fn after_set(held: Option<Seq<char>>, secret: Seq<char>) -> Option<Seq<char>> {
    if held is Some {
        held
    } else {
        Some(secret)
    }
}

/// A cell for the secret. It starts empty, takes the first secret offered,
/// and keeps it: there is no way to clear or replace it. Whoever offers a
/// secret holds the cell alone, so the look at the cell and the write are one
/// step: of callers that race, one comes first, and all see that one's
/// secret.
pub struct KeyCache {
    slot: Option<String>,
}

impl View for KeyCache {
    type V = Option<Seq<char>>;

    closed spec fn view(&self) -> Option<Seq<char>> {
        text_of(self.slot)
    }
}

impl KeyCache {
    /// An empty cell.
    pub fn new() -> (cache: Self)
        ensures
            cache@ is None,
    {
        KeyCache { slot: None }
    }

    /// Whether the cell holds a secret.
    pub fn is_set(&self) -> (set: bool)
        ensures
            set == (self@ is Some),
    {
        self.slot.is_some()
    }

    /// The secret held, if any.
    pub fn get(&self) -> (held: Option<String>)
        ensures
            text_of(held) == self@,
    {
        match &self.slot {
            Some(secret) => Some(secret.clone()),
            None => None,
        }
    }

    /// Offers a secret. An empty cell takes it and the answer is `true`; a
    /// full cell stays as it is and the answer is `false`.
    pub fn set_if_absent(&mut self, secret: String) -> (taken: bool)
        ensures
            taken == (old(self)@ is None),
            final(self)@ == after_set(old(self)@, secret@),
    {
        if self.slot.is_some() {
            false
        } else {
            self.slot = Some(secret);
            true
        }
    }
}

/// Once two secrets were offered to an empty cell, no later offer changes
/// what every reader sees.
pub proof fn lemma_first_write_wins(first: Seq<char>, second: Seq<char>, later: Seq<char>)
    ensures
        after_set(after_set(after_set(None, first), second), later) == after_set(
            after_set(None, first),
            second,
        ),
{
}

/// A cell that holds a secret holds the same secret after any offer.
pub proof fn lemma_full_cell_is_fixed(held: Option<Seq<char>>, offered: Seq<char>)
    requires
        held is Some,
    ensures
        after_set(held, offered) == held,
{
}

/// Two offers in either order leave exactly one of the two secrets in an
/// empty cell, the one offered first.
pub proof fn lemma_one_of_two_is_kept(a: Seq<char>, b: Seq<char>)
    ensures
        after_set(after_set(None, a), b) == Some(a),
        after_set(after_set(None, b), a) == Some(b),
{
}

} // verus!
