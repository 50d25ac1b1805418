//! The deck: card entries in the order in which they were added.

use vstd::prelude::*;
use vstd::std_specs::cmp::PartialEqSpec;
use crate::card::{entry_of_data, Card, CardCodeAndCount};
use crate::error::LorError;

verus! {

/// Holds card entries in the order in which they were added. It keeps every
/// entry as it was given: two entries for one card stay two entries.
#[derive(Debug)]
pub struct Deck(Vec<CardCodeAndCount>);

impl View for Deck {
    type V = Seq<CardCodeAndCount>;

    /// The entries of the deck, first added first: what `cards` returns.
    open spec fn view(&self) -> Seq<CardCodeAndCount> {
        self.cards()@
    }
}

impl Deck {
    /// What `cards` returns, for use in contracts and proofs.
    pub closed spec fn spec_cards(&self) -> &Vec<CardCodeAndCount> {
        &self.0
    }

    /// Creates a deck without entries.
    pub fn new() -> (deck: Deck)
        ensures
            deck.cards()@ == Seq::<CardCodeAndCount>::empty(),
            deck.cards()@.len() == 0,
    {
        Deck(Vec::new())
    }

    /// Creates a deck that holds the entries of `vec`, in their order. The
    /// entries are taken as they are: none is checked, merged or moved.
    pub fn from_vec(vec: Vec<CardCodeAndCount>) -> (deck: Deck)
        ensures
            *deck.cards() == vec,
            deck.cards()@ == vec@,
    {
        Deck(vec)
    }

    /// Adds `card` behind the entries that the deck holds, also where the
    /// deck holds an entry of the same card already.
    pub fn add(&mut self, card: CardCodeAndCount)
        ensures
            final(self).cards()@ == old(self).cards()@.push(card),
            final(self).cards()@.len() == old(self).cards()@.len() + 1,
    {
        self.0.push(card);
    }

    /// Reads the card code `code` and adds an entry of that card and `count`,
    /// as `add` does. Where `code` names no card, the deck stays as it was.
    pub fn add_from_data(&mut self, code: &str, count: i32) -> (r: Result<(), LorError>)
        ensures
            match entry_of_data(code@, count) {
                Some(entry) => {
                    &&& r == Ok::<(), LorError>(())
                    &&& final(self).cards()@ == old(self).cards()@.push(entry)
                },
                None => {
                    &&& r == Err::<(), LorError>(LorError::InvalidCardCode)
                    &&& *final(self) == *old(self)
                },
            },
    {
        match Card::from_code(code) {
            Ok(card) => {
                self.add(CardCodeAndCount::new(card, count));
                Ok(())
            },
            Err(e) => Err(e),
        }
    }

    /// The entries of the deck, first added first.
    #[verifier::when_used_as_spec(spec_cards)]
    pub fn cards(&self) -> (cards: &Vec<CardCodeAndCount>)
        ensures
            cards == self.spec_cards(),
    {
        &self.0
    }
}

impl PartialEq for Deck {
    /// Compares the entries of the two decks pair by pair, in their order.
    fn eq(&self, other: &Self) -> (r: bool) {
        if self.0.len() != other.0.len() {
            return false;
        }
        let mut i: usize = 0;
        while i < self.0.len()
            invariant
                i <= self.0.len(),
                self.0.len() == other.0.len(),
                forall|j: int| 0 <= j < i ==> self.0@[j] == other.0@[j],
            decreases self.0.len() - i,
        {
            if !(self.0[i] == other.0[i]) {
                return false;
            }
            i += 1;
        }
        assert(self.0@ =~= other.0@);
        true
    }
}

impl vstd::std_specs::cmp::PartialEqSpecImpl for Deck {
    open spec fn obeys_eq_spec() -> bool {
        true
    }

    /// Two decks are equal where they hold the same entries in the same
    /// order.
    open spec fn eq_spec(&self, other: &Self) -> bool {
        self.cards()@ == other.cards()@
    }
}

/// Two decks are equal exactly when they hold equally many entries and agree
/// on the entry at each position.
pub proof fn lemma_eq_is_entrywise(a: Deck, b: Deck)
    ensures
        a.eq_spec(&b) <==> {
            &&& a.cards()@.len() == b.cards()@.len()
            &&& forall|i: int| 0 <= i < a.cards()@.len() ==> a.cards()@[i] == b.cards()@[i]
        },
{
    if a.cards()@.len() == b.cards()@.len() && (forall|i: int|
        0 <= i < a.cards()@.len() ==> a.cards()@[i] == b.cards()@[i]) {
        assert(a.cards()@ =~= b.cards()@);
    }
}

/// Equality looks at the order: a deck differs from the one that holds its
/// entries with two unequal entries exchanged.
pub proof fn lemma_eq_is_order_sensitive(a: Deck, b: Deck, i: int, j: int)
    requires
        0 <= i < a.cards()@.len(),
        0 <= j < a.cards()@.len(),
        a.cards()@[i] != a.cards()@[j],
        b.cards()@ == a.cards()@.update(i, a.cards()@[j]).update(j, a.cards()@[i]),
    ensures
        !a.eq_spec(&b),
{
    assert(b.cards()@[j] == a.cards()@[i]);
}

} // verus!
