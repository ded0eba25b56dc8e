//! The card carousel: one card shown at a time, with cyclic navigation.
use vstd::prelude::*;
use crate::model::KanaCard;

verus! {

/// `index` brought back into `0..total` after the card set changed size;
/// left alone when there is no card.
pub open spec fn clamped(index: int, total: int) -> int {
    if total > 0 && index > total - 1 { total - 1 } else { index }
}

/// The position after `index` in a ring of `total` cards.
pub open spec fn next_index(index: int, total: int) -> int {
    if index < total - 1 { index + 1 } else { 0 }
}

/// The position before `index` in a ring of `total` cards.
pub open spec fn previous_index(index: int, total: int) -> int {
    if index > 0 { index - 1 } else { total - 1 }
}

/// The cards of the focused syllable and the position of the one shown.
#[derive(Debug)]
pub struct CardCarousel {
    cards: Vec<KanaCard>,
    index: usize,
}

impl View for CardCarousel {
    type V = (Seq<KanaCard>, int);

    closed spec fn view(&self) -> (Seq<KanaCard>, int) {
        (self.cards@, self.index as int)
    }
}

impl CardCarousel {
    /// The position addresses a card whenever there is one.
    pub open spec fn wf(&self) -> bool {
        self@.1 >= 0 && (self@.0.len() == 0 || self@.1 < self@.0.len())
    }

    /// No card, at position 0.
    pub fn new() -> (r: CardCarousel)
        ensures
            r.wf(),
            r@.0.len() == 0,
            r@.1 == 0,
    {
        CardCarousel { cards: Vec::new(), index: 0 }
    }

    /// Shows `cards`, keeping the position but clamped to the new count.
    pub fn show(&mut self, cards: Vec<KanaCard>)
        ensures
            final(self).wf(),
            final(self)@.0 == cards@,
            final(self)@.1 == clamped(old(self)@.1, cards@.len() as int),
    {
        let total = cards.len();
        if total > 0 && self.index > total - 1 {
            self.index = total - 1;
        }
        self.cards = cards;
    }

    /// The number of cards.
    pub fn total(&self) -> (r: usize)
        ensures
            r == self@.0.len(),
    {
        self.cards.len()
    }

    /// The position of the card shown.
    pub fn index(&self) -> (r: usize)
        ensures
            r == self@.1,
    {
        self.index
    }

    /// The card shown; none when there is no card.
    pub fn current(&self) -> (r: Option<&KanaCard>)
        requires
            self.wf(),
        ensures
            match r {
                Some(c) => self@.0.len() > 0 && *c == self@.0[self@.1],
                None => self@.0.len() == 0,
            },
    {
        if self.cards.len() == 0 {
            None
        } else {
            Some(&self.cards[self.index])
        }
    }

    /// Moves to the next card, from the last back to the first.
    pub fn next(&mut self)
        requires
            old(self).wf(),
        ensures
            final(self).wf(),
            final(self)@.0 == old(self)@.0,
            final(self)@.1 == if old(self)@.0.len() == 0 { old(self)@.1 } else {
                next_index(old(self)@.1, old(self)@.0.len() as int)
            },
    {
        let total = self.cards.len();
        if total > 0 {
            if self.index < total - 1 {
                self.index = self.index + 1;
            } else {
                self.index = 0;
            }
        }
    }

    /// Moves to the previous card, from the first round to the last.
    pub fn previous(&mut self)
        requires
            old(self).wf(),
        ensures
            final(self).wf(),
            final(self)@.0 == old(self)@.0,
            final(self)@.1 == if old(self)@.0.len() == 0 { old(self)@.1 } else {
                previous_index(old(self)@.1, old(self)@.0.len() as int)
            },
    {
        let total = self.cards.len();
        if total > 0 {
            if self.index > 0 {
                self.index = self.index - 1;
            } else {
                self.index = total - 1;
            }
        }
    }
}

/// On a ring of cards, going forward then back, or back then forward,
/// returns to the same card.
pub proof fn lemma_navigation_inverse(index: int, total: int)
    requires
        0 <= index < total,
    ensures
        previous_index(next_index(index, total), total) == index,
        next_index(previous_index(index, total), total) == index,
        0 <= next_index(index, total) < total,
        0 <= previous_index(index, total) < total,
{
}

} // verus!
