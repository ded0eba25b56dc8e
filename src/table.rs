//! The state of the whole table, updated one event at a time: data loaded,
//! script switched, cell clicked, carousel moved.
use vstd::prelude::*;
use crate::cards::{card_query, query};
use crate::carousel::{clamped, next_index, previous_index, CardCarousel};
use crate::focus::{toggled, FocusState};
use crate::grid::{layout, GridCell};
use crate::index::{index_of, KanaIndex};
use crate::model::{kana_form, AppConfig, Kana, KanaCard, KanaType};

verus! {

/// The cards shown for focus `focus` over index `m`: none unless the focused
/// key is in the index.
pub open spec fn shown_cards(
    m: Map<Seq<char>, Kana>,
    cards: Seq<KanaCard>,
    focus: Option<Seq<char>>,
    kana_type: KanaType,
) -> Seq<KanaCard> {
    match focus {
        Some(k) => if m.contains_key(k) {
            card_query(cards, kana_form(m[k], kana_type))
        } else {
            Seq::empty()
        },
        None => Seq::empty(),
    }
}

/// The index, the example cards, the focus, the carousel and the script.
pub struct KanaTable {
    index: KanaIndex,
    cards: Vec<KanaCard>,
    focus: FocusState,
    carousel: CardCarousel,
    config: AppConfig,
}

impl KanaTable {
    /// The kana index.
    pub closed spec fn index_view(&self) -> Map<Seq<char>, Kana> {
        self.index@
    }

    /// All example cards loaded.
    pub closed spec fn cards_view(&self) -> Seq<KanaCard> {
        self.cards@
    }

    /// The focused key.
    pub closed spec fn focus_view(&self) -> Option<Seq<char>> {
        self.focus@
    }

    /// The cards in the carousel and the position shown.
    pub closed spec fn carousel_view(&self) -> (Seq<KanaCard>, int) {
        self.carousel@
    }

    /// The script shown.
    pub closed spec fn kana_type_view(&self) -> KanaType {
        self.config.kana_type
    }

    /// The carousel always holds the cards of the current focus and script.
    pub closed spec fn wf(&self) -> bool {
        &&& self.index.wf()
        &&& self.carousel.wf()
        &&& self.carousel@.0 == shown_cards(self.index@, self.cards@, self.focus@, self.config.kana_type)
    }

    /// Nothing loaded, nothing focused, hiragana shown.
    pub fn new() -> (r: KanaTable)
        ensures
            r.wf(),
            r.index_view() == Map::<Seq<char>, Kana>::empty(),
            r.cards_view().len() == 0,
            r.focus_view() == None::<Seq<char>>,
            r.carousel_view().1 == 0,
            r.kana_type_view() == KanaType::Hiragana,
    {
        let carousel = CardCarousel::new();
        assert(carousel@.0 =~= Seq::<KanaCard>::empty());
        KanaTable {
            index: KanaIndex::new(),
            cards: Vec::new(),
            focus: FocusState::new(),
            carousel,
            config: AppConfig::default(),
        }
    }

    /// Puts the cards of the current state into the carousel.
    fn refresh(&mut self)
        requires
            old(self).index.wf(),
        ensures
            final(self).wf(),
            final(self).index == old(self).index,
            final(self).cards == old(self).cards,
            final(self).focus == old(self).focus,
            final(self).config == old(self).config,
            final(self).carousel@.1 == clamped(old(self).carousel@.1, final(self).carousel@.0.len() as int),
    {
        let focused: Option<&Kana> = match self.focus.key() {
            Some(k) => self.index.get(k.as_str()),
            None => None,
        };
        let shown = query(&self.cards, focused, self.config.kana_type);
        self.carousel.show(shown);
    }

    /// Replaces the kana records, rebuilding the index.
    pub fn load_kana(&mut self, records: &Vec<Kana>)
        requires
            old(self).wf(),
        ensures
            final(self).wf(),
            final(self).index_view() == index_of(records@),
            final(self).cards_view() == old(self).cards_view(),
            final(self).focus_view() == old(self).focus_view(),
            final(self).kana_type_view() == old(self).kana_type_view(),
            final(self).carousel_view().1 == clamped(old(self).carousel_view().1, final(self).carousel_view().0.len() as int),
    {
        self.index = KanaIndex::build(records);
        self.refresh();
    }

    /// Replaces the example cards.
    pub fn load_cards(&mut self, cards: Vec<KanaCard>)
        requires
            old(self).wf(),
        ensures
            final(self).wf(),
            final(self).index_view() == old(self).index_view(),
            final(self).cards_view() == cards@,
            final(self).focus_view() == old(self).focus_view(),
            final(self).kana_type_view() == old(self).kana_type_view(),
            final(self).carousel_view().1 == clamped(old(self).carousel_view().1, final(self).carousel_view().0.len() as int),
    {
        self.cards = cards;
        self.refresh();
    }

    /// Switches the script shown.
    pub fn set_kana_type(&mut self, kana_type: KanaType)
        requires
            old(self).wf(),
        ensures
            final(self).wf(),
            final(self).index_view() == old(self).index_view(),
            final(self).cards_view() == old(self).cards_view(),
            final(self).focus_view() == old(self).focus_view(),
            final(self).kana_type_view() == kana_type,
            final(self).carousel_view().1 == clamped(old(self).carousel_view().1, final(self).carousel_view().0.len() as int),
    {
        self.config = AppConfig { kana_type };
        self.refresh();
    }

    /// A click on the cell with key `key`: toggles the focus.
    pub fn select(&mut self, key: &str)
        requires
            old(self).wf(),
        ensures
            final(self).wf(),
            final(self).index_view() == old(self).index_view(),
            final(self).cards_view() == old(self).cards_view(),
            final(self).focus_view() == toggled(old(self).focus_view(), key@),
            final(self).kana_type_view() == old(self).kana_type_view(),
            final(self).carousel_view().1 == clamped(old(self).carousel_view().1, final(self).carousel_view().0.len() as int),
    {
        self.focus.toggle(key);
        self.refresh();
    }

    /// Shows the next card, from the last back to the first.
    pub fn next_card(&mut self)
        requires
            old(self).wf(),
        ensures
            final(self).wf(),
            final(self).index_view() == old(self).index_view(),
            final(self).cards_view() == old(self).cards_view(),
            final(self).focus_view() == old(self).focus_view(),
            final(self).kana_type_view() == old(self).kana_type_view(),
            final(self).carousel_view().0 == old(self).carousel_view().0,
            final(self).carousel_view().1 == if old(self).carousel_view().0.len() == 0 {
                old(self).carousel_view().1
            } else {
                next_index(old(self).carousel_view().1, old(self).carousel_view().0.len() as int)
            },
    {
        self.carousel.next();
    }

    /// Shows the previous card, from the first round to the last.
    pub fn previous_card(&mut self)
        requires
            old(self).wf(),
        ensures
            final(self).wf(),
            final(self).index_view() == old(self).index_view(),
            final(self).cards_view() == old(self).cards_view(),
            final(self).focus_view() == old(self).focus_view(),
            final(self).kana_type_view() == old(self).kana_type_view(),
            final(self).carousel_view().0 == old(self).carousel_view().0,
            final(self).carousel_view().1 == if old(self).carousel_view().0.len() == 0 {
                old(self).carousel_view().1
            } else {
                previous_index(old(self).carousel_view().1, old(self).carousel_view().0.len() as int)
            },
    {
        self.carousel.previous();
    }

    /// The carousel of the focused syllable's cards.
    pub fn carousel(&self) -> (r: &CardCarousel)
        requires
            self.wf(),
        ensures
            r.wf(),
            r@ == self.carousel_view(),
            r@.0 == shown_cards(self.index_view(), self.cards_view(), self.focus_view(), self.kana_type_view()),
    {
        &self.carousel
    }

    /// The focused key.
    pub fn focus(&self) -> (r: &FocusState)
        ensures
            r@ == self.focus_view(),
    {
        &self.focus
    }

    /// The script shown.
    pub fn kana_type(&self) -> (r: KanaType)
        ensures
            r == self.kana_type_view(),
    {
        self.config.kana_type
    }

    /// The kana index.
    pub fn index(&self) -> (r: &KanaIndex)
        requires
            self.wf(),
        ensures
            r.wf(),
            r@ == self.index_view(),
    {
        &self.index
    }

    /// The focused syllable's record, if its key is in the index.
    pub fn focused_kana(&self) -> (r: Option<&Kana>)
        requires
            self.wf(),
        ensures
            match self.focus_view() {
                Some(key) => match r {
                    Some(k) => self.index_view().contains_key(key) && *k == self.index_view()[key],
                    None => !self.index_view().contains_key(key),
                },
                None => r is None,
            },
    {
        match self.focus.key() {
            Some(k) => {
                let r = self.index.get(k.as_str());
                assert(self.focus_view() == Some(k@));
                r
            },
            None => None,
        }
    }

    /// The grid over the current index.
    pub fn grid(&self) -> (g: Vec<Vec<GridCell>>)
        requires
            self.wf(),
        ensures
            g@.len() == crate::grid::ROWS,
            forall|j: int| 0 <= j < crate::grid::ROWS ==> (#[trigger] g@[j])@.len() == crate::grid::COLUMNS,
            forall|j: int, i: int| 0 <= j < crate::grid::ROWS && 0 <= i < crate::grid::COLUMNS ==>
                crate::grid::cell_matches(#[trigger] g@[j]@[i], self.index_view(), j, i),
    {
        layout(&self.index)
    }
}

} // verus!
