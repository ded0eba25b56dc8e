//! The example cards of the focused syllable: those whose kana contain its
//! written form, shortest first and, among equal lengths, those that begin
//! with the form first, and otherwise in the order loaded. A card's length
//! is the number of characters of its kana text, not of its romaji.
use vstd::prelude::*;
use crate::model::{kana_form, Kana, KanaCard, KanaType};
use crate::text::{contains, contains_chars, starts_with, starts_with_chars};

verus! {

/// The cards of `cards`, in order, whose kana contain `form`.
pub open spec fn matching(cards: Seq<KanaCard>, form: Seq<char>) -> Seq<KanaCard>
    decreases cards.len(),
{
    if cards.len() == 0 {
        Seq::empty()
    } else if contains_chars(cards.last().kana@, form) {
        matching(cards.drop_last(), form).push(cards.last())
    } else {
        matching(cards.drop_last(), form)
    }
}

/// The sort key of a card: its length in characters first, then whether it
/// does not begin with `form`.
pub open spec fn card_rank(c: KanaCard, form: Seq<char>) -> int {
    2 * c.kana@.len() + if starts_with_chars(c.kana@, form) { 0int } else { 1int }
}

/// `x` put into `s` after every card whose rank is not above its own.
pub open spec fn insert_by_rank(s: Seq<KanaCard>, x: KanaCard, form: Seq<char>) -> Seq<KanaCard>
    decreases s.len(),
{
    if s.len() == 0 {
        seq![x]
    } else if card_rank(s.last(), form) <= card_rank(x, form) {
        s.push(x)
    } else {
        insert_by_rank(s.drop_last(), x, form).push(s.last())
    }
}

/// `s` stably sorted by rank (insertion sort).
pub open spec fn sort_by_rank(s: Seq<KanaCard>, form: Seq<char>) -> Seq<KanaCard>
    decreases s.len(),
{
    if s.len() == 0 {
        s
    } else {
        insert_by_rank(sort_by_rank(s.drop_last(), form), s.last(), form)
    }
}

/// The cards shown for a syllable written `form`.
pub open spec fn card_query(cards: Seq<KanaCard>, form: Seq<char>) -> Seq<KanaCard> {
    sort_by_rank(matching(cards, form), form)
}

/// The rank of card `c`.
fn rank_of(c: &KanaCard, form: &str) -> (r: u128)
    ensures
        r == card_rank(*c, form@),
{
    let len = c.kana.as_str().unicode_len();
    let tail: u128 = if starts_with(c.kana.as_str(), form) { 0 } else { 1 };
    2 * (len as u128) + tail
}

/// The cards of `cards` whose kana contain `form`, in order.
pub fn filter_cards(cards: &Vec<KanaCard>, form: &str) -> (r: Vec<KanaCard>)
    ensures
        r@ == matching(cards@, form@),
{
    let mut r: Vec<KanaCard> = Vec::new();
    let mut i: usize = 0;
    while i < cards.len()
        invariant
            i <= cards@.len(),
            r@ == matching(cards@.subrange(0, i as int), form@),
        decreases cards@.len() - i,
    {
        assert(cards@.subrange(0, i + 1).drop_last() =~= cards@.subrange(0, i as int));
        if contains(cards[i].kana.as_str(), form) {
            r.push(cards[i].duplicate());
        }
        i = i + 1;
    }
    assert(cards@.subrange(0, cards@.len() as int) =~= cards@);
    r
}

/// Inserting at `p` is `insert_by_rank` when the card before `p` ranks no
/// higher than `x` and all from `p` on rank higher.
proof fn lemma_insert_at(s: Seq<KanaCard>, x: KanaCard, form: Seq<char>, p: int)
    requires
        0 <= p <= s.len(),
        p == 0 || card_rank(s[p - 1], form) <= card_rank(x, form),
        forall|k: int| p <= k < s.len() ==> card_rank(#[trigger] s[k], form) > card_rank(x, form),
    ensures
        insert_by_rank(s, x, form) == s.insert(p, x),
    decreases s.len(),
{
    if s.len() == 0 {
        assert(s.insert(p, x) =~= seq![x]);
    } else if p == s.len() {
        assert(s.insert(p, x) =~= s.push(x));
    } else {
        let d = s.drop_last();
        assert forall|k: int| p <= k < d.len() implies card_rank(#[trigger] d[k], form) > card_rank(x, form) by {
            assert(d[k] == s[k]);
        }
        lemma_insert_at(d, x, form, p);
        assert(card_rank(s.last(), form) > card_rank(x, form));
        assert(s.insert(p, x) =~= d.insert(p, x).push(s.last()));
    }
}

/// `cards` stably sorted by rank.
pub fn sort_cards(cards: &Vec<KanaCard>, form: &str) -> (r: Vec<KanaCard>)
    ensures
        r@ == sort_by_rank(cards@, form@),
{
    let mut r: Vec<KanaCard> = Vec::new();
    let mut ranks: Vec<u128> = Vec::new();
    let mut i: usize = 0;
    while i < cards.len()
        invariant
            i <= cards@.len(),
            r@ == sort_by_rank(cards@.subrange(0, i as int), form@),
            ranks@.len() == r@.len(),
            forall|k: int| 0 <= k < r@.len() ==> ranks@[k] == card_rank(#[trigger] r@[k], form@),
        decreases cards@.len() - i,
    {
        assert(cards@.subrange(0, i + 1).drop_last() =~= cards@.subrange(0, i as int));
        let x = cards[i].duplicate();
        let rx = rank_of(&x, form);
        let mut p: usize = r.len();
        while p > 0 && ranks[p - 1] > rx
            invariant
                p <= r@.len(),
                ranks@.len() == r@.len(),
                rx == card_rank(x, form@),
                forall|k: int| 0 <= k < r@.len() ==> ranks@[k] == card_rank(#[trigger] r@[k], form@),
                forall|k: int| p <= k < r@.len() ==> card_rank(#[trigger] r@[k], form@) > rx,
            decreases p,
        {
            p = p - 1;
        }
        proof {
            lemma_insert_at(r@, x, form@, p as int);
        }
        r.insert(p, x);
        ranks.insert(p, rx);
        i = i + 1;
    }
    assert(cards@.subrange(0, cards@.len() as int) =~= cards@);
    r
}

/// The cards shown for `focused` in script `kana_type`: none without a
/// focused syllable, else those whose kana contain its written form, sorted.
pub fn query(all_cards: &Vec<KanaCard>, focused: Option<&Kana>, kana_type: KanaType) -> (r: Vec<KanaCard>)
    ensures
        match focused {
            Some(k) => r@ == card_query(all_cards@, kana_form(*k, kana_type)),
            None => r@ == Seq::<KanaCard>::empty(),
        },
{
    match focused {
        Some(k) => {
            let form = k.form(kana_type).as_str();
            let found = filter_cards(all_cards, form);
            sort_cards(&found, form)
        },
        None => Vec::new(),
    }
}

/// What the card panel of a focused syllable is drawn from.
#[derive(Debug)]
pub struct KanaCardComponentProps {
    pub current_type: KanaType,
    pub kana_key: String,
    pub kana: Kana,
}

impl KanaCardComponentProps {
    /// The cards of `all_cards` shown in this panel.
    pub fn cards(&self, all_cards: &Vec<KanaCard>) -> (r: Vec<KanaCard>)
        ensures
            r@ == card_query(all_cards@, kana_form(self.kana, self.current_type)),
    {
        query(all_cards, Some(&self.kana), self.current_type)
    }
}

/// With no card, or none that contains `form`, nothing is shown.
pub proof fn lemma_query_empty(cards: Seq<KanaCard>, form: Seq<char>)
    requires
        forall|k: int| 0 <= k < cards.len() ==> !contains_chars((#[trigger] cards[k]).kana@, form),
    ensures
        card_query(cards, form).len() == 0,
    decreases cards.len(),
{
    if cards.len() > 0 {
        let d = cards.drop_last();
        assert forall|k: int| 0 <= k < d.len() implies !contains_chars((#[trigger] d[k]).kana@, form) by {
            assert(d[k] == cards[k]);
        }
        lemma_query_empty(d, form);
        assert(!contains_chars(cards[cards.len() - 1].kana@, form));
    }
}

/// Ranks never decrease along `s`.
pub open spec fn rank_sorted(s: Seq<KanaCard>, form: Seq<char>) -> bool {
    forall|a: int, b: int| 0 <= a <= b < s.len() ==> card_rank(#[trigger] s[a], form) <= card_rank(#[trigger] s[b], form)
}

proof fn lemma_insert_sorted(s: Seq<KanaCard>, x: KanaCard, form: Seq<char>)
    requires
        rank_sorted(s, form),
    ensures
        rank_sorted(insert_by_rank(s, x, form), form),
        insert_by_rank(s, x, form).to_multiset() == s.to_multiset().insert(x),
        insert_by_rank(s, x, form).len() == s.len() + 1,
        forall|k: int| 0 <= k < insert_by_rank(s, x, form).len() ==>
            #[trigger] insert_by_rank(s, x, form)[k] == x || s.contains(insert_by_rank(s, x, form)[k]),
    decreases s.len(),
{
    broadcast use vstd::seq_lib::group_seq_properties;
    if s.len() == 0 {
        assert(seq![x] =~= Seq::<KanaCard>::empty().push(x));
    } else if card_rank(s.last(), form) <= card_rank(x, form) {
    } else {
        let d = s.drop_last();
        assert forall|a: int, b: int| 0 <= a <= b < d.len() implies
            card_rank(#[trigger] d[a], form) <= card_rank(#[trigger] d[b], form) by {
            assert(d[a] == s[a] && d[b] == s[b]);
        }
        lemma_insert_sorted(d, x, form);
        let t = insert_by_rank(d, x, form);
        assert(s =~= d.push(s.last()));
        assert forall|k: int| 0 <= k < t.len() implies card_rank(#[trigger] t[k], form) <= card_rank(s.last(), form) by {
            if t[k] != x {
                assert(d.contains(t[k]));
                let m = choose|m: int| 0 <= m < d.len() && d[m] == t[k];
                assert(s[m] == d[m]);
            }
        }
        assert forall|k: int| 0 <= k < t.len() implies #[trigger] t[k] == x || s.contains(t[k]) by {
            if t[k] != x {
                let m = choose|m: int| 0 <= m < d.len() && d[m] == t[k];
                assert(s[m] == d[m]);
            }
        }
    }
}

/// The shown cards are exactly the matching cards, each as often as it is
/// loaded, ordered by rank.
pub proof fn lemma_query_sorted(cards: Seq<KanaCard>, form: Seq<char>)
    ensures
        rank_sorted(card_query(cards, form), form),
        card_query(cards, form).to_multiset() == matching(cards, form).to_multiset(),
{
    lemma_sort_sorted(matching(cards, form), form);
}

proof fn lemma_sort_sorted(s: Seq<KanaCard>, form: Seq<char>)
    ensures
        rank_sorted(sort_by_rank(s, form), form),
        sort_by_rank(s, form).to_multiset() == s.to_multiset(),
        sort_by_rank(s, form).len() == s.len(),
    decreases s.len(),
{
    broadcast use vstd::seq_lib::group_seq_properties;
    if s.len() > 0 {
        lemma_sort_sorted(s.drop_last(), form);
        lemma_insert_sorted(sort_by_rank(s.drop_last(), form), s.last(), form);
        assert(s =~= s.drop_last().push(s.last()));
    }
}

} // verus!
