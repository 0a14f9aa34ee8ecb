use vstd::prelude::*;

use crate::cards::card::Card;
use crate::cards::hand::Hand;
use crate::cards::rank::Rank;

verus! {

/// The blackjack worth of a single card: one fixed pip value, or the
/// two candidate values of an ace.
pub enum CardValue {
    Single(u8),
    Ace(u8, u8),
}

/// The blackjack score of a hand: a settled total, a soft total with a
/// low and a high candidate (an ace still counted either way), or a
/// bust carrying the smallest total the hand could not avoid.
#[derive(Copy, Clone, PartialEq, Eq, Structural, Debug)]
pub enum HandValue {
    V(u8),
    Ace(u8, u8),
    Bust(u8),
}

/// The low worth of a rank: an ace counts 1, face cards count 10.
pub open spec fn low_value(r: Rank) -> int {
    match r {
        Rank::Ace => 1,
        Rank::Two => 2,
        Rank::Three => 3,
        Rank::Four => 4,
        Rank::Five => 5,
        Rank::Six => 6,
        Rank::Seven => 7,
        Rank::Eight => 8,
        Rank::Nine => 9,
        Rank::Ten => 10,
        Rank::Jack => 10,
        Rank::Queen => 10,
        Rank::King => 10,
    }
}

/// The sum of the low worths of a card sequence (every ace counted 1):
/// the smallest total the cards can stand for.
pub open spec fn low_sum(cards: Seq<Card>) -> int
    decreases cards.len(),
{
    if cards.len() == 0 {
        0
    } else {
        low_sum(cards.drop_last()) + low_value(cards.last().rank)
    }
}

/// Whether some card in the sequence is an ace.
pub open spec fn spec_has_ace(cards: Seq<Card>) -> bool {
    exists|i: int| 0 <= i < cards.len() && cards[i].rank == Rank::Ace
}

/// The low sum frozen at the shortest prefix whose low sum exceeds 21:
/// the worth that a busted hand goes on showing however many cards
/// follow.
pub open spec fn bust_sum(cards: Seq<Card>) -> int
    decreases cards.len(),
{
    if cards.len() == 0 {
        0
    } else if low_sum(cards.drop_last()) > 21 {
        bust_sum(cards.drop_last())
    } else {
        low_sum(cards)
    }
}

/// Whether the hand is busted: it has cards and even its smallest
/// total exceeds 21.
pub open spec fn spec_is_busted(cards: Seq<Card>) -> bool {
    cards.len() > 0 && low_sum(cards) > 21
}

/// The value of a card sequence. An empty hand has no value. A hand
/// whose smallest total exceeds 21 is busted and shows the total at
/// which it first busted. Otherwise the smallest total stands, and if
/// an ace may still count as 11 without busting, the soft pair
/// (total, total + 10) stands instead.
pub open spec fn spec_hand_value(cards: Seq<Card>) -> Option<HandValue> {
    if cards.len() == 0 {
        None
    } else if low_sum(cards) > 21 {
        Some(HandValue::Bust(bust_sum(cards) as u8))
    } else if spec_has_ace(cards) && low_sum(cards) + 10 <= 21 {
        Some(HandValue::Ace(low_sum(cards) as u8, (low_sum(cards) + 10) as u8))
    } else {
        Some(HandValue::V(low_sum(cards) as u8))
    }
}

/// The worth of a rank as candidates: an ace is 1 or 11, every other
/// rank is its low worth alone.
pub open spec fn spec_rank_value(r: Rank) -> CardValue {
    if r == Rank::Ace {
        CardValue::Ace(1, 11)
    } else {
        CardValue::Single(low_value(r) as u8)
    }
}

/// What collapsing a candidate list must return: when two or more
/// distinct candidates within 21 remain, the smallest and largest of
/// them as a soft pair; when exactly one remains, that one alone; and
/// when every candidate exceeds 21, the smallest of them as a bust.
pub open spec fn collapse_post(vals: Seq<u8>, r: HandValue) -> bool {
    match r {
        HandValue::V(n) => vals.contains(n) && n <= 21 && (forall|i: int|
            0 <= i < vals.len() ==> vals[i] > 21 || vals[i] == n),
        HandValue::Ace(l, h) => vals.contains(l) && vals.contains(h) && l < h && h <= 21
            && (forall|i: int|
            0 <= i < vals.len() && vals[i] <= 21 ==> l <= vals[i] <= h),
        HandValue::Bust(n) => vals.contains(n) && (forall|i: int|
            0 <= i < vals.len() ==> vals[i] > 21 && vals[i] >= n),
    }
}

/// Collapse a nonempty candidate list as `collapse_post` describes.
pub fn collapse_candidates(values: &Vec<u8>) -> (r: HandValue)
    requires
        values@.len() >= 1,
    ensures
        collapse_post(values@, r),
{
    let mut min_all: u8 = values[0];
    let mut i: usize = 1;
    while i < values.len()
        invariant
            1 <= i <= values@.len(),
            values@.contains(min_all),
            forall|j: int| 0 <= j < i ==> values@[j] >= min_all,
        decreases values@.len() - i,
    {
        if values[i] < min_all {
            min_all = values[i];
        }
        i += 1;
    }
    if min_all > 21 {
        return HandValue::Bust(min_all);
    }
    let mut second: u8 = 0;
    let mut has_second: bool = false;
    let mut k: usize = 0;
    while k < values.len()
        invariant
            0 <= k <= values@.len(),
            values@.contains(min_all),
            min_all <= 21,
            forall|j: int| 0 <= j < values@.len() ==> values@[j] >= min_all,
            has_second ==> values@.contains(second) && min_all < second <= 21,
            forall|j: int|
                0 <= j < k && values@[j] <= 21 && values@[j] > min_all ==> has_second
                    && values@[j] <= second,
        decreases values@.len() - k,
    {
        let v = values[k];
        if v <= 21 && v > min_all && (!has_second || v > second) {
            second = v;
            has_second = true;
        }
        k += 1;
    }
    if has_second {
        HandValue::Ace(min_all, second)
    } else {
        HandValue::V(min_all)
    }
}

/// Sound bookkeeping of the fold after a prefix of the cards: the
/// running value records the prefix's low sum, whether an ace is still
/// flexible, and the frozen worth once the prefix busted.
pub open spec fn fold_state_ok(prefix: Seq<Card>, hv: HandValue) -> bool {
    match hv {
        HandValue::V(n) => n == low_sum(prefix) && n <= 21 && (spec_has_ace(prefix)
            ==> low_sum(prefix) + 10 > 21),
        HandValue::Ace(l, h) => 1 <= l && l == low_sum(prefix) && h == l + 10 && h <= 21
            && spec_has_ace(prefix),
        HandValue::Bust(n) => low_sum(prefix) > 21 && n == bust_sum(prefix),
    }
}

proof fn lemma_fold_push(p: Seq<Card>, c: Card)
    ensures
        low_sum(p.push(c)) == low_sum(p) + low_value(c.rank),
        spec_has_ace(p.push(c)) == (spec_has_ace(p) || c.rank == Rank::Ace),
        bust_sum(p.push(c)) == if low_sum(p) > 21 {
            bust_sum(p)
        } else {
            low_sum(p) + low_value(c.rank)
        },
{
    let q = p.push(c);
    assert(q.drop_last() =~= p);
    assert(q.last() == c);
    if spec_has_ace(p) {
        let i = choose|i: int| 0 <= i < p.len() && p[i].rank == Rank::Ace;
        assert(q[i].rank == Rank::Ace);
    }
    if c.rank == Rank::Ace {
        assert(q[p.len() as int].rank == Rank::Ace);
    }
    if spec_has_ace(q) && !spec_has_ace(p) && c.rank != Rank::Ace {
        let i = choose|i: int| 0 <= i < q.len() && q[i].rank == Rank::Ace;
        if i < p.len() {
            assert(p[i].rank == Rank::Ace);
        } else {
            assert(q[i] == c);
        }
    }
}

proof fn lemma_low_sum_lower(p: Seq<Card>)
    ensures
        low_sum(p) >= p.len(),
    decreases p.len(),
{
    if p.len() > 0 {
        lemma_low_sum_lower(p.drop_last());
        assert(low_value(p.last().rank) >= 1);
    }
}

proof fn lemma_collapse_single(vals: Seq<u8>, x: u8, r: HandValue)
    requires
        collapse_post(vals, r),
        vals =~= seq![x],
    ensures
        x > 21 ==> r == HandValue::Bust(x),
        x <= 21 ==> r == HandValue::V(x),
{
    assert(vals[0] == x);
    match r {
        HandValue::V(n) => {
            assert(vals.contains(n));
            assert(n == x);
        },
        HandValue::Ace(l, h) => {
            assert(vals.contains(l));
            assert(vals.contains(h));
            assert(l == x && h == x);
            assert(false);
        },
        HandValue::Bust(n) => {
            assert(vals.contains(n));
            assert(n == x);
        },
    }
}

proof fn lemma_collapse_pair(vals: Seq<u8>, x: u8, r: HandValue)
    requires
        collapse_post(vals, r),
        x <= 100,
        vals =~= seq![x, (x + 10) as u8],
    ensures
        x > 21 ==> r == HandValue::Bust(x),
        x <= 21 && x + 10 <= 21 ==> r == HandValue::Ace(x, (x + 10) as u8),
        x <= 21 && x + 10 > 21 ==> r == HandValue::V(x),
{
    let y: u8 = (x + 10) as u8;
    assert(vals[0] == x);
    assert(vals[1] == y);
    match r {
        HandValue::V(n) => {
            assert(vals.contains(n));
            assert(n == x || n == y);
            if x <= 21 && y <= 21 {
                assert(vals[0] == n && vals[1] == n);
                assert(false);
            }
            assert(n == x);
        },
        HandValue::Ace(l, h) => {
            assert(vals.contains(l));
            assert(vals.contains(h));
            assert(h == x || h == y);
            if h == x {
                assert(l < x);
                assert(l == x || l == y);
                assert(false);
            }
            assert(h == y && l < y && (l == x || l == y));
            assert(l == x);
            assert(y <= 21);
        },
        HandValue::Bust(n) => {
            assert(vals.contains(n));
            assert(vals[0] > 21);
            assert(vals[1] >= n && vals[0] >= n);
            assert(n == x || n == y);
            assert(n == x);
        },
    }
}

proof fn lemma_collapse_quad(vals: Seq<u8>, x: u8, r: HandValue)
    requires
        collapse_post(vals, r),
        2 <= x <= 12,
        vals =~= seq![x, (x + 10) as u8, (x + 10) as u8, (x + 20) as u8],
    ensures
        x + 10 <= 21 ==> r == HandValue::Ace(x, (x + 10) as u8),
        x + 10 > 21 ==> r == HandValue::V(x),
{
    let y: u8 = (x + 10) as u8;
    let z: u8 = (x + 20) as u8;
    assert(vals[0] == x);
    assert(vals[1] == y);
    assert(vals[2] == y);
    assert(vals[3] == z);
    assert(z > 21);
    match r {
        HandValue::V(n) => {
            assert(vals.contains(n));
            if x + 10 <= 21 {
                assert(vals[0] == n && vals[1] == n);
                assert(false);
            }
            assert(n == x || n == y || n == z);
            assert(n == x);
        },
        HandValue::Ace(l, h) => {
            assert(vals.contains(l));
            assert(vals.contains(h));
            assert(h == x || h == y || h == z);
            if h == x {
                assert(l < x && (l == x || l == y || l == z));
                assert(false);
            }
            assert(h == y);
            assert(y <= 21);
            assert(l == x || l >= h);
            assert(l == x);
        },
        HandValue::Bust(n) => {
            assert(vals.contains(n));
            assert(vals[0] > 21);
            assert(x + 10 > 21);
            assert(false);
        },
    }
}

proof fn lemma_low_sum_remove(s: Seq<Card>, i: int)
    requires
        0 <= i < s.len(),
    ensures
        low_sum(s.remove(i)) == low_sum(s) - low_value(s[i].rank),
    decreases s.len(),
{
    if i == s.len() - 1 {
        assert(s.remove(i) =~= s.drop_last());
    } else {
        let t = s.drop_last();
        assert(s.remove(i).drop_last() =~= t.remove(i));
        assert(s.remove(i).last() == s.last());
        lemma_low_sum_remove(t, i);
        assert(t[i] == s[i]);
    }
}

proof fn lemma_low_sum_permutation(c1: Seq<Card>, c2: Seq<Card>)
    requires
        c1.to_multiset() == c2.to_multiset(),
    ensures
        low_sum(c1) == low_sum(c2),
    decreases c1.len(),
{
    broadcast use vstd::seq_lib::group_to_multiset_ensures;

    assert(c1.len() == c1.to_multiset().len());
    assert(c2.len() == c2.to_multiset().len());
    if c1.len() > 0 {
        let x = c1.last();
        let i1: int = c1.len() - 1;
        assert(c1.contains(x));
        assert(c1.to_multiset().count(x) > 0);
        assert(c2.to_multiset().count(x) > 0);
        assert(c2.contains(x));
        let j = choose|j: int| 0 <= j < c2.len() && c2[j] == x;
        assert(c1.remove(i1).to_multiset() =~= c1.to_multiset().remove(x));
        assert(c2.remove(j).to_multiset() =~= c2.to_multiset().remove(x));
        assert(c1.remove(i1) =~= c1.drop_last());
        lemma_low_sum_permutation(c1.drop_last(), c2.remove(j));
        lemma_low_sum_remove(c2, j);
    }
}

proof fn lemma_has_ace_permutation(c1: Seq<Card>, c2: Seq<Card>)
    requires
        c1.to_multiset() == c2.to_multiset(),
    ensures
        spec_has_ace(c1) == spec_has_ace(c2),
{
    broadcast use vstd::seq_lib::group_to_multiset_ensures;

    if spec_has_ace(c1) {
        let i = choose|i: int| 0 <= i < c1.len() && c1[i].rank == Rank::Ace;
        assert(c1.contains(c1[i]));
        assert(c1.to_multiset().count(c1[i]) > 0);
        assert(c2.to_multiset().count(c1[i]) > 0);
        assert(c2.contains(c1[i]));
        let j = choose|j: int| 0 <= j < c2.len() && c2[j] == c1[i];
        assert(c2[j].rank == Rank::Ace);
    }
    if spec_has_ace(c2) {
        let i = choose|i: int| 0 <= i < c2.len() && c2[i].rank == Rank::Ace;
        assert(c2.contains(c2[i]));
        assert(c2.to_multiset().count(c2[i]) > 0);
        assert(c1.to_multiset().count(c2[i]) > 0);
        assert(c1.contains(c2[i]));
        let j = choose|j: int| 0 <= j < c1.len() && c1[j] == c2[i];
        assert(c1[j].rank == Rank::Ace);
    }
}

/// Law: hand valuation does not depend on the order of the cards. Two
/// nonempty hands holding the same cards bust together, and when they
/// do not bust they have exactly the same value. Only the frozen worth
/// that a busted hand shows can differ between orders, because it is
/// the total at which that particular order first busted.
pub proof fn lemma_value_permutation(c1: Seq<Card>, c2: Seq<Card>)
    requires
        c1.to_multiset() == c2.to_multiset(),
        c1.len() > 0,
    ensures
        spec_hand_value(c1) is Some,
        spec_hand_value(c2) is Some,
        spec_is_busted(c1) == spec_is_busted(c2),
        !spec_is_busted(c1) ==> spec_hand_value(c1) == spec_hand_value(c2),
{
    broadcast use vstd::seq_lib::group_to_multiset_ensures;

    assert(c1.len() == c1.to_multiset().len());
    assert(c2.len() == c2.to_multiset().len());
    lemma_low_sum_permutation(c1, c2);
    lemma_has_ace_permutation(c1, c2);
}

/// Law: bust is monotonic. Once a hand's smallest total exceeds 21 it
/// stays busted, showing the same frozen worth, whatever cards are
/// added after that.
pub proof fn lemma_bust_is_monotonic(cards: Seq<Card>, more: Seq<Card>)
    requires
        spec_is_busted(cards),
    ensures
        spec_is_busted(cards + more),
        spec_hand_value(cards + more) == spec_hand_value(cards),
    decreases more.len(),
{
    if more.len() == 0 {
        assert(cards + more =~= cards);
    } else {
        let rest = more.drop_last();
        lemma_bust_is_monotonic(cards, rest);
        assert(cards + more =~= (cards + rest).push(more.last()));
        lemma_fold_push(cards + rest, more.last());
        assert(low_value(more.last().rank) >= 1);
    }
}

/// The candidate worths of a rank, as executable code.
pub(crate) fn rank_value_of(rank: Rank) -> (v: CardValue)
    ensures
        v == spec_rank_value(rank),
{
    match rank {
        Rank::Ace => CardValue::Ace(1, 11),
        Rank::Two => CardValue::Single(2),
        Rank::Three => CardValue::Single(3),
        Rank::Four => CardValue::Single(4),
        Rank::Five => CardValue::Single(5),
        Rank::Six => CardValue::Single(6),
        Rank::Seven => CardValue::Single(7),
        Rank::Eight => CardValue::Single(8),
        Rank::Nine => CardValue::Single(9),
        Rank::Ten => CardValue::Single(10),
        Rank::Jack => CardValue::Single(10),
        Rank::Queen => CardValue::Single(10),
        Rank::King => CardValue::Single(10),
    }
}

/// The blackjack value of `cards`: fold the cards left to right,
/// collapsing the candidate totals after each card.
pub(crate) fn compute_value(cards: &Vec<Card>) -> (r: Option<HandValue>)
    ensures
        r == spec_hand_value(cards@),
{
    if cards.len() == 0 {
        return None;
    }
    let mut curr: HandValue = HandValue::V(0);
    let mut i: usize = 0;
    while i < cards.len()
        invariant
            0 <= i <= cards@.len(),
            fold_state_ok(cards@.take(i as int), curr),
        decreases cards@.len() - i,
    {
        let ghost p = cards@.take(i as int);
        let ghost pnext = cards@.take(i + 1);
        let c = cards[i];
        let cv = rank_value_of(c.rank);
        proof {
            assert(pnext =~= p.push(cards@[i as int]));
            lemma_fold_push(p, cards@[i as int]);
            lemma_low_sum_lower(pnext);
            assert(1 <= low_value(c.rank) <= 10);
        }
        curr = match (curr, cv) {
            (HandValue::Bust(n), _) => HandValue::Bust(n),
            (HandValue::V(acc), CardValue::Single(v)) => {
                let mut vals: Vec<u8> = Vec::new();
                vals.push(acc + v);
                let nv = collapse_candidates(&vals);
                proof {
                    assert(vals@ =~= seq![(acc + v) as u8]);
                    lemma_collapse_single(vals@, (acc + v) as u8, nv);
                }
                nv
            },
            (HandValue::V(acc), CardValue::Ace(v1, v2)) => {
                let mut vals: Vec<u8> = Vec::new();
                vals.push(acc + v1);
                vals.push(acc + v2);
                let nv = collapse_candidates(&vals);
                proof {
                    assert(vals@ =~= seq![(acc + 1) as u8, (acc + 11) as u8]);
                    lemma_collapse_pair(vals@, (acc + 1) as u8, nv);
                }
                nv
            },
            (HandValue::Ace(a1, a2), CardValue::Single(v)) => {
                let mut vals: Vec<u8> = Vec::new();
                vals.push(a1 + v);
                vals.push(a2 + v);
                let nv = collapse_candidates(&vals);
                proof {
                    assert(vals@ =~= seq![(a1 + v) as u8, (a1 + v + 10) as u8]);
                    lemma_collapse_pair(vals@, (a1 + v) as u8, nv);
                }
                nv
            },
            (HandValue::Ace(a1, a2), CardValue::Ace(v1, v2)) => {
                let mut vals: Vec<u8> = Vec::new();
                vals.push(a1 + v1);
                vals.push(a1 + v2);
                vals.push(a2 + v1);
                vals.push(a2 + v2);
                let nv = collapse_candidates(&vals);
                proof {
                    assert(vals@ =~= seq![
                        (a1 + 1) as u8,
                        (a1 + 11) as u8,
                        (a1 + 11) as u8,
                        (a1 + 21) as u8,
                    ]);
                    lemma_collapse_quad(vals@, (a1 + 1) as u8, nv);
                }
                nv
            },
        };
        i += 1;
    }
    proof {
        assert(cards@.take(i as int) =~= cards@);
    }
    Some(curr)
}

/// Whether some card in `cards` is an ace, as executable code.
pub(crate) fn has_ace_in(cards: &Vec<Card>) -> (r: bool)
    ensures
        r == spec_has_ace(cards@),
{
    let mut i: usize = 0;
    while i < cards.len()
        invariant
            0 <= i <= cards@.len(),
            forall|j: int| 0 <= j < i ==> cards@[j].rank != Rank::Ace,
        decreases cards@.len() - i,
    {
        if cards[i].rank == Rank::Ace {
            return true;
        }
        i += 1;
    }
    false
}

/// Blackjack valuation for any holder of an ordered card sequence.
pub trait WithHandValue {
    /// The held cards as a mathematical sequence.
    spec fn cards_view(&self) -> Seq<Card>;

    fn get_cards(&self) -> (r: &Vec<Card>)
        ensures
            r@ == self.cards_view(),
    ;

    /// The candidate worths of a rank: an ace is 1 or 11, every other
    /// rank its fixed pip value (10 for face cards).
    fn rank_value(rank: Rank) -> (v: CardValue)
        ensures
            v == spec_rank_value(rank),
    {
        rank_value_of(rank)
    }

    /// The blackjack value of the held cards, or `None` for an empty
    /// hand.
    fn get_value(&self) -> (r: Option<HandValue>)
        ensures
            r == spec_hand_value(self.cards_view()),
    {
        compute_value(self.get_cards())
    }

    /// Collapse a nonempty candidate list into a hand value, keeping
    /// only the candidates within 21, as `collapse_post` describes.
    fn derive_value(&self, values: Vec<u8>) -> (r: HandValue)
        requires
            values@.len() >= 1,
        ensures
            collapse_post(values@, r),
    {
        collapse_candidates(&values)
    }

    /// Whether some held card is an ace.
    fn has_ace(&self) -> (r: bool)
        ensures
            r == spec_has_ace(self.cards_view()),
    {
        has_ace_in(self.get_cards())
    }

    /// Whether the held cards are busted: even their smallest total
    /// exceeds 21.
    fn is_busted(&self) -> (r: bool)
        ensures
            r == spec_is_busted(self.cards_view()),
    {
        match compute_value(self.get_cards()) {
            Some(HandValue::Bust(_)) => true,
            _ => false,
        }
    }
}

impl WithHandValue for Hand {
    open spec fn cards_view(&self) -> Seq<Card> {
        self@
    }

    fn get_cards(&self) -> (r: &Vec<Card>) {
        Hand::get_cards(self)
    }
}

} // verus!
