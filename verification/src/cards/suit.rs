use vstd::prelude::*;

verus! {

/// One of the four card suits.
#[derive(Copy, Clone, PartialEq, Eq, Structural, Debug, Hash)]
pub enum Suit {
    Spade,
    Heart,
    Diamond,
    Club,
}

/// The display label of a suit.
pub open spec fn suit_label(s: Suit) -> Seq<char> {
    match s {
        Suit::Spade => "\u{2660}"@,
        Suit::Heart => "\u{2665}"@,
        Suit::Diamond => "\u{2666}"@,
        Suit::Club => "\u{2663}"@,
    }
}

/// The four suits in declaration order.
pub open spec fn all_suits() -> Seq<Suit> {
    seq![Suit::Spade, Suit::Heart, Suit::Diamond, Suit::Club]
}

impl Suit {
    pub fn as_str(&self) -> (r: &'static str)
        ensures
            r@ == suit_label(*self),
    {
        match *self {
            Suit::Spade => "\u{2660}",
            Suit::Heart => "\u{2665}",
            Suit::Diamond => "\u{2666}",
            Suit::Club => "\u{2663}",
        }
    }

    /// All four suits, in declaration order.
    pub fn iter() -> (r: Vec<Suit>)
        ensures
            r@ == all_suits(),
    {
        let mut suits: Vec<Suit> = Vec::new();
        suits.push(Suit::Spade);
        suits.push(Suit::Heart);
        suits.push(Suit::Diamond);
        suits.push(Suit::Club);
        proof {
            assert(suits@ =~= all_suits());
        }
        suits
    }
}

} // verus!
