use vstd::prelude::*;

verus! {

/// One of the thirteen card ranks, from ace to king.
#[derive(Copy, Clone, PartialEq, Eq, Structural, Debug, Hash)]
pub enum Rank {
    Ace,
    Two,
    Three,
    Four,
    Five,
    Six,
    Seven,
    Eight,
    Nine,
    Ten,
    Jack,
    Queen,
    King,
}

/// The display label of a rank.
pub open spec fn rank_label(r: Rank) -> Seq<char> {
    match r {
        Rank::Ace => "A"@,
        Rank::Two => "2"@,
        Rank::Three => "3"@,
        Rank::Four => "4"@,
        Rank::Five => "5"@,
        Rank::Six => "6"@,
        Rank::Seven => "7"@,
        Rank::Eight => "8"@,
        Rank::Nine => "9"@,
        Rank::Ten => "10"@,
        Rank::Jack => "J"@,
        Rank::Queen => "Q"@,
        Rank::King => "K"@,
    }
}

/// The thirteen ranks in declaration order.
pub open spec fn all_ranks() -> Seq<Rank> {
    seq![
        Rank::Ace,
        Rank::Two,
        Rank::Three,
        Rank::Four,
        Rank::Five,
        Rank::Six,
        Rank::Seven,
        Rank::Eight,
        Rank::Nine,
        Rank::Ten,
        Rank::Jack,
        Rank::Queen,
        Rank::King,
    ]
}

impl Rank {
    pub fn as_str(&self) -> (r: &'static str)
        ensures
            r@ == rank_label(*self),
    {
        match *self {
            Rank::Ace => "A",
            Rank::Two => "2",
            Rank::Three => "3",
            Rank::Four => "4",
            Rank::Five => "5",
            Rank::Six => "6",
            Rank::Seven => "7",
            Rank::Eight => "8",
            Rank::Nine => "9",
            Rank::Ten => "10",
            Rank::Jack => "J",
            Rank::Queen => "Q",
            Rank::King => "K",
        }
    }

    /// All thirteen ranks, in declaration order.
    pub fn iter() -> (r: Vec<Rank>)
        ensures
            r@ == all_ranks(),
    {
        let mut ranks: Vec<Rank> = Vec::new();
        ranks.push(Rank::Ace);
        ranks.push(Rank::Two);
        ranks.push(Rank::Three);
        ranks.push(Rank::Four);
        ranks.push(Rank::Five);
        ranks.push(Rank::Six);
        ranks.push(Rank::Seven);
        ranks.push(Rank::Eight);
        ranks.push(Rank::Nine);
        ranks.push(Rank::Ten);
        ranks.push(Rank::Jack);
        ranks.push(Rank::Queen);
        ranks.push(Rank::King);
        proof {
            assert(ranks@ =~= all_ranks());
        }
        ranks
    }
}

} // verus!
