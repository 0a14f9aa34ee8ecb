use vstd::prelude::*;

verus! {

/// A non-negative stake placed on one hand: resettable and additive.
pub struct Wager {
    wager: u32,
}

impl Wager {
    /// The staked amount.
    pub closed spec fn amount(&self) -> u32 {
        self.wager
    }

    pub fn new() -> (w: Wager)
        ensures
            w.amount() == 0,
    {
        Wager { wager: 0 }
    }

    pub fn set_wager(&mut self, wager: u32)
        ensures
            final(self).amount() == wager,
    {
        self.wager = wager;
    }

    pub fn get_wager(&self) -> (r: u32)
        ensures
            r == self.amount(),
    {
        self.wager
    }

    pub fn reset_wager(&mut self)
        ensures
            final(self).amount() == 0,
    {
        self.wager = 0;
    }

    pub fn add_wager(&mut self, wager: u32)
        requires
            old(self).amount() + wager <= u32::MAX,
        ensures
            final(self).amount() == old(self).amount() + wager,
    {
        self.wager += wager;
    }
}

/// Access to the wager staked on a holder of one.
pub trait WithWager {
    /// The staked amount.
    spec fn wager_amount(&self) -> u32;

    fn get_wager(&self) -> (r: &Wager)
        ensures
            r.amount() == self.wager_amount(),
    ;

    /// Place a stake of exactly `wager`.
    fn set_wagered_value(&mut self, wager: u32)
        ensures
            final(self).wager_amount() == wager,
    ;

    /// Clear the stake back to zero.
    fn reset_wagered_value(&mut self)
        ensures
            final(self).wager_amount() == 0,
    ;

    /// Raise the stake by `wager`.
    fn add_wager_to_wagered_value(&mut self, wager: u32)
        requires
            old(self).wager_amount() + wager <= u32::MAX,
        ensures
            final(self).wager_amount() == old(self).wager_amount() + wager,
    ;

    fn get_wagered_value(&self) -> (r: u32)
        ensures
            r == self.wager_amount(),
    {
        self.get_wager().get_wager()
    }
}

} // verus!
