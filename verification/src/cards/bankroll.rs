use vstd::prelude::*;

verus! {

/// A non-negative balance of funds. Withdrawing more than the balance
/// is rejected and leaves it unchanged; adding past the integer limit
/// is rejected distinctly and leaves it unchanged.
pub struct Bankroll {
    balance: u32,
}

impl Default for Bankroll {
    fn default() -> (b: Bankroll)
        ensures
            b.balance_spec() == 0,
    {
        Bankroll { balance: 0 }
    }
}

impl Bankroll {
    /// The current balance.
    pub closed spec fn balance_spec(&self) -> u32 {
        self.balance
    }

    pub fn new() -> (b: Bankroll)
        ensures
            b.balance_spec() == 0,
    {
        Bankroll { balance: 0 }
    }

    pub fn set_bankroll(&mut self, bankroll: u32)
        ensures
            final(self).balance_spec() == bankroll,
    {
        self.balance = bankroll;
    }

    pub fn get_bankroll(&self) -> (r: u32)
        ensures
            r == self.balance_spec(),
    {
        self.balance
    }

    /// Withdraw `value`, or reject the withdrawal, balance unchanged,
    /// exactly when it exceeds the balance.
    pub fn sub_funds(&mut self, value: u32) -> (r: Result<u32, &'static str>)
        ensures
            old(self).balance_spec() >= value ==> {
                &&& final(self).balance_spec() == old(self).balance_spec() - value
                &&& r == Ok::<u32, &'static str>(final(self).balance_spec())
            },
            old(self).balance_spec() < value ==> {
                &&& final(self).balance_spec() == old(self).balance_spec()
                &&& r is Err
                &&& r->Err_0@ == "Insufficient funds"@
            },
    {
        match self.balance.checked_sub(value) {
            Some(next_value) => {
                self.balance = next_value;
                Ok(next_value)
            },
            None => Err("Insufficient funds"),
        }
    }

    /// Add `value`, or reject the addition, balance unchanged, exactly
    /// when the sum would not fit the balance's integer type.
    pub fn add_funds(&mut self, value: u32) -> (r: Result<u32, &'static str>)
        ensures
            old(self).balance_spec() + value <= u32::MAX ==> {
                &&& final(self).balance_spec() == old(self).balance_spec() + value
                &&& r == Ok::<u32, &'static str>(final(self).balance_spec())
            },
            old(self).balance_spec() + value > u32::MAX ==> {
                &&& final(self).balance_spec() == old(self).balance_spec()
                &&& r is Err
                &&& r->Err_0@ == "Overflow"@
            },
    {
        match self.balance.checked_add(value) {
            Some(next_value) => {
                self.balance = next_value;
                Ok(next_value)
            },
            None => Err("Overflow"),
        }
    }
}

} // verus!
