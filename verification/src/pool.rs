//! The pool's state: two slots, each an asset and the amount of it in reserve.

use vstd::prelude::*;

verus! {

/// An asset: a native currency, by its denomination, or a token, by the
/// address of the contract that keeps its ledger.
#[derive(Debug, Clone, PartialEq, Eq)]
pub enum Denom {
    Native(String),
    Cw20(String),
}

impl Denom {
    /// A copy of this asset identifier.
    pub fn duplicate(&self) -> (r: Denom)
        ensures
            r == *self,
    {
        match self {
            Denom::Native(name) => Denom::Native(name.clone()),
            Denom::Cw20(addr) => Denom::Cw20(addr.clone()),
        }
    }
}

/// One slot of the pool.
#[derive(Debug, Clone, PartialEq, Eq)]
pub struct Token {
    pub amount: u128,
    pub denom: Denom,
}

/// Which of the pool's two slots is meant.
#[derive(Debug, Clone, Copy, PartialEq, Eq, Structural)]
pub enum TokenSelection {
    Token1,
    Token2,
}

impl TokenSelection {
    /// The slot that was not selected.
    pub fn other(self) -> (r: TokenSelection)
        ensures
            r == self.opposite(),
    {
        match self {
            TokenSelection::Token1 => TokenSelection::Token2,
            TokenSelection::Token2 => TokenSelection::Token1,
        }
    }

    /// The slot that was not selected.
    pub open spec fn opposite(self) -> TokenSelection {
        match self {
            TokenSelection::Token1 => TokenSelection::Token2,
            TokenSelection::Token2 => TokenSelection::Token1,
        }
    }
}

/// The two slots of a pool. The assets are fixed when the pool is made; only
/// the amounts change afterwards.
#[derive(Debug, Clone, PartialEq, Eq)]
pub struct Pool {
    pub token1: Token,
    pub token2: Token,
}

impl Pool {
    /// No price is established yet: both reserves are empty.
    pub open spec fn is_uninitialized(self) -> bool {
        self.token1.amount == 0 && self.token2.amount == 0
    }

    /// At least one reserve holds something.
    pub open spec fn is_active(self) -> bool {
        !self.is_uninitialized()
    }

    /// The selected slot.
    pub open spec fn slot(self, selection: TokenSelection) -> Token {
        match selection {
            TokenSelection::Token1 => self.token1,
            TokenSelection::Token2 => self.token2,
        }
    }

    /// The product of the two reserves.
    pub open spec fn product(self) -> int {
        self.token1.amount * self.token2.amount
    }

    /// The same pool with other amounts in reserve.
    pub open spec fn with_amounts(self, amount1: u128, amount2: u128) -> Pool {
        Pool {
            token1: Token { amount: amount1, denom: self.token1.denom },
            token2: Token { amount: amount2, denom: self.token2.denom },
        }
    }

    /// Whether `next` holds the same two assets in the same slots.
    pub open spec fn same_assets(self, next: Pool) -> bool {
        self.token1.denom == next.token1.denom && self.token2.denom == next.token2.denom
    }

    /// A pool of the two assets with nothing in reserve.
    pub fn new(token1_denom: Denom, token2_denom: Denom) -> (pool: Pool)
        ensures
            pool == (Pool {
                token1: Token { amount: 0, denom: token1_denom },
                token2: Token { amount: 0, denom: token2_denom },
            }),
            pool.is_uninitialized(),
    {
        Pool {
            token1: Token { amount: 0, denom: token1_denom },
            token2: Token { amount: 0, denom: token2_denom },
        }
    }

    /// Both slots: the first asset and its amount, then the second.
    pub fn read(&self) -> (r: (&Denom, u128, &Denom, u128))
        ensures
            *r.0 == self.token1.denom,
            r.1 == self.token1.amount,
            *r.2 == self.token2.denom,
            r.3 == self.token2.amount,
    {
        (&self.token1.denom, self.token1.amount, &self.token2.denom, self.token2.amount)
    }

    /// The amount in the selected slot.
    pub fn amount(&self, selection: TokenSelection) -> (r: u128)
        ensures
            r == self.slot(selection).amount,
    {
        match selection {
            TokenSelection::Token1 => self.token1.amount,
            TokenSelection::Token2 => self.token2.amount,
        }
    }

    /// Replaces both amounts at once and leaves the assets as they are.
    pub fn write(&mut self, amount1: u128, amount2: u128)
        ensures
            *final(self) == old(self).with_amounts(amount1, amount2),
    {
        self.token1.amount = amount1;
        self.token2.amount = amount2;
    }
}

} // verus!
