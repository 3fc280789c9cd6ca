//! Coins and assets: a native coin of the chain or an amount of a CW20 token.

use vstd::prelude::*;
use crate::error::{ContractError, PaymentError};

verus! {

/// A native coin: a denomination and an amount.
#[derive(Debug, Clone, PartialEq, Eq)]
pub struct Coin {
    pub denom: String,
    pub amount: u128,
}

/// An amount of a CW20 token, named by the token contract's address.
#[derive(Debug, Clone, PartialEq, Eq)]
pub struct Cw20Coin {
    pub address: String,
    pub amount: u128,
}

/// An asset that an adapter swaps or transfers.
#[derive(Debug, Clone, PartialEq, Eq)]
pub enum Asset {
    Native(Coin),
    Cw20(Cw20Coin),
}

impl Coin {
    /// A coin of `amount` units of `denom`.
    pub fn new(denom: &str, amount: u128) -> (c: Coin)
        ensures
            c.denom@ == denom@,
            c.amount == amount,
    {
        Coin { denom: denom.to_owned(), amount }
    }

    /// A copy of the coin.
    pub fn copy(&self) -> (c: Coin)
        ensures
            c.denom@ == self.denom@,
            c.amount == self.amount,
    {
        Coin { denom: self.denom.clone(), amount: self.amount }
    }
}

impl Asset {
    /// The denomination of a native coin, the token address of a CW20 amount.
    pub open spec fn spec_denom(&self) -> Seq<char> {
        match self {
            Asset::Native(c) => c.denom@,
            Asset::Cw20(c) => c.address@,
        }
    }

    pub open spec fn spec_amount(&self) -> u128 {
        match self {
            Asset::Native(c) => c.amount,
            Asset::Cw20(c) => c.amount,
        }
    }

    /// The asset of `amount` units of `denom`: a CW20 amount when `denom` is a valid
    /// contract address on the chain (`denom_is_address`), a native coin otherwise.
    pub fn new(denom: &str, amount: u128, denom_is_address: bool) -> (a: Asset)
        ensures
            a.spec_denom() == denom@,
            a.spec_amount() == amount,
            (a is Cw20) == denom_is_address,
    {
        if denom_is_address {
            Asset::Cw20(Cw20Coin { address: denom.to_owned(), amount })
        } else {
            Asset::Native(Coin { denom: denom.to_owned(), amount })
        }
    }

    pub fn denom(&self) -> (d: &str)
        ensures
            d@ == self.spec_denom(),
    {
        match self {
            Asset::Native(c) => c.denom.as_str(),
            Asset::Cw20(c) => c.address.as_str(),
        }
    }

    pub fn amount(&self) -> (a: u128)
        ensures
            a == self.spec_amount(),
    {
        match self {
            Asset::Native(c) => c.amount,
            Asset::Cw20(c) => c.amount,
        }
    }

    /// Whether the asset is a CW20 token amount.
    pub fn is_cw20(&self) -> (b: bool)
        ensures
            b == (self is Cw20),
    {
        match self {
            Asset::Native(_) => false,
            Asset::Cw20(_) => true,
        }
    }

    /// A copy of the asset.
    pub fn copy(&self) -> (a: Asset)
        ensures
            a.spec_denom() == self.spec_denom(),
            a.spec_amount() == self.spec_amount(),
            (a is Cw20) == (self is Cw20),
    {
        match self {
            Asset::Native(c) => Asset::Native(c.copy()),
            Asset::Cw20(c) => Asset::Cw20(Cw20Coin { address: c.address.clone(), amount: c.amount }),
        }
    }

    /// Adds `amount` to the asset, failing when the sum does not fit.
    pub fn add(&mut self, amount: u128) -> (r: Result<(), ContractError>)
        ensures
            final(self).spec_denom() == old(self).spec_denom(),
            ((*final(self)) is Cw20) == ((*old(self)) is Cw20),
            old(self).spec_amount() + amount <= u128::MAX ==> r is Ok
                && final(self).spec_amount() == old(self).spec_amount() + amount,
            old(self).spec_amount() + amount > u128::MAX ==> r == Err::<(), ContractError>(
                ContractError::Overflow,
            ) && final(self).spec_amount() == old(self).spec_amount(),
    {
        match self {
            Asset::Native(c) => {
                match c.amount.checked_add(amount) {
                    Some(v) => {
                        c.amount = v;
                        Ok(())
                    },
                    None => Err(ContractError::Overflow),
                }
            },
            Asset::Cw20(c) => {
                match c.amount.checked_add(amount) {
                    Some(v) => {
                        c.amount = v;
                        Ok(())
                    },
                    None => Err(ContractError::Overflow),
                }
            },
        }
    }

    /// Whether two assets are equal: the same kind, denomination and amount.
    pub fn same_as(&self, other: &Asset) -> (r: bool)
        ensures
            r == ((self is Cw20) == (other is Cw20) && self.spec_denom() == other.spec_denom()
                && self.spec_amount() == other.spec_amount()),
    {
        match (self, other) {
            (Asset::Native(a), Asset::Native(b)) => a.denom == b.denom && a.amount == b.amount,
            (Asset::Cw20(a), Asset::Cw20(b)) => a.address == b.address && a.amount == b.amount,
            _ => false,
        }
    }
}

/// The single coin attached to a message: exactly one coin of a non-zero amount.
pub open spec fn spec_one_coin(funds: Seq<Coin>) -> Result<Coin, PaymentError> {
    if funds.len() == 0 {
        Err(PaymentError::NoFunds)
    } else if funds.len() == 1 {
        if funds[0].amount == 0 {
            Err(PaymentError::NoFunds)
        } else {
            Ok(funds[0])
        }
    } else {
        Err(PaymentError::MultipleDenoms)
    }
}

/// Requires exactly one coin, of a non-zero amount, among the funds sent.
pub fn one_coin(funds: &Vec<Coin>) -> (r: Result<Coin, PaymentError>)
    ensures
        match spec_one_coin(funds@) {
            Ok(c) => r matches Ok(rc) && rc.denom@ == c.denom@ && rc.amount == c.amount,
            Err(e) => r == Err::<Coin, PaymentError>(e),
        },
{
    if funds.len() == 0 {
        Err(PaymentError::NoFunds)
    } else if funds.len() == 1 {
        if funds[0].amount == 0 {
            Err(PaymentError::NoFunds)
        } else {
            Ok(funds[0].copy())
        }
    } else {
        Err(PaymentError::MultipleDenoms)
    }
}

/// Checks the asset that a contract was sent with a message: a native coin must be
/// exactly the single non-zero coin attached; a CW20 amount must come from its token
/// contract (`sender`) with no native coin attached.
pub fn validate_received_asset(asset: &Asset, funds: &Vec<Coin>, sender: &str) -> (r: Result<(), ContractError>)
    ensures
        r is Ok <==> match asset {
            Asset::Native(c) => match spec_one_coin(funds@) {
                Ok(f) => f.denom@ == c.denom@ && f.amount == c.amount,
                Err(_) => false,
            },
            Asset::Cw20(c) => funds@.len() == 0 && c.address@ == sender@,
        },
        match asset {
            Asset::Native(c) => match spec_one_coin(funds@) {
                Err(e) => r == Err::<(), ContractError>(ContractError::Payment(e)),
                Ok(_) => r is Err ==> r == Err::<(), ContractError>(ContractError::InvalidNativeCoin),
            },
            Asset::Cw20(_) => r is Err ==> r == Err::<(), ContractError>(ContractError::InvalidCw20Coin),
        },
{
    match asset {
        Asset::Native(c) => {
            let sent = match one_coin(funds) {
                Ok(s) => s,
                Err(e) => {
                    return Err(ContractError::Payment(e));
                },
            };
            if sent.denom == c.denom && sent.amount == c.amount {
                Ok(())
            } else {
                Err(ContractError::InvalidNativeCoin)
            }
        },
        Asset::Cw20(c) => {
            let from_token = c.address.as_str().to_owned();
            let sender_owned = sender.to_owned();
            if funds.len() == 0 && from_token == sender_owned {
                Ok(())
            } else {
                Err(ContractError::InvalidCw20Coin)
            }
        },
    }
}

} // verus!
