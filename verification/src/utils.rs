//! Shared validation helpers: attached-funds checks, whitelist resolution,
//! and authorization guards.

use crate::error::ContractError;
use crate::msg::{Coin, ContractStatus};
use crate::state::Store;
use vstd::prelude::*;

verus! {

/// Relies on str's `PartialEq`: two string slices compare equal exactly when
/// their character sequences do.
#[verifier::external_body]
pub(crate) fn str_eq(a: &str, b: &str) -> (r: bool)
    ensures
        r == (a@ == b@),
{
    a == b
}

/// Fails with `InactiveContract` unless the stored status is active.
pub fn assert_contract_active(store: &Store) -> (r: Result<(), ContractError>)
    ensures
        r == if store.config.status == ContractStatus::Active.spec_code() {
            Ok::<(), ContractError>(())
        } else {
            Err::<(), ContractError>(ContractError::InactiveContract)
        },
{
    let active = ContractStatus::Active.code();
    if store.config.status != active {
        return Err(ContractError::InactiveContract);
    }
    Ok(())
}

/// Fails with `Unauthorized` unless `address` is the contract admin.
pub fn assert_admin(store: &Store, address: &String) -> (r: Result<(), ContractError>)
    ensures
        r == if store.config.admin@ == address@ {
            Ok::<(), ContractError>(())
        } else {
            Err::<(), ContractError>(ContractError::Unauthorized)
        },
{
    if store.config.admin != *address {
        return Err(ContractError::Unauthorized);
    }
    Ok(())
}

/// The admin of the stored sale; an unsaved id reads as the default record,
/// whose admin is the empty address.
pub open spec fn spec_ido_admin(store: Store, id: u32) -> Seq<char> {
    match store.spec_ido_opt(id) {
        Some(ido) => ido.admin@,
        None => Seq::empty(),
    }
}

/// Fails with `Unauthorized` unless `address` administers the sale.
pub fn assert_ido_admin(store: &Store, address: &String, ido_id: u32) -> (r: Result<
    (),
    ContractError,
>)
    ensures
        r == if spec_ido_admin(*store, ido_id) == address@ {
            Ok::<(), ContractError>(())
        } else {
            Err::<(), ContractError>(ContractError::Unauthorized)
        },
{
    let matches_admin = if (ido_id as usize) < store.idos.len() {
        store.idos[ido_id as usize].admin == *address
    } else {
        let empty = String::new();
        *address == empty
    };
    if !matches_admin {
        return Err(ContractError::Unauthorized);
    }
    Ok(())
}

/// The whitelist answer: the explicit flag when present, else the sale's
/// shared-whitelist default.
pub fn in_whitelist(store: &Store, address: &String, ido_id: u32) -> (r: bool)
    ensures
        r == store.spec_in_whitelist(address@, ido_id),
{
    let found = store.whitelist.find(address, ido_id);
    match found {
        Some(i) => store.whitelist.entries[i].val,
        None => {
            if (ido_id as usize) < store.idos.len() {
                store.idos[ido_id as usize].shared_whitelist
            } else {
                false
            }
        },
    }
}

/// The total of the attached native coins: any coin of another denomination
/// fails the call, and so does an overflowing total.
pub open spec fn spec_sent_funds(coins: Seq<Coin>, acc: u128) -> Result<u128, ContractError>
    decreases coins.len(),
{
    if coins.len() == 0 {
        Ok(acc)
    } else if coins[0].denom@ != "orai"@ {
        Err(ContractError::UnsupportedToken)
    } else if acc + coins[0].amount > u128::MAX {
        Err(ContractError::Arithmetic)
    } else {
        spec_sent_funds(coins.drop_first(), (acc + coins[0].amount) as u128)
    }
}

pub fn sent_funds(coins: &Vec<Coin>) -> (r: Result<u128, ContractError>)
    ensures
        r == spec_sent_funds(coins@, 0),
{
    let mut amount: u128 = 0;
    let mut i: usize = 0;
    proof {
        assert(coins@.skip(0) =~= coins@);
    }
    while i < coins.len()
        invariant
            0 <= i <= coins@.len(),
            spec_sent_funds(coins@, 0) == spec_sent_funds(coins@.skip(i as int), amount),
        decreases coins@.len() - i,
    {
        proof {
            assert(coins@.skip(i as int)[0] == coins@[i as int]);
        }
        if !str_eq(coins[i].denom.as_str(), "orai") {
            return Err(ContractError::UnsupportedToken);
        }
        match amount.checked_add(coins[i].amount) {
            Some(a) => {
                proof {
                    assert(coins@.skip(i as int).drop_first() =~= coins@.skip(i as int + 1));
                }
                amount = a;
            },
            None => {
                return Err(ContractError::Arithmetic);
            },
        }
        i = i + 1;
    }
    proof {
        assert(coins@.skip(i as int) =~= Seq::<Coin>::empty());
    }
    Ok(amount)
}

/// The single attached coin a deposit requires: exactly one coin, of the
/// native denomination, with a non-zero amount.
pub open spec fn spec_received_funds(funds: Seq<Coin>) -> Result<Coin, ContractError> {
    if funds.len() == 0 {
        Err(ContractError::NoFunds)
    } else if funds[0].amount == 0 {
        Err(ContractError::ZeroFunds)
    } else if funds[0].denom@ != "orai"@ {
        Err(ContractError::UnsupportedToken)
    } else if funds.len() > 1 {
        Err(ContractError::MultipleFunds)
    } else {
        Ok(funds[0])
    }
}

pub fn get_received_funds(funds: &Vec<Coin>) -> (r: Result<Coin, ContractError>)
    ensures
        r == spec_received_funds(funds@),
{
    if funds.len() == 0 {
        return Err(ContractError::NoFunds);
    }
    let received = &funds[0];
    if received.amount == 0 {
        return Err(ContractError::ZeroFunds);
    }
    if !str_eq(received.denom.as_str(), "orai") {
        return Err(ContractError::UnsupportedToken);
    }
    if funds.len() > 1 {
        return Err(ContractError::MultipleFunds);
    }
    Ok(received.clone())
}

} // verus!
