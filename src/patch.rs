use vstd::prelude::*;

use crate::identity::Identity;
use crate::storage::{row_key, storage_row_key, zero_balance, zero_balance_row};

verus! {

/// A raw write to a contract's persisted storage, made with the sandbox's
/// privileged access and bypassing the contract's own logic.
#[derive(Debug)]
pub struct StatePatch {
    pub contract: Identity,
    pub key: Vec<u8>,
    pub value: Vec<u8>,
}

/// Builds the write that registers `account` with a zero balance in the token
/// contract `ft_contract`, whose balances live in the collection at `prefix`.
/// The prefix must be that of the contract's layout: with another one the write
/// lands in a row the contract never reads.
pub fn register_ft_receiver(ft_contract: &Identity, prefix: &[u8], account: &Identity) -> (r:
    StatePatch)
    ensures
        r.contract@ == ft_contract@,
        r.key@ == row_key(prefix@, account@),
        r.value@ == zero_balance(),
{
    StatePatch {
        contract: ft_contract.duplicate(),
        key: storage_row_key(prefix, account),
        value: zero_balance_row(),
    }
}

} // verus!
