//! Instruction data as a client of the vault program builds it.

use vstd::prelude::*;
use vstd::bytes::{spec_u64_to_le_bytes, u64_to_le_bytes};
use crate::vault::instruction::{DEPOSIT, WITHDRAW};

verus! {

/// The data of a deposit instruction: the discriminator, then the amount in
/// eight little-endian bytes.
pub open spec fn spec_deposit_data(amount: u64) -> Seq<u8> {
    seq![DEPOSIT] + spec_u64_to_le_bytes(amount)
}

/// The data of a withdraw instruction: the discriminator alone.
pub open spec fn spec_withdraw_data() -> Seq<u8> {
    seq![WITHDRAW]
}

/// Builds the data of a deposit of `amount` lamports.
pub fn deposit_data(amount: u64) -> (v: Vec<u8>)
    ensures
        v@ == spec_deposit_data(amount),
{
    let mut v: Vec<u8> = Vec::new();
    v.push(DEPOSIT);
    let mut bytes = u64_to_le_bytes(amount);
    v.append(&mut bytes);
    v
}

/// Builds the data of a withdrawal.
pub fn withdraw_data() -> (v: Vec<u8>)
    ensures
        v@ == spec_withdraw_data(),
{
    let mut v: Vec<u8> = Vec::new();
    v.push(WITHDRAW);
    v
}

} // verus!
