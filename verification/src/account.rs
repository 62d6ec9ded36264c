//! What the program reads of an account that the runtime hands it.
use vstd::prelude::*;

use crate::address::{address_eq, Address};

verus! {

/// A snapshot of an account as the runtime passes it to the program: its
/// address, the program that owns it, whether it signed the transaction,
/// whether it holds a program, and its data.
pub struct AccountView {
    pub address: Address,
    pub owner: Address,
    pub is_signer: bool,
    pub executable: bool,
    pub data: Vec<u8>,
}

impl AccountView {
    /// Whether `program` owns the account.
    pub fn owned_by(&self, program: &Address) -> (r: bool)
        ensures
            r == (self.owner@ == program@),
    {
        address_eq(&self.owner, program)
    }

    /// The length of the account's data.
    pub fn data_len(&self) -> (r: usize)
        ensures
            r == self.data@.len(),
    {
        self.data.len()
    }
}

} // verus!
