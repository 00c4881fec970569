//! Identities of accounts and contracts.

use vstd::prelude::*;

verus! {

/// What an address names.
#[derive(Clone, Copy, Debug, PartialEq, Eq, Structural, Hash)]
pub enum AddressKind {
    /// An account, identified by its public key.
    Account,
    /// A contract, identified by its hash.
    Contract,
}

/// An identity: a 256-bit key, held as two halves, and what it names.
///
/// Two addresses are the same identity exactly when kind and key agree.
#[derive(Clone, Copy, Debug, PartialEq, Eq, Structural, Hash)]
pub struct Address {
    pub kind: AddressKind,
    pub hi: u128,
    pub lo: u128,
}

impl Address {
    /// The account with the key `hi * 2^128 + lo`.
    pub fn account(hi: u128, lo: u128) -> (a: Address)
        ensures
            a == (Address { kind: AddressKind::Account, hi, lo }),
    {
        Address { kind: AddressKind::Account, hi, lo }
    }

    /// The contract with the hash `hi * 2^128 + lo`.
    pub fn contract(hi: u128, lo: u128) -> (a: Address)
        ensures
            a == (Address { kind: AddressKind::Contract, hi, lo }),
    {
        Address { kind: AddressKind::Contract, hi, lo }
    }

    /// Whether this address names a contract.
    pub fn is_contract(&self) -> (b: bool)
        ensures
            b == (self.kind == AddressKind::Contract),
    {
        self.kind == AddressKind::Contract
    }
}

} // verus!
