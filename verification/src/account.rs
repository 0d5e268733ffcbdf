//! What the program sees of the accounts handed to it, and the ledger
//! instructions it hands back.

use crate::address::Address;
use vstd::prelude::*;

verus! {

/// An account as a command reads it: its address, the program that owns
/// it, and its data.
#[derive(Debug)]
pub struct LoadedAccount {
    pub key: Address,
    pub owner: Address,
    pub data: Vec<u8>,
}

/// A loaded account as plain values.
pub struct LoadedAccountView {
    pub key: Address,
    pub owner: Address,
    pub data: Seq<u8>,
}

impl View for LoadedAccount {
    type V = LoadedAccountView;

    open spec fn view(&self) -> LoadedAccountView {
        LoadedAccountView { key: self.key, owner: self.owner, data: self.data@ }
    }
}

/// A list of loaded accounts as plain values.
pub open spec fn account_views(accounts: Seq<LoadedAccount>) -> Seq<LoadedAccountView> {
    Seq::new(accounts.len(), |i: int| accounts[i]@)
}

/// How an instruction uses one account.
#[derive(Clone, Copy, Debug)]
pub struct AccountMeta {
    pub pubkey: Address,
    pub is_signer: bool,
    pub is_writable: bool,
}

impl AccountMeta {
    /// A writable account.
    pub fn new(pubkey: Address, is_signer: bool) -> (meta: AccountMeta)
        ensures
            meta == (AccountMeta { pubkey, is_signer, is_writable: true }),
    {
        AccountMeta { pubkey, is_signer, is_writable: true }
    }

    /// An account with the address whose bytes are `pubkey`.
    pub fn from_parts(pubkey: [u8; 32], is_signer: bool, is_writable: bool) -> (meta: AccountMeta)
        ensures
            meta == (AccountMeta { pubkey: Address { bytes: pubkey }, is_signer, is_writable }),
    {
        AccountMeta { pubkey: Address { bytes: pubkey }, is_signer, is_writable }
    }

    /// A read-only account.
    pub fn new_readonly(pubkey: Address, is_signer: bool) -> (meta: AccountMeta)
        ensures
            meta == (AccountMeta { pubkey, is_signer, is_writable: false }),
    {
        AccountMeta { pubkey, is_signer, is_writable: false }
    }
}

/// An instruction for a program: the program, the accounts it may touch
/// and the bytes it decodes.
#[derive(Debug)]
pub struct Instruction {
    pub program_id: Address,
    pub accounts: Vec<AccountMeta>,
    pub data: Vec<u8>,
}

/// An instruction as plain values.
pub struct InstructionView {
    pub program_id: Address,
    pub accounts: Seq<AccountMeta>,
    pub data: Seq<u8>,
}

impl View for Instruction {
    type V = InstructionView;

    open spec fn view(&self) -> InstructionView {
        InstructionView { program_id: self.program_id, accounts: self.accounts@, data: self.data@ }
    }
}

} // verus!
