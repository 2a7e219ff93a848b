//! The system program's transfer instruction, as the host is asked to run it.

use crate::account::AccountKey;
use vstd::prelude::*;

verus! {

/// One account that an instruction touches, and how.
#[derive(Clone, Copy, Debug, PartialEq, Eq)]
pub struct AccountMeta {
    pub key: AccountKey,
    /// The account must sign the transaction that carries the instruction.
    pub is_signer: bool,
    /// The instruction may change the account.
    pub is_writable: bool,
}

/// An instruction for a program of the host: which program runs it, on which
/// accounts, with which input bytes.
#[derive(Debug, PartialEq, Eq)]
pub struct Instruction {
    pub program_id: AccountKey,
    pub accounts: Vec<AccountMeta>,
    pub data: Vec<u8>,
}

/// The eight bytes of `value`, least significant first.
pub open spec fn spec_le_bytes(value: u64) -> Seq<u8> {
    seq![
        (value % 0x100) as u8,
        (value / 0x100 % 0x100) as u8,
        (value / 0x1_0000 % 0x100) as u8,
        (value / 0x100_0000 % 0x100) as u8,
        (value / 0x1_0000_0000 % 0x100) as u8,
        (value / 0x100_0000_0000 % 0x100) as u8,
        (value / 0x1_0000_0000_0000 % 0x100) as u8,
        (value / 0x100_0000_0000_0000 % 0x100) as u8,
    ]
}

/// The input bytes of a transfer of `lamports`: the number 2, which selects
/// the transfer among the system program's instructions, in four bytes, then
/// the amount in eight, both least significant byte first.
pub open spec fn spec_transfer_data(lamports: u64) -> Seq<u8> {
    seq![2u8, 0u8, 0u8, 0u8] + spec_le_bytes(lamports)
}

/// The address of the system program: 32 zero bytes.
pub open spec fn spec_system_program() -> Seq<u8> {
    Seq::new(32, |i: int| 0u8)
}

/// Whether `ix` asks the system program to move `lamports` from `from` to
/// `to`: `from` signs and is debited, `to` is credited and need not sign.
pub open spec fn is_system_transfer(
    ix: Instruction,
    from: AccountKey,
    to: AccountKey,
    lamports: u64,
) -> bool {
    &&& ix.program_id.bytes@ == spec_system_program()
    &&& ix.accounts@ == seq![
        (AccountMeta { key: from, is_signer: true, is_writable: true }),
        (AccountMeta { key: to, is_signer: false, is_writable: true }),
    ]
    &&& ix.data@ == spec_transfer_data(lamports)
}

/// Calls `anchor_lang::solana_program::system_instruction::transfer` and
/// copies the program id, the account list and the data of what it returns,
/// field by field. Trusted, not proved: that the instruction names the system
/// program, lists `from` as a writable signer and then `to` as writable and
/// not a signer, and carries the transfer's input bytes.
#[verifier::external_body]
pub(crate) fn system_transfer(from: &AccountKey, to: &AccountKey, lamports: u64) -> (ix: Instruction)
    ensures
        is_system_transfer(ix, *from, *to, lamports),
{
    let built = anchor_lang::solana_program::system_instruction::transfer(
        &anchor_lang::solana_program::pubkey::Pubkey::new_from_array(from.bytes),
        &anchor_lang::solana_program::pubkey::Pubkey::new_from_array(to.bytes),
        lamports,
    );
    let mut accounts: Vec<AccountMeta> = Vec::new();
    for meta in built.accounts.iter() {
        accounts.push(AccountMeta {
            key: AccountKey { bytes: meta.pubkey.to_bytes() },
            is_signer: meta.is_signer,
            is_writable: meta.is_writable,
        });
    }
    Instruction { program_id: AccountKey { bytes: built.program_id.to_bytes() }, accounts, data: built.data }
}

} // verus!
