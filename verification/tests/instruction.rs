use split_donation::account::AccountKey;
use split_donation::executor::{Donate, Phase, SplitTransfer};
use split_donation::instruction::{AccountMeta, Instruction};

fn key(byte: u8) -> AccountKey {
    AccountKey::new([byte; 32])
}

/// The instruction for the recipient's payment in a donation of `lamports`.
fn transfer_instruction(from: &AccountKey, to: &AccountKey, lamports: u64) -> Instruction {
    let accounts = Donate { donor: *from, creator_wallet: *to, platform_wallet: key(0xee) };
    let paying = SplitTransfer { accounts, amount: lamports, phase: Phase::PayingRecipient };
    paying.instruction().unwrap()
}

#[test]
fn transfer_instruction_names_the_system_program() {
    let ix = transfer_instruction(&key(1), &key(2), 250);
    assert_eq!(ix.program_id, AccountKey::new([0u8; 32]));
}

#[test]
fn transfer_instruction_lists_payer_then_destination() {
    let ix = transfer_instruction(&key(1), &key(2), 250);
    assert_eq!(
        ix.accounts,
        vec![
            AccountMeta { key: key(1), is_signer: true, is_writable: true },
            AccountMeta { key: key(2), is_signer: false, is_writable: true },
        ]
    );
}

#[test]
fn transfer_instruction_encodes_the_amount() {
    let ix = transfer_instruction(&key(1), &key(2), 250);
    assert_eq!(ix.data, vec![2, 0, 0, 0, 250, 0, 0, 0, 0, 0, 0, 0]);
}

#[test]
fn transfer_instruction_encodes_least_significant_byte_first() {
    let ix = transfer_instruction(&key(9), &key(8), 0x0102_0304_0506_0708);
    assert_eq!(ix.data, vec![2, 0, 0, 0, 8, 7, 6, 5, 4, 3, 2, 1]);
}

#[test]
fn transfer_instruction_encodes_zero_and_the_largest_amount() {
    assert_eq!(
        transfer_instruction(&key(1), &key(2), 0).data,
        vec![2, 0, 0, 0, 0, 0, 0, 0, 0, 0, 0, 0]
    );
    assert_eq!(
        transfer_instruction(&key(1), &key(2), u64::MAX).data,
        vec![2, 0, 0, 0, 255, 255, 255, 255, 255, 255, 255, 255]
    );
}

#[test]
fn transfer_instruction_keeps_keys_apart() {
    let mut from = [0u8; 32];
    let mut to = [0u8; 32];
    for i in 0..32 {
        from[i] = i as u8;
        to[i] = 255 - i as u8;
    }
    let ix = transfer_instruction(&AccountKey::new(from), &AccountKey::new(to), 1);
    assert_eq!(ix.accounts.len(), 2);
    assert_eq!(ix.accounts[0].key.bytes, from);
    assert_eq!(ix.accounts[1].key.bytes, to);
}

#[test]
fn account_keys_compare_by_their_bytes() {
    let mut other = [7u8; 32];
    assert!(key(7).same(&AccountKey::new(other)));
    assert_eq!(key(7), AccountKey::new(other));
    other[31] = 8;
    assert!(!key(7).same(&AccountKey::new(other)));
    assert_ne!(key(7), AccountKey::new(other));
    other[31] = 7;
    other[0] = 6;
    assert!(!key(7).same(&AccountKey::new(other)));
    assert_eq!(AccountKey::new(other).bytes, other);
}

#[test]
fn the_platforms_instruction_carries_the_fee() {
    let accounts = Donate { donor: key(1), creator_wallet: key(2), platform_wallet: key(3) };
    let paying = SplitTransfer { accounts, amount: 25_600, phase: Phase::PayingPlatform };
    let ix = paying.instruction().unwrap();
    assert_eq!(ix.program_id, AccountKey::new([0u8; 32]));
    assert_eq!(
        ix.accounts,
        vec![
            AccountMeta { key: key(1), is_signer: true, is_writable: true },
            AccountMeta { key: key(3), is_signer: false, is_writable: true },
        ]
    );
    assert_eq!(ix.data, vec![2, 0, 0, 0, 0, 1, 0, 0, 0, 0, 0, 0]);
}

#[test]
fn only_a_request_to_move_funds_has_an_instruction() {
    let accounts = Donate { donor: key(1), creator_wallet: key(2), platform_wallet: key(3) };
    for phase in [
        Phase::Authorizing,
        Phase::Funding,
        Phase::Settled,
        Phase::Failed(split_donation::error::TransferError::Unauthorized),
        Phase::Failed(split_donation::error::TransferError::InsufficientFunds),
        Phase::Failed(split_donation::error::TransferError::TransferRejected),
    ] {
        let machine = SplitTransfer { accounts, amount: 250, phase };
        assert_eq!(machine.instruction(), None);
    }
}
