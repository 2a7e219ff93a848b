use split_donation::account::AccountKey;
use split_donation::error::TransferError;
use split_donation::executor::{Action, Disbursement, Donate, Event, Phase, SplitTransfer};

fn accounts() -> Donate {
    Donate {
        donor: AccountKey::new([1; 32]),
        creator_wallet: AccountKey::new([2; 32]),
        platform_wallet: AccountKey::new([3; 32]),
    }
}

#[test]
fn disbursements_carry_the_two_shares() {
    let a = accounts();
    assert_eq!(
        a.recipient_disbursement(250),
        Disbursement { destination: a.creator_wallet, amount: 250 }
    );
    assert_eq!(
        a.platform_disbursement(250),
        Disbursement { destination: a.platform_wallet, amount: 2 }
    );
    assert_eq!(a.platform_disbursement(99).amount, 0);
    assert_eq!(a.recipient_disbursement(0).amount, 0);
}

#[test]
fn a_donation_begins_by_asking_for_authority() {
    let a = accounts();
    let (machine, action) = SplitTransfer::begin(a, 250);
    assert_eq!(machine, SplitTransfer { accounts: a, amount: 250, phase: Phase::Authorizing });
    assert_eq!(action, Action::CheckAuthority { payer: a.donor });
    assert_eq!(machine.pending(), action);
    assert!(!machine.finished());
}

#[test]
fn a_donation_settles_after_four_answers() {
    let a = accounts();
    let (machine, _) = SplitTransfer::begin(a, 250);

    let (machine, action) = machine.step(Event::Authority(true));
    assert_eq!(machine.phase, Phase::Funding);
    assert_eq!(action, Action::ReadBalance { payer: a.donor });

    let (machine, action) = machine.step(Event::Balance(252));
    assert_eq!(machine.phase, Phase::PayingRecipient);
    assert_eq!(
        action,
        Action::Move {
            payer: a.donor,
            disbursement: Disbursement { destination: a.creator_wallet, amount: 250 },
        }
    );

    let (machine, action) = machine.step(Event::Moved(true));
    assert_eq!(machine.phase, Phase::PayingPlatform);
    assert_eq!(
        action,
        Action::Move {
            payer: a.donor,
            disbursement: Disbursement { destination: a.platform_wallet, amount: 2 },
        }
    );
    assert!(!machine.finished());

    let (machine, action) = machine.step(Event::Moved(true));
    assert_eq!(machine.phase, Phase::Settled);
    assert_eq!(action, Action::Done(Ok(())));
    assert!(machine.finished());
    assert_eq!(machine.accounts, a);
    assert_eq!(machine.amount, 250);
}

#[test]
fn a_stranger_is_turned_away_first() {
    let (machine, _) = SplitTransfer::begin(accounts(), 250);
    let (machine, action) = machine.step(Event::Authority(false));
    assert_eq!(machine.phase, Phase::Failed(TransferError::Unauthorized));
    assert_eq!(action, Action::Done(Err(TransferError::Unauthorized)));
    assert!(machine.finished());
}

#[test]
fn a_balance_one_short_of_the_total_is_not_enough() {
    let (machine, _) = SplitTransfer::begin(accounts(), 250);
    let (machine, _) = machine.step(Event::Authority(true));
    let (short, action) = machine.step(Event::Balance(251));
    assert_eq!(short.phase, Phase::Failed(TransferError::InsufficientFunds));
    assert_eq!(action, Action::Done(Err(TransferError::InsufficientFunds)));
    let (enough, _) = machine.step(Event::Balance(252));
    assert_eq!(enough.phase, Phase::PayingRecipient);
}

#[test]
fn no_balance_covers_the_largest_amount() {
    let (machine, _) = SplitTransfer::begin(accounts(), u64::MAX);
    let (machine, _) = machine.step(Event::Authority(true));
    let (machine, action) = machine.step(Event::Balance(u64::MAX));
    assert_eq!(machine.phase, Phase::Failed(TransferError::InsufficientFunds));
    assert_eq!(action, Action::Done(Err(TransferError::InsufficientFunds)));
}

#[test]
fn a_declined_recipient_transfer_ends_the_donation() {
    let (machine, _) = SplitTransfer::begin(accounts(), 250);
    let (machine, _) = machine.step(Event::Authority(true));
    let (machine, _) = machine.step(Event::Balance(1_000));
    let (machine, action) = machine.step(Event::Moved(false));
    assert_eq!(machine.phase, Phase::Failed(TransferError::TransferRejected));
    assert_eq!(action, Action::Done(Err(TransferError::TransferRejected)));
}

#[test]
fn a_declined_platform_transfer_ends_the_donation() {
    let (machine, _) = SplitTransfer::begin(accounts(), 250);
    let (machine, _) = machine.step(Event::Authority(true));
    let (machine, _) = machine.step(Event::Balance(1_000));
    let (machine, _) = machine.step(Event::Moved(true));
    let (machine, action) = machine.step(Event::Moved(false));
    assert_eq!(machine.phase, Phase::Failed(TransferError::TransferRejected));
    assert_eq!(action, Action::Done(Err(TransferError::TransferRejected)));
}

#[test]
fn an_answer_to_another_question_changes_nothing() {
    let a = accounts();
    let (machine, first) = SplitTransfer::begin(a, 250);
    let (same, action) = machine.step(Event::Moved(true));
    assert_eq!(same, machine);
    assert_eq!(action, first);
    let (same, action) = machine.step(Event::Balance(1_000));
    assert_eq!(same, machine);
    assert_eq!(action, first);

    let (funding, ask_balance) = machine.step(Event::Authority(true));
    let (same, action) = funding.step(Event::Authority(false));
    assert_eq!(same, funding);
    assert_eq!(action, ask_balance);

    let (paying, ask_move) = funding.step(Event::Balance(1_000));
    let (same, action) = paying.step(Event::Balance(0));
    assert_eq!(same, paying);
    assert_eq!(action, ask_move);
}

#[test]
fn an_ended_donation_stays_ended() {
    let (machine, _) = SplitTransfer::begin(accounts(), 100);
    let (machine, _) = machine.step(Event::Authority(true));
    let (machine, _) = machine.step(Event::Balance(101));
    let (machine, _) = machine.step(Event::Moved(true));
    let (settled, _) = machine.step(Event::Moved(true));
    for event in [Event::Authority(false), Event::Balance(0), Event::Moved(false)] {
        let (after, action) = settled.step(event);
        assert_eq!(after, settled);
        assert_eq!(action, Action::Done(Ok(())));
    }
    let (failed, _) = machine.step(Event::Moved(false));
    for event in [Event::Authority(true), Event::Balance(u64::MAX), Event::Moved(true)] {
        let (after, action) = failed.step(event);
        assert_eq!(after, failed);
        assert_eq!(action, Action::Done(Err(TransferError::TransferRejected)));
    }
}

#[test]
fn a_zero_donation_asks_for_two_transfers_of_nothing() {
    let a = accounts();
    let (machine, _) = SplitTransfer::begin(a, 0);
    let (machine, _) = machine.step(Event::Authority(true));
    let (machine, action) = machine.step(Event::Balance(0));
    assert_eq!(
        action,
        Action::Move {
            payer: a.donor,
            disbursement: Disbursement { destination: a.creator_wallet, amount: 0 },
        }
    );
    let (machine, action) = machine.step(Event::Moved(true));
    assert_eq!(
        action,
        Action::Move {
            payer: a.donor,
            disbursement: Disbursement { destination: a.platform_wallet, amount: 0 },
        }
    );
    let (machine, action) = machine.step(Event::Moved(true));
    assert_eq!(machine.phase, Phase::Settled);
    assert_eq!(action, Action::Done(Ok(())));
}

#[test]
fn the_payments_of_a_settled_run_are_the_two_shares_in_order() {
    let a = accounts();
    let events = [
        Event::Moved(true),
        Event::Authority(true),
        Event::Authority(true),
        Event::Balance(20_000),
        Event::Moved(true),
        Event::Balance(0),
        Event::Moved(true),
        Event::Moved(true),
    ];
    let (mut machine, mut action) = SplitTransfer::begin(a, 12_345);
    let mut paid: Vec<Disbursement> = Vec::new();
    for event in events {
        if let (Action::Move { disbursement, .. }, Event::Moved(true)) = (action, event) {
            paid.push(disbursement);
        }
        let next = machine.step(event);
        machine = next.0;
        action = next.1;
    }
    assert_eq!(machine.phase, Phase::Settled);
    assert_eq!(
        paid,
        vec![
            Disbursement { destination: a.creator_wallet, amount: 12_345 },
            Disbursement { destination: a.platform_wallet, amount: 123 },
        ]
    );
    assert_eq!(paid[0].amount + paid[1].amount, 12_468);
}
