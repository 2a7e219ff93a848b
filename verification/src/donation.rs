//! A donation run from start to end against the ledger in memory.

use crate::account::AccountKey;
use crate::error::TransferError;
use crate::executor::{
    carried_out, lemma_run_one_more, run, Action, Disbursement, Donate, Event, Phase, SplitTransfer,
};
use crate::ledger::{spec_spendable, spec_transfer, Ledger};
use crate::shares::{spec_platform_share, spec_total_debit};
use vstd::prelude::*;

verus! {

/// What a donation of `amount` by `caller` does to `balances`, and how it
/// ends.
///
/// A caller who is not the donor is turned away. A donor who cannot spend
/// both shares together is turned away next. In both cases no balance
/// changes. Then the recipient is paid the amount and the platform the fee,
/// in that order, and a transfer that is declined ends the donation. Where
/// the second is declined after the first took effect, an atomic host puts
/// the balances back and any other host leaves the recipient paid.
pub open spec fn spec_donate(
    balances: Map<AccountKey, u64>,
    atomic: bool,
    caller: AccountKey,
    accounts: Donate,
    amount: u64,
) -> (Result<(), TransferError>, Map<AccountKey, u64>) {
    let fee = spec_platform_share(amount as nat) as u64;
    if caller != accounts.donor {
        (Err(TransferError::Unauthorized), balances)
    } else if spec_spendable(balances, accounts.donor) < spec_total_debit(amount as nat) {
        (Err(TransferError::InsufficientFunds), balances)
    } else {
        match spec_transfer(balances, accounts.donor, accounts.creator_wallet, amount) {
            None => (Err(TransferError::TransferRejected), balances),
            Some(recipient_paid) => match spec_transfer(
                recipient_paid,
                accounts.donor,
                accounts.platform_wallet,
                fee,
            ) {
                None => (
                    Err(TransferError::TransferRejected),
                    if atomic {
                        balances
                    } else {
                        recipient_paid
                    },
                ),
                Some(settled) => (Ok(()), settled),
            },
        }
    }
}

/// How the balances `now` relate to those at the `start` of a donation by
/// `caller` that has reached `machine`'s phase, before anything is undone.
spec fn in_step(
    machine: SplitTransfer,
    start: Map<AccountKey, u64>,
    now: Map<AccountKey, u64>,
    caller: AccountKey,
) -> bool {
    let accounts = machine.accounts;
    let amount = machine.amount;
    let fee = spec_platform_share(amount as nat) as u64;
    let authorized = caller == accounts.donor;
    let funded = spec_spendable(start, accounts.donor) >= spec_total_debit(amount as nat);
    let first = spec_transfer(start, accounts.donor, accounts.creator_wallet, amount);
    match machine.phase {
        Phase::Authorizing => now == start,
        Phase::Funding => now == start && authorized,
        Phase::PayingRecipient => now == start && authorized && funded,
        Phase::PayingPlatform => authorized && funded && first == Some(now),
        Phase::Settled => authorized && funded && first.is_some() && spec_transfer(
            first.unwrap(),
            accounts.donor,
            accounts.platform_wallet,
            fee,
        ) == Some(now),
        Phase::Failed(TransferError::Unauthorized) => now == start && !authorized,
        Phase::Failed(TransferError::InsufficientFunds) => now == start && authorized && !funded,
        Phase::Failed(TransferError::TransferRejected) => authorized && funded && if first.is_none() {
            now == start
        } else {
            first == Some(now) && spec_transfer(
                now,
                accounts.donor,
                accounts.platform_wallet,
                fee,
            ).is_none()
        },
    }
}

/// The requests still to come before a donation in `phase` has ended.
spec fn steps_left(phase: Phase) -> nat {
    match phase {
        Phase::Authorizing => 4,
        Phase::Funding => 3,
        Phase::PayingRecipient => 2,
        Phase::PayingPlatform => 1,
        Phase::Settled => 0,
        Phase::Failed(_) => 0,
    }
}

/// Donates `amount` on behalf of `caller`: pays the whole amount to the
/// creator's wallet and one hundredth of it, rounded down, to the platform's
/// wallet, both out of the donor's funds. An amount of zero is accepted and
/// makes two transfers of nothing.
pub fn donate(ledger: &mut Ledger, caller: &AccountKey, accounts: &Donate, amount: u64) -> (result:
    Result<(), TransferError>)
    requires
        old(ledger).wf(),
    ensures
        final(ledger).wf(),
        final(ledger).spec_is_atomic() == old(ledger).spec_is_atomic(),
        (result, final(ledger).balances()) == spec_donate(
            old(ledger).balances(),
            old(ledger).spec_is_atomic(),
            *caller,
            *accounts,
            amount,
        ),
{
    let saved = if ledger.is_atomic() {
        Some(ledger.snapshot())
    } else {
        None
    };
    let (mut machine, mut action) = SplitTransfer::begin(*accounts, amount);
    loop
        invariant
            ledger.wf(),
            ledger.spec_is_atomic() == old(ledger).spec_is_atomic(),
            ledger.spec_is_atomic() == saved.is_some(),
            saved matches Some(before) ==> before.wf() && before.balances() == old(
                ledger,
            ).balances() && before.spec_is_atomic(),
            machine.accounts == *accounts,
            machine.amount == amount,
            action == machine.spec_pending(),
            in_step(machine, old(ledger).balances(), ledger.balances(), *caller),
        decreases steps_left(machine.phase),
    {
        let event = match action {
            Action::CheckAuthority { payer } => Event::Authority(caller.same(&payer)),
            Action::ReadBalance { payer } => Event::Balance(ledger.spendable(&payer)),
            Action::Move { payer, disbursement } => Event::Moved(
                ledger.transfer(&payer, &disbursement.destination, disbursement.amount),
            ),
            Action::Done(result) => {
                if result.is_err() {
                    if let Some(before) = saved {
                        *ledger = before;
                    }
                }
                return result;
            },
        };
        let next = machine.step(event);
        machine = next.0;
        action = next.1;
    }
}

/// What the ledger answers, in order, to the requests of a donation of
/// `amount` by `caller`: whether the caller is the donor; then what the donor
/// can spend; then whether the recipient's transfer took effect; then whether
/// the platform's did. The answers end with the first that ends the donation.
pub open spec fn spec_answers(
    balances: Map<AccountKey, u64>,
    caller: AccountKey,
    accounts: Donate,
    amount: u64,
) -> Seq<Event> {
    let fee = spec_platform_share(amount as nat) as u64;
    let spendable = spec_spendable(balances, accounts.donor);
    let first = spec_transfer(balances, accounts.donor, accounts.creator_wallet, amount);
    let authority = seq![Event::Authority(caller == accounts.donor)];
    if caller != accounts.donor {
        authority
    } else if spendable < spec_total_debit(amount as nat) {
        authority.push(Event::Balance(spendable as u64))
    } else if first.is_none() {
        authority.push(Event::Balance(spendable as u64)).push(Event::Moved(false))
    } else {
        authority.push(Event::Balance(spendable as u64)).push(Event::Moved(true)).push(
            Event::Moved(
                spec_transfer(first.unwrap(), accounts.donor, accounts.platform_wallet, fee).is_some(),
            ),
        )
    }
}

/// The balances after each of `paid` was moved out of `payer`'s funds, in
/// order. A payment that the ledger declines moves nothing.
pub open spec fn spec_paid_out(
    balances: Map<AccountKey, u64>,
    payer: AccountKey,
    paid: Seq<Disbursement>,
) -> Map<AccountKey, u64>
    decreases paid.len(),
{
    if paid.len() == 0 {
        balances
    } else {
        let earlier = spec_paid_out(balances, payer, paid.drop_last());
        match spec_transfer(earlier, payer, paid.last().destination, paid.last().amount) {
            Some(moved) => moved,
            None => earlier,
        }
    }
}

/// A donation on the ledger is a run of the executor with the ledger's
/// answers: the run ends with the donation's result, and the balances
/// afterwards are the balances before with the payments of that run moved,
/// unless the donation failed on an atomic ledger, which keeps the balances
/// it had. So a donation that succeeds has moved two payments and no more,
/// and one that fails before the first transfer has moved none.
pub proof fn lemma_donation_runs_the_executor(
    balances: Map<AccountKey, u64>,
    atomic: bool,
    caller: AccountKey,
    accounts: Donate,
    amount: u64,
)
    ensures
        ({
            let start = SplitTransfer::spec_begin(accounts, amount);
            let answers = spec_answers(balances, caller, accounts, amount);
            let (result, after) = spec_donate(balances, atomic, caller, accounts, amount);
            &&& run(start, answers).spec_pending() == Action::Done(result)
            &&& after == if atomic && result is Err {
                balances
            } else {
                spec_paid_out(balances, accounts.donor, carried_out(start, answers))
            }
        }),
{
    let start = SplitTransfer::spec_begin(accounts, amount);
    let fee = spec_platform_share(amount as nat) as u64;
    let spendable = spec_spendable(balances, accounts.donor);
    let first = spec_transfer(balances, accounts.donor, accounts.creator_wallet, amount);
    let none = Seq::<Event>::empty();
    let one = none.push(Event::Authority(caller == accounts.donor));
    assert(one =~= seq![Event::Authority(caller == accounts.donor)]);
    lemma_run_one_more(start, none, Event::Authority(caller == accounts.donor));
    let unpaid = Seq::<Disbursement>::empty();
    assert(spec_paid_out(balances, accounts.donor, unpaid) == balances);
    if caller == accounts.donor {
        let two = one.push(Event::Balance(spendable as u64));
        lemma_run_one_more(start, one, Event::Balance(spendable as u64));
        if spendable >= spec_total_debit(amount as nat) {
            let three = two.push(Event::Moved(first.is_some()));
            lemma_run_one_more(start, two, Event::Moved(first.is_some()));
            if first.is_some() {
                let second = spec_transfer(
                    first.unwrap(),
                    accounts.donor,
                    accounts.platform_wallet,
                    fee,
                );
                lemma_run_one_more(start, three, Event::Moved(second.is_some()));
                let recipient = accounts.spec_recipient_disbursement(amount);
                let platform = accounts.spec_platform_disbursement(amount);
                let once = unpaid.push(recipient);
                assert(once.drop_last() =~= unpaid);
                assert(spec_paid_out(balances, accounts.donor, once) == first.unwrap());
                if second.is_some() {
                    let twice = once.push(platform);
                    assert(twice.drop_last() =~= once);
                    assert(spec_paid_out(balances, accounts.donor, twice) == second.unwrap());
                }
            }
        }
    }
}

/// Whether `after` differs from `before` at most in what `first` and
/// `second` hold: every other account is there or not as before, with the
/// same balance.
pub open spec fn same_elsewhere(
    before: Map<AccountKey, u64>,
    after: Map<AccountKey, u64>,
    first: AccountKey,
    second: AccountKey,
) -> bool {
    forall|other: AccountKey|
        other != first && other != second ==> {
            &&& #[trigger] after.dom().contains(other) == before.dom().contains(other)
            &&& after.dom().contains(other) ==> after[other] == before[other]
        }
}

/// A caller who is not the donor is turned away with `Unauthorized`, and no
/// balance changes.
pub proof fn lemma_stranger_changes_nothing(
    balances: Map<AccountKey, u64>,
    atomic: bool,
    caller: AccountKey,
    accounts: Donate,
    amount: u64,
)
    requires
        caller != accounts.donor,
    ensures
        spec_donate(balances, atomic, caller, accounts, amount) == (
            Err::<(), TransferError>(TransferError::Unauthorized),
            balances,
        ),
{
}

/// A donor who holds less than both shares together is turned away with
/// `InsufficientFunds`, and no balance changes, on an atomic host and on any
/// other.
pub proof fn lemma_short_donor_changes_nothing(
    balances: Map<AccountKey, u64>,
    atomic: bool,
    accounts: Donate,
    amount: u64,
)
    requires
        spec_spendable(balances, accounts.donor) < spec_total_debit(amount as nat),
    ensures
        spec_donate(balances, atomic, accounts.donor, accounts, amount) == (
            Err::<(), TransferError>(TransferError::InsufficientFunds),
            balances,
        ),
{
}

/// On an atomic host a donation that fails, for whatever reason, leaves every
/// balance as it found it.
pub proof fn lemma_atomic_failure_changes_nothing(
    balances: Map<AccountKey, u64>,
    caller: AccountKey,
    accounts: Donate,
    amount: u64,
)
    requires
        spec_donate(balances, true, caller, accounts, amount).0 is Err,
    ensures
        spec_donate(balances, true, caller, accounts, amount).1 == balances,
{
}

/// A donation among three different accounts that succeeds debits the donor
/// by both shares together, credits the recipient with the whole amount and
/// the platform with one hundredth of it, rounded down, and touches no other
/// account.
pub proof fn lemma_success_moves_both_shares(
    balances: Map<AccountKey, u64>,
    atomic: bool,
    accounts: Donate,
    amount: u64,
)
    requires
        accounts.donor != accounts.creator_wallet,
        accounts.donor != accounts.platform_wallet,
        accounts.creator_wallet != accounts.platform_wallet,
        spec_donate(balances, atomic, accounts.donor, accounts, amount).0 is Ok,
    ensures
        ({
            let after = spec_donate(balances, atomic, accounts.donor, accounts, amount).1;
            &&& after.dom() == balances.dom()
            &&& after[accounts.donor] == balances[accounts.donor] - (amount + amount / 100)
            &&& after[accounts.creator_wallet] == balances[accounts.creator_wallet] + amount
            &&& after[accounts.platform_wallet] == balances[accounts.platform_wallet] + amount
                / 100
            &&& forall|other: AccountKey|
                other != accounts.donor && other != accounts.creator_wallet && other
                    != accounts.platform_wallet ==> #[trigger] after[other] == balances[other]
        }),
{
    let after = spec_donate(balances, atomic, accounts.donor, accounts, amount).1;
    assert(after.dom() =~= balances.dom());
}

/// Where the host undoes nothing, the recipient's transfer takes effect and
/// the platform's is declined, the donation ends with `TransferRejected` and
/// stays half done: the donor is debited by the amount alone, the recipient
/// is credited with it, and the platform and every other account are as
/// before.
pub proof fn lemma_rejected_fee_leaves_recipient_paid(
    balances: Map<AccountKey, u64>,
    accounts: Donate,
    amount: u64,
)
    requires
        accounts.donor != accounts.creator_wallet,
        accounts.donor != accounts.platform_wallet,
        accounts.creator_wallet != accounts.platform_wallet,
        spec_spendable(balances, accounts.donor) >= spec_total_debit(amount as nat),
        spec_transfer(balances, accounts.donor, accounts.creator_wallet, amount) is Some,
        spec_transfer(
            spec_transfer(balances, accounts.donor, accounts.creator_wallet, amount).unwrap(),
            accounts.donor,
            accounts.platform_wallet,
            (amount / 100) as u64,
        ) is None,
    ensures
        ({
            let (result, after) = spec_donate(balances, false, accounts.donor, accounts, amount);
            &&& result == Err::<(), TransferError>(TransferError::TransferRejected)
            &&& after[accounts.donor] == balances[accounts.donor] - amount
            &&& after[accounts.creator_wallet] == balances[accounts.creator_wallet] + amount
            &&& same_elsewhere(balances, after, accounts.donor, accounts.creator_wallet)
        }),
{
}

/// Donating twice with the same accounts and amount is not donating once:
/// where both donations succeed, the donor is debited by both shares
/// together each time. Nothing remembers the first donation.
pub proof fn lemma_second_donation_debits_again(
    balances: Map<AccountKey, u64>,
    atomic: bool,
    accounts: Donate,
    amount: u64,
)
    requires
        accounts.donor != accounts.creator_wallet,
        accounts.donor != accounts.platform_wallet,
        spec_donate(balances, atomic, accounts.donor, accounts, amount).0 is Ok,
        spec_donate(
            spec_donate(balances, atomic, accounts.donor, accounts, amount).1,
            atomic,
            accounts.donor,
            accounts,
            amount,
        ).0 is Ok,
    ensures
        ({
            let once = spec_donate(balances, atomic, accounts.donor, accounts, amount).1;
            let twice = spec_donate(once, atomic, accounts.donor, accounts, amount).1;
            &&& once[accounts.donor] == balances[accounts.donor] - (amount + amount / 100)
            &&& twice[accounts.donor] == balances[accounts.donor] - 2 * (amount + amount / 100)
            &&& amount > 0 ==> twice != once
        }),
{
}

} // verus!
