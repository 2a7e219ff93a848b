//! The split-transfer executor: what to ask of the host next, given what the
//! host has answered so far.
//!
//! The executor moves no funds itself. It asks the host, in this order, to
//! confirm that the caller owns the payer's funds, to report the payer's
//! spendable balance, to move the recipient's share and to move the
//! platform's share. The host carries out each request and answers with an
//! event; the first refusal ends the donation with an error.

use crate::account::AccountKey;
use crate::error::TransferError;
use crate::instruction::{is_system_transfer, system_transfer, Instruction};
use crate::shares::{
    platform_share, recipient_share, spec_platform_share, spec_recipient_share, spec_total_debit,
    total_debit,
};
use vstd::prelude::*;

verus! {

/// The accounts of one donation.
#[derive(Clone, Copy, Debug, PartialEq, Eq)]
pub struct Donate {
    /// Who pays. Both shares are debited here.
    pub donor: AccountKey,
    /// Who receives the stated amount.
    pub creator_wallet: AccountKey,
    /// Who receives the fee.
    pub platform_wallet: AccountKey,
}

/// One payment out of the payer's funds. It lives for one donation only.
#[derive(Clone, Copy, Debug, PartialEq, Eq)]
pub struct Disbursement {
    pub destination: AccountKey,
    pub amount: u64,
}

/// How far a donation has come.
#[derive(Clone, Copy, Debug, PartialEq, Eq)]
pub enum Phase {
    /// Waiting to hear whether the caller owns the payer's funds.
    Authorizing,
    /// Waiting for the payer's spendable balance.
    Funding,
    /// Waiting for the transfer to the recipient.
    PayingRecipient,
    /// Waiting for the transfer to the platform.
    PayingPlatform,
    /// Both transfers went through.
    Settled,
    /// The donation ended with this error.
    Failed(TransferError),
}

/// What the executor asks of the host.
#[derive(Clone, Copy, Debug, PartialEq, Eq)]
pub enum Action {
    /// Say whether the caller is the authenticated owner of `payer`'s funds.
    CheckAuthority { payer: AccountKey },
    /// Report the spendable balance of `payer`.
    ReadBalance { payer: AccountKey },
    /// Debit `payer` and credit the disbursement's destination.
    Move { payer: AccountKey, disbursement: Disbursement },
    /// Nothing more: the donation has ended with this result.
    Done(Result<(), TransferError>),
}

/// What the host answers.
#[derive(Clone, Copy, Debug, PartialEq, Eq)]
pub enum Event {
    /// The answer to [`Action::CheckAuthority`].
    Authority(bool),
    /// The answer to [`Action::ReadBalance`].
    Balance(u64),
    /// The answer to [`Action::Move`]: whether the transfer took effect.
    Moved(bool),
}

/// The state of one donation.
#[derive(Clone, Copy, Debug, PartialEq, Eq)]
pub struct SplitTransfer {
    pub accounts: Donate,
    pub amount: u64,
    pub phase: Phase,
}

impl Donate {
    /// The payment to the recipient: the whole of `amount`.
    pub open spec fn spec_recipient_disbursement(self, amount: u64) -> Disbursement {
        Disbursement {
            destination: self.creator_wallet,
            amount: spec_recipient_share(amount as nat) as u64,
        }
    }

    /// The payment to the platform: one hundredth of `amount`, rounded down.
    pub open spec fn spec_platform_disbursement(self, amount: u64) -> Disbursement {
        Disbursement {
            destination: self.platform_wallet,
            amount: spec_platform_share(amount as nat) as u64,
        }
    }

    /// The payment that a donation of `amount` makes to the recipient.
    pub fn recipient_disbursement(&self, amount: u64) -> (d: Disbursement)
        ensures
            d == self.spec_recipient_disbursement(amount),
    {
        Disbursement { destination: self.creator_wallet, amount: recipient_share(amount) }
    }

    /// The payment that a donation of `amount` makes to the platform.
    pub fn platform_disbursement(&self, amount: u64) -> (d: Disbursement)
        ensures
            d == self.spec_platform_disbursement(amount),
    {
        Disbursement { destination: self.platform_wallet, amount: platform_share(amount) }
    }
}

impl SplitTransfer {
    /// A donation of `amount` before anything was asked of the host.
    pub open spec fn spec_begin(accounts: Donate, amount: u64) -> SplitTransfer {
        SplitTransfer { accounts, amount, phase: Phase::Authorizing }
    }

    /// The request that the donation is waiting on.
    pub open spec fn spec_pending(self) -> Action {
        match self.phase {
            Phase::Authorizing => Action::CheckAuthority { payer: self.accounts.donor },
            Phase::Funding => Action::ReadBalance { payer: self.accounts.donor },
            Phase::PayingRecipient => Action::Move {
                payer: self.accounts.donor,
                disbursement: self.accounts.spec_recipient_disbursement(self.amount),
            },
            Phase::PayingPlatform => Action::Move {
                payer: self.accounts.donor,
                disbursement: self.accounts.spec_platform_disbursement(self.amount),
            },
            Phase::Settled => Action::Done(Ok(())),
            Phase::Failed(error) => Action::Done(Err(error)),
        }
    }

    /// The phase after `event`. An event that does not answer the pending
    /// request changes nothing, and nothing changes once the donation has
    /// ended.
    pub open spec fn spec_next_phase(self, event: Event) -> Phase {
        match (self.phase, event) {
            (Phase::Authorizing, Event::Authority(granted)) => if granted {
                Phase::Funding
            } else {
                Phase::Failed(TransferError::Unauthorized)
            },
            (Phase::Funding, Event::Balance(spendable)) => if spendable >= spec_total_debit(
                self.amount as nat,
            ) {
                Phase::PayingRecipient
            } else {
                Phase::Failed(TransferError::InsufficientFunds)
            },
            (Phase::PayingRecipient, Event::Moved(accepted)) => if accepted {
                Phase::PayingPlatform
            } else {
                Phase::Failed(TransferError::TransferRejected)
            },
            (Phase::PayingPlatform, Event::Moved(accepted)) => if accepted {
                Phase::Settled
            } else {
                Phase::Failed(TransferError::TransferRejected)
            },
            _ => self.phase,
        }
    }

    /// The donation after `event`: the same accounts and amount, in the next
    /// phase.
    pub open spec fn spec_step(self, event: Event) -> SplitTransfer {
        SplitTransfer {
            accounts: self.accounts,
            amount: self.amount,
            phase: self.spec_next_phase(event),
        }
    }

    /// Whether the donation has ended, well or badly.
    pub open spec fn spec_finished(self) -> bool {
        self.phase is Settled || self.phase is Failed
    }

    /// Starts a donation of `amount` and says what to ask of the host first.
    pub fn begin(accounts: Donate, amount: u64) -> (start: (SplitTransfer, Action))
        ensures
            start.0 == SplitTransfer::spec_begin(accounts, amount),
            start.1 == start.0.spec_pending(),
    {
        let machine = SplitTransfer { accounts, amount, phase: Phase::Authorizing };
        let action = machine.pending();
        (machine, action)
    }

    /// The request that the donation is waiting on.
    pub fn pending(&self) -> (action: Action)
        ensures
            action == self.spec_pending(),
    {
        match self.phase {
            Phase::Authorizing => Action::CheckAuthority { payer: self.accounts.donor },
            Phase::Funding => Action::ReadBalance { payer: self.accounts.donor },
            Phase::PayingRecipient => Action::Move {
                payer: self.accounts.donor,
                disbursement: self.accounts.recipient_disbursement(self.amount),
            },
            Phase::PayingPlatform => Action::Move {
                payer: self.accounts.donor,
                disbursement: self.accounts.platform_disbursement(self.amount),
            },
            Phase::Settled => Action::Done(Ok(())),
            Phase::Failed(error) => Action::Done(Err(error)),
        }
    }

    /// The pending request as an instruction for the system program. Only a
    /// request to move funds has one.
    pub fn instruction(&self) -> (ix: Option<Instruction>)
        ensures
            match self.spec_pending() {
                Action::Move { payer, disbursement } => ix matches Some(built)
                    && is_system_transfer(
                    built,
                    payer,
                    disbursement.destination,
                    disbursement.amount,
                ),
                _ => ix is None,
            },
    {
        match self.pending() {
            Action::Move { payer, disbursement } => Some(
                system_transfer(&payer, &disbursement.destination, disbursement.amount),
            ),
            _ => None,
        }
    }

    /// Takes the host's answer and says what to ask next.
    pub fn step(self, event: Event) -> (next: (SplitTransfer, Action))
        ensures
            next.0 == self.spec_step(event),
            next.1 == next.0.spec_pending(),
    {
        let phase = match (self.phase, event) {
            (Phase::Authorizing, Event::Authority(granted)) => if granted {
                Phase::Funding
            } else {
                Phase::Failed(TransferError::Unauthorized)
            },
            (Phase::Funding, Event::Balance(spendable)) => if spendable as u128 >= total_debit(
                self.amount,
            ) {
                Phase::PayingRecipient
            } else {
                Phase::Failed(TransferError::InsufficientFunds)
            },
            (Phase::PayingRecipient, Event::Moved(accepted)) => if accepted {
                Phase::PayingPlatform
            } else {
                Phase::Failed(TransferError::TransferRejected)
            },
            (Phase::PayingPlatform, Event::Moved(accepted)) => if accepted {
                Phase::Settled
            } else {
                Phase::Failed(TransferError::TransferRejected)
            },
            (phase, _) => phase,
        };
        let machine = SplitTransfer { accounts: self.accounts, amount: self.amount, phase };
        let action = machine.pending();
        (machine, action)
    }

    /// Whether the donation has ended, well or badly.
    pub fn finished(&self) -> (finished: bool)
        ensures
            finished == self.spec_finished(),
    {
        match self.phase {
            Phase::Settled => true,
            Phase::Failed(_) => true,
            _ => false,
        }
    }
}

/// The donation that `start` has become once the host has answered with
/// `events`, in order.
pub open spec fn run(start: SplitTransfer, events: Seq<Event>) -> SplitTransfer
    decreases events.len(),
{
    if events.len() == 0 {
        start
    } else {
        run(start, events.drop_last()).spec_step(events.last())
    }
}

/// The payments that took effect while `start` heard `events`: each request
/// to move funds that the host answered with `Moved(true)`, in order.
pub open spec fn carried_out(start: SplitTransfer, events: Seq<Event>) -> Seq<Disbursement>
    decreases events.len(),
{
    if events.len() == 0 {
        Seq::empty()
    } else {
        let earlier = carried_out(start, events.drop_last());
        match (run(start, events.drop_last()).spec_pending(), events.last()) {
            (Action::Move { payer, disbursement }, Event::Moved(true)) => earlier.push(
                disbursement,
            ),
            _ => earlier,
        }
    }
}

/// Hearing one more event is taking one more step: the run goes on from
/// where the earlier events left it, and the payments made grow by the
/// pending one exactly when the event says that it took effect.
pub proof fn lemma_run_one_more(start: SplitTransfer, events: Seq<Event>, event: Event)
    ensures
        run(start, events.push(event)) == run(start, events).spec_step(event),
        carried_out(start, events.push(event)) == match (run(start, events).spec_pending(), event) {
            (Action::Move { payer, disbursement }, Event::Moved(true)) => carried_out(
                start,
                events,
            ).push(disbursement),
            _ => carried_out(start, events),
        },
{
    assert(events.push(event).drop_last() =~= events);
}

/// What the phase of a donation says about the payments made so far.
pub open spec fn phase_accounts_for(
    accounts: Donate,
    amount: u64,
    phase: Phase,
    paid: Seq<Disbursement>,
) -> bool {
    let first = accounts.spec_recipient_disbursement(amount);
    let second = accounts.spec_platform_disbursement(amount);
    match phase {
        Phase::Authorizing | Phase::Funding | Phase::PayingRecipient => paid == Seq::<
            Disbursement,
        >::empty(),
        Phase::PayingPlatform => paid == seq![first],
        Phase::Settled => paid == seq![first, second],
        Phase::Failed(TransferError::TransferRejected) => paid == Seq::<Disbursement>::empty()
            || paid == seq![first],
        Phase::Failed(_) => paid == Seq::<Disbursement>::empty(),
    }
}

/// Whatever the host answers, a donation keeps its accounts and its amount,
/// and its phase accounts for the payments made: none before the recipient is
/// paid, the recipient's share alone before the platform is paid, both shares
/// in that order once it is settled, and at most the recipient's share when a
/// transfer was rejected.
pub proof fn lemma_run_accounts_for_payments(accounts: Donate, amount: u64, events: Seq<Event>)
    ensures
        run(SplitTransfer::spec_begin(accounts, amount), events).accounts == accounts,
        run(SplitTransfer::spec_begin(accounts, amount), events).amount == amount,
        phase_accounts_for(
            accounts,
            amount,
            run(SplitTransfer::spec_begin(accounts, amount), events).phase,
            carried_out(SplitTransfer::spec_begin(accounts, amount), events),
        ),
    decreases events.len(),
{
    if events.len() > 0 {
        lemma_run_accounts_for_payments(accounts, amount, events.drop_last());
        let first = accounts.spec_recipient_disbursement(amount);
        let second = accounts.spec_platform_disbursement(amount);
        assert(Seq::<Disbursement>::empty().push(first) =~= seq![first]);
        assert(seq![first].push(second) =~= seq![first, second]);
    }
}

/// A settled donation has made exactly two payments, first the whole amount
/// to the recipient, then the fee to the platform, and together they are the
/// amount plus one hundredth of it, rounded down.
pub proof fn lemma_settled_pays_both_shares(accounts: Donate, amount: u64, events: Seq<Event>)
    requires
        run(SplitTransfer::spec_begin(accounts, amount), events).phase is Settled,
    ensures
        carried_out(SplitTransfer::spec_begin(accounts, amount), events) == seq![
            (Disbursement { destination: accounts.creator_wallet, amount }),
            (Disbursement { destination: accounts.platform_wallet, amount: (amount / 100) as u64 }),
        ],
        amount + (amount / 100) as u64 == spec_total_debit(amount as nat),
{
    lemma_run_accounts_for_payments(accounts, amount, events);
}

/// A donation refused for want of authority or of funds has moved nothing.
pub proof fn lemma_refused_pays_nothing(accounts: Donate, amount: u64, events: Seq<Event>)
    requires
        ({
            let phase = run(SplitTransfer::spec_begin(accounts, amount), events).phase;
            phase == Phase::Failed(TransferError::Unauthorized) || phase == Phase::Failed(
                TransferError::InsufficientFunds,
            )
        }),
    ensures
        carried_out(SplitTransfer::spec_begin(accounts, amount), events).len() == 0,
{
    lemma_run_accounts_for_payments(accounts, amount, events);
}

} // verus!
