//! The transitions: creating a custodian record, depositing, creating a
//! schedule and registering its trigger, and executing one cycle.
//!
//! Each transition comes in two forms. The plain one derives the
//! addresses it needs and decides on them. The one whose name ends in
//! `_with` takes the derived addresses as arguments, so that its contract
//! speaks of its arguments alone. A transition checks its preconditions
//! in a fixed order and fails on the first that does not hold; a failed
//! transition leaves its context as it was.

use crate::accounts::{Party, TokenAccount};
use crate::address::{
    custodian_address, custodian_seed_list, custodian_seeds, derived_view, program_address,
    schedule_address, schedule_seed_list, schedule_seeds, seeds_view, signer_seeds, text_view,
    thread_address, thread_program, thread_seeds, trigger_id, trigger_id_of, with_bump, Address,
};
use crate::error::ClockPayError;
use crate::ledger::{
    is_pay_instruction, is_thread_create, pay_instruction, Approve, Disbursement, Funding,
    ThreadCreate, ThreadResponse, Transfer,
};
use crate::state::{pad_schedule, padded, Bursary, PayInstance};
use vstd::pervasive::unreached;
use vstd::prelude::*;
use vstd::string::*;
use vstd::utf8::encode_utf8;

verus! {

/// Whether a derivation gave the address.
pub open spec fn derived_is(found: Option<(Seq<u8>, u8)>, address: Address) -> bool {
    found matches Some((bytes, _)) && bytes == address@
}

/// Whether a derivation gave the address and the bump.
pub open spec fn derived_at(found: Option<(Seq<u8>, u8)>, address: Address, bump: u8) -> bool {
    found == Some((address@, bump))
}

pub(crate) fn gave(found: &Option<(Address, u8)>, address: &Address) -> (yes: bool)
    ensures
        yes == derived_is(derived_view(*found), *address),
{
    match found {
        Some((a, _)) => a.equals(address),
        None => false,
    }
}

pub(crate) fn gave_at(found: &Option<(Address, u8)>, address: &Address, bump: u8) -> (yes: bool)
    ensures
        yes == derived_at(derived_view(*found), *address, bump),
{
    match found {
        Some((a, b)) => a.equals(address) && *b == bump,
        None => false,
    }
}

/// Whether the party signed and is the funder of the custodian record.
pub open spec fn is_funder(party: Party, bursary: Bursary) -> bool {
    party.is_signer && party.address == bursary.authority
}

/// Whether the custodian record lies at the address that its funder and
/// pool derive, and the supplied pool is its pool.
pub open spec fn is_custodian(
    found: Option<(Seq<u8>, u8)>,
    bursary_address: Address,
    bursary: Bursary,
    vault: Address,
) -> bool {
    derived_at(found, bursary_address, bursary.bump) && vault == bursary.vault
}

// ------------------------------------------------------------------
// Creating a custodian record
// ------------------------------------------------------------------

/// The accounts of the creation of a custodian record.
#[derive(Clone, Copy, Debug, PartialEq, Eq)]
pub struct InitBursary {
    pub program_id: Address,
    /// The funder.
    pub initializer: Party,
    /// The pool.
    pub vault: TokenAccount,
    /// The party that controls the pool.
    pub vault_authority: Party,
    /// Where the record is to lie.
    pub bursary_address: Address,
    /// The record at that address, if there is one.
    pub bursary: Option<Bursary>,
}

impl InitBursary {
    /// The derivation of the record's address.
    pub open spec fn custodian_key(self) -> Option<(Seq<u8>, u8)> {
        program_address(
            custodian_seeds(self.initializer.address@, self.vault.address@),
            self.program_id@,
        )
    }

    /// Why the creation is refused, if it is. In this order: the funder
    /// did not sign; the authority of the pool did not sign or does not
    /// control the pool; the record's address is not the derived one; a
    /// record exists there.
    pub open spec fn refusal(self, custodian: Option<(Seq<u8>, u8)>) -> Option<ClockPayError> {
        if !self.initializer.is_signer {
            Some(ClockPayError::AuthorityMismatch)
        } else if !(self.vault_authority.is_signer && self.vault.owner
            == self.vault_authority.address) {
            Some(ClockPayError::AuthorityMismatch)
        } else if !derived_is(custodian, self.bursary_address) {
            Some(ClockPayError::AddressMismatch)
        } else if self.bursary is Some {
            Some(ClockPayError::DuplicateRecord)
        } else {
            None
        }
    }

    /// The record that the creation writes.
    pub open spec fn created(self, delegated_amount: u64, bump: u8) -> Bursary {
        Bursary {
            authority: self.initializer.address,
            active_payments: 0,
            vault: self.vault.address,
            balance: delegated_amount,
            suspended: false,
            bump,
        }
    }

    /// The delegation that the ledger is asked for.
    pub open spec fn approval(self, delegated_amount: u64) -> Approve {
        Approve {
            to: self.vault.address,
            delegate: self.bursary_address,
            authority: self.vault_authority.address,
            amount: delegated_amount,
        }
    }

    /// Whether `next` and `answer` are what the creation yields.
    pub open spec fn yields(
        self,
        delegated_amount: u64,
        custodian: Option<(Seq<u8>, u8)>,
        next: InitBursary,
        answer: Result<Approve, ClockPayError>,
    ) -> bool {
        match self.refusal(custodian) {
            Some(e) => answer == Err::<Approve, ClockPayError>(e) && next == self,
            None => {
                &&& answer == Ok::<Approve, ClockPayError>(self.approval(delegated_amount))
                &&& next == InitBursary {
                    bursary: Some(self.created(delegated_amount, custodian->Some_0.1)),
                    ..self
                }
            },
        }
    }
}

/// Creates the custodian record of a funder and a pool, given the
/// derivation of its address, and asks the ledger to delegate the amount
/// to it.
pub fn init_bursary_with(
    ctx: &mut InitBursary,
    delegated_amount: u64,
    custodian: Option<(Address, u8)>,
) -> (answer: Result<Approve, ClockPayError>)
    ensures
        old(ctx).yields(delegated_amount, derived_view(custodian), *final(ctx), answer),
{
    if !ctx.initializer.is_signer {
        return Err(ClockPayError::AuthorityMismatch);
    }
    if !(ctx.vault_authority.is_signer && ctx.vault.owner.equals(&ctx.vault_authority.address)) {
        return Err(ClockPayError::AuthorityMismatch);
    }
    if !gave(&custodian, &ctx.bursary_address) {
        return Err(ClockPayError::AddressMismatch);
    }
    if ctx.bursary.is_some() {
        return Err(ClockPayError::DuplicateRecord);
    }
    let bump = match custodian {
        Some((_, b)) => b,
        None => unreached(),
    };
    ctx.bursary = Some(
        Bursary {
            authority: ctx.initializer.address,
            active_payments: 0,
            vault: ctx.vault.address,
            balance: delegated_amount,
            suspended: false,
            bump,
        },
    );
    Ok(
        Approve {
            to: ctx.vault.address,
            delegate: ctx.bursary_address,
            authority: ctx.vault_authority.address,
            amount: delegated_amount,
        },
    )
}

/// Creates the custodian record of a funder and a pool and asks the
/// ledger to delegate the amount to it.
pub fn init_bursary(ctx: &mut InitBursary, delegated_amount: u64) -> (answer: Result<
    Approve,
    ClockPayError,
>)
    ensures
        old(ctx).yields(delegated_amount, old(ctx).custodian_key(), *final(ctx), answer),
{
    let custodian = custodian_address(&ctx.program_id, &ctx.initializer.address, &ctx.vault.address);
    init_bursary_with(ctx, delegated_amount, custodian)
}

// ------------------------------------------------------------------
// Depositing
// ------------------------------------------------------------------

/// The accounts of a deposit.
#[derive(Clone, Copy, Debug, PartialEq, Eq)]
pub struct Deposit {
    pub program_id: Address,
    /// The funder.
    pub authority: Party,
    pub bursary_address: Address,
    pub bursary: Bursary,
    /// The balance holder that is debited.
    pub source: TokenAccount,
    /// The pool.
    pub vault: TokenAccount,
    /// The party that controls the pool.
    pub vault_authority: Party,
}

impl Deposit {
    /// The derivation of the custodian record's address.
    pub open spec fn custodian_key(self) -> Option<(Seq<u8>, u8)> {
        program_address(
            custodian_seeds(self.bursary.authority@, self.bursary.vault@),
            self.program_id@,
        )
    }

    /// Why the deposit is refused, if it is. In this order: the caller did
    /// not sign or is not the funder; the custodian record or the pool is
    /// not the one derived and recorded; the source holds another asset
    /// than the pool; the authority of the pool did not sign or does not
    /// control the pool; the balance would wrap.
    pub open spec fn refusal(self, amount: u64, custodian: Option<(Seq<u8>, u8)>) -> Option<
        ClockPayError,
    > {
        if !is_funder(self.authority, self.bursary) {
            Some(ClockPayError::AuthorityMismatch)
        } else if !is_custodian(custodian, self.bursary_address, self.bursary, self.vault.address) {
            Some(ClockPayError::AddressMismatch)
        } else if self.source.mint != self.vault.mint {
            Some(ClockPayError::AssetMismatch)
        } else if !(self.vault_authority.is_signer && self.vault.owner
            == self.vault_authority.address) {
            Some(ClockPayError::AuthorityMismatch)
        } else if self.bursary.balance + amount > u64::MAX {
            Some(ClockPayError::ArithmeticOverflow)
        } else {
            None
        }
    }

    /// The move that the ledger is asked for: the amount, from the source
    /// into the pool, on the word of the funder.
    pub open spec fn transfer(self, amount: u64) -> Transfer {
        Transfer {
            from: self.source.address,
            to: self.vault.address,
            authority: self.authority.address,
            amount,
        }
    }

    /// The delegation that the ledger is asked for: the raised balance,
    /// so that what is delegated stays what the record counts.
    pub open spec fn approval(self, amount: u64) -> Approve {
        Approve {
            to: self.vault.address,
            delegate: self.bursary_address,
            authority: self.vault_authority.address,
            amount: (self.bursary.balance + amount) as u64,
        }
    }

    /// The context after the deposit: the balance raised by the amount.
    pub open spec fn deposited(self, amount: u64) -> Deposit {
        Deposit {
            bursary: Bursary { balance: (self.bursary.balance + amount) as u64, ..self.bursary },
            ..self
        }
    }

    /// Whether `next` and `answer` are what the deposit yields.
    pub open spec fn yields(
        self,
        amount: u64,
        custodian: Option<(Seq<u8>, u8)>,
        next: Deposit,
        answer: Result<Funding, ClockPayError>,
    ) -> bool {
        match self.refusal(amount, custodian) {
            Some(e) => answer == Err::<Funding, ClockPayError>(e) && next == self,
            None => {
                &&& answer == Ok::<Funding, ClockPayError>(
                    Funding { transfer: self.transfer(amount), approve: self.approval(amount) },
                )
                &&& next == self.deposited(amount)
            },
        }
    }
}

/// Raises the balance of a custodian record by a deposit of the funder,
/// given the derivation of the record's address. Asks the ledger to move
/// the amount into the pool and to delegate the raised balance to the
/// record.
pub fn deposit_with(ctx: &mut Deposit, amount: u64, custodian: Option<(Address, u8)>) -> (answer:
    Result<Funding, ClockPayError>)
    ensures
        old(ctx).yields(amount, derived_view(custodian), *final(ctx), answer),
{
    if !(ctx.authority.is_signer && ctx.authority.address.equals(&ctx.bursary.authority)) {
        return Err(ClockPayError::AuthorityMismatch);
    }
    if !(gave_at(&custodian, &ctx.bursary_address, ctx.bursary.bump) && ctx.vault.address.equals(
        &ctx.bursary.vault,
    )) {
        return Err(ClockPayError::AddressMismatch);
    }
    if !ctx.source.mint.equals(&ctx.vault.mint) {
        return Err(ClockPayError::AssetMismatch);
    }
    if !(ctx.vault_authority.is_signer && ctx.vault.owner.equals(&ctx.vault_authority.address)) {
        return Err(ClockPayError::AuthorityMismatch);
    }
    let balance = match ctx.bursary.balance.checked_add(amount) {
        Some(sum) => sum,
        None => {
            return Err(ClockPayError::ArithmeticOverflow);
        },
    };
    ctx.bursary.balance = balance;
    Ok(
        Funding {
            transfer: Transfer {
                from: ctx.source.address,
                to: ctx.vault.address,
                authority: ctx.authority.address,
                amount,
            },
            approve: Approve {
                to: ctx.vault.address,
                delegate: ctx.bursary_address,
                authority: ctx.vault_authority.address,
                amount: balance,
            },
        },
    )
}

/// Raises the balance of a custodian record by a deposit of the funder.
/// Asks the ledger to move the amount into the pool and to delegate the
/// raised balance to the record.
pub fn deposit(ctx: &mut Deposit, amount: u64) -> (answer: Result<Funding, ClockPayError>)
    ensures
        old(ctx).yields(amount, old(ctx).custodian_key(), *final(ctx), answer),
{
    let custodian = custodian_address(&ctx.program_id, &ctx.bursary.authority, &ctx.bursary.vault);
    deposit_with(ctx, amount, custodian)
}

// ------------------------------------------------------------------
// Creating a schedule and registering its trigger
// ------------------------------------------------------------------

/// The accounts of the creation of a schedule and of the registration of
/// its trigger.
#[derive(Clone, Copy, Debug, PartialEq, Eq)]
pub struct InitPay {
    pub program_id: Address,
    /// The funder.
    pub authority: Party,
    pub bursary_address: Address,
    pub bursary: Bursary,
    /// The pool.
    pub vault: TokenAccount,
    /// Where the schedule record lies or is to lie.
    pub pay_instance_address: Address,
    /// The record at that address, if there is one.
    pub pay_instance: Option<PayInstance>,
    /// The recipient.
    pub receiver_wallet: TokenAccount,
    /// The address of the trigger.
    pub thread: Address,
    /// The ledger's program, which the trigger hands to each cycle.
    pub token_program: Address,
    /// The time of the transaction, in seconds since the epoch.
    pub unix_timestamp: i64,
}

/// Whether a cadence descriptor can be stored: it is not empty and has at
/// most thirty bytes.
pub open spec fn schedule_text_ok(text: Seq<u8>) -> bool {
    1 <= text.len() <= 30
}

impl InitPay {
    /// The derivation of the custodian record's address.
    pub open spec fn custodian_key(self) -> Option<(Seq<u8>, u8)> {
        program_address(
            custodian_seeds(self.bursary.authority@, self.bursary.vault@),
            self.program_id@,
        )
    }

    /// The derivation of the schedule record's address.
    pub open spec fn schedule_key(self) -> Option<(Seq<u8>, u8)> {
        program_address(
            schedule_seeds(self.bursary_address@, self.receiver_wallet.address@),
            self.program_id@,
        )
    }

    /// The id of the trigger: the start of the recipient's text.
    pub open spec fn trigger_text(self) -> Option<Seq<char>> {
        trigger_id_of(crate::address::base58_text(self.receiver_wallet.address@))
    }

    /// The derivation of the trigger's address, which the schedule record
    /// holds under the trigger's id.
    pub open spec fn thread_key(self) -> Option<(Seq<u8>, u8)> {
        match self.trigger_text() {
            Some(id) => program_address(
                thread_seeds(self.pay_instance_address@, encode_utf8(id)),
                thread_program(),
            ),
            None => None,
        }
    }

    /// The seeds with which the schedule record signs.
    pub open spec fn signer_seeds(self, bump: u8) -> Seq<Seq<u8>> {
        with_bump(schedule_seeds(self.bursary_address@, self.receiver_wallet.address@), bump)
    }

    /// Why the creation of the schedule is refused, if it is. In this
    /// order: the caller did not sign or is not the funder; the custodian
    /// record or the pool is not the one derived and recorded; the
    /// recipient holds another asset than the pool; the cadence descriptor
    /// is empty or longer than thirty bytes; the record's address is not
    /// the derived one; a record exists there.
    pub open spec fn creation_refusal(
        self,
        text: Seq<u8>,
        custodian: Option<(Seq<u8>, u8)>,
        schedule: Option<(Seq<u8>, u8)>,
    ) -> Option<ClockPayError> {
        if !is_funder(self.authority, self.bursary) {
            Some(ClockPayError::AuthorityMismatch)
        } else if !is_custodian(custodian, self.bursary_address, self.bursary, self.vault.address) {
            Some(ClockPayError::AddressMismatch)
        } else if self.receiver_wallet.mint != self.vault.mint {
            Some(ClockPayError::AssetMismatch)
        } else if !schedule_text_ok(text) {
            Some(ClockPayError::InvalidString)
        } else if !derived_is(schedule, self.pay_instance_address) {
            Some(ClockPayError::AddressMismatch)
        } else if self.pay_instance is Some {
            Some(ClockPayError::DuplicateRecord)
        } else {
            None
        }
    }

    /// Whether the record holds the terms of a new schedule: its links,
    /// the amount, the padded descriptor, the cycle limit, counters at
    /// zero, the time and the bump.
    pub open spec fn has_terms(
        self,
        record: PayInstance,
        amount: u64,
        text: Seq<u8>,
        cycles: u64,
        bump: u8,
    ) -> bool {
        &&& record.bursary == self.bursary_address
        &&& record.amount == amount
        &&& record.total_amount_disbursed == 0
        &&& record.cron_schedule@ == padded(text)
        &&& record.cycles == cycles
        &&& record.cycles_completed == 0
        &&& record.receiver_wallet == self.receiver_wallet.address
        &&& record.start_time == self.unix_timestamp
        &&& record.bump == bump
    }

    /// Whether `next` and `answer` are what the creation of the schedule
    /// yields: on success a record with the terms, not yet active and with
    /// no trigger, and nothing else changed.
    pub open spec fn creation_yields(
        self,
        amount: u64,
        text: Seq<u8>,
        cycles: u64,
        custodian: Option<(Seq<u8>, u8)>,
        schedule: Option<(Seq<u8>, u8)>,
        next: InitPay,
        answer: Result<(), ClockPayError>,
    ) -> bool {
        match self.creation_refusal(text, custodian, schedule) {
            Some(e) => answer == Err::<(), ClockPayError>(e) && next == self,
            None => {
                &&& answer is Ok
                &&& next == InitPay { pay_instance: next.pay_instance, ..self }
                &&& next.pay_instance matches Some(record)
                &&& self.has_terms(record, amount, text, cycles, schedule->Some_0.1)
                &&& !record.payment_active
                &&& record.thread.is_zero()
            },
        }
    }

    /// Why the registration of the trigger is refused, if it is. In this
    /// order: the caller did not sign or is not the funder; the custodian
    /// record or the pool is not the one derived and recorded; there is no
    /// schedule record; the schedule record is not at its derived address
    /// or names another custodian record or recipient; its trigger is
    /// registered already; the trigger's address is not the one derived
    /// from the schedule record and the trigger's id; the count of active
    /// schedules would wrap.
    pub open spec fn registration_refusal(
        self,
        custodian: Option<(Seq<u8>, u8)>,
        schedule: Option<(Seq<u8>, u8)>,
        id: Option<Seq<char>>,
        thread: Option<(Seq<u8>, u8)>,
    ) -> Option<ClockPayError> {
        if !is_funder(self.authority, self.bursary) {
            Some(ClockPayError::AuthorityMismatch)
        } else if !is_custodian(custodian, self.bursary_address, self.bursary, self.vault.address) {
            Some(ClockPayError::AddressMismatch)
        } else if self.pay_instance is None {
            Some(ClockPayError::InvalidAccountData)
        } else if !self.holds_schedule(schedule) {
            Some(ClockPayError::AddressMismatch)
        } else if self.pay_instance->Some_0.payment_active {
            Some(ClockPayError::DuplicateRecord)
        } else if id is None || !derived_is(thread, self.thread) {
            Some(ClockPayError::AddressMismatch)
        } else if self.bursary.active_payments + 1 > u64::MAX {
            Some(ClockPayError::CounterOverflow)
        } else {
            None
        }
    }

    /// Whether there is a schedule record, it lies at the address that the
    /// custodian record and the recipient derive, and names both.
    pub open spec fn holds_schedule(self, schedule: Option<(Seq<u8>, u8)>) -> bool {
        &&& self.pay_instance matches Some(record)
        &&& derived_at(schedule, self.pay_instance_address, record.bump)
        &&& record.bursary == self.bursary_address
        &&& record.receiver_wallet == self.receiver_wallet.address
    }

    /// The context after the registration: the schedule active and bound
    /// to the trigger, one more active schedule counted.
    pub open spec fn registered(self) -> InitPay {
        InitPay {
            pay_instance: Some(
                PayInstance {
                    payment_active: true,
                    thread: self.thread,
                    ..self.pay_instance->Some_0
                },
            ),
            bursary: Bursary {
                active_payments: (self.bursary.active_payments + 1) as u64,
                ..self.bursary
            },
            ..self
        }
    }

    /// Whether `request` is what the registration asks of the trigger
    /// service: the trigger at the supplied address under the id, run for
    /// the schedule record, which signs with its seeds, paid for by the
    /// funder, on the stored cadence without skipping, sending the
    /// instruction that runs one cycle.
    pub open spec fn requests(self, request: ThreadCreate, id: Seq<char>) -> bool {
        &&& self.pay_instance matches Some(record)
        &&& is_thread_create(
            request,
            self.pay_instance_address,
            self.authority.address,
            self.thread,
            id,
            record.spec_schedule(),
            self.signer_seeds(record.bump),
        )
        &&& is_pay_instruction(
            request.kickoff_instruction,
            self.program_id,
            self.pay_instance_address,
            self.bursary_address,
            self.vault.address,
            self.receiver_wallet.address,
            self.thread,
            self.token_program,
        )
    }

    /// Whether `next` and `answer` are what the registration yields.
    pub open spec fn registration_yields(
        self,
        custodian: Option<(Seq<u8>, u8)>,
        schedule: Option<(Seq<u8>, u8)>,
        id: Option<Seq<char>>,
        thread: Option<(Seq<u8>, u8)>,
        next: InitPay,
        answer: Result<ThreadCreate, ClockPayError>,
    ) -> bool {
        match self.registration_refusal(custodian, schedule, id, thread) {
            Some(e) => answer == Err::<ThreadCreate, ClockPayError>(e) && next == self,
            None => {
                &&& next == self.registered()
                &&& answer matches Ok(request)
                &&& self.requests(request, id->Some_0)
            },
        }
    }

    /// Why the creation of a schedule together with its trigger is
    /// refused, if it is: for the reasons of the creation, then because
    /// the trigger's address is not the derived one, then because the
    /// count of active schedules would wrap.
    pub open spec fn refusal(
        self,
        text: Seq<u8>,
        custodian: Option<(Seq<u8>, u8)>,
        schedule: Option<(Seq<u8>, u8)>,
        id: Option<Seq<char>>,
        thread: Option<(Seq<u8>, u8)>,
    ) -> Option<ClockPayError> {
        if self.creation_refusal(text, custodian, schedule) is Some {
            self.creation_refusal(text, custodian, schedule)
        } else if id is None || !derived_is(thread, self.thread) {
            Some(ClockPayError::AddressMismatch)
        } else if self.bursary.active_payments + 1 > u64::MAX {
            Some(ClockPayError::CounterOverflow)
        } else {
            None
        }
    }

    /// Whether `next` and `answer` are what the creation of a schedule
    /// together with its trigger yields: on success an active record with
    /// the terms, bound to the trigger, one more active schedule counted,
    /// and the request to the trigger service.
    pub open spec fn yields(
        self,
        amount: u64,
        text: Seq<u8>,
        cycles: u64,
        custodian: Option<(Seq<u8>, u8)>,
        schedule: Option<(Seq<u8>, u8)>,
        id: Option<Seq<char>>,
        thread: Option<(Seq<u8>, u8)>,
        next: InitPay,
        answer: Result<ThreadCreate, ClockPayError>,
    ) -> bool {
        match self.refusal(text, custodian, schedule, id, thread) {
            Some(e) => answer == Err::<ThreadCreate, ClockPayError>(e) && next == self,
            None => {
                &&& next == InitPay {
                    pay_instance: next.pay_instance,
                    bursary: Bursary {
                        active_payments: (self.bursary.active_payments + 1) as u64,
                        ..self.bursary
                    },
                    ..self
                }
                &&& next.pay_instance matches Some(record)
                &&& self.has_terms(record, amount, text, cycles, schedule->Some_0.1)
                &&& record.payment_active
                &&& record.thread == self.thread
                &&& answer matches Ok(request)
                &&& next.requests(request, id->Some_0)
            },
        }
    }
}

/// Creates the schedule record of a custodian record and a recipient,
/// given the derivations of the two records' addresses.
pub fn new_payroll_with(
    ctx: &mut InitPay,
    amount: u64,
    text: &[u8],
    cycles: u64,
    custodian: Option<(Address, u8)>,
    schedule: Option<(Address, u8)>,
) -> (answer: Result<(), ClockPayError>)
    ensures
        old(ctx).creation_yields(
            amount,
            text@,
            cycles,
            derived_view(custodian),
            derived_view(schedule),
            *final(ctx),
            answer,
        ),
{
    if !(ctx.authority.is_signer && ctx.authority.address.equals(&ctx.bursary.authority)) {
        return Err(ClockPayError::AuthorityMismatch);
    }
    if !(gave_at(&custodian, &ctx.bursary_address, ctx.bursary.bump) && ctx.vault.address.equals(
        &ctx.bursary.vault,
    )) {
        return Err(ClockPayError::AddressMismatch);
    }
    if !ctx.receiver_wallet.mint.equals(&ctx.vault.mint) {
        return Err(ClockPayError::AssetMismatch);
    }
    if text.len() == 0 || text.len() > PayInstance::MAX_CRON_LEN {
        return Err(ClockPayError::InvalidString);
    }
    if !gave(&schedule, &ctx.pay_instance_address) {
        return Err(ClockPayError::AddressMismatch);
    }
    if ctx.pay_instance.is_some() {
        return Err(ClockPayError::DuplicateRecord);
    }
    let bump = match schedule {
        Some((_, b)) => b,
        None => unreached(),
    };
    ctx.pay_instance = Some(
        PayInstance {
            bursary: ctx.bursary_address,
            payment_active: false,
            amount,
            total_amount_disbursed: 0,
            cron_schedule: pad_schedule(text),
            cycles,
            cycles_completed: 0,
            receiver_wallet: ctx.receiver_wallet.address,
            thread: Address::zero(),
            start_time: ctx.unix_timestamp,
            bump,
        },
    );
    Ok(())
}

/// Registers the trigger of a schedule and counts the schedule as active,
/// given the derivations of the records' and the trigger's addresses and
/// the trigger's id.
pub fn init_payment_with(
    ctx: &mut InitPay,
    custodian: Option<(Address, u8)>,
    schedule: Option<(Address, u8)>,
    id: Option<String>,
    thread: Option<(Address, u8)>,
) -> (answer: Result<ThreadCreate, ClockPayError>)
    ensures
        old(ctx).registration_yields(
            derived_view(custodian),
            derived_view(schedule),
            text_view(id),
            derived_view(thread),
            *final(ctx),
            answer,
        ),
{
    if !(ctx.authority.is_signer && ctx.authority.address.equals(&ctx.bursary.authority)) {
        return Err(ClockPayError::AuthorityMismatch);
    }
    if !(gave_at(&custodian, &ctx.bursary_address, ctx.bursary.bump) && ctx.vault.address.equals(
        &ctx.bursary.vault,
    )) {
        return Err(ClockPayError::AddressMismatch);
    }
    let record = match ctx.pay_instance {
        Some(record) => record,
        None => {
            return Err(ClockPayError::InvalidAccountData);
        },
    };
    if !(gave_at(&schedule, &ctx.pay_instance_address, record.bump) && record.bursary.equals(
        &ctx.bursary_address,
    ) && record.receiver_wallet.equals(&ctx.receiver_wallet.address)) {
        return Err(ClockPayError::AddressMismatch);
    }
    if record.payment_active {
        return Err(ClockPayError::DuplicateRecord);
    }
    let id = match id {
        Some(id) => id,
        None => {
            return Err(ClockPayError::AddressMismatch);
        },
    };
    if !gave(&thread, &ctx.thread) {
        return Err(ClockPayError::AddressMismatch);
    }
    let active_payments = match ctx.bursary.active_payments.checked_add(1) {
        Some(n) => n,
        None => {
            return Err(ClockPayError::CounterOverflow);
        },
    };
    let seeds = schedule_seed_list(&ctx.bursary_address, &ctx.receiver_wallet.address);
    let request = ThreadCreate {
        authority: ctx.pay_instance_address,
        payer: ctx.authority.address,
        thread: ctx.thread,
        id,
        kickoff_instruction: pay_instruction(
            ctx.program_id,
            ctx.pay_instance_address,
            ctx.bursary_address,
            ctx.vault.address,
            ctx.receiver_wallet.address,
            ctx.thread,
            ctx.token_program,
        ),
        schedule: record.schedule(),
        skippable: false,
        signer_seeds: signer_seeds(seeds, record.bump),
    };
    ctx.pay_instance = Some(PayInstance { payment_active: true, thread: ctx.thread, ..record });
    ctx.bursary.active_payments = active_payments;
    Ok(request)
}

/// Creates a schedule record and registers its trigger, given the
/// derivations of the records' and the trigger's addresses and the
/// trigger's id. Either both happen or nothing changes.
pub fn init_pay_with(
    ctx: &mut InitPay,
    amount: u64,
    text: &[u8],
    cycles: u64,
    custodian: Option<(Address, u8)>,
    schedule: Option<(Address, u8)>,
    id: Option<String>,
    thread: Option<(Address, u8)>,
) -> (answer: Result<ThreadCreate, ClockPayError>)
    ensures
        old(ctx).yields(
            amount,
            text@,
            cycles,
            derived_view(custodian),
            derived_view(schedule),
            text_view(id),
            derived_view(thread),
            *final(ctx),
            answer,
        ),
{
    let before = *ctx;
    match new_payroll_with(ctx, amount, text, cycles, custodian, schedule) {
        Ok(()) => {},
        Err(e) => {
            return Err(e);
        },
    }
    match init_payment_with(ctx, custodian, schedule, id, thread) {
        Ok(request) => Ok(request),
        Err(e) => {
            *ctx = before;
            Err(e)
        },
    }
}

fn derive_thread(ctx: &InitPay, id: &Option<String>) -> (thread: Option<(Address, u8)>)
    requires
        text_view(*id) == ctx.trigger_text(),
    ensures
        derived_view(thread) == ctx.thread_key(),
{
    match id {
        Some(id) => thread_address(&ctx.pay_instance_address, id.as_str()),
        None => None,
    }
}

/// Creates the schedule record of a custodian record and a recipient.
/// The descriptor is what its stored form holds after trimming.
pub fn new_payroll(ctx: &mut InitPay, amount: u64, text: &[u8], cycles: u64) -> (answer: Result<
    (),
    ClockPayError,
>)
    ensures
        old(ctx).creation_yields(
            amount,
            text@,
            cycles,
            old(ctx).custodian_key(),
            old(ctx).schedule_key(),
            *final(ctx),
            answer,
        ),
{
    let custodian = custodian_address(&ctx.program_id, &ctx.bursary.authority, &ctx.bursary.vault);
    let schedule = schedule_address(
        &ctx.program_id,
        &ctx.bursary_address,
        &ctx.receiver_wallet.address,
    );
    new_payroll_with(ctx, amount, text, cycles, custodian, schedule)
}

/// Registers the trigger of a schedule and counts the schedule as active.
pub fn init_payment(ctx: &mut InitPay) -> (answer: Result<ThreadCreate, ClockPayError>)
    ensures
        old(ctx).registration_yields(
            old(ctx).custodian_key(),
            old(ctx).schedule_key(),
            old(ctx).trigger_text(),
            old(ctx).thread_key(),
            *final(ctx),
            answer,
        ),
{
    let custodian = custodian_address(&ctx.program_id, &ctx.bursary.authority, &ctx.bursary.vault);
    let schedule = schedule_address(
        &ctx.program_id,
        &ctx.bursary_address,
        &ctx.receiver_wallet.address,
    );
    let id = trigger_id(&ctx.receiver_wallet.address);
    let thread = derive_thread(ctx, &id);
    init_payment_with(ctx, custodian, schedule, id, thread)
}

/// Creates a schedule record with the amount of one cycle, the cadence
/// and the cycle limit, and registers its trigger. Either both happen or
/// nothing changes.
pub fn init_pay(ctx: &mut InitPay, amount: u64, schedule: String, cycles: u64) -> (answer: Result<
    ThreadCreate,
    ClockPayError,
>)
    ensures
        old(ctx).yields(
            amount,
            encode_utf8(schedule@),
            cycles,
            old(ctx).custodian_key(),
            old(ctx).schedule_key(),
            old(ctx).trigger_text(),
            old(ctx).thread_key(),
            *final(ctx),
            answer,
        ),
{
    let text = schedule.as_str().as_bytes_vec();
    let custodian = custodian_address(&ctx.program_id, &ctx.bursary.authority, &ctx.bursary.vault);
    let record = schedule_address(
        &ctx.program_id,
        &ctx.bursary_address,
        &ctx.receiver_wallet.address,
    );
    let id = trigger_id(&ctx.receiver_wallet.address);
    let thread = derive_thread(ctx, &id);
    init_pay_with(ctx, amount, text.as_slice(), cycles, custodian, record, id, thread)
}

// ------------------------------------------------------------------
// Executing one cycle
// ------------------------------------------------------------------

/// Why a cycle is refused on the two records alone, if it is. In this
/// order: the schedule record is not at the address that its custodian
/// record and recipient derive; the custodian record is not the one the
/// schedule names, not at the address that its funder and pool derive, or
/// the pool is not its pool; all cycles have run.
pub open spec fn records_refusal(
    pay_instance_address: Address,
    pay_instance: PayInstance,
    bursary_address: Address,
    bursary: Bursary,
    vault: Address,
    schedule: Option<(Seq<u8>, u8)>,
    custodian: Option<(Seq<u8>, u8)>,
) -> Option<ClockPayError> {
    if !derived_at(schedule, pay_instance_address, pay_instance.bump) {
        Some(ClockPayError::AddressMismatch)
    } else if !(pay_instance.bursary == bursary_address && is_custodian(
        custodian,
        bursary_address,
        bursary,
        vault,
    )) {
        Some(ClockPayError::AddressMismatch)
    } else if pay_instance.cycles_completed >= pay_instance.cycles {
        Some(ClockPayError::CycleLimitExhausted)
    } else {
        None
    }
}

/// Checks the two records of a cycle before anything else is read: that
/// each lies at its derived address, that the pool is the custodian's, and
/// that cycles are left.
pub fn check_records(
    pay_instance_address: &Address,
    pay_instance: &PayInstance,
    bursary_address: &Address,
    bursary: &Bursary,
    vault: &Address,
    schedule: &Option<(Address, u8)>,
    custodian: &Option<(Address, u8)>,
) -> (checked: Result<(), ClockPayError>)
    ensures
        match checked {
            Ok(()) => records_refusal(
                *pay_instance_address,
                *pay_instance,
                *bursary_address,
                *bursary,
                *vault,
                derived_view(*schedule),
                derived_view(*custodian),
            ) is None,
            Err(e) => records_refusal(
                *pay_instance_address,
                *pay_instance,
                *bursary_address,
                *bursary,
                *vault,
                derived_view(*schedule),
                derived_view(*custodian),
            ) == Some(e),
        },
{
    if !gave_at(schedule, pay_instance_address, pay_instance.bump) {
        return Err(ClockPayError::AddressMismatch);
    }
    if !(pay_instance.bursary.equals(bursary_address) && gave_at(
        custodian,
        bursary_address,
        bursary.bump,
    ) && vault.equals(&bursary.vault)) {
        return Err(ClockPayError::AddressMismatch);
    }
    if pay_instance.cycles_completed >= pay_instance.cycles {
        return Err(ClockPayError::CycleLimitExhausted);
    }
    Ok(())
}

/// The accounts of the execution of one cycle.
#[derive(Clone, Copy, Debug, PartialEq, Eq)]
pub struct Pay {
    pub program_id: Address,
    pub pay_instance_address: Address,
    pub pay_instance: PayInstance,
    pub bursary_address: Address,
    pub bursary: Bursary,
    /// The pool.
    pub vault: TokenAccount,
    /// The recipient.
    pub receiver_wallet: TokenAccount,
    /// The trigger that calls.
    pub thread: Party,
}

impl Pay {
    /// The derivation of the schedule record's address.
    pub open spec fn schedule_key(self) -> Option<(Seq<u8>, u8)> {
        program_address(
            schedule_seeds(self.pay_instance.bursary@, self.pay_instance.receiver_wallet@),
            self.program_id@,
        )
    }

    /// The derivation of the custodian record's address.
    pub open spec fn custodian_key(self) -> Option<(Seq<u8>, u8)> {
        program_address(
            custodian_seeds(self.bursary.authority@, self.bursary.vault@),
            self.program_id@,
        )
    }

    /// Whether the caller is the trigger of the schedule and signed.
    pub open spec fn trigger_ok(self) -> bool {
        self.thread.is_signer && self.thread.address == self.pay_instance.thread
    }

    /// Whether the schedule record lies at the address that its custodian
    /// record and recipient derive.
    pub open spec fn schedule_ok(self, schedule: Option<(Seq<u8>, u8)>) -> bool {
        derived_at(schedule, self.pay_instance_address, self.pay_instance.bump)
    }

    /// Whether the custodian record is the one that the schedule names and
    /// lies at the address that its funder and pool derive, and the pool
    /// is its pool.
    pub open spec fn custodian_ok(self, custodian: Option<(Seq<u8>, u8)>) -> bool {
        self.pay_instance.bursary == self.bursary_address && is_custodian(
            custodian,
            self.bursary_address,
            self.bursary,
            self.vault.address,
        )
    }

    /// Why the execution is refused on the two records alone, if it is.
    pub open spec fn records_refusal(
        self,
        schedule: Option<(Seq<u8>, u8)>,
        custodian: Option<(Seq<u8>, u8)>,
    ) -> Option<ClockPayError> {
        records_refusal(
            self.pay_instance_address,
            self.pay_instance,
            self.bursary_address,
            self.bursary,
            self.vault.address,
            schedule,
            custodian,
        )
    }

    /// Why the execution is refused, if it is. In this order: the schedule
    /// record is not at its derived address; the custodian record is not
    /// the one the schedule names, not at its derived address, or the pool
    /// is not its pool; all cycles have run; the recipient is not the one
    /// the schedule names; the recipient holds another asset than the
    /// pool; the caller is not the schedule's trigger or did not sign; the
    /// sum disbursed would wrap; the balance is less than the amount.
    pub open spec fn refusal(
        self,
        schedule: Option<(Seq<u8>, u8)>,
        custodian: Option<(Seq<u8>, u8)>,
    ) -> Option<ClockPayError> {
        if self.records_refusal(schedule, custodian) is Some {
            self.records_refusal(schedule, custodian)
        } else if self.receiver_wallet.address != self.pay_instance.receiver_wallet {
            Some(ClockPayError::AddressMismatch)
        } else if self.receiver_wallet.mint != self.vault.mint {
            Some(ClockPayError::AssetMismatch)
        } else if !self.trigger_ok() {
            Some(ClockPayError::AuthorityMismatch)
        } else if self.pay_instance.total_amount_disbursed + self.pay_instance.amount > u64::MAX {
            Some(ClockPayError::ArithmeticOverflow)
        } else if self.bursary.balance < self.pay_instance.amount {
            Some(ClockPayError::ArithmeticUnderflow)
        } else {
            None
        }
    }

    /// The context after one executed cycle: one more cycle run, the
    /// amount added to the sum disbursed and taken from the balance.
    pub open spec fn paid(self) -> Pay {
        Pay {
            pay_instance: PayInstance {
                cycles_completed: (self.pay_instance.cycles_completed + 1) as u64,
                total_amount_disbursed: (self.pay_instance.total_amount_disbursed
                    + self.pay_instance.amount) as u64,
                ..self.pay_instance
            },
            bursary: Bursary {
                balance: (self.bursary.balance - self.pay_instance.amount) as u64,
                ..self.bursary
            },
            ..self
        }
    }

    /// The move that the ledger is asked for: from the pool to the
    /// recipient, on the word of the custodian record.
    pub open spec fn transfer(self) -> Transfer {
        Transfer {
            from: self.vault.address,
            to: self.receiver_wallet.address,
            authority: self.bursary_address,
            amount: self.pay_instance.amount,
        }
    }

    /// The seeds with which the custodian record signs as delegate.
    pub open spec fn signer_seeds(self) -> Seq<Seq<u8>> {
        with_bump(custodian_seeds(self.bursary.authority@, self.bursary.vault@), self.bursary.bump)
    }

    /// Whether `next` and `answer` are what the execution yields.
    pub open spec fn yields(
        self,
        schedule: Option<(Seq<u8>, u8)>,
        custodian: Option<(Seq<u8>, u8)>,
        next: Pay,
        answer: Result<Disbursement, ClockPayError>,
    ) -> bool {
        match self.refusal(schedule, custodian) {
            Some(e) => answer == Err::<Disbursement, ClockPayError>(e) && next == self,
            None => {
                &&& next == self.paid()
                &&& answer matches Ok(done)
                &&& done.transfer == self.transfer()
                &&& seeds_view(done.signer_seeds@) == self.signer_seeds()
                &&& done.response.is_unchanged()
            },
        }
    }
}

/// Executes one cycle of a schedule, given the derivations of the two
/// records' addresses, and asks the ledger to move the amount from the
/// pool to the recipient.
pub fn pay_with(
    ctx: &mut Pay,
    schedule: Option<(Address, u8)>,
    custodian: Option<(Address, u8)>,
) -> (answer: Result<Disbursement, ClockPayError>)
    ensures
        old(ctx).yields(derived_view(schedule), derived_view(custodian), *final(ctx), answer),
{
    match check_records(
        &ctx.pay_instance_address,
        &ctx.pay_instance,
        &ctx.bursary_address,
        &ctx.bursary,
        &ctx.vault.address,
        &schedule,
        &custodian,
    ) {
        Ok(()) => {},
        Err(e) => {
            return Err(e);
        },
    }
    if !ctx.receiver_wallet.address.equals(&ctx.pay_instance.receiver_wallet) {
        return Err(ClockPayError::AddressMismatch);
    }
    if !ctx.receiver_wallet.mint.equals(&ctx.vault.mint) {
        return Err(ClockPayError::AssetMismatch);
    }
    if !(ctx.thread.is_signer && ctx.thread.address.equals(&ctx.pay_instance.thread)) {
        return Err(ClockPayError::AuthorityMismatch);
    }
    let amount = ctx.pay_instance.amount;
    let cycles_completed = match ctx.pay_instance.cycles_completed.checked_add(1) {
        Some(n) => n,
        None => {
            return Err(ClockPayError::ArithmeticOverflow);
        },
    };
    let total = match ctx.pay_instance.total_amount_disbursed.checked_add(amount) {
        Some(n) => n,
        None => {
            return Err(ClockPayError::ArithmeticOverflow);
        },
    };
    let balance = match ctx.bursary.balance.checked_sub(amount) {
        Some(n) => n,
        None => {
            return Err(ClockPayError::ArithmeticUnderflow);
        },
    };
    let seeds = custodian_seed_list(&ctx.bursary.authority, &ctx.bursary.vault);
    let done = Disbursement {
        transfer: Transfer {
            from: ctx.vault.address,
            to: ctx.receiver_wallet.address,
            authority: ctx.bursary_address,
            amount,
        },
        signer_seeds: signer_seeds(seeds, ctx.bursary.bump),
        response: ThreadResponse::default(),
    };
    ctx.pay_instance.cycles_completed = cycles_completed;
    ctx.pay_instance.total_amount_disbursed = total;
    ctx.bursary.balance = balance;
    Ok(done)
}

/// Executes one cycle of a schedule and asks the ledger to move the
/// amount from the pool to the recipient.
pub fn pay(ctx: &mut Pay) -> (answer: Result<Disbursement, ClockPayError>)
    ensures
        old(ctx).yields(old(ctx).schedule_key(), old(ctx).custodian_key(), *final(ctx), answer),
{
    let schedule = schedule_address(
        &ctx.program_id,
        &ctx.pay_instance.bursary,
        &ctx.pay_instance.receiver_wallet,
    );
    let custodian = custodian_address(&ctx.program_id, &ctx.bursary.authority, &ctx.bursary.vault);
    pay_with(ctx, schedule, custodian)
}

} // verus!
