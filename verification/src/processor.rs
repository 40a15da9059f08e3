//! The entry of the program: reads an instruction and runs it on the
//! accounts that came with it.
//!
//! The processor reads the records and balance holders out of the data of
//! the accounts, runs the transition, and writes the records back. It
//! reads an account only when a check needs it, so that a short list of
//! accounts fails on the first account that is missing, and it writes
//! only after the transition has succeeded.

use crate::accounts::{token_account_data, AccountInfo, Party, TokenAccount};
use crate::address::{
    custodian_address, custodian_seed_list, custodian_seeds, schedule_address,
    schedule_seed_list, seeds_view, signer_seeds, with_bump, Address,
};
use crate::auto::{
    check_records, deposit_with, derived_at, derived_is, gave, gave_at, init_bursary_with,
    init_payment, new_payroll_with, pay_with, records_refusal, Deposit, InitBursary, InitPay,
    Pay,
};
use crate::error::ClockPayError;
use crate::instruction::ClockPayInstruction;
use crate::ledger::{
    approve_instruction, is_approve_instruction, is_transfer_instruction, token_program,
    token_program_id, transfer_instruction, Creation, FundingCall, Payment, Request,
    ThreadCreate,
};
use crate::state::{lemma_padded_trimmed, trim_schedule, trimmed, Bursary, PayInstance};
use vstd::pervasive::unreached;
use vstd::prelude::*;

verus! {

/// Runs instructions on accounts.
pub struct Processor;

/// The account as a party to the transaction.
pub open spec fn party_of(account: AccountInfo) -> Party {
    Party { address: account.key, is_signer: account.is_signer }
}

/// The balance holder that the account's data holds.
pub open spec fn token_of(account: AccountInfo) -> TokenAccount {
    TokenAccount::spec_unpack(account.key, account.data@)
}

/// Whether something lies at the account's address already: it is funded
/// or has data.
pub open spec fn holds_record(account: AccountInfo) -> bool {
    account.lamports > 0 || account.data@.len() > 0
}

/// Whether `after` is `before` with the given owner and data.
pub open spec fn stored(before: AccountInfo, after: AccountInfo, owner: Address, data: Seq<u8>) -> bool {
    &&& after.key == before.key
    &&& after.owner == owner
    &&& after.is_signer == before.is_signer
    &&& after.lamports == before.lamports
    &&& after.data@ == data
}

/// Whether the accounts are the same but for the two at `first` and
/// `second`.
pub open spec fn kept(before: Seq<AccountInfo>, after: Seq<AccountInfo>, first: int, second: int) -> bool {
    &&& after.len() == before.len()
    &&& forall|i: int| 0 <= i < before.len() && i != first && i != second ==> after[i] == before[i]
}

fn party(account: &AccountInfo) -> (p: Party)
    ensures
        p == party_of(*account),
{
    Party { address: account.key, is_signer: account.is_signer }
}

fn token(account: &AccountInfo) -> (read: Result<TokenAccount, ClockPayError>)
    ensures
        match read {
            Ok(holder) => token_account_data(account.data@) && holder == token_of(*account)
                && holder.address == account.key,
            Err(e) => e == ClockPayError::InvalidAccountData && !token_account_data(account.data@),
        },
{
    TokenAccount::unpack(account.key, account.data.as_slice())
}

fn custodian_record(account: &AccountInfo, program_id: &Address) -> (read: Result<Bursary, ClockPayError>)
    ensures
        match read {
            Ok(record) => account.owner == *program_id && Bursary::decodable(account.data@)
                && record == Bursary::spec_unpack(account.data@),
            Err(e) => if account.owner != *program_id {
                e == ClockPayError::AddressMismatch
            } else {
                e == ClockPayError::InvalidAccountData && !Bursary::decodable(account.data@)
            },
        },
{
    if !account.owner.equals(program_id) {
        return Err(ClockPayError::AddressMismatch);
    }
    Bursary::unpack(account.data.as_slice())
}

fn schedule_record(account: &AccountInfo, program_id: &Address) -> (read: Result<PayInstance, ClockPayError>)
    ensures
        match read {
            Ok(record) => account.owner == *program_id && PayInstance::decodable(account.data@)
                && record == PayInstance::spec_unpack(account.data@),
            Err(e) => if account.owner != *program_id {
                e == ClockPayError::AddressMismatch
            } else {
                e == ClockPayError::InvalidAccountData && !PayInstance::decodable(account.data@)
            },
        },
{
    if !account.owner.equals(program_id) {
        return Err(ClockPayError::AddressMismatch);
    }
    PayInstance::unpack(account.data.as_slice())
}

fn store(accounts: &mut Vec<AccountInfo>, at: usize, owner: Address, data: Vec<u8>)
    requires
        at < old(accounts)@.len(),
    ensures
        kept(old(accounts)@, final(accounts)@, at as int, at as int),
        stored(old(accounts)@[at as int], final(accounts)@[at as int], owner, data@),
{
    let entry = AccountInfo {
        key: accounts[at].key,
        owner,
        is_signer: accounts[at].is_signer,
        lamports: accounts[at].lamports,
        data,
    };
    accounts[at] = entry;
}

impl Processor {
    // --------------------------------------------------------------
    // Creating a custodian record
    // --------------------------------------------------------------

    /// What the creation of a custodian record reads of its accounts: the
    /// funder, the pool, the authority of the pool and the address of the
    /// record. The fifth account is the ledger's program.
    pub open spec fn init_accounting_context(accounts: Seq<AccountInfo>, program_id: Address) -> InitBursary {
        InitBursary {
            program_id,
            initializer: party_of(accounts[0]),
            vault: token_of(accounts[1]),
            vault_authority: party_of(accounts[2]),
            bursary_address: accounts[3].key,
            bursary: None,
        }
    }

    /// Why the creation of a custodian record is refused on the accounts,
    /// if it is. Each account is read when its turn comes, and
    /// `NotEnoughAccountKeys` is the answer where it is missing. In this
    /// order: the funder did not sign; the pool is no balance holder; the
    /// authority of the pool did not sign or does not control the pool;
    /// the record's address is not the derived one; the fifth account is
    /// not the ledger's program; something lies at the record's address.
    pub open spec fn init_accounting_refusal(accounts: Seq<AccountInfo>, program_id: Address) -> Option<ClockPayError> {
        let ctx = Self::init_accounting_context(accounts, program_id);
        if accounts.len() < 1 {
            Some(ClockPayError::NotEnoughAccountKeys)
        } else if !accounts[0].is_signer {
            Some(ClockPayError::AuthorityMismatch)
        } else if accounts.len() < 2 {
            Some(ClockPayError::NotEnoughAccountKeys)
        } else if !token_account_data(accounts[1].data@) {
            Some(ClockPayError::InvalidAccountData)
        } else if accounts.len() < 3 {
            Some(ClockPayError::NotEnoughAccountKeys)
        } else if !(accounts[2].is_signer && ctx.vault.owner == accounts[2].key) {
            Some(ClockPayError::AuthorityMismatch)
        } else if accounts.len() < 4 {
            Some(ClockPayError::NotEnoughAccountKeys)
        } else if !derived_is(ctx.custodian_key(), accounts[3].key) {
            Some(ClockPayError::AddressMismatch)
        } else if accounts.len() < 5 {
            Some(ClockPayError::NotEnoughAccountKeys)
        } else if accounts[4].key@ != token_program() {
            Some(ClockPayError::AddressMismatch)
        } else if holds_record(accounts[3]) {
            Some(ClockPayError::DuplicateRecord)
        } else {
            None
        }
    }

    /// Whether `after` and `answer` are what the creation of a custodian
    /// record yields on the accounts: the refusal, or else the seeds with
    /// which the record signs, the instruction that delegates nothing
    /// yet, and the new record with a balance of zero, written into the
    /// fourth account, which the program now owns.
    pub open spec fn init_accounting_yields(
        before: Seq<AccountInfo>,
        program_id: Address,
        after: Seq<AccountInfo>,
        answer: Result<Creation, ClockPayError>,
    ) -> bool {
        let ctx = Self::init_accounting_context(before, program_id);
        match Self::init_accounting_refusal(before, program_id) {
            Some(e) => answer == Err::<Creation, ClockPayError>(e) && after == before,
            None => {
                &&& answer matches Ok(creation)
                &&& seeds_view(creation.signer_seeds@) == with_bump(
                    custodian_seeds(ctx.initializer.address@, ctx.vault.address@),
                    ctx.custodian_key()->Some_0.1,
                )
                &&& creation.instruction matches Some(instruction)
                &&& is_approve_instruction(instruction, before[4].key, ctx.approval(0))
                &&& kept(before, after, 3, 3)
                &&& stored(
                    before[3],
                    after[3],
                    program_id,
                    ctx.created(0, ctx.custodian_key()->Some_0.1).spec_pack(),
                )
            },
        }
    }

    /// Creates the custodian record of the funder and the pool, with
    /// nothing delegated yet; deposits raise what is delegated.
    pub fn process_init_accounting(accounts: &mut Vec<AccountInfo>, program_id: &Address) -> (answer: Result<Creation, ClockPayError>)
        ensures
            Self::init_accounting_yields(old(accounts)@, *program_id, final(accounts)@, answer),
    {
        if accounts.len() < 1 {
            return Err(ClockPayError::NotEnoughAccountKeys);
        }
        if !accounts[0].is_signer {
            return Err(ClockPayError::AuthorityMismatch);
        }
        if accounts.len() < 2 {
            return Err(ClockPayError::NotEnoughAccountKeys);
        }
        let vault = match token(&accounts[1]) {
            Ok(holder) => holder,
            Err(e) => {
                return Err(e);
            },
        };
        if accounts.len() < 3 {
            return Err(ClockPayError::NotEnoughAccountKeys);
        }
        if !(accounts[2].is_signer && vault.owner.equals(&accounts[2].key)) {
            return Err(ClockPayError::AuthorityMismatch);
        }
        if accounts.len() < 4 {
            return Err(ClockPayError::NotEnoughAccountKeys);
        }
        let custodian = custodian_address(program_id, &accounts[0].key, &accounts[1].key);
        if !gave(&custodian, &accounts[3].key) {
            return Err(ClockPayError::AddressMismatch);
        }
        if accounts.len() < 5 {
            return Err(ClockPayError::NotEnoughAccountKeys);
        }
        if !accounts[4].key.equals(&token_program_id()) {
            return Err(ClockPayError::AddressMismatch);
        }
        if accounts[3].lamports > 0 || accounts[3].data.len() > 0 {
            return Err(ClockPayError::DuplicateRecord);
        }
        let mut ctx = InitBursary {
            program_id: *program_id,
            initializer: party(&accounts[0]),
            vault,
            vault_authority: party(&accounts[2]),
            bursary_address: accounts[3].key,
            bursary: None,
        };
        let approve = match init_bursary_with(&mut ctx, 0, custodian) {
            Ok(approve) => approve,
            Err(_) => unreached(),
        };
        let instruction = match approve_instruction(&accounts[4].key, &approve) {
            Some(instruction) => instruction,
            None => unreached(),
        };
        match ctx.bursary {
            Some(record) => {
                let seeds = custodian_seed_list(&record.authority, &record.vault);
                let creation = Creation {
                    signer_seeds: signer_seeds(seeds, record.bump),
                    instruction: Some(instruction),
                };
                store(accounts, 3, *program_id, record.pack());
                Ok(creation)
            },
            None => unreached(),
        }
    }

    // --------------------------------------------------------------
    // Depositing
    // --------------------------------------------------------------

    /// What a deposit reads of its accounts: the funder, the custodian
    /// record, the source, the pool and the authority of the pool. The
    /// sixth account is the ledger's program.
    pub open spec fn deposit_context(accounts: Seq<AccountInfo>, program_id: Address) -> Deposit {
        Deposit {
            program_id,
            authority: party_of(accounts[0]),
            bursary_address: accounts[1].key,
            bursary: Bursary::spec_unpack(accounts[1].data@),
            source: token_of(accounts[2]),
            vault: token_of(accounts[3]),
            vault_authority: party_of(accounts[4]),
        }
    }

    /// Why a deposit is refused on the accounts, if it is. Each account is
    /// read when its turn comes, and `NotEnoughAccountKeys` is the answer
    /// where it is missing. In this order: the funder did not sign; the
    /// program does not own the record's account; the record does not
    /// read; the caller is not the record's funder; the record is not at
    /// its derived address; the source is no balance holder; the pool is
    /// not the record's pool; the pool is no balance holder; the source
    /// holds another asset than the pool; the authority of the pool did
    /// not sign or does not control the pool; the sixth account is not
    /// the ledger's program; the balance would wrap.
    pub open spec fn deposit_refusal(accounts: Seq<AccountInfo>, program_id: Address, amount: u64) -> Option<ClockPayError> {
        let ctx = Self::deposit_context(accounts, program_id);
        if accounts.len() < 1 {
            Some(ClockPayError::NotEnoughAccountKeys)
        } else if !accounts[0].is_signer {
            Some(ClockPayError::AuthorityMismatch)
        } else if accounts.len() < 2 {
            Some(ClockPayError::NotEnoughAccountKeys)
        } else if accounts[1].owner != program_id {
            Some(ClockPayError::AddressMismatch)
        } else if !Bursary::decodable(accounts[1].data@) {
            Some(ClockPayError::InvalidAccountData)
        } else if accounts[0].key != ctx.bursary.authority {
            Some(ClockPayError::AuthorityMismatch)
        } else if !derived_at(ctx.custodian_key(), accounts[1].key, ctx.bursary.bump) {
            Some(ClockPayError::AddressMismatch)
        } else if accounts.len() < 3 {
            Some(ClockPayError::NotEnoughAccountKeys)
        } else if !token_account_data(accounts[2].data@) {
            Some(ClockPayError::InvalidAccountData)
        } else if accounts.len() < 4 {
            Some(ClockPayError::NotEnoughAccountKeys)
        } else if accounts[3].key != ctx.bursary.vault {
            Some(ClockPayError::AddressMismatch)
        } else if !token_account_data(accounts[3].data@) {
            Some(ClockPayError::InvalidAccountData)
        } else if ctx.source.mint != ctx.vault.mint {
            Some(ClockPayError::AssetMismatch)
        } else if accounts.len() < 5 {
            Some(ClockPayError::NotEnoughAccountKeys)
        } else if !(accounts[4].is_signer && ctx.vault.owner == accounts[4].key) {
            Some(ClockPayError::AuthorityMismatch)
        } else if accounts.len() < 6 {
            Some(ClockPayError::NotEnoughAccountKeys)
        } else if accounts[5].key@ != token_program() {
            Some(ClockPayError::AddressMismatch)
        } else if ctx.bursary.balance + amount > u64::MAX {
            Some(ClockPayError::ArithmeticOverflow)
        } else {
            None
        }
    }

    /// Whether `after` and `answer` are what a deposit yields on the
    /// accounts: the refusal, or else the instruction that moves the
    /// amount into the pool, the instruction that delegates the raised
    /// balance, and the record with the raised balance, written into the
    /// second account.
    pub open spec fn deposit_yields(
        before: Seq<AccountInfo>,
        program_id: Address,
        amount: u64,
        after: Seq<AccountInfo>,
        answer: Result<FundingCall, ClockPayError>,
    ) -> bool {
        let ctx = Self::deposit_context(before, program_id);
        match Self::deposit_refusal(before, program_id, amount) {
            Some(e) => answer == Err::<FundingCall, ClockPayError>(e) && after == before,
            None => {
                &&& answer matches Ok(call)
                &&& is_transfer_instruction(call.transfer, before[5].key, ctx.transfer(amount))
                &&& is_approve_instruction(call.approve, before[5].key, ctx.approval(amount))
                &&& kept(before, after, 1, 1)
                &&& stored(
                    before[1],
                    after[1],
                    program_id,
                    ctx.deposited(amount).bursary.spec_pack(),
                )
            },
        }
    }

    /// Raises the balance of the custodian record by a deposit of the
    /// funder, and with it what the ledger has delegated to the record.
    pub fn process_deposit(accounts: &mut Vec<AccountInfo>, program_id: &Address, amount: u64) -> (answer: Result<FundingCall, ClockPayError>)
        ensures
            Self::deposit_yields(old(accounts)@, *program_id, amount, final(accounts)@, answer),
    {
        if accounts.len() < 1 {
            return Err(ClockPayError::NotEnoughAccountKeys);
        }
        if !accounts[0].is_signer {
            return Err(ClockPayError::AuthorityMismatch);
        }
        if accounts.len() < 2 {
            return Err(ClockPayError::NotEnoughAccountKeys);
        }
        let bursary = match custodian_record(&accounts[1], program_id) {
            Ok(record) => record,
            Err(e) => {
                return Err(e);
            },
        };
        if !accounts[0].key.equals(&bursary.authority) {
            return Err(ClockPayError::AuthorityMismatch);
        }
        let custodian = custodian_address(program_id, &bursary.authority, &bursary.vault);
        if !gave_at(&custodian, &accounts[1].key, bursary.bump) {
            return Err(ClockPayError::AddressMismatch);
        }
        if accounts.len() < 3 {
            return Err(ClockPayError::NotEnoughAccountKeys);
        }
        let source = match token(&accounts[2]) {
            Ok(holder) => holder,
            Err(e) => {
                return Err(e);
            },
        };
        if accounts.len() < 4 {
            return Err(ClockPayError::NotEnoughAccountKeys);
        }
        if !accounts[3].key.equals(&bursary.vault) {
            return Err(ClockPayError::AddressMismatch);
        }
        let vault = match token(&accounts[3]) {
            Ok(holder) => holder,
            Err(e) => {
                return Err(e);
            },
        };
        if !source.mint.equals(&vault.mint) {
            return Err(ClockPayError::AssetMismatch);
        }
        if accounts.len() < 5 {
            return Err(ClockPayError::NotEnoughAccountKeys);
        }
        if !(accounts[4].is_signer && vault.owner.equals(&accounts[4].key)) {
            return Err(ClockPayError::AuthorityMismatch);
        }
        if accounts.len() < 6 {
            return Err(ClockPayError::NotEnoughAccountKeys);
        }
        if !accounts[5].key.equals(&token_program_id()) {
            return Err(ClockPayError::AddressMismatch);
        }
        let mut ctx = Deposit {
            program_id: *program_id,
            authority: party(&accounts[0]),
            bursary_address: accounts[1].key,
            bursary,
            source,
            vault,
            vault_authority: party(&accounts[4]),
        };
        let funding = match deposit_with(&mut ctx, amount, custodian) {
            Ok(funding) => funding,
            Err(e) => {
                return Err(e);
            },
        };
        let transfer = match transfer_instruction(&accounts[5].key, &funding.transfer) {
            Some(instruction) => instruction,
            None => unreached(),
        };
        let approve = match approve_instruction(&accounts[5].key, &funding.approve) {
            Some(instruction) => instruction,
            None => unreached(),
        };
        store(accounts, 1, *program_id, ctx.bursary.pack());
        Ok(FundingCall { transfer, approve })
    }

    // --------------------------------------------------------------
    // Creating a schedule
    // --------------------------------------------------------------

    /// What the creation of a schedule reads of its accounts: the funder,
    /// the custodian record, the pool, the address of the schedule record
    /// and the recipient.
    pub open spec fn new_payroll_context(accounts: Seq<AccountInfo>, program_id: Address, unix_timestamp: i64) -> InitPay {
        InitPay {
            program_id,
            authority: party_of(accounts[0]),
            bursary_address: accounts[1].key,
            bursary: Bursary::spec_unpack(accounts[1].data@),
            vault: token_of(accounts[2]),
            pay_instance_address: accounts[3].key,
            pay_instance: None,
            receiver_wallet: token_of(accounts[4]),
            thread: Address::spec_zero(),
            token_program: Address::spec_zero(),
            unix_timestamp,
        }
    }

    /// The schedule record that the creation writes.
    pub open spec fn new_record(ctx: InitPay, amount: u64, cycles: u64, schedule: [u8; 30], bump: u8) -> PayInstance {
        PayInstance {
            bursary: ctx.bursary_address,
            payment_active: false,
            amount,
            total_amount_disbursed: 0,
            cron_schedule: schedule,
            cycles,
            cycles_completed: 0,
            receiver_wallet: ctx.receiver_wallet.address,
            thread: Address::spec_zero(),
            start_time: ctx.unix_timestamp,
            bump,
        }
    }

    /// Why the creation of a schedule is refused on the accounts, if it
    /// is. Each account is read when its turn comes, and
    /// `NotEnoughAccountKeys` is the answer where it is missing; the
    /// schedule record's account and the recipient are read together. In
    /// this order: the funder did not sign; the program does not own the
    /// custodian record's account; the record does not read; the caller is
    /// not the record's funder; the record is not at its derived address;
    /// the pool is not the record's pool; the pool is no balance holder;
    /// the recipient is no balance holder; the recipient holds another
    /// asset than the pool; the trimmed descriptor is empty; the schedule
    /// record's address is not the derived one; something lies at that
    /// address.
    pub open spec fn new_payroll_refusal(
        accounts: Seq<AccountInfo>,
        program_id: Address,
        schedule: [u8; 30],
        unix_timestamp: i64,
    ) -> Option<ClockPayError> {
        let ctx = Self::new_payroll_context(accounts, program_id, unix_timestamp);
        if accounts.len() < 1 {
            Some(ClockPayError::NotEnoughAccountKeys)
        } else if !accounts[0].is_signer {
            Some(ClockPayError::AuthorityMismatch)
        } else if accounts.len() < 2 {
            Some(ClockPayError::NotEnoughAccountKeys)
        } else if accounts[1].owner != program_id {
            Some(ClockPayError::AddressMismatch)
        } else if !Bursary::decodable(accounts[1].data@) {
            Some(ClockPayError::InvalidAccountData)
        } else if accounts[0].key != ctx.bursary.authority {
            Some(ClockPayError::AuthorityMismatch)
        } else if !derived_at(ctx.custodian_key(), accounts[1].key, ctx.bursary.bump) {
            Some(ClockPayError::AddressMismatch)
        } else if accounts.len() < 3 {
            Some(ClockPayError::NotEnoughAccountKeys)
        } else if accounts[2].key != ctx.bursary.vault {
            Some(ClockPayError::AddressMismatch)
        } else if !token_account_data(accounts[2].data@) {
            Some(ClockPayError::InvalidAccountData)
        } else if accounts.len() < 5 {
            Some(ClockPayError::NotEnoughAccountKeys)
        } else if !token_account_data(accounts[4].data@) {
            Some(ClockPayError::InvalidAccountData)
        } else if ctx.creation_refusal(trimmed(schedule@), ctx.custodian_key(), ctx.schedule_key())
            is Some {
            ctx.creation_refusal(trimmed(schedule@), ctx.custodian_key(), ctx.schedule_key())
        } else if holds_record(accounts[3]) {
            Some(ClockPayError::DuplicateRecord)
        } else {
            None
        }
    }

    /// Whether `after` and `answer` are what the creation of a schedule
    /// yields on the accounts: the refusal, or else the seeds with which
    /// the record signs, and the new record, written into the fourth
    /// account, which the program now owns.
    pub open spec fn new_payroll_yields(
        before: Seq<AccountInfo>,
        program_id: Address,
        amount: u64,
        cycles: u64,
        schedule: [u8; 30],
        unix_timestamp: i64,
        after: Seq<AccountInfo>,
        answer: Result<Creation, ClockPayError>,
    ) -> bool {
        let ctx = Self::new_payroll_context(before, program_id, unix_timestamp);
        match Self::new_payroll_refusal(before, program_id, schedule, unix_timestamp) {
            Some(e) => answer == Err::<Creation, ClockPayError>(e) && after == before,
            None => {
                &&& answer matches Ok(creation)
                &&& seeds_view(creation.signer_seeds@) == ctx.signer_seeds(
                    ctx.schedule_key()->Some_0.1,
                )
                &&& creation.instruction is None
                &&& kept(before, after, 3, 3)
                &&& stored(
                    before[3],
                    after[3],
                    program_id,
                    Self::new_record(
                        ctx,
                        amount,
                        cycles,
                        schedule,
                        ctx.schedule_key()->Some_0.1,
                    ).spec_pack(),
                )
            },
        }
    }

    /// Creates the schedule record of the custodian record and the
    /// recipient, without a trigger.
    pub fn process_new_payroll(
        accounts: &mut Vec<AccountInfo>,
        program_id: &Address,
        amount: u64,
        cycles: u64,
        schedule: [u8; 30],
        unix_timestamp: i64,
    ) -> (answer: Result<Creation, ClockPayError>)
        ensures
            Self::new_payroll_yields(
                old(accounts)@,
                *program_id,
                amount,
                cycles,
                schedule,
                unix_timestamp,
                final(accounts)@,
                answer,
            ),
    {
        if accounts.len() < 1 {
            return Err(ClockPayError::NotEnoughAccountKeys);
        }
        if !accounts[0].is_signer {
            return Err(ClockPayError::AuthorityMismatch);
        }
        if accounts.len() < 2 {
            return Err(ClockPayError::NotEnoughAccountKeys);
        }
        let bursary = match custodian_record(&accounts[1], program_id) {
            Ok(record) => record,
            Err(e) => {
                return Err(e);
            },
        };
        if !accounts[0].key.equals(&bursary.authority) {
            return Err(ClockPayError::AuthorityMismatch);
        }
        let custodian = custodian_address(program_id, &bursary.authority, &bursary.vault);
        if !gave_at(&custodian, &accounts[1].key, bursary.bump) {
            return Err(ClockPayError::AddressMismatch);
        }
        if accounts.len() < 3 {
            return Err(ClockPayError::NotEnoughAccountKeys);
        }
        if !accounts[2].key.equals(&bursary.vault) {
            return Err(ClockPayError::AddressMismatch);
        }
        let vault = match token(&accounts[2]) {
            Ok(holder) => holder,
            Err(e) => {
                return Err(e);
            },
        };
        if accounts.len() < 5 {
            return Err(ClockPayError::NotEnoughAccountKeys);
        }
        let receiver_wallet = match token(&accounts[4]) {
            Ok(holder) => holder,
            Err(e) => {
                return Err(e);
            },
        };
        let mut ctx = InitPay {
            program_id: *program_id,
            authority: party(&accounts[0]),
            bursary_address: accounts[1].key,
            bursary,
            vault,
            pay_instance_address: accounts[3].key,
            pay_instance: None,
            receiver_wallet,
            thread: Address::zero(),
            token_program: Address::zero(),
            unix_timestamp,
        };
        let record_key = schedule_address(program_id, &accounts[1].key, &accounts[4].key);
        let text = trim_schedule(&schedule);
        match new_payroll_with(&mut ctx, amount, text.as_slice(), cycles, custodian, record_key) {
            Ok(()) => {},
            Err(e) => {
                return Err(e);
            },
        }
        if accounts[3].lamports > 0 || accounts[3].data.len() > 0 {
            return Err(ClockPayError::DuplicateRecord);
        }
        match ctx.pay_instance {
            Some(record) => {
                proof {
                    lemma_padded_trimmed(schedule@);
                    assert(record.cron_schedule =~= schedule);
                    assert(record.thread.bytes =~= Address::spec_zero().bytes);
                }
                let seeds = schedule_seed_list(&record.bursary, &record.receiver_wallet);
                let creation = Creation {
                    signer_seeds: signer_seeds(seeds, record.bump),
                    instruction: None,
                };
                store(accounts, 3, *program_id, record.pack());
                Ok(creation)
            },
            None => unreached(),
        }
    }

    // --------------------------------------------------------------
    // Registering a trigger
    // --------------------------------------------------------------

    /// What the registration of a trigger reads of its accounts: the
    /// funder, the custodian record, the pool, the schedule record, the
    /// recipient, the trigger and the ledger's program. Fails with
    /// `NotEnoughAccountKeys` on fewer than seven accounts, with
    /// `AddressMismatch` where the program does not own the account of
    /// either record, and with `InvalidAccountData` where a record, the
    /// pool or the recipient does not read.
    pub open spec fn init_payment_context(accounts: Seq<AccountInfo>, program_id: Address) -> Result<InitPay, ClockPayError> {
        if accounts.len() < 7 {
            Err(ClockPayError::NotEnoughAccountKeys)
        } else if accounts[1].owner != program_id {
            Err(ClockPayError::AddressMismatch)
        } else if !Bursary::decodable(accounts[1].data@) {
            Err(ClockPayError::InvalidAccountData)
        } else if accounts[3].owner != program_id {
            Err(ClockPayError::AddressMismatch)
        } else if !PayInstance::decodable(accounts[3].data@) || !token_account_data(
            accounts[2].data@,
        ) || !token_account_data(accounts[4].data@) {
            Err(ClockPayError::InvalidAccountData)
        } else {
            Ok(
                InitPay {
                    program_id,
                    authority: party_of(accounts[0]),
                    bursary_address: accounts[1].key,
                    bursary: Bursary::spec_unpack(accounts[1].data@),
                    vault: token_of(accounts[2]),
                    pay_instance_address: accounts[3].key,
                    pay_instance: Some(PayInstance::spec_unpack(accounts[3].data@)),
                    receiver_wallet: token_of(accounts[4]),
                    thread: accounts[5].key,
                    token_program: accounts[6].key,
                    unix_timestamp: PayInstance::spec_unpack(accounts[3].data@).start_time,
                },
            )
        }
    }

    /// Whether `after` and `answer` are what the registration of a trigger
    /// yields on the accounts: on success the request to the trigger
    /// service, and both records written back, the custodian record into
    /// the second account and the schedule record into the fourth.
    pub open spec fn init_payment_yields(
        before: Seq<AccountInfo>,
        program_id: Address,
        after: Seq<AccountInfo>,
        answer: Result<ThreadCreate, ClockPayError>,
    ) -> bool {
        match Self::init_payment_context(before, program_id) {
            Err(e) => answer == Err::<ThreadCreate, ClockPayError>(e) && after == before,
            Ok(ctx) => match ctx.registration_refusal(
                ctx.custodian_key(),
                ctx.schedule_key(),
                ctx.trigger_text(),
                ctx.thread_key(),
            ) {
                Some(e) => answer == Err::<ThreadCreate, ClockPayError>(e) && after == before,
                None => {
                    &&& answer matches Ok(request)
                    &&& ctx.requests(request, ctx.trigger_text()->Some_0)
                    &&& kept(before, after, 1, 3)
                    &&& stored(
                        before[1],
                        after[1],
                        program_id,
                        ctx.registered().bursary.spec_pack(),
                    )
                    &&& stored(
                        before[3],
                        after[3],
                        program_id,
                        ctx.registered().pay_instance->Some_0.spec_pack(),
                    )
                },
            },
        }
    }

    /// Registers the trigger of the schedule and counts the schedule as
    /// active.
    pub fn process_init_payment(accounts: &mut Vec<AccountInfo>, program_id: &Address) -> (answer: Result<ThreadCreate, ClockPayError>)
        ensures
            Self::init_payment_yields(old(accounts)@, *program_id, final(accounts)@, answer),
    {
        if accounts.len() < 7 {
            return Err(ClockPayError::NotEnoughAccountKeys);
        }
        let bursary = match custodian_record(&accounts[1], program_id) {
            Ok(record) => record,
            Err(e) => {
                return Err(e);
            },
        };
        let record = match schedule_record(&accounts[3], program_id) {
            Ok(record) => record,
            Err(e) => {
                return Err(e);
            },
        };
        let vault = match token(&accounts[2]) {
            Ok(holder) => holder,
            Err(e) => {
                return Err(e);
            },
        };
        let receiver_wallet = match token(&accounts[4]) {
            Ok(holder) => holder,
            Err(e) => {
                return Err(e);
            },
        };
        let mut ctx = InitPay {
            program_id: *program_id,
            authority: party(&accounts[0]),
            bursary_address: accounts[1].key,
            bursary,
            vault,
            pay_instance_address: accounts[3].key,
            pay_instance: Some(record),
            receiver_wallet,
            thread: accounts[5].key,
            token_program: accounts[6].key,
            unix_timestamp: record.start_time,
        };
        let request = match init_payment(&mut ctx) {
            Ok(request) => request,
            Err(e) => {
                return Err(e);
            },
        };
        store(accounts, 1, *program_id, ctx.bursary.pack());
        match ctx.pay_instance {
            Some(record) => {
                store(accounts, 3, *program_id, record.pack());
                Ok(request)
            },
            None => unreached(),
        }
    }

    // --------------------------------------------------------------
    // Executing one cycle
    // --------------------------------------------------------------

    /// What the execution of a cycle reads of its accounts: the schedule
    /// record, the custodian record, the pool, the recipient and the
    /// trigger. The sixth account is the ledger's program.
    pub open spec fn pay_context(accounts: Seq<AccountInfo>, program_id: Address) -> Pay {
        Pay {
            program_id,
            pay_instance_address: accounts[0].key,
            pay_instance: PayInstance::spec_unpack(accounts[0].data@),
            bursary_address: accounts[1].key,
            bursary: Bursary::spec_unpack(accounts[1].data@),
            vault: token_of(accounts[2]),
            receiver_wallet: token_of(accounts[3]),
            thread: party_of(accounts[4]),
        }
    }

    /// Why the two records of a cycle are refused, if they are, with the
    /// third account's address as the pool: the schedule record is not at
    /// its derived address; the custodian record is not the one the
    /// schedule names, not at its derived address, or the pool is not its
    /// pool; all cycles have run.
    pub open spec fn pay_records_refusal(accounts: Seq<AccountInfo>, program_id: Address) -> Option<ClockPayError> {
        let ctx = Self::pay_context(accounts, program_id);
        records_refusal(
            accounts[0].key,
            ctx.pay_instance,
            accounts[1].key,
            ctx.bursary,
            accounts[2].key,
            ctx.schedule_key(),
            ctx.custodian_key(),
        )
    }

    /// Why the execution of a cycle is refused on the accounts, if it is.
    /// In this order: fewer than six accounts; a record does not read; the
    /// records are refused, which includes that all cycles have run; the
    /// program does not own the account of a record; the pool or the
    /// recipient is no balance holder; the recipient is not the one the
    /// schedule names or holds another asset; the caller is not the
    /// schedule's trigger or did not sign; the sum disbursed would wrap;
    /// the balance is less than the amount; the sixth account is not the
    /// ledger's program.
    pub open spec fn pay_refusal(accounts: Seq<AccountInfo>, program_id: Address) -> Option<ClockPayError> {
        let ctx = Self::pay_context(accounts, program_id);
        if accounts.len() < 6 {
            Some(ClockPayError::NotEnoughAccountKeys)
        } else if !PayInstance::decodable(accounts[0].data@) || !Bursary::decodable(
            accounts[1].data@,
        ) {
            Some(ClockPayError::InvalidAccountData)
        } else if Self::pay_records_refusal(accounts, program_id) is Some {
            Self::pay_records_refusal(accounts, program_id)
        } else if accounts[0].owner != program_id || accounts[1].owner != program_id {
            Some(ClockPayError::AddressMismatch)
        } else if !token_account_data(accounts[2].data@) || !token_account_data(
            accounts[3].data@,
        ) {
            Some(ClockPayError::InvalidAccountData)
        } else if ctx.refusal(ctx.schedule_key(), ctx.custodian_key()) is Some {
            ctx.refusal(ctx.schedule_key(), ctx.custodian_key())
        } else if accounts[5].key@ != token_program() {
            Some(ClockPayError::AddressMismatch)
        } else {
            None
        }
    }

    /// Whether `after` and `answer` are what the execution of a cycle
    /// yields on the accounts: the refusal, or else the instruction that
    /// moves the amount, the seeds with which the custodian record signs
    /// it, the answer that leaves the trigger as it is, and both records
    /// written back, the schedule record into the first account and the
    /// custodian record into the second.
    pub open spec fn pay_yields(
        before: Seq<AccountInfo>,
        program_id: Address,
        after: Seq<AccountInfo>,
        answer: Result<Payment, ClockPayError>,
    ) -> bool {
        let ctx = Self::pay_context(before, program_id);
        match Self::pay_refusal(before, program_id) {
            Some(e) => answer == Err::<Payment, ClockPayError>(e) && after == before,
            None => {
                &&& answer matches Ok(done)
                &&& is_transfer_instruction(done.instruction, before[5].key, ctx.transfer())
                &&& seeds_view(done.signer_seeds@) == ctx.signer_seeds()
                &&& done.response.is_unchanged()
                &&& kept(before, after, 0, 1)
                &&& stored(before[0], after[0], program_id, ctx.paid().pay_instance.spec_pack())
                &&& stored(before[1], after[1], program_id, ctx.paid().bursary.spec_pack())
            },
        }
    }

    /// Executes one cycle of the schedule.
    pub fn process_pay(accounts: &mut Vec<AccountInfo>, program_id: &Address) -> (answer: Result<Payment, ClockPayError>)
        ensures
            Self::pay_yields(old(accounts)@, *program_id, final(accounts)@, answer),
    {
        if accounts.len() < 6 {
            return Err(ClockPayError::NotEnoughAccountKeys);
        }
        let pay_instance = match PayInstance::unpack(accounts[0].data.as_slice()) {
            Ok(record) => record,
            Err(e) => {
                return Err(e);
            },
        };
        let bursary = match Bursary::unpack(accounts[1].data.as_slice()) {
            Ok(record) => record,
            Err(e) => {
                return Err(e);
            },
        };
        let schedule = schedule_address(
            program_id,
            &pay_instance.bursary,
            &pay_instance.receiver_wallet,
        );
        let custodian = custodian_address(program_id, &bursary.authority, &bursary.vault);
        match check_records(
            &accounts[0].key,
            &pay_instance,
            &accounts[1].key,
            &bursary,
            &accounts[2].key,
            &schedule,
            &custodian,
        ) {
            Ok(()) => {},
            Err(e) => {
                return Err(e);
            },
        }
        if !(accounts[0].owner.equals(program_id) && accounts[1].owner.equals(program_id)) {
            return Err(ClockPayError::AddressMismatch);
        }
        let vault = match token(&accounts[2]) {
            Ok(holder) => holder,
            Err(e) => {
                return Err(e);
            },
        };
        let receiver_wallet = match token(&accounts[3]) {
            Ok(holder) => holder,
            Err(e) => {
                return Err(e);
            },
        };
        let mut ctx = Pay {
            program_id: *program_id,
            pay_instance_address: accounts[0].key,
            pay_instance,
            bursary_address: accounts[1].key,
            bursary,
            vault,
            receiver_wallet,
            thread: party(&accounts[4]),
        };
        let done = match pay_with(&mut ctx, schedule, custodian) {
            Ok(done) => done,
            Err(e) => {
                return Err(e);
            },
        };
        let instruction = match transfer_instruction(&accounts[5].key, &done.transfer) {
            Some(instruction) => instruction,
            None => {
                return Err(ClockPayError::AddressMismatch);
            },
        };
        store(accounts, 0, *program_id, ctx.pay_instance.pack());
        store(accounts, 1, *program_id, ctx.bursary.pack());
        Ok(Payment { instruction, signer_seeds: done.signer_seeds, response: done.response })
    }

    // --------------------------------------------------------------
    // Dispatch
    // --------------------------------------------------------------

    /// Whether `after` and `answer` are what the instruction in `input`
    /// yields on the accounts: the refusal of the input where it is no
    /// instruction, else what its instruction yields.
    pub open spec fn yields(
        before: Seq<AccountInfo>,
        program_id: Address,
        input: Seq<u8>,
        unix_timestamp: i64,
        after: Seq<AccountInfo>,
        answer: Result<Request, ClockPayError>,
    ) -> bool {
        match ClockPayInstruction::refusal(input) {
            Some(e) => answer == Err::<Request, ClockPayError>(e) && after == before,
            None => match ClockPayInstruction::spec_unpack(input) {
                ClockPayInstruction::InitAccounting => match answer {
                    Ok(Request::Create(creation)) => Self::init_accounting_yields(
                        before,
                        program_id,
                        after,
                        Ok(creation),
                    ),
                    Err(e) => Self::init_accounting_yields(before, program_id, after, Err(e)),
                    _ => false,
                },
                ClockPayInstruction::Deposit(args) => match answer {
                    Ok(Request::Fund(call)) => Self::deposit_yields(
                        before,
                        program_id,
                        args.amount,
                        after,
                        Ok(call),
                    ),
                    Err(e) => Self::deposit_yields(before, program_id, args.amount, after, Err(e)),
                    _ => false,
                },
                ClockPayInstruction::NewPayroll(args) => match answer {
                    Ok(Request::Create(creation)) => Self::new_payroll_yields(
                        before,
                        program_id,
                        args.amount,
                        args.cycles,
                        args.schedule,
                        unix_timestamp,
                        after,
                        Ok(creation),
                    ),
                    Err(e) => Self::new_payroll_yields(
                        before,
                        program_id,
                        args.amount,
                        args.cycles,
                        args.schedule,
                        unix_timestamp,
                        after,
                        Err(e),
                    ),
                    _ => false,
                },
                ClockPayInstruction::InitPayment => match answer {
                    Ok(Request::ThreadCreate(request)) => Self::init_payment_yields(
                        before,
                        program_id,
                        after,
                        Ok(request),
                    ),
                    Err(e) => Self::init_payment_yields(before, program_id, after, Err(e)),
                    _ => false,
                },
                ClockPayInstruction::Pay => match answer {
                    Ok(Request::Payment(done)) => Self::pay_yields(
                        before,
                        program_id,
                        after,
                        Ok(done),
                    ),
                    Err(e) => Self::pay_yields(before, program_id, after, Err(e)),
                    _ => false,
                },
            },
        }
    }

    /// Reads the instruction and runs it on the accounts. The time is that
    /// of the transaction, in seconds since the epoch.
    pub fn process(
        program_id: &Address,
        accounts: &mut Vec<AccountInfo>,
        instruction_data: &[u8],
        unix_timestamp: i64,
    ) -> (answer: Result<Request, ClockPayError>)
        ensures
            Self::yields(
                old(accounts)@,
                *program_id,
                instruction_data@,
                unix_timestamp,
                final(accounts)@,
                answer,
            ),
    {
        let instruction = match ClockPayInstruction::unpack(instruction_data) {
            Ok(instruction) => instruction,
            Err(e) => {
                return Err(e);
            },
        };
        match instruction {
            ClockPayInstruction::InitAccounting => {
                match Self::process_init_accounting(accounts, program_id) {
                    Ok(creation) => Ok(Request::Create(creation)),
                    Err(e) => Err(e),
                }
            },
            ClockPayInstruction::Deposit(args) => {
                match Self::process_deposit(accounts, program_id, args.amount) {
                    Ok(call) => Ok(Request::Fund(call)),
                    Err(e) => Err(e),
                }
            },
            ClockPayInstruction::NewPayroll(args) => {
                match Self::process_new_payroll(
                    accounts,
                    program_id,
                    args.amount,
                    args.cycles,
                    args.schedule,
                    unix_timestamp,
                ) {
                    Ok(creation) => Ok(Request::Create(creation)),
                    Err(e) => Err(e),
                }
            },
            ClockPayInstruction::InitPayment => {
                match Self::process_init_payment(accounts, program_id) {
                    Ok(request) => Ok(Request::ThreadCreate(request)),
                    Err(e) => Err(e),
                }
            },
            ClockPayInstruction::Pay => {
                match Self::process_pay(accounts, program_id) {
                    Ok(done) => Ok(Request::Payment(done)),
                    Err(e) => Err(e),
                }
            },
        }
    }
}

} // verus!
