//! What holds of every transition, proved from the contracts.

use crate::accounts::AccountInfo;
use crate::address::{derived_view, program_address, seeds_view, trigger_id_of, Address};
use crate::auto::{derived_at, is_custodian, schedule_text_ok, InitPay, Pay};
use crate::error::ClockPayError;
use crate::instruction::ClockPayInstruction;
use crate::ledger::{pay_data, Disbursement, Payment, ThreadCreate};
use crate::processor::Processor;
use crate::state::{
    lemma_bursary_round_trip, lemma_pay_instance_round_trip, Bursary, PayInstance,
};
use vstd::bytes::spec_u64_to_le_bytes_to_open;
use vstd::prelude::*;

verus! {

/// Deriving twice from the same seeds under the same program gives the
/// same address and the same bump.
pub proof fn lemma_derivation_is_deterministic(
    seeds: Seq<Vec<u8>>,
    program_id: Address,
    first: Option<(Address, u8)>,
    second: Option<(Address, u8)>,
)
    requires
        derived_view(first) == program_address(seeds_view(seeds), program_id@),
        derived_view(second) == program_address(seeds_view(seeds), program_id@),
    ensures
        first == second,
{
    match (first, second) {
        (Some((a, _)), Some((b, _))) => {
            assert(a.bytes =~= b.bytes);
        },
        _ => {},
    }
}

/// The data that a trigger sends on each tick is read as the instruction
/// that runs one cycle.
pub proof fn lemma_trigger_sends_pay()
    ensures
        ClockPayInstruction::refusal(pay_data()) is None,
        ClockPayInstruction::parses(pay_data(), ClockPayInstruction::Pay),
        ClockPayInstruction::spec_unpack(pay_data()) == ClockPayInstruction::Pay,
{
    spec_u64_to_le_bytes_to_open(4);
    assert(4u64 & 0xff == 4) by (bit_vector);
    ClockPayInstruction::lemma_parses_one(pay_data(), ClockPayInstruction::Pay);
}

/// The id of a trigger depends on the first ten characters of the
/// recipient's text alone: two texts that start alike give the same id.
pub proof fn lemma_trigger_id_is_the_prefix(first: Seq<char>, second: Seq<char>)
    requires
        trigger_id_of(first) is Some,
        trigger_id_of(second) is Some,
        forall|i: int| 0 <= i < 10 ==> first[i] == second[i],
    ensures
        trigger_id_of(first) == trigger_id_of(second),
        trigger_id_of(first)->Some_0.len() == 10,
{
    assert(first.subrange(0, 10) =~= second.subrange(0, 10));
}

/// An executed cycle raises the count of cycles run by exactly one and
/// the sum disbursed by exactly the amount of one cycle, lowers the
/// balance of the custodian record by that amount, and changes nothing
/// else.
pub proof fn lemma_pay_advances_by_one(
    ctx: Pay,
    schedule: Option<(Seq<u8>, u8)>,
    custodian: Option<(Seq<u8>, u8)>,
    next: Pay,
    answer: Result<Disbursement, ClockPayError>,
)
    requires
        ctx.yields(schedule, custodian, next, answer),
        answer is Ok,
    ensures
        next.pay_instance.cycles_completed == ctx.pay_instance.cycles_completed + 1,
        next.pay_instance.total_amount_disbursed == ctx.pay_instance.total_amount_disbursed
            + ctx.pay_instance.amount,
        next.bursary.balance == ctx.bursary.balance - ctx.pay_instance.amount,
        next.pay_instance.amount == ctx.pay_instance.amount,
        next.pay_instance.cycles == ctx.pay_instance.cycles,
        next == ctx.paid(),
        answer->Ok_0.transfer.amount == ctx.pay_instance.amount,
{
}

/// The counters of a schedule stay in agreement: where the sum disbursed
/// is the cycles run times the amount, and no more cycles have run than
/// allowed, the same holds after any attempt to execute a cycle, whether
/// it succeeds or is refused.
pub proof fn lemma_pay_keeps_counters(
    ctx: Pay,
    schedule: Option<(Seq<u8>, u8)>,
    custodian: Option<(Seq<u8>, u8)>,
    next: Pay,
    answer: Result<Disbursement, ClockPayError>,
)
    requires
        ctx.pay_instance.wf(),
        ctx.yields(schedule, custodian, next, answer),
    ensures
        next.pay_instance.wf(),
{
    if answer is Ok {
        let done = ctx.pay_instance.cycles_completed as int;
        let amount = ctx.pay_instance.amount as int;
        assert((done + 1) * amount == done * amount + amount) by (nonlinear_arith);
    }
}

/// A newly created schedule has its counters in agreement, with or
/// without its trigger.
pub proof fn lemma_new_schedule_counters(
    ctx: InitPay,
    amount: u64,
    text: Seq<u8>,
    cycles: u64,
    custodian: Option<(Seq<u8>, u8)>,
    schedule: Option<(Seq<u8>, u8)>,
    id: Option<Seq<char>>,
    thread: Option<(Seq<u8>, u8)>,
    created: InitPay,
    creation: Result<(), ClockPayError>,
    next: InitPay,
    answer: Result<ThreadCreate, ClockPayError>,
)
    requires
        ctx.creation_yields(amount, text, cycles, custodian, schedule, created, creation),
        ctx.yields(amount, text, cycles, custodian, schedule, id, thread, next, answer),
    ensures
        creation is Ok ==> created.pay_instance->Some_0.wf(),
        answer is Ok ==> next.pay_instance->Some_0.wf(),
{
}

/// Registering a trigger leaves the counters of the schedule as they
/// were.
pub proof fn lemma_registration_keeps_counters(
    ctx: InitPay,
    custodian: Option<(Seq<u8>, u8)>,
    schedule: Option<(Seq<u8>, u8)>,
    id: Option<Seq<char>>,
    thread: Option<(Seq<u8>, u8)>,
    next: InitPay,
    answer: Result<ThreadCreate, ClockPayError>,
)
    requires
        ctx.pay_instance matches Some(record) && record.wf(),
        ctx.registration_yields(custodian, schedule, id, thread, next, answer),
    ensures
        next.pay_instance matches Some(record) && record.wf(),
{
}

/// A cycle that asks for more than the balance of the custodian record is
/// refused and changes no counter; where every check that comes before
/// the arithmetic passes, the error is an arithmetic one, and it is
/// `ArithmeticUnderflow` where the sum disbursed does not wrap.
pub proof fn lemma_pay_beyond_balance(
    ctx: Pay,
    schedule: Option<(Seq<u8>, u8)>,
    custodian: Option<(Seq<u8>, u8)>,
    next: Pay,
    answer: Result<Disbursement, ClockPayError>,
)
    requires
        ctx.bursary.balance < ctx.pay_instance.amount,
        ctx.yields(schedule, custodian, next, answer),
    ensures
        answer is Err,
        next == ctx,
        ({
            &&& ctx.schedule_ok(schedule)
            &&& ctx.custodian_ok(custodian)
            &&& ctx.pay_instance.cycles_completed < ctx.pay_instance.cycles
            &&& ctx.receiver_wallet.address == ctx.pay_instance.receiver_wallet
            &&& ctx.receiver_wallet.mint == ctx.vault.mint
            &&& ctx.trigger_ok()
        }) ==> {
            &&& answer->Err_0 == ClockPayError::ArithmeticOverflow || answer->Err_0
                == ClockPayError::ArithmeticUnderflow
            &&& ctx.pay_instance.total_amount_disbursed + ctx.pay_instance.amount <= u64::MAX
                ==> answer->Err_0 == ClockPayError::ArithmeticUnderflow
        },
{
}

/// Once all cycles have run, every further attempt on the genuine records
/// fails with `CycleLimitExhausted` and changes nothing, however often it
/// is repeated and whoever calls.
pub proof fn lemma_pay_exhausted(
    ctx: Pay,
    schedule: Option<(Seq<u8>, u8)>,
    custodian: Option<(Seq<u8>, u8)>,
    next: Pay,
    answer: Result<Disbursement, ClockPayError>,
    again: Pay,
    repeated: Result<Disbursement, ClockPayError>,
)
    requires
        ctx.pay_instance.cycles_completed == ctx.pay_instance.cycles,
        ctx.schedule_ok(schedule),
        ctx.custodian_ok(custodian),
        ctx.yields(schedule, custodian, next, answer),
        next.yields(schedule, custodian, again, repeated),
    ensures
        answer == Err::<Disbursement, ClockPayError>(ClockPayError::CycleLimitExhausted),
        next == ctx,
        repeated == Err::<Disbursement, ClockPayError>(ClockPayError::CycleLimitExhausted),
        again == ctx,
{
}

/// Two schedules that draw on one custodian record can run their cycles
/// in either order: where one order succeeds, so does the other, both
/// leave the custodian record the same, and each schedule record is what
/// its own cycle alone would make it.
pub proof fn lemma_disbursements_commute(
    first: Pay,
    first_schedule: Option<(Seq<u8>, u8)>,
    second: Pay,
    second_schedule: Option<(Seq<u8>, u8)>,
    custodian: Option<(Seq<u8>, u8)>,
)
    requires
        first.bursary == second.bursary,
        first.refusal(first_schedule, custodian) is None,
        (Pay { bursary: first.paid().bursary, ..second }).refusal(second_schedule, custodian)
            is None,
    ensures
        second.refusal(second_schedule, custodian) is None,
        (Pay { bursary: second.paid().bursary, ..first }).refusal(first_schedule, custodian)
            is None,
        (Pay { bursary: second.paid().bursary, ..first }).paid().bursary == (Pay {
            bursary: first.paid().bursary,
            ..second
        }).paid().bursary,
        (Pay { bursary: second.paid().bursary, ..first }).paid().pay_instance
            == first.paid().pay_instance,
        (Pay { bursary: first.paid().bursary, ..second }).paid().pay_instance
            == second.paid().pay_instance,
{
}

/// A cycle on a schedule record that does not lie at the address its
/// custodian record and recipient derive is refused with
/// `AddressMismatch`, and nothing changes.
pub proof fn lemma_pay_at_another_address(
    ctx: Pay,
    schedule: Option<(Seq<u8>, u8)>,
    custodian: Option<(Seq<u8>, u8)>,
    next: Pay,
    answer: Result<Disbursement, ClockPayError>,
)
    requires
        !ctx.schedule_ok(schedule),
        ctx.yields(schedule, custodian, next, answer),
    ensures
        answer == Err::<Disbursement, ClockPayError>(ClockPayError::AddressMismatch),
        next == ctx,
{
}

/// Once a schedule exists for a custodian record and a recipient, creating
/// another for the same pair fails with `DuplicateRecord` and changes
/// nothing, whatever its terms.
pub proof fn lemma_second_schedule_is_refused(
    ctx: InitPay,
    amount: u64,
    text: Seq<u8>,
    cycles: u64,
    custodian: Option<(Seq<u8>, u8)>,
    schedule: Option<(Seq<u8>, u8)>,
    id: Option<Seq<char>>,
    thread: Option<(Seq<u8>, u8)>,
    created: InitPay,
    first: Result<ThreadCreate, ClockPayError>,
    other_amount: u64,
    other_text: Seq<u8>,
    other_cycles: u64,
    next: InitPay,
    second: Result<ThreadCreate, ClockPayError>,
)
    requires
        ctx.yields(amount, text, cycles, custodian, schedule, id, thread, created, first),
        first is Ok,
        schedule_text_ok(other_text),
        created.yields(
            other_amount,
            other_text,
            other_cycles,
            custodian,
            schedule,
            id,
            thread,
            next,
            second,
        ),
    ensures
        second == Err::<ThreadCreate, ClockPayError>(ClockPayError::DuplicateRecord),
        next == created,
{
}

/// A refused transition changes nothing: whatever the reason, the
/// context after a failed execution is the context before it.
pub proof fn lemma_refused_pay_changes_nothing(
    ctx: Pay,
    schedule: Option<(Seq<u8>, u8)>,
    custodian: Option<(Seq<u8>, u8)>,
    next: Pay,
    answer: Result<Disbursement, ClockPayError>,
)
    requires
        ctx.yields(schedule, custodian, next, answer),
        answer is Err,
    ensures
        next == ctx,
{
}

/// What the processor stores after a cycle reads back as the records
/// after that cycle: the schedule record with one more cycle run and the
/// amount added to its sum, the custodian record with the amount taken
/// from its balance. Where the stored schedule had its counters in
/// agreement before, it has them after.
pub proof fn lemma_stored_cycle_reads_back(
    before: Seq<AccountInfo>,
    program_id: Address,
    after: Seq<AccountInfo>,
    answer: Result<Payment, ClockPayError>,
)
    requires
        Processor::pay_yields(before, program_id, after, answer),
        answer is Ok,
    ensures
        ({
            let ctx = Processor::pay_context(before, program_id);
            &&& PayInstance::decodable(after[0].data@)
            &&& PayInstance::spec_unpack(after[0].data@) == ctx.paid().pay_instance
            &&& Bursary::decodable(after[1].data@)
            &&& Bursary::spec_unpack(after[1].data@) == ctx.paid().bursary
            &&& ctx.pay_instance.wf() ==> ctx.paid().pay_instance.wf()
        }),
{
    let ctx = Processor::pay_context(before, program_id);
    let schedule = ctx.paid().pay_instance;
    let custodian = ctx.paid().bursary;
    lemma_pay_instance_round_trip(schedule, schedule);
    PayInstance::lemma_decodes_one(after[0].data@, schedule);
    lemma_bursary_round_trip(custodian, custodian);
    Bursary::lemma_decodes_one(after[1].data@, custodian);
    if ctx.pay_instance.wf() {
        let done = ctx.pay_instance.cycles_completed as int;
        let amount = ctx.pay_instance.amount as int;
        assert((done + 1) * amount == done * amount + amount) by (nonlinear_arith);
    }
}

/// On accounts, too, an exhausted schedule is refused with
/// `CycleLimitExhausted` and nothing is written, however often it is
/// tried: where six accounts are supplied, both records read and lie at
/// their derived addresses, and the third account is the custodian's
/// pool, no other account is looked into. Neither who calls nor what the
/// pool, the recipient or the sixth account hold changes the answer.
pub proof fn lemma_stored_exhausted_schedule(
    before: Seq<AccountInfo>,
    program_id: Address,
    after: Seq<AccountInfo>,
    answer: Result<Payment, ClockPayError>,
    again: Seq<AccountInfo>,
    repeated: Result<Payment, ClockPayError>,
)
    requires
        before.len() >= 6,
        PayInstance::decodable(before[0].data@),
        Bursary::decodable(before[1].data@),
        ({
            let ctx = Processor::pay_context(before, program_id);
            &&& derived_at(ctx.schedule_key(), before[0].key, ctx.pay_instance.bump)
            &&& ctx.pay_instance.bursary == before[1].key
            &&& is_custodian(ctx.custodian_key(), before[1].key, ctx.bursary, before[2].key)
            &&& ctx.pay_instance.cycles_completed >= ctx.pay_instance.cycles
        }),
        Processor::pay_yields(before, program_id, after, answer),
        Processor::pay_yields(after, program_id, again, repeated),
    ensures
        answer == Err::<Payment, ClockPayError>(ClockPayError::CycleLimitExhausted),
        after == before,
        repeated == Err::<Payment, ClockPayError>(ClockPayError::CycleLimitExhausted),
        again == before,
{
}

/// On accounts, a schedule record that reads but does not lie at its
/// derived address is refused with `AddressMismatch` and nothing is
/// written, whatever the other accounts hold.
pub proof fn lemma_stored_schedule_at_another_address(
    before: Seq<AccountInfo>,
    program_id: Address,
    after: Seq<AccountInfo>,
    answer: Result<Payment, ClockPayError>,
)
    requires
        before.len() >= 6,
        PayInstance::decodable(before[0].data@),
        Bursary::decodable(before[1].data@),
        ({
            let ctx = Processor::pay_context(before, program_id);
            !derived_at(ctx.schedule_key(), before[0].key, ctx.pay_instance.bump)
        }),
        Processor::pay_yields(before, program_id, after, answer),
    ensures
        answer == Err::<Payment, ClockPayError>(ClockPayError::AddressMismatch),
        after == before,
{
}

/// A short list of accounts fails on the first account that is missing
/// and not before: a first account that did not sign is refused with
/// `AuthorityMismatch` by the creation of a custodian record, by a
/// deposit and by the creation of a schedule, however few accounts
/// follow it; no account at all is refused with `NotEnoughAccountKeys`.
pub proof fn lemma_unsigned_first_account(
    before: Seq<AccountInfo>,
    program_id: Address,
    amount: u64,
    schedule: [u8; 30],
    unix_timestamp: i64,
)
    ensures
        before.len() == 0 ==> {
            &&& Processor::init_accounting_refusal(before, program_id) == Some(
                ClockPayError::NotEnoughAccountKeys,
            )
            &&& Processor::deposit_refusal(before, program_id, amount) == Some(
                ClockPayError::NotEnoughAccountKeys,
            )
            &&& Processor::new_payroll_refusal(before, program_id, schedule, unix_timestamp)
                == Some(ClockPayError::NotEnoughAccountKeys)
        },
        before.len() >= 1 && !before[0].is_signer ==> {
            &&& Processor::init_accounting_refusal(before, program_id) == Some(
                ClockPayError::AuthorityMismatch,
            )
            &&& Processor::deposit_refusal(before, program_id, amount) == Some(
                ClockPayError::AuthorityMismatch,
            )
            &&& Processor::new_payroll_refusal(before, program_id, schedule, unix_timestamp)
                == Some(ClockPayError::AuthorityMismatch)
        },
{
}

} // verus!
