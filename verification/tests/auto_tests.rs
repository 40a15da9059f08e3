use clockpay::accounts::{Party, TokenAccount};
use clockpay::address::{
    custodian_address, schedule_address, thread_address, trigger_id, Address,
};
use clockpay::auto::{
    check_records, deposit, deposit_with, init_bursary, init_bursary_with, init_pay,
    init_pay_with, init_payment, init_payment_with, new_payroll, new_payroll_with, pay,
    pay_with, Deposit, InitBursary, InitPay, Pay,
};
use clockpay::error::ClockPayError;
use clockpay::instruction::ClockPayInstruction;
use clockpay::ledger::{AccountMetaData, Approve, Funding, ThreadResponse, Transfer};
use clockpay::state::{pad_schedule, Bursary, PayInstance};

const CRON: &str = "*/10 * * * * * *";

fn key(byte: u8) -> Address {
    Address::new([byte; 32])
}

fn program() -> Address {
    key(9)
}

fn funder() -> Party {
    Party { address: key(1), is_signer: true }
}

fn vault() -> TokenAccount {
    TokenAccount { address: key(2), mint: key(3), owner: key(6), amount: 5000 }
}

fn vault_authority() -> Party {
    Party { address: key(6), is_signer: true }
}

fn recipient() -> TokenAccount {
    TokenAccount { address: key(4), mint: key(3), owner: key(7), amount: 0 }
}

fn bursary_key() -> (Address, u8) {
    custodian_address(&program(), &funder().address, &vault().address).unwrap()
}

fn pay_key() -> (Address, u8) {
    schedule_address(&program(), &bursary_key().0, &recipient().address).unwrap()
}

fn thread_key() -> Address {
    let id = trigger_id(&recipient().address).unwrap();
    thread_address(&pay_key().0, &id).unwrap().0
}

fn init_bursary_ctx() -> InitBursary {
    InitBursary {
        program_id: program(),
        initializer: funder(),
        vault: vault(),
        vault_authority: vault_authority(),
        bursary_address: bursary_key().0,
        bursary: None,
    }
}

fn new_bursary(delegated_amount: u64) -> Bursary {
    let mut ctx = init_bursary_ctx();
    init_bursary(&mut ctx, delegated_amount).unwrap();
    ctx.bursary.unwrap()
}

fn init_pay_ctx(bursary: Bursary) -> InitPay {
    InitPay {
        program_id: program(),
        authority: funder(),
        bursary_address: bursary_key().0,
        bursary,
        vault: vault(),
        pay_instance_address: pay_key().0,
        pay_instance: None,
        receiver_wallet: recipient(),
        thread: thread_key(),
        token_program: key(8),
        unix_timestamp: 1_700_000_000,
    }
}

fn pay_ctx(bursary: Bursary, pay_instance: PayInstance) -> Pay {
    Pay {
        program_id: program(),
        pay_instance_address: pay_key().0,
        pay_instance,
        bursary_address: bursary_key().0,
        bursary,
        vault: vault(),
        receiver_wallet: recipient(),
        thread: Party { address: thread_key(), is_signer: true },
    }
}

fn scheduled(delegated_amount: u64, amount: u64, cycles: u64) -> Pay {
    let mut ctx = init_pay_ctx(new_bursary(delegated_amount));
    init_pay(&mut ctx, amount, CRON.to_string(), cycles).unwrap();
    pay_ctx(ctx.bursary, ctx.pay_instance.unwrap())
}

fn counters_agree(record: &PayInstance) -> bool {
    record.cycles_completed <= record.cycles
        && record.total_amount_disbursed as u128
            == record.cycles_completed as u128 * record.amount as u128
}

// ---------------------------------------------------------------------
// Creating a custodian record
// ---------------------------------------------------------------------

#[test]
fn init_bursary_creates_the_record() {
    let mut ctx = init_bursary_ctx();
    let approve = init_bursary(&mut ctx, 1000).unwrap();
    assert_eq!(
        ctx.bursary,
        Some(Bursary {
            authority: key(1),
            active_payments: 0,
            vault: key(2),
            balance: 1000,
            suspended: false,
            bump: bursary_key().1,
        })
    );
    assert_eq!(
        approve,
        Approve { to: key(2), delegate: bursary_key().0, authority: key(6), amount: 1000 }
    );
    let mut expected = init_bursary_ctx();
    expected.bursary = ctx.bursary;
    assert_eq!(ctx, expected);
}

#[test]
fn init_bursary_takes_any_amount() {
    let mut ctx = init_bursary_ctx();
    assert_eq!(init_bursary(&mut ctx, u64::MAX).unwrap().amount, u64::MAX);
    assert_eq!(ctx.bursary.unwrap().balance, u64::MAX);
    let mut ctx = init_bursary_ctx();
    assert_eq!(init_bursary(&mut ctx, 0).unwrap().amount, 0);
    assert_eq!(ctx.bursary.unwrap().balance, 0);
}

#[test]
fn init_bursary_needs_the_funder_to_sign() {
    let mut ctx = init_bursary_ctx();
    ctx.initializer.is_signer = false;
    let before = ctx;
    assert_eq!(init_bursary(&mut ctx, 1000), Err(ClockPayError::AuthorityMismatch));
    assert_eq!(ctx, before);
}

#[test]
fn init_bursary_needs_the_pool_authority_to_sign() {
    let mut ctx = init_bursary_ctx();
    ctx.vault_authority.is_signer = false;
    let before = ctx;
    assert_eq!(init_bursary(&mut ctx, 1000), Err(ClockPayError::AuthorityMismatch));
    assert_eq!(ctx, before);
}

#[test]
fn init_bursary_needs_the_pool_authority_to_control_the_pool() {
    let mut ctx = init_bursary_ctx();
    ctx.vault_authority.address = key(1);
    assert_eq!(init_bursary(&mut ctx, 1000), Err(ClockPayError::AuthorityMismatch));
    assert_eq!(ctx.bursary, None);
}

#[test]
fn init_bursary_refuses_another_address() {
    let mut ctx = init_bursary_ctx();
    ctx.bursary_address = key(5);
    assert_eq!(init_bursary(&mut ctx, 1000), Err(ClockPayError::AddressMismatch));
    assert_eq!(ctx.bursary, None);
}

#[test]
fn init_bursary_refuses_a_second_record() {
    let mut ctx = init_bursary_ctx();
    init_bursary(&mut ctx, 1000).unwrap();
    let before = ctx;
    assert_eq!(init_bursary(&mut ctx, 77), Err(ClockPayError::DuplicateRecord));
    assert_eq!(ctx, before);
    assert_eq!(ctx.bursary.unwrap().balance, 1000);
}

#[test]
fn init_bursary_checks_in_order() {
    let mut ctx = init_bursary_ctx();
    ctx.bursary = Some(new_bursary(1));
    ctx.bursary_address = key(5);
    assert_eq!(init_bursary(&mut ctx, 1), Err(ClockPayError::AddressMismatch));
    ctx.vault_authority.is_signer = false;
    assert_eq!(init_bursary(&mut ctx, 1), Err(ClockPayError::AuthorityMismatch));
}

#[test]
fn init_bursary_with_takes_the_bump_of_the_derivation() {
    let mut ctx = init_bursary_ctx();
    ctx.bursary_address = key(5);
    init_bursary_with(&mut ctx, 10, Some((key(5), 200))).unwrap();
    assert_eq!(ctx.bursary.unwrap().bump, 200);
    let mut ctx = init_bursary_ctx();
    assert_eq!(init_bursary_with(&mut ctx, 10, None), Err(ClockPayError::AddressMismatch));
    assert_eq!(
        init_bursary_with(&mut ctx, 10, Some((key(5), 200))),
        Err(ClockPayError::AddressMismatch)
    );
}

// ---------------------------------------------------------------------
// Depositing
// ---------------------------------------------------------------------

fn deposit_ctx(bursary: Bursary) -> Deposit {
    Deposit {
        program_id: program(),
        authority: funder(),
        bursary_address: bursary_key().0,
        bursary,
        source: TokenAccount { address: key(10), mint: key(3), owner: key(1), amount: 900 },
        vault: vault(),
        vault_authority: vault_authority(),
    }
}

#[test]
fn deposit_raises_the_balance() {
    let mut ctx = deposit_ctx(new_bursary(1000));
    let funding = deposit(&mut ctx, 250).unwrap();
    assert_eq!(ctx.bursary.balance, 1250);
    assert_eq!(
        funding,
        Funding {
            transfer: Transfer { from: key(10), to: key(2), authority: key(1), amount: 250 },
            approve: Approve {
                to: key(2),
                delegate: bursary_key().0,
                authority: key(6),
                amount: 1250,
            },
        }
    );
    let mut expected = deposit_ctx(new_bursary(1000));
    expected.bursary.balance = 1250;
    assert_eq!(ctx, expected);
}

#[test]
fn deposit_fails_closed_on_overflow() {
    let mut ctx = deposit_ctx(new_bursary(u64::MAX - 5));
    assert_eq!(deposit(&mut ctx, 6), Err(ClockPayError::ArithmeticOverflow));
    assert_eq!(ctx.bursary.balance, u64::MAX - 5);
    let funding = deposit(&mut ctx, 5).unwrap();
    assert_eq!(funding.transfer.amount, 5);
    assert_eq!(funding.approve.amount, u64::MAX);
    assert_eq!(ctx.bursary.balance, u64::MAX);
}

#[test]
fn deposit_refusals() {
    let good = deposit_ctx(new_bursary(1000));

    let mut ctx = good;
    ctx.authority.is_signer = false;
    assert_eq!(deposit(&mut ctx, 1), Err(ClockPayError::AuthorityMismatch));
    assert_eq!(ctx.bursary.balance, 1000);

    let mut ctx = good;
    ctx.authority.address = key(6);
    assert_eq!(deposit(&mut ctx, 1), Err(ClockPayError::AuthorityMismatch));

    let mut ctx = good;
    ctx.bursary_address = key(5);
    assert_eq!(deposit(&mut ctx, 1), Err(ClockPayError::AddressMismatch));

    let mut ctx = good;
    ctx.bursary.bump = ctx.bursary.bump.wrapping_sub(1);
    assert_eq!(deposit(&mut ctx, 1), Err(ClockPayError::AddressMismatch));

    let mut ctx = good;
    ctx.vault.address = key(5);
    assert_eq!(deposit(&mut ctx, 1), Err(ClockPayError::AddressMismatch));

    let mut ctx = good;
    ctx.vault_authority.is_signer = false;
    assert_eq!(deposit(&mut ctx, 1), Err(ClockPayError::AuthorityMismatch));
    assert_eq!(ctx.bursary.balance, 1000);

    let mut ctx = good;
    ctx.vault_authority.address = key(1);
    assert_eq!(deposit(&mut ctx, 1), Err(ClockPayError::AuthorityMismatch));

    let mut ctx = good;
    ctx.vault_authority.is_signer = false;
    ctx.bursary.balance = u64::MAX;
    assert_eq!(deposit(&mut ctx, 1), Err(ClockPayError::AuthorityMismatch));
    ctx.source.mint = key(5);
    assert_eq!(deposit(&mut ctx, 1), Err(ClockPayError::AssetMismatch));

    let mut ctx = good;
    ctx.source.mint = key(5);
    assert_eq!(deposit(&mut ctx, 1), Err(ClockPayError::AssetMismatch));
    assert_eq!(ctx, {
        let mut same = good;
        same.source.mint = key(5);
        same
    });
}

#[test]
fn deposit_with_decides_on_the_given_derivation() {
    let mut ctx = deposit_ctx(new_bursary(1000));
    assert_eq!(deposit_with(&mut ctx, 1, None), Err(ClockPayError::AddressMismatch));
    let derived = Some(bursary_key());
    assert_eq!(deposit_with(&mut ctx, 1, derived).unwrap().transfer.amount, 1);
    assert_eq!(ctx.bursary.balance, 1001);
}

// ---------------------------------------------------------------------
// Creating a schedule and registering its trigger
// ---------------------------------------------------------------------

#[test]
fn init_pay_creates_the_schedule_and_asks_for_the_trigger() {
    let mut ctx = init_pay_ctx(new_bursary(1000));
    let request = init_pay(&mut ctx, 100, CRON.to_string(), 5).unwrap();
    let record = ctx.pay_instance.unwrap();
    assert_eq!(
        record,
        PayInstance {
            bursary: bursary_key().0,
            payment_active: true,
            amount: 100,
            total_amount_disbursed: 0,
            cron_schedule: pad_schedule(CRON.as_bytes()),
            cycles: 5,
            cycles_completed: 0,
            receiver_wallet: key(4),
            thread: thread_key(),
            start_time: 1_700_000_000,
            bump: pay_key().1,
        }
    );
    assert!(counters_agree(&record));
    assert_eq!(ctx.bursary.active_payments, 1);
    assert_eq!(ctx.bursary.balance, 1000);

    assert_eq!(request.authority, pay_key().0);
    assert_eq!(request.payer, key(1));
    assert_eq!(request.thread, thread_key());
    assert_eq!(request.id, trigger_id(&key(4)).unwrap());
    assert_eq!(request.schedule, CRON.as_bytes().to_vec());
    assert!(!request.skippable);
    assert_eq!(
        request.signer_seeds,
        vec![
            b"schedule".to_vec(),
            bursary_key().0.to_vec(),
            vec![4u8; 32],
            vec![pay_key().1]
        ]
    );
    let kickoff = request.kickoff_instruction;
    assert_eq!(kickoff.program_id, program());
    assert_eq!(kickoff.data, 4u64.to_le_bytes().to_vec());
    assert_eq!(ClockPayInstruction::unpack(&kickoff.data), Ok(ClockPayInstruction::Pay));
    let meta = |pubkey, is_signer, is_writable| AccountMetaData { pubkey, is_signer, is_writable };
    assert_eq!(
        kickoff.accounts,
        vec![
            meta(pay_key().0, false, true),
            meta(bursary_key().0, false, true),
            meta(key(2), false, true),
            meta(key(4), false, true),
            meta(thread_key(), true, true),
            meta(key(8), false, false),
        ]
    );
}

#[test]
fn init_pay_refuses_a_second_schedule_for_the_pair() {
    let mut ctx = init_pay_ctx(new_bursary(1000));
    init_pay(&mut ctx, 100, CRON.to_string(), 5).unwrap();
    let before = ctx;
    assert_eq!(
        init_pay(&mut ctx, 200, CRON.to_string(), 9),
        Err(ClockPayError::DuplicateRecord)
    );
    assert_eq!(ctx, before);
    assert_eq!(ctx.bursary.active_payments, 1);
}

#[test]
fn init_pay_needs_the_funder() {
    let mut ctx = init_pay_ctx(new_bursary(1000));
    ctx.authority.address = key(6);
    assert_eq!(init_pay(&mut ctx, 100, CRON.to_string(), 5), Err(ClockPayError::AuthorityMismatch));
    assert_eq!(ctx.pay_instance, None);
    let mut ctx = init_pay_ctx(new_bursary(1000));
    ctx.authority.is_signer = false;
    assert_eq!(init_pay(&mut ctx, 100, CRON.to_string(), 5), Err(ClockPayError::AuthorityMismatch));
    assert_eq!(ctx.bursary.active_payments, 0);
}

#[test]
fn init_pay_needs_the_same_asset() {
    let mut ctx = init_pay_ctx(new_bursary(1000));
    ctx.receiver_wallet.mint = key(5);
    let before = ctx;
    assert_eq!(init_pay(&mut ctx, 100, CRON.to_string(), 5), Err(ClockPayError::AssetMismatch));
    assert_eq!(ctx, before);
}

#[test]
fn init_pay_checks_the_cadence() {
    let mut ctx = init_pay_ctx(new_bursary(1000));
    assert_eq!(init_pay(&mut ctx, 100, String::new(), 5), Err(ClockPayError::InvalidString));
    assert_eq!(init_pay(&mut ctx, 100, "x".repeat(31), 5), Err(ClockPayError::InvalidString));
    assert_eq!(ctx.pay_instance, None);
    assert!(init_pay(&mut ctx, 100, "x".repeat(30), 5).is_ok());
    assert_eq!(ctx.pay_instance.unwrap().cron_schedule, [b'x'; 30]);
    let mut ctx = init_pay_ctx(new_bursary(1000));
    assert!(init_pay(&mut ctx, 100, "x".to_string(), 5).is_ok());
    assert_eq!(ctx.pay_instance.unwrap().schedule(), vec![b'x']);
}

#[test]
fn init_pay_counts_the_bytes_of_the_cadence() {
    let mut ctx = init_pay_ctx(new_bursary(1000));
    let text = "\u{e9}".repeat(16);
    assert_eq!(text.len(), 32);
    assert_eq!(init_pay(&mut ctx, 100, text, 5), Err(ClockPayError::InvalidString));
    let text = "\u{e9}".repeat(15);
    assert!(init_pay(&mut ctx, 100, text.clone(), 5).is_ok());
    assert_eq!(ctx.pay_instance.unwrap().schedule(), text.into_bytes());
}

#[test]
fn init_pay_refuses_wrong_addresses() {
    let good = init_pay_ctx(new_bursary(1000));

    let mut ctx = good;
    ctx.bursary_address = key(5);
    assert_eq!(init_pay(&mut ctx, 1, CRON.to_string(), 1), Err(ClockPayError::AddressMismatch));

    let mut ctx = good;
    ctx.vault.address = key(5);
    assert_eq!(init_pay(&mut ctx, 1, CRON.to_string(), 1), Err(ClockPayError::AddressMismatch));

    let mut ctx = good;
    ctx.pay_instance_address = key(5);
    assert_eq!(init_pay(&mut ctx, 1, CRON.to_string(), 1), Err(ClockPayError::AddressMismatch));

    let mut ctx = good;
    ctx.thread = key(5);
    let before = ctx;
    assert_eq!(init_pay(&mut ctx, 1, CRON.to_string(), 1), Err(ClockPayError::AddressMismatch));
    assert_eq!(ctx, before);
    assert_eq!(ctx.pay_instance, None);
}

#[test]
fn init_pay_fails_closed_on_counter_overflow() {
    let mut bursary = new_bursary(1000);
    bursary.active_payments = u64::MAX;
    let mut ctx = init_pay_ctx(bursary);
    let before = ctx;
    assert_eq!(init_pay(&mut ctx, 100, CRON.to_string(), 5), Err(ClockPayError::CounterOverflow));
    assert_eq!(ctx, before);
    assert_eq!(ctx.pay_instance, None);
    assert_eq!(ctx.bursary.active_payments, u64::MAX);
}

#[test]
fn init_pay_counts_each_schedule() {
    let mut bursary = new_bursary(1000);
    bursary.active_payments = u64::MAX - 1;
    let mut ctx = init_pay_ctx(bursary);
    init_pay(&mut ctx, 100, CRON.to_string(), 5).unwrap();
    assert_eq!(ctx.bursary.active_payments, u64::MAX);
}

#[test]
fn init_pay_checks_in_order() {
    let mut ctx = init_pay_ctx(new_bursary(1000));
    ctx.thread = key(5);
    ctx.pay_instance = Some(scheduled(1000, 1, 1).pay_instance);
    assert_eq!(init_pay(&mut ctx, 1, CRON.to_string(), 1), Err(ClockPayError::DuplicateRecord));
    ctx.pay_instance_address = key(5);
    assert_eq!(init_pay(&mut ctx, 1, CRON.to_string(), 1), Err(ClockPayError::AddressMismatch));
    assert_eq!(init_pay(&mut ctx, 1, String::new(), 1), Err(ClockPayError::InvalidString));
    ctx.receiver_wallet.mint = key(5);
    assert_eq!(init_pay(&mut ctx, 1, String::new(), 1), Err(ClockPayError::AssetMismatch));
    ctx.vault.address = key(5);
    assert_eq!(init_pay(&mut ctx, 1, String::new(), 1), Err(ClockPayError::AddressMismatch));
    ctx.authority.is_signer = false;
    assert_eq!(init_pay(&mut ctx, 1, String::new(), 1), Err(ClockPayError::AuthorityMismatch));
}

#[test]
fn new_payroll_then_init_payment_is_init_pay() {
    let mut whole = init_pay_ctx(new_bursary(1000));
    let whole_request = init_pay(&mut whole, 100, CRON.to_string(), 5).unwrap();

    let mut split = init_pay_ctx(new_bursary(1000));
    new_payroll(&mut split, 100, CRON.as_bytes(), 5).unwrap();
    let record = split.pay_instance.unwrap();
    assert!(!record.payment_active);
    assert_eq!(record.thread, Address::zero());
    assert_eq!(record.cycles_completed, 0);
    assert_eq!(record.total_amount_disbursed, 0);
    assert_eq!(split.bursary.active_payments, 0);
    let split_request = init_payment(&mut split).unwrap();

    assert_eq!(split, whole);
    assert_eq!(split_request, whole_request);
}

#[test]
fn init_payment_refusals() {
    let mut created = init_pay_ctx(new_bursary(1000));
    new_payroll(&mut created, 100, CRON.as_bytes(), 5).unwrap();

    let mut ctx = created;
    ctx.pay_instance = None;
    assert_eq!(init_payment(&mut ctx), Err(ClockPayError::InvalidAccountData));

    let mut ctx = created;
    ctx.authority.is_signer = false;
    assert_eq!(init_payment(&mut ctx), Err(ClockPayError::AuthorityMismatch));

    let mut ctx = created;
    ctx.bursary.vault = key(5);
    assert_eq!(init_payment(&mut ctx), Err(ClockPayError::AddressMismatch));

    let mut ctx = created;
    ctx.pay_instance_address = key(5);
    assert_eq!(init_payment(&mut ctx), Err(ClockPayError::AddressMismatch));

    let mut ctx = created;
    let mut record = ctx.pay_instance.unwrap();
    record.receiver_wallet = key(5);
    ctx.pay_instance = Some(record);
    assert_eq!(init_payment(&mut ctx), Err(ClockPayError::AddressMismatch));

    let mut ctx = created;
    ctx.thread = key(5);
    let before = ctx;
    assert_eq!(init_payment(&mut ctx), Err(ClockPayError::AddressMismatch));
    assert_eq!(ctx, before);

    let mut ctx = created;
    ctx.bursary.active_payments = u64::MAX;
    assert_eq!(init_payment(&mut ctx), Err(ClockPayError::CounterOverflow));

    let mut ctx = created;
    init_payment(&mut ctx).unwrap();
    let before = ctx;
    assert_eq!(init_payment(&mut ctx), Err(ClockPayError::DuplicateRecord));
    assert_eq!(ctx, before);
}

#[test]
fn transitions_with_given_derivations() {
    let custodian = Some(bursary_key());
    let schedule = Some(pay_key());
    let thread = Some((thread_key(), 0));

    let mut ctx = init_pay_ctx(new_bursary(1000));
    assert_eq!(
        new_payroll_with(&mut ctx, 1, b"x", 1, None, schedule),
        Err(ClockPayError::AddressMismatch)
    );
    assert_eq!(
        new_payroll_with(&mut ctx, 1, b"x", 1, custodian, None),
        Err(ClockPayError::AddressMismatch)
    );
    assert_eq!(new_payroll_with(&mut ctx, 1, b"x", 1, custodian, schedule), Ok(()));
    assert_eq!(
        init_payment_with(&mut ctx, custodian, schedule, None, thread),
        Err(ClockPayError::AddressMismatch)
    );
    assert_eq!(
        init_payment_with(&mut ctx, custodian, schedule, Some("abc".to_string()), None),
        Err(ClockPayError::AddressMismatch)
    );
    let request =
        init_payment_with(&mut ctx, custodian, schedule, Some("abc".to_string()), thread).unwrap();
    assert_eq!(request.id, "abc");

    let mut ctx = init_pay_ctx(new_bursary(1000));
    let request = init_pay_with(
        &mut ctx,
        7,
        b"* * * * *",
        3,
        custodian,
        schedule,
        Some("0123456789".to_string()),
        thread,
    )
    .unwrap();
    assert_eq!(request.id, "0123456789");
    assert_eq!(request.schedule, b"* * * * *".to_vec());
    assert_eq!(ctx.pay_instance.unwrap().amount, 7);
}

// ---------------------------------------------------------------------
// Executing one cycle
// ---------------------------------------------------------------------

#[test]
fn pay_moves_one_cycle() {
    let mut ctx = scheduled(1000, 100, 5);
    let before = ctx;
    let done = pay(&mut ctx).unwrap();
    assert_eq!(ctx.pay_instance.cycles_completed, before.pay_instance.cycles_completed + 1);
    assert_eq!(
        ctx.pay_instance.total_amount_disbursed,
        before.pay_instance.total_amount_disbursed + 100
    );
    assert_eq!(ctx.bursary.balance, 900);
    assert!(counters_agree(&ctx.pay_instance));
    assert_eq!(
        done.transfer,
        Transfer { from: key(2), to: key(4), authority: bursary_key().0, amount: 100 }
    );
    assert_eq!(
        done.signer_seeds,
        vec![b"custodian".to_vec(), vec![1u8; 32], vec![2u8; 32], vec![bursary_key().1]]
    );
    assert_eq!(done.response, ThreadResponse::default());
    assert_eq!(done.response.kickoff_instruction, None);
    assert_eq!(done.response.next_instruction, None);

    let mut expected = before;
    expected.pay_instance.cycles_completed = 1;
    expected.pay_instance.total_amount_disbursed = 100;
    expected.bursary.balance = 900;
    assert_eq!(ctx, expected);
}

#[test]
fn five_cycles_disburse_five_hundred() {
    let mut ctx = scheduled(1000, 100, 5);
    for round in 1..=5u64 {
        pay(&mut ctx).unwrap();
        assert_eq!(ctx.pay_instance.cycles_completed, round);
        assert_eq!(ctx.pay_instance.total_amount_disbursed, round * 100);
        assert_eq!(ctx.bursary.balance, 1000 - round * 100);
        assert!(counters_agree(&ctx.pay_instance));
    }
    assert_eq!(ctx.pay_instance.cycles_completed, 5);
    assert_eq!(ctx.pay_instance.total_amount_disbursed, 500);
    assert_eq!(ctx.bursary.balance, 500);
}

#[test]
fn sixth_cycle_is_refused() {
    let mut ctx = scheduled(1000, 100, 5);
    for _ in 0..5 {
        pay(&mut ctx).unwrap();
    }
    let after_fifth = ctx;
    assert_eq!(pay(&mut ctx), Err(ClockPayError::CycleLimitExhausted));
    assert_eq!(ctx, after_fifth);
    for _ in 0..3 {
        assert_eq!(pay(&mut ctx), Err(ClockPayError::CycleLimitExhausted));
        assert_eq!(ctx, after_fifth);
    }
}

#[test]
fn exhausted_schedule_with_zero_cycles() {
    let mut ctx = scheduled(1000, 100, 0);
    let before = ctx;
    assert_eq!(pay(&mut ctx), Err(ClockPayError::CycleLimitExhausted));
    assert_eq!(ctx, before);
}

#[test]
fn pay_refuses_a_schedule_record_at_another_address() {
    let mut ctx = scheduled(1000, 100, 5);
    ctx.pay_instance_address = key(5);
    let before = ctx;
    assert_eq!(pay(&mut ctx), Err(ClockPayError::AddressMismatch));
    assert_eq!(ctx, before);
}

#[test]
fn pay_refuses_a_schedule_record_with_another_key() {
    let mut ctx = scheduled(1000, 100, 5);
    ctx.pay_instance.receiver_wallet = key(5);
    let before = ctx;
    assert_eq!(pay(&mut ctx), Err(ClockPayError::AddressMismatch));
    assert_eq!(ctx, before);
    let mut ctx = scheduled(1000, 100, 5);
    ctx.pay_instance.bump = ctx.pay_instance.bump.wrapping_sub(1);
    assert_eq!(pay(&mut ctx), Err(ClockPayError::AddressMismatch));
}

#[test]
fn pay_refuses_more_than_the_balance() {
    let mut ctx = scheduled(50, 100, 5);
    let before = ctx;
    assert_eq!(pay(&mut ctx), Err(ClockPayError::ArithmeticUnderflow));
    assert_eq!(ctx, before);
    assert_eq!(ctx.bursary.balance, 50);
    assert_eq!(ctx.pay_instance.cycles_completed, 0);
    assert_eq!(ctx.pay_instance.total_amount_disbursed, 0);
}

#[test]
fn pay_ignores_what_the_pool_holds() {
    let mut ctx = scheduled(50, 100, 5);
    ctx.vault.amount = u64::MAX;
    assert_eq!(pay(&mut ctx), Err(ClockPayError::ArithmeticUnderflow));
    let mut ctx = scheduled(100, 100, 5);
    ctx.vault.amount = 0;
    assert!(pay(&mut ctx).is_ok());
    assert_eq!(ctx.bursary.balance, 0);
    assert_eq!(pay(&mut ctx), Err(ClockPayError::ArithmeticUnderflow));
}

#[test]
fn pay_fails_closed_when_the_sum_would_wrap() {
    let mut ctx = scheduled(1000, 100, 5);
    ctx.pay_instance.total_amount_disbursed = u64::MAX - 99;
    let before = ctx;
    assert_eq!(pay(&mut ctx), Err(ClockPayError::ArithmeticOverflow));
    assert_eq!(ctx, before);
    ctx.pay_instance.total_amount_disbursed = u64::MAX - 100;
    assert!(pay(&mut ctx).is_ok());
    assert_eq!(ctx.pay_instance.total_amount_disbursed, u64::MAX);
}

#[test]
fn pay_reports_overflow_before_underflow() {
    let mut ctx = scheduled(50, 100, 5);
    ctx.pay_instance.total_amount_disbursed = u64::MAX;
    assert_eq!(pay(&mut ctx), Err(ClockPayError::ArithmeticOverflow));
}

#[test]
fn pay_needs_the_trigger() {
    let mut ctx = scheduled(1000, 100, 5);
    ctx.thread.is_signer = false;
    let before = ctx;
    assert_eq!(pay(&mut ctx), Err(ClockPayError::AuthorityMismatch));
    assert_eq!(ctx, before);
    let mut ctx = scheduled(1000, 100, 5);
    ctx.thread.address = key(1);
    assert_eq!(pay(&mut ctx), Err(ClockPayError::AuthorityMismatch));
}

#[test]
fn pay_refuses_another_custodian_record() {
    let mut ctx = scheduled(1000, 100, 5);
    ctx.bursary_address = key(5);
    assert_eq!(pay(&mut ctx), Err(ClockPayError::AddressMismatch));
    let mut ctx = scheduled(1000, 100, 5);
    ctx.bursary.authority = key(5);
    assert_eq!(pay(&mut ctx), Err(ClockPayError::AddressMismatch));
    let mut ctx = scheduled(1000, 100, 5);
    ctx.vault.address = key(5);
    assert_eq!(pay(&mut ctx), Err(ClockPayError::AddressMismatch));
}

#[test]
fn pay_refuses_another_recipient() {
    let mut ctx = scheduled(1000, 100, 5);
    ctx.receiver_wallet.address = key(5);
    let before = ctx;
    assert_eq!(pay(&mut ctx), Err(ClockPayError::AddressMismatch));
    assert_eq!(ctx, before);
}

#[test]
fn pay_refuses_another_asset() {
    let mut ctx = scheduled(1000, 100, 5);
    ctx.receiver_wallet.mint = key(5);
    let before = ctx;
    assert_eq!(pay(&mut ctx), Err(ClockPayError::AssetMismatch));
    assert_eq!(ctx, before);
}

#[test]
fn pay_checks_in_order() {
    let mut ctx = scheduled(10, 100, 5);
    ctx.pay_instance.total_amount_disbursed = u64::MAX;
    assert_eq!(pay(&mut ctx), Err(ClockPayError::ArithmeticOverflow));
    ctx.receiver_wallet.mint = key(5);
    assert_eq!(pay(&mut ctx), Err(ClockPayError::AssetMismatch));
    ctx.receiver_wallet.address = key(5);
    assert_eq!(pay(&mut ctx), Err(ClockPayError::AddressMismatch));
    ctx.pay_instance.cycles_completed = 5;
    assert_eq!(pay(&mut ctx), Err(ClockPayError::CycleLimitExhausted));
    ctx.pay_instance.cycles_completed = 6;
    assert_eq!(pay(&mut ctx), Err(ClockPayError::CycleLimitExhausted));
    ctx.vault.address = key(5);
    assert_eq!(pay(&mut ctx), Err(ClockPayError::AddressMismatch));
}

#[test]
fn pay_asks_for_the_trigger_after_the_accounts() {
    let mut ctx = scheduled(10, 100, 5);
    ctx.thread.is_signer = false;
    ctx.pay_instance.total_amount_disbursed = u64::MAX;
    assert_eq!(pay(&mut ctx), Err(ClockPayError::AuthorityMismatch));
    ctx.receiver_wallet.mint = key(5);
    assert_eq!(pay(&mut ctx), Err(ClockPayError::AssetMismatch));
    let mut ctx = scheduled(1000, 100, 5);
    ctx.thread.is_signer = false;
    ctx.pay_instance_address = key(5);
    assert_eq!(pay(&mut ctx), Err(ClockPayError::AddressMismatch));
}

#[test]
fn exhausted_schedule_is_exhausted_for_every_caller() {
    let mut ctx = scheduled(1000, 100, 1);
    pay(&mut ctx).unwrap();
    ctx.thread.is_signer = false;
    assert_eq!(pay(&mut ctx), Err(ClockPayError::CycleLimitExhausted));
    ctx.thread.address = key(1);
    assert_eq!(pay(&mut ctx), Err(ClockPayError::CycleLimitExhausted));
}

#[test]
fn exhausted_schedule_at_another_address_is_an_address_error() {
    let mut ctx = scheduled(1000, 100, 1);
    pay(&mut ctx).unwrap();
    ctx.pay_instance_address = key(5);
    assert_eq!(pay(&mut ctx), Err(ClockPayError::AddressMismatch));
}

#[test]
fn pay_with_decides_on_the_given_derivations() {
    let mut ctx = scheduled(1000, 100, 5);
    assert_eq!(pay_with(&mut ctx, None, Some(bursary_key())), Err(ClockPayError::AddressMismatch));
    assert_eq!(pay_with(&mut ctx, Some(pay_key()), None), Err(ClockPayError::AddressMismatch));
    assert_eq!(
        pay_with(&mut ctx, Some(bursary_key()), Some(pay_key())),
        Err(ClockPayError::AddressMismatch)
    );
    assert_eq!(ctx.pay_instance.cycles_completed, 0);
    assert!(pay_with(&mut ctx, Some(pay_key()), Some(bursary_key())).is_ok());
    assert_eq!(ctx.pay_instance.cycles_completed, 1);
}

#[test]
fn two_schedules_share_one_custodian() {
    let bursary = new_bursary(1000);
    let mut first = init_pay_ctx(bursary);
    init_pay(&mut first, 100, CRON.to_string(), 5).unwrap();

    let other = TokenAccount { address: key(11), mint: key(3), owner: key(7), amount: 0 };
    let other_pay = schedule_address(&program(), &bursary_key().0, &other.address).unwrap();
    let other_thread =
        thread_address(&other_pay.0, &trigger_id(&other.address).unwrap()).unwrap().0;
    let mut second = init_pay_ctx(first.bursary);
    second.receiver_wallet = other;
    second.pay_instance_address = other_pay.0;
    second.thread = other_thread;
    init_pay(&mut second, 300, "0 0 * * *".to_string(), 2).unwrap();
    assert_eq!(second.bursary.active_payments, 2);
    assert_ne!(other_pay.0, pay_key().0);

    let mut a = pay_ctx(second.bursary, first.pay_instance.unwrap());
    pay(&mut a).unwrap();
    let mut b = Pay {
        program_id: program(),
        pay_instance_address: other_pay.0,
        pay_instance: second.pay_instance.unwrap(),
        bursary_address: bursary_key().0,
        bursary: a.bursary,
        vault: vault(),
        receiver_wallet: other,
        thread: Party { address: other_thread, is_signer: true },
    };
    pay(&mut b).unwrap();
    assert_eq!(b.bursary.balance, 600);
    a.bursary = b.bursary;
    pay(&mut a).unwrap();
    assert_eq!(a.bursary.balance, 500);
    assert_eq!(a.pay_instance.total_amount_disbursed, 200);
    assert_eq!(b.pay_instance.total_amount_disbursed, 300);
    assert!(counters_agree(&a.pay_instance));
    assert!(counters_agree(&b.pay_instance));
}

#[test]
fn deposits_keep_the_delegation_equal_to_the_balance() {
    let mut ctx = deposit_ctx(new_bursary(0));
    let first = deposit(&mut ctx, 300).unwrap();
    assert_eq!(first.approve.amount, ctx.bursary.balance);
    let second = deposit(&mut ctx, 200).unwrap();
    assert_eq!(second.approve.amount, 500);
    assert_eq!(ctx.bursary.balance, 500);
    assert_eq!(second.approve.delegate, bursary_key().0);
    assert_eq!(second.approve.to, key(2));
}

#[test]
fn check_records_looks_at_the_records_alone() {
    let ctx = scheduled(1000, 100, 5);
    let schedule = Some(pay_key());
    let custodian = Some(bursary_key());
    let check = |ctx: &Pay, vault: Address| {
        check_records(
            &ctx.pay_instance_address,
            &ctx.pay_instance,
            &ctx.bursary_address,
            &ctx.bursary,
            &vault,
            &schedule,
            &custodian,
        )
    };
    assert_eq!(check(&ctx, key(2)), Ok(()));
    assert_eq!(check(&ctx, key(5)), Err(ClockPayError::AddressMismatch));
    let mut done = ctx;
    done.pay_instance.cycles_completed = 5;
    assert_eq!(check(&done, key(2)), Err(ClockPayError::CycleLimitExhausted));
    done.pay_instance_address = key(5);
    assert_eq!(check(&done, key(2)), Err(ClockPayError::AddressMismatch));
    let mut other = ctx;
    other.pay_instance.bursary = key(5);
    assert_eq!(check(&other, key(2)), Err(ClockPayError::AddressMismatch));
}
