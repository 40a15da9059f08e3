//! The requests that a transition hands to the host: to the ledger, which
//! moves value, and to the trigger service, which calls back on a cadence.

use crate::address::{seeds_view, Address};
use solana_program::pubkey::Pubkey;
use vstd::bytes::*;
use vstd::prelude::*;

verus! {

/// A request to the ledger: let `delegate` spend up to `amount` from the
/// balance holder `to`. The authority of the balance holder signs it.
#[derive(Clone, Copy, Debug, PartialEq, Eq)]
pub struct Approve {
    pub to: Address,
    pub delegate: Address,
    pub authority: Address,
    pub amount: u64,
}

/// A request to the ledger: move `amount` from one balance holder to
/// another, on the word of `authority`.
#[derive(Clone, Copy, Debug, PartialEq, Eq)]
pub struct Transfer {
    pub from: Address,
    pub to: Address,
    pub authority: Address,
    pub amount: u64,
}

/// An account of an instruction and how the instruction uses it.
#[derive(Clone, Copy, Debug, PartialEq, Eq)]
pub struct AccountMetaData {
    pub pubkey: Address,
    pub is_signer: bool,
    pub is_writable: bool,
}

/// An instruction as the host sends it: the program it goes to, the
/// accounts it uses and its data.
#[derive(Clone, Debug, PartialEq, Eq)]
pub struct InstructionData {
    pub program_id: Address,
    pub accounts: Vec<AccountMetaData>,
    pub data: Vec<u8>,
}

/// A request to the trigger service: create the trigger `thread` under
/// `id` for `authority`, which signs with its seeds, and let it send
/// `kickoff_instruction` on the cadence `schedule`.
#[derive(Clone, Debug, PartialEq, Eq)]
pub struct ThreadCreate {
    pub authority: Address,
    pub payer: Address,
    pub thread: Address,
    pub id: String,
    pub kickoff_instruction: InstructionData,
    pub schedule: Vec<u8>,
    pub skippable: bool,
    pub signer_seeds: Vec<Vec<u8>>,
}

/// What a callback answers to the trigger service: the instructions that
/// replace the trigger's own, if any.
#[derive(Clone, Debug, PartialEq, Eq)]
pub struct ThreadResponse {
    pub kickoff_instruction: Option<InstructionData>,
    pub next_instruction: Option<InstructionData>,
}

/// What a deposit hands back: the move into the pool, which the funder
/// signs, and the delegation of the raised balance, which the authority
/// of the pool signs.
#[derive(Clone, Copy, Debug, PartialEq, Eq)]
pub struct Funding {
    pub transfer: Transfer,
    pub approve: Approve,
}

/// What a deposit on accounts hands back: the two instructions for the
/// ledger, both signed by parties to the transaction.
#[derive(Clone, Debug, PartialEq, Eq)]
pub struct FundingCall {
    pub transfer: InstructionData,
    pub approve: InstructionData,
}

/// What one executed cycle hands back: the move that the ledger has to
/// make, the seeds with which the custodian record signs it as delegate,
/// and the answer to the trigger service.
#[derive(Clone, Debug, PartialEq, Eq)]
pub struct Disbursement {
    pub transfer: Transfer,
    pub signer_seeds: Vec<Vec<u8>>,
    pub response: ThreadResponse,
}

/// What one cycle executed on accounts hands back: the instruction for
/// the ledger, the seeds with which the custodian record signs it as
/// delegate, and the answer to the trigger service.
#[derive(Clone, Debug, PartialEq, Eq)]
pub struct Payment {
    pub instruction: InstructionData,
    pub signer_seeds: Vec<Vec<u8>>,
    pub response: ThreadResponse,
}

/// What the creation of a record on accounts hands back: the seeds with
/// which the new record signs for its own account, and the instruction
/// for the ledger that goes with the creation, if there is one.
#[derive(Clone, Debug, PartialEq, Eq)]
pub struct Creation {
    pub signer_seeds: Vec<Vec<u8>>,
    pub instruction: Option<InstructionData>,
}

/// What the host has to carry out after an instruction.
#[derive(Clone, Debug, PartialEq, Eq)]
pub enum Request {
    /// The creation of the account of a new record, signed by the record,
    /// and an instruction for the ledger, signed by parties to the
    /// transaction, if there is one.
    Create(Creation),
    /// Two instructions for the ledger, signed by parties to the
    /// transaction: a move into the pool and the delegation that follows
    /// it.
    Fund(FundingCall),
    /// The creation of a trigger by the trigger service.
    ThreadCreate(ThreadCreate),
    /// An instruction for the ledger, signed by a custodian record, and
    /// the answer to the trigger service.
    Payment(Payment),
}

impl ThreadResponse {
    /// Whether the answer leaves the trigger as it is.
    pub open spec fn is_unchanged(self) -> bool {
        self.kickoff_instruction is None && self.next_instruction is None
    }
}

impl Default for ThreadResponse {
    /// The answer that leaves the trigger as it is.
    fn default() -> (response: ThreadResponse)
        ensures
            response.is_unchanged(),
    {
        ThreadResponse { kickoff_instruction: None, next_instruction: None }
    }
}

/// An account that an instruction may write.
pub open spec fn writable(pubkey: Address, is_signer: bool) -> AccountMetaData {
    AccountMetaData { pubkey, is_signer, is_writable: true }
}

/// An account that an instruction only reads.
pub open spec fn readonly(pubkey: Address, is_signer: bool) -> AccountMetaData {
    AccountMetaData { pubkey, is_signer, is_writable: false }
}

/// The accounts of the instruction that runs one cycle, in their order:
/// the schedule record, the custodian record, the pool, the recipient,
/// the trigger as signer, and the ledger's program, which is only read.
pub open spec fn pay_accounts(
    pay_instance: Address,
    bursary: Address,
    vault: Address,
    receiver_wallet: Address,
    thread: Address,
    token_program: Address,
) -> Seq<AccountMetaData> {
    seq![
        writable(pay_instance, false),
        writable(bursary, false),
        writable(vault, false),
        writable(receiver_wallet, false),
        writable(thread, true),
        readonly(token_program, false),
    ]
}

/// The data of the instruction that runs one cycle, in the wire form that
/// `ClockPayInstruction::unpack` reads: the number four in eight
/// little-endian bytes, of which the first is the tag. A host that
/// dispatches on other data puts its own in its place.
pub open spec fn pay_data() -> Seq<u8> {
    spec_u64_to_le_bytes(4)
}

/// Whether `instruction` is the one that runs a cycle of the schedule
/// with the given accounts under the program.
pub open spec fn is_pay_instruction(
    instruction: InstructionData,
    program_id: Address,
    pay_instance: Address,
    bursary: Address,
    vault: Address,
    receiver_wallet: Address,
    thread: Address,
    token_program: Address,
) -> bool {
    &&& instruction.program_id == program_id
    &&& instruction.accounts@ == pay_accounts(
        pay_instance,
        bursary,
        vault,
        receiver_wallet,
        thread,
        token_program,
    )
    &&& instruction.data@ == pay_data()
}

/// The instruction that runs one cycle of a schedule.
pub fn pay_instruction(
    program_id: Address,
    pay_instance: Address,
    bursary: Address,
    vault: Address,
    receiver_wallet: Address,
    thread: Address,
    token_program: Address,
) -> (instruction: InstructionData)
    ensures
        is_pay_instruction(
            instruction,
            program_id,
            pay_instance,
            bursary,
            vault,
            receiver_wallet,
            thread,
            token_program,
        ),
{
    let mut accounts: Vec<AccountMetaData> = Vec::new();
    accounts.push(AccountMetaData { pubkey: pay_instance, is_signer: false, is_writable: true });
    accounts.push(AccountMetaData { pubkey: bursary, is_signer: false, is_writable: true });
    accounts.push(AccountMetaData { pubkey: vault, is_signer: false, is_writable: true });
    accounts.push(
        AccountMetaData { pubkey: receiver_wallet, is_signer: false, is_writable: true },
    );
    accounts.push(AccountMetaData { pubkey: thread, is_signer: true, is_writable: true });
    accounts.push(AccountMetaData { pubkey: token_program, is_signer: false, is_writable: false });
    assert(accounts@ =~= pay_accounts(
        pay_instance,
        bursary,
        vault,
        receiver_wallet,
        thread,
        token_program,
    ));
    InstructionData { program_id, accounts, data: u64_to_le_bytes(4) }
}

/// Whether `request` asks for the trigger with the given parts.
pub open spec fn is_thread_create(
    request: ThreadCreate,
    authority: Address,
    payer: Address,
    thread: Address,
    id: Seq<char>,
    schedule: Seq<u8>,
    signer_seeds: Seq<Seq<u8>>,
) -> bool {
    &&& request.authority == authority
    &&& request.payer == payer
    &&& request.thread == thread
    &&& request.id@ == id
    &&& request.schedule@ == schedule
    &&& !request.skippable
    &&& seeds_view(request.signer_seeds@) == signer_seeds
}

/// The address of the ledger's program.
pub open spec fn token_program() -> Seq<u8> {
    seq![
        6u8, 221u8, 246u8, 225u8, 215u8, 101u8, 161u8, 147u8, 217u8, 203u8, 225u8, 70u8, 206u8,
        235u8, 121u8, 172u8, 28u8, 180u8, 133u8, 237u8, 95u8, 91u8, 55u8, 145u8, 58u8, 140u8,
        245u8, 133u8, 126u8, 255u8, 0u8, 169u8,
    ]
}

/// The address of the ledger's program.
pub fn token_program_id() -> (id: Address)
    ensures
        id@ == token_program(),
{
    let id = Address {
        bytes: [
            6u8, 221u8, 246u8, 225u8, 215u8, 101u8, 161u8, 147u8, 217u8, 203u8, 225u8, 70u8,
            206u8, 235u8, 121u8, 172u8, 28u8, 180u8, 133u8, 237u8, 95u8, 91u8, 55u8, 145u8, 58u8,
            140u8, 245u8, 133u8, 126u8, 255u8, 0u8, 169u8,
        ],
    };
    assert(id@ =~= token_program());
    id
}

/// Whether `instruction` asks the ledger for the move: sent to the
/// ledger's program, on the source and the destination, which it writes,
/// and the authority, which signs; the data is the tag three and the
/// amount in eight little-endian bytes.
pub open spec fn is_transfer_instruction(
    instruction: InstructionData,
    token_program_id: Address,
    transfer: Transfer,
) -> bool {
    &&& instruction.program_id == token_program_id
    &&& instruction.accounts@ == seq![
        writable(transfer.from, false),
        writable(transfer.to, false),
        readonly(transfer.authority, true),
    ]
    &&& instruction.data@ == seq![3u8] + spec_u64_to_le_bytes(transfer.amount)
}

/// Whether `instruction` asks the ledger for the delegation: sent to the
/// ledger's program, on the balance holder, which it writes, the
/// delegate, and the authority, which signs; the data is the tag four and
/// the amount in eight little-endian bytes.
pub open spec fn is_approve_instruction(
    instruction: InstructionData,
    token_program_id: Address,
    approve: Approve,
) -> bool {
    &&& instruction.program_id == token_program_id
    &&& instruction.accounts@ == seq![
        writable(approve.to, false),
        readonly(approve.delegate, false),
        readonly(approve.authority, true),
    ]
    &&& instruction.data@ == seq![4u8] + spec_u64_to_le_bytes(approve.amount)
}

/// Calls `spl_token::instruction::transfer` with no further signers. It
/// fails exactly where the program is not the token program; else the
/// instruction goes to that program, lists the source and the destination
/// as writable and the authority as read-only signer, and its data is the
/// byte three followed by the amount, little-endian.
#[verifier::external_body]
fn spl_transfer(token_program_id: &Address, transfer: &Transfer) -> (built: Option<InstructionData>)
    ensures
        built is Some <==> token_program_id@ == token_program(),
        built matches Some(instruction) ==> is_transfer_instruction(
            instruction,
            *token_program_id,
            *transfer,
        ),
{
    let program = Pubkey::new_from_array(token_program_id.bytes);
    let from = Pubkey::new_from_array(transfer.from.bytes);
    let to = Pubkey::new_from_array(transfer.to.bytes);
    let authority = Pubkey::new_from_array(transfer.authority.bytes);
    let built = spl_token::instruction::transfer(&program, &from, &to, &authority, &[], transfer.amount);
    built.ok().map(|ix| InstructionData {
        program_id: Address { bytes: ix.program_id.to_bytes() },
        accounts: ix.accounts.iter().map(|m| AccountMetaData {
            pubkey: Address { bytes: m.pubkey.to_bytes() },
            is_signer: m.is_signer,
            is_writable: m.is_writable,
        }).collect(),
        data: ix.data,
    })
}

/// Calls `spl_token::instruction::approve` with no further signers. It
/// fails exactly where the program is not the token program; else the
/// instruction goes to that program, lists the balance holder as
/// writable, the delegate as read-only and the owner as read-only signer,
/// and its data is the byte four followed by the amount, little-endian.
#[verifier::external_body]
fn spl_approve(token_program_id: &Address, approve: &Approve) -> (built: Option<InstructionData>)
    ensures
        built is Some <==> token_program_id@ == token_program(),
        built matches Some(instruction) ==> is_approve_instruction(
            instruction,
            *token_program_id,
            *approve,
        ),
{
    let program = Pubkey::new_from_array(token_program_id.bytes);
    let to = Pubkey::new_from_array(approve.to.bytes);
    let delegate = Pubkey::new_from_array(approve.delegate.bytes);
    let authority = Pubkey::new_from_array(approve.authority.bytes);
    let built = spl_token::instruction::approve(&program, &to, &delegate, &authority, &[], approve.amount);
    built.ok().map(|ix| InstructionData {
        program_id: Address { bytes: ix.program_id.to_bytes() },
        accounts: ix.accounts.iter().map(|m| AccountMetaData {
            pubkey: Address { bytes: m.pubkey.to_bytes() },
            is_signer: m.is_signer,
            is_writable: m.is_writable,
        }).collect(),
        data: ix.data,
    })
}

/// The instruction that asks the ledger for a move. There is none where
/// the program is not the ledger's.
pub fn transfer_instruction(token_program_id: &Address, transfer: &Transfer) -> (built: Option<
    InstructionData,
>)
    ensures
        built is Some <==> token_program_id@ == token_program(),
        built matches Some(instruction) ==> is_transfer_instruction(
            instruction,
            *token_program_id,
            *transfer,
        ),
{
    spl_transfer(token_program_id, transfer)
}

/// The instruction that asks the ledger for a delegation. There is none
/// where the program is not the ledger's.
pub fn approve_instruction(token_program_id: &Address, approve: &Approve) -> (built: Option<
    InstructionData,
>)
    ensures
        built is Some <==> token_program_id@ == token_program(),
        built matches Some(instruction) ==> is_approve_instruction(
            instruction,
            *token_program_id,
            *approve,
        ),
{
    spl_approve(token_program_id, approve)
}

} // verus!
