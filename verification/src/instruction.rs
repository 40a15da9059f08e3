//! The instructions of the program and their wire form: one tag byte,
//! then the arguments in fixed layout.

use crate::bytes::{append, append_u64, read_u64};
use crate::error::ClockPayError;
use vstd::bytes::*;
use vstd::prelude::*;

verus! {

/// What a caller asks the program to do. Each instruction reads the
/// accounts that its description lists, in that order; accounts after them
/// are not read.
#[derive(Clone, Copy, Debug, PartialEq, Eq)]
pub enum ClockPayInstruction {
    /// Creates the custodian record of a funder and a pool, with nothing
    /// delegated yet.
    ///
    /// Accounts expected:
    ///
    /// 0. `[signer]` The funder.
    /// 1. `[]` The pool.
    /// 2. `[signer]` The authority of the pool.
    /// 3. `[writable]` The custodian record, at the address derived from
    ///    the funder and the pool.
    /// 4. `[]` The ledger's program.
    InitAccounting,
    /// Moves funds of the funder into the pool, raises the balance of the
    /// custodian record and delegates the raised balance to it.
    ///
    /// Accounts expected:
    ///
    /// 0. `[signer]` The funder.
    /// 1. `[writable]` The custodian record.
    /// 2. `[writable]` The funder's balance holder, which is debited.
    /// 3. `[writable]` The pool.
    /// 4. `[signer]` The authority of the pool.
    /// 5. `[]` The ledger's program.
    Deposit(DepositArgs),
    /// Creates the schedule record of a custodian record and a recipient.
    ///
    /// Accounts expected:
    ///
    /// 0. `[signer]` The funder.
    /// 1. `[]` The custodian record.
    /// 2. `[]` The pool.
    /// 3. `[writable]` The schedule record, at the address derived from
    ///    the custodian record and the recipient.
    /// 4. `[]` The recipient's balance holder.
    NewPayroll(NewPayrollArgs),
    /// Registers the trigger of a schedule and counts the schedule as
    /// active.
    ///
    /// Accounts expected:
    ///
    /// 0. `[signer]` The funder.
    /// 1. `[writable]` The custodian record.
    /// 2. `[]` The pool.
    /// 3. `[writable]` The schedule record.
    /// 4. `[]` The recipient's balance holder.
    /// 5. `[writable]` The trigger.
    /// 6. `[]` The ledger's program.
    InitPayment,
    /// Runs one cycle of a schedule. Sent by the trigger.
    ///
    /// Accounts expected:
    ///
    /// 0. `[writable]` The schedule record.
    /// 1. `[writable]` The custodian record.
    /// 2. `[writable]` The pool.
    /// 3. `[writable]` The recipient's balance holder.
    /// 4. `[signer]` The trigger.
    /// 5. `[]` The ledger's program.
    Pay,
}

/// The arguments of a deposit.
#[derive(Clone, Copy, Debug, PartialEq, Eq)]
pub struct DepositArgs {
    pub amount: u64,
}

/// The arguments of a new schedule.
#[derive(Clone, Copy, Debug, PartialEq, Eq)]
pub struct NewPayrollArgs {
    pub amount: u64,
    pub cycles: u64,
    /// The cadence descriptor, padded with zero bytes at its end.
    pub schedule: [u8; 30],
}

impl ClockPayInstruction {
    /// The tag byte of the instruction.
    pub open spec fn tag(self) -> u8 {
        match self {
            ClockPayInstruction::InitAccounting => 0,
            ClockPayInstruction::Deposit(_) => 1,
            ClockPayInstruction::NewPayroll(_) => 2,
            ClockPayInstruction::InitPayment => 3,
            ClockPayInstruction::Pay => 4,
        }
    }

    /// The wire form: the tag, then the arguments, numbers little-endian.
    pub open spec fn spec_pack(self) -> Seq<u8> {
        match self {
            ClockPayInstruction::Deposit(args) => seq![1u8] + spec_u64_to_le_bytes(args.amount),
            ClockPayInstruction::NewPayroll(args) => seq![2u8] + spec_u64_to_le_bytes(args.amount)
                + spec_u64_to_le_bytes(args.cycles) + args.schedule@,
            _ => seq![self.tag()],
        }
    }

    /// Whether the bytes after the tag are the arguments of a deposit.
    pub open spec fn deposit_args(src: Seq<u8>, args: DepositArgs) -> bool {
        src.len() == 8 && args.amount == spec_u64_from_le_bytes(src)
    }

    /// Whether the bytes after the tag are the arguments of a new
    /// schedule.
    pub open spec fn new_payroll_args(src: Seq<u8>, args: NewPayrollArgs) -> bool {
        &&& src.len() == 46
        &&& args.amount == spec_u64_from_le_bytes(src.subrange(0, 8))
        &&& args.cycles == spec_u64_from_le_bytes(src.subrange(8, 16))
        &&& args.schedule@ == src.subrange(16, 46)
    }

    /// Whether the input is a wire form of the instruction. The
    /// instructions without arguments ignore what follows the tag.
    pub open spec fn parses(input: Seq<u8>, instruction: ClockPayInstruction) -> bool {
        &&& input.len() > 0
        &&& input[0] == instruction.tag()
        &&& match instruction {
            ClockPayInstruction::Deposit(args) => Self::deposit_args(input.skip(1), args),
            ClockPayInstruction::NewPayroll(args) => Self::new_payroll_args(input.skip(1), args),
            _ => true,
        }
    }

    /// The instruction that the input is a wire form of, where it is one.
    pub open spec fn spec_unpack(input: Seq<u8>) -> ClockPayInstruction {
        choose|instruction: ClockPayInstruction| Self::parses(input, instruction)
    }

    /// An input is the wire form of one instruction at most.
    pub proof fn lemma_parses_one(input: Seq<u8>, instruction: ClockPayInstruction)
        requires
            Self::parses(input, instruction),
        ensures
            Self::spec_unpack(input) == instruction,
    {
        let other = Self::spec_unpack(input);
        match (instruction, other) {
            (ClockPayInstruction::NewPayroll(a), ClockPayInstruction::NewPayroll(b)) => {
                assert(a.schedule =~= b.schedule);
            },
            _ => {},
        }
    }

    /// The error with which the input is refused, if it is.
    pub open spec fn refusal(input: Seq<u8>) -> Option<ClockPayError> {
        if input.len() == 0 || input[0] > 4 {
            Some(ClockPayError::InvalidInstruction)
        } else if input[0] == 1 && input.len() != 9 {
            Some(ClockPayError::InvalidInstructionData)
        } else if input[0] == 2 && input.len() != 47 {
            Some(ClockPayError::InvalidInstructionData)
        } else {
            None
        }
    }

    /// Reads an instruction from its wire form. Fails with
    /// `InvalidInstruction` on empty input and on an unknown tag, and with
    /// `InvalidInstructionData` where the bytes after the tag of a deposit
    /// or of a new schedule are not exactly its arguments.
    pub fn unpack(input: &[u8]) -> (read: Result<ClockPayInstruction, ClockPayError>)
        ensures
            match read {
                Ok(instruction) => {
                    &&& Self::parses(input@, instruction)
                    &&& Self::refusal(input@) is None
                    &&& instruction == Self::spec_unpack(input@)
                },
                Err(e) => Self::refusal(input@) == Some(e),
            },
    {
        if input.len() == 0 {
            return Err(ClockPayError::InvalidInstruction);
        }
        let tag = input[0];
        let rest = vstd::slice::slice_subrange(input, 1, input.len());
        assert(rest@ =~= input@.skip(1));
        let read = match tag {
            0 => Self::unpack_init_accounting_args(),
            1 => Self::unpack_deposit_args(rest),
            2 => Self::unpack_new_payroll_args(rest),
            3 => Self::unpack_init_payment_args(),
            4 => Self::unpack_pay_args(),
            _ => Err(ClockPayError::InvalidInstruction),
        };
        proof {
            if let Ok(instruction) = read {
                Self::lemma_parses_one(input@, instruction);
            }
        }
        read
    }

    /// The instruction that creates a custodian record; it has no
    /// arguments.
    pub fn unpack_init_accounting_args() -> (read: Result<ClockPayInstruction, ClockPayError>)
        ensures
            read == Ok::<ClockPayInstruction, ClockPayError>(ClockPayInstruction::InitAccounting),
    {
        Ok(ClockPayInstruction::InitAccounting)
    }

    /// Reads the arguments of a deposit: the amount, in exactly eight
    /// bytes.
    pub fn unpack_deposit_args(src: &[u8]) -> (read: Result<ClockPayInstruction, ClockPayError>)
        ensures
            match read {
                Ok(instruction) => instruction matches ClockPayInstruction::Deposit(args)
                    && Self::deposit_args(src@, args),
                Err(e) => e == ClockPayError::InvalidInstructionData && src@.len() != 8,
            },
    {
        if src.len() != 8 {
            return Err(ClockPayError::InvalidInstructionData);
        }
        let amount = read_u64(src, 0);
        assert(src@.subrange(0, 8) =~= src@);
        Ok(ClockPayInstruction::Deposit(DepositArgs { amount }))
    }

    /// Reads the arguments of a new schedule: the amount, the number of
    /// cycles and the thirty bytes of the cadence descriptor, in exactly
    /// 46 bytes.
    pub fn unpack_new_payroll_args(src: &[u8]) -> (read: Result<
        ClockPayInstruction,
        ClockPayError,
    >)
        ensures
            match read {
                Ok(instruction) => instruction matches ClockPayInstruction::NewPayroll(args)
                    && Self::new_payroll_args(src@, args),
                Err(e) => e == ClockPayError::InvalidInstructionData && src@.len() != 46,
            },
    {
        if src.len() != 46 {
            return Err(ClockPayError::InvalidInstructionData);
        }
        let amount = read_u64(src, 0);
        let cycles = read_u64(src, 8);
        let mut schedule: [u8; 30] = [0u8; 30];
        let mut i: usize = 0;
        while i < 30
            invariant
                i <= 30,
                src@.len() == 46,
                forall|j: int| 0 <= j < i ==> schedule[j] == src@[16 + j],
            decreases 30 - i,
        {
            schedule[i] = src[16 + i];
            i += 1;
        }
        assert(schedule@ =~= src@.subrange(16, 46));
        Ok(ClockPayInstruction::NewPayroll(NewPayrollArgs { amount, cycles, schedule }))
    }

    /// The instruction that registers a trigger; it has no arguments.
    pub fn unpack_init_payment_args() -> (read: Result<ClockPayInstruction, ClockPayError>)
        ensures
            read == Ok::<ClockPayInstruction, ClockPayError>(ClockPayInstruction::InitPayment),
    {
        Ok(ClockPayInstruction::InitPayment)
    }

    /// The instruction that runs a cycle; it has no arguments.
    pub fn unpack_pay_args() -> (read: Result<ClockPayInstruction, ClockPayError>)
        ensures
            read == Ok::<ClockPayInstruction, ClockPayError>(ClockPayInstruction::Pay),
    {
        Ok(ClockPayInstruction::Pay)
    }

    /// Writes the instruction in its wire form.
    pub fn pack(&self) -> (out: Vec<u8>)
        ensures
            out@ == self.spec_pack(),
    {
        let mut out: Vec<u8> = Vec::new();
        match self {
            ClockPayInstruction::InitAccounting => {
                out.push(0u8);
            },
            ClockPayInstruction::Deposit(args) => {
                out.push(1u8);
                append_u64(&mut out, args.amount);
            },
            ClockPayInstruction::NewPayroll(args) => {
                out.push(2u8);
                append_u64(&mut out, args.amount);
                append_u64(&mut out, args.cycles);
                append(&mut out, args.schedule.as_slice());
            },
            ClockPayInstruction::InitPayment => {
                out.push(3u8);
            },
            ClockPayInstruction::Pay => {
                out.push(4u8);
            },
        }
        assert(out@ =~= self.spec_pack());
        out
    }
}

/// The wire form of an instruction is read back as that instruction, and
/// an input is the wire form of one instruction at most.
pub proof fn lemma_instruction_round_trip(
    instruction: ClockPayInstruction,
    input: Seq<u8>,
    other: ClockPayInstruction,
)
    ensures
        ClockPayInstruction::parses(instruction.spec_pack(), instruction),
        ClockPayInstruction::refusal(instruction.spec_pack()) is None,
        ClockPayInstruction::parses(input, instruction) && ClockPayInstruction::parses(
            input,
            other,
        ) ==> other == instruction,
{
    lemma_auto_spec_u64_to_from_le_bytes();
    let wire = instruction.spec_pack();
    match instruction {
        ClockPayInstruction::Deposit(args) => {
            assert(wire.skip(1) =~= spec_u64_to_le_bytes(args.amount));
        },
        ClockPayInstruction::NewPayroll(args) => {
            let rest = wire.skip(1);
            assert(rest.subrange(0, 8) =~= spec_u64_to_le_bytes(args.amount));
            assert(rest.subrange(8, 16) =~= spec_u64_to_le_bytes(args.cycles));
            assert(rest.subrange(16, 46) =~= args.schedule@);
        },
        _ => {},
    }
    if ClockPayInstruction::parses(input, instruction) && ClockPayInstruction::parses(
        input,
        other,
    ) {
        match (instruction, other) {
            (ClockPayInstruction::NewPayroll(a), ClockPayInstruction::NewPayroll(b)) => {
                assert(a.schedule =~= b.schedule);
            },
            _ => {},
        }
    }
}

} // verus!
