//! The two persistent records and their layout in account data.

use crate::address::Address;
use crate::bytes::{
    append, append_address, append_u64, bits_of, flag_byte, i64_bits, i64_from_bits,
    lemma_bits_round_trip, read_address, read_u64, signed_of,
};
use crate::error::ClockPayError;
use vstd::bytes::*;
use vstd::prelude::*;

verus! {

/// Number of bytes that a stored cadence descriptor occupies.
pub const SCHEDULE_LEN: usize = 30;

/// The custodian record: delegated spend authority over one pool.
#[derive(Clone, Copy, Debug, PartialEq, Eq)]
pub struct Bursary {
    /// The funder, who alone creates schedules under this record.
    pub authority: Address,
    /// Number of schedules that draw on this record.
    pub active_payments: u64,
    /// The pool whose funds are delegated.
    pub vault: Address,
    /// Value still delegated and not yet disbursed.
    pub balance: u64,
    /// Whether disbursement is on hold.
    pub suspended: bool,
    /// The bump of the record's own address.
    pub bump: u8,
}

/// The schedule record: one recurring payment to one recipient.
#[derive(Clone, Copy, Debug, PartialEq, Eq)]
pub struct PayInstance {
    /// Address of the custodian record that pays.
    pub bursary: Address,
    /// Whether a trigger is registered for the schedule.
    pub payment_active: bool,
    /// Value moved in each cycle.
    pub amount: u64,
    /// Sum of all value moved so far.
    pub total_amount_disbursed: u64,
    /// The cadence descriptor, padded with zero bytes at its end.
    pub cron_schedule: [u8; 30],
    /// Number of cycles the schedule may run.
    pub cycles: u64,
    /// Number of cycles run so far.
    pub cycles_completed: u64,
    /// The balance holder that is paid.
    pub receiver_wallet: Address,
    /// Address of the trigger that runs the schedule.
    pub thread: Address,
    /// Time of creation, in seconds since the epoch.
    pub start_time: i64,
    /// The bump of the record's own address.
    pub bump: u8,
}

/// A descriptor without the zero bytes at its end.
pub open spec fn trimmed(buffer: Seq<u8>) -> Seq<u8>
    decreases buffer.len(),
{
    if buffer.len() > 0 && buffer.last() == 0 {
        trimmed(buffer.drop_last())
    } else {
        buffer
    }
}

/// A descriptor followed by zero bytes up to the stored length.
pub open spec fn padded(text: Seq<u8>) -> Seq<u8> {
    Seq::new(30, |i: int| if i < text.len() { text[i] } else { 0u8 })
}

/// Trimming cuts a buffer after its last non-zero byte.
pub proof fn lemma_trimmed_is_prefix(buffer: Seq<u8>, keep: int)
    requires
        0 <= keep <= buffer.len(),
        forall|i: int| keep <= i < buffer.len() ==> buffer[i] == 0,
        keep > 0 ==> buffer[keep - 1] != 0,
    ensures
        trimmed(buffer) == buffer.subrange(0, keep),
    decreases buffer.len(),
{
    if buffer.len() > keep {
        let shorter = buffer.drop_last();
        lemma_trimmed_is_prefix(shorter, keep);
        assert(shorter.subrange(0, keep) =~= buffer.subrange(0, keep));
    } else {
        assert(buffer.subrange(0, keep) =~= buffer);
    }
}

/// A descriptor of at most thirty bytes that does not end in a zero byte
/// comes back from its padded form.
pub proof fn lemma_trimmed_padded(text: Seq<u8>)
    requires
        text.len() <= 30,
        text.len() > 0 ==> text.last() != 0,
    ensures
        trimmed(padded(text)) == text,
{
    lemma_trimmed_is_prefix(padded(text), text.len() as int);
    assert(padded(text).subrange(0, text.len() as int) =~= text);
}

/// What trimming cuts off a buffer is zero bytes at its end.
pub proof fn lemma_trimmed_shape(buffer: Seq<u8>)
    ensures
        trimmed(buffer).len() <= buffer.len(),
        trimmed(buffer) == buffer.subrange(0, trimmed(buffer).len() as int),
        forall|i: int| trimmed(buffer).len() <= i < buffer.len() ==> buffer[i] == 0,
        trimmed(buffer).len() > 0 ==> trimmed(buffer).last() != 0,
    decreases buffer.len(),
{
    if buffer.len() > 0 && buffer.last() == 0 {
        let shorter = buffer.drop_last();
        lemma_trimmed_shape(shorter);
        let keep = trimmed(shorter).len() as int;
        assert(shorter.subrange(0, keep) =~= buffer.subrange(0, keep));
        assert forall|i: int| keep <= i < buffer.len() implies buffer[i] == 0 by {
            if i < shorter.len() {
                assert(shorter[i] == buffer[i]);
            }
        }
    } else {
        assert(buffer.subrange(0, buffer.len() as int) =~= buffer);
    }
}

/// A stored buffer of thirty bytes comes back from its trimmed form.
pub proof fn lemma_padded_trimmed(buffer: Seq<u8>)
    requires
        buffer.len() == 30,
    ensures
        padded(trimmed(buffer)) == buffer,
{
    lemma_trimmed_shape(buffer);
    assert(padded(trimmed(buffer)) =~= buffer);
}

/// Pads a descriptor of at most thirty bytes with zero bytes.
pub fn pad_schedule(text: &[u8]) -> (buffer: [u8; 30])
    requires
        text@.len() <= 30,
    ensures
        buffer@ == padded(text@),
{
    let mut buffer: [u8; 30] = [0u8; 30];
    let mut i: usize = 0;
    while i < text.len()
        invariant
            i <= text@.len() <= 30,
            forall|j: int| 0 <= j < i ==> buffer[j] == text@[j],
            forall|j: int| i <= j < 30 ==> buffer[j] == 0,
        decreases text@.len() - i,
    {
        buffer[i] = text[i];
        i += 1;
    }
    assert(buffer@ =~= padded(text@));
    buffer
}

/// The descriptor that a stored buffer holds: the buffer without the zero
/// bytes at its end.
pub fn trim_schedule(buffer: &[u8; 30]) -> (text: Vec<u8>)
    ensures
        text@ == trimmed(buffer@),
{
    let mut keep: usize = SCHEDULE_LEN;
    while keep > 0 && buffer[keep - 1] == 0
        invariant
            keep <= 30,
            forall|i: int| keep <= i < 30 ==> buffer[i] == 0,
        decreases keep,
    {
        keep -= 1;
    }
    let mut text: Vec<u8> = Vec::new();
    let mut i: usize = 0;
    while i < keep
        invariant
            i <= keep <= 30,
            text@ == buffer@.subrange(0, i as int),
        decreases keep - i,
    {
        text.push(buffer[i]);
        i += 1;
        assert(text@ =~= buffer@.subrange(0, i as int));
    }
    proof {
        lemma_trimmed_is_prefix(buffer@, keep as int);
    }
    text
}

impl Bursary {
    /// Number of bytes of a stored custodian record.
    pub const SIZE: usize = 82;

    /// The stored form: the fields in order, numbers little-endian.
    pub open spec fn spec_pack(self) -> Seq<u8> {
        self.authority@ + spec_u64_to_le_bytes(self.active_payments) + self.vault@
            + spec_u64_to_le_bytes(self.balance) + seq![flag_byte(self.suspended), self.bump]
    }

    /// Whether the bytes hold a custodian record.
    pub open spec fn decodable(data: Seq<u8>) -> bool {
        data.len() == 82 && data[80] <= 1
    }

    /// Whether the bytes hold exactly this custodian record.
    pub open spec fn decodes(data: Seq<u8>, record: Bursary) -> bool {
        &&& Self::decodable(data)
        &&& record.authority@ == data.subrange(0, 32)
        &&& record.active_payments == spec_u64_from_le_bytes(data.subrange(32, 40))
        &&& record.vault@ == data.subrange(40, 72)
        &&& record.balance == spec_u64_from_le_bytes(data.subrange(72, 80))
        &&& record.suspended == (data[80] == 1)
        &&& record.bump == data[81]
    }

    /// The record that the bytes hold, where they hold one.
    pub open spec fn spec_unpack(data: Seq<u8>) -> Bursary {
        choose|record: Bursary| Self::decodes(data, record)
    }

    /// Bytes hold one record at most.
    pub proof fn lemma_decodes_one(data: Seq<u8>, record: Bursary)
        requires
            Self::decodes(data, record),
        ensures
            Self::spec_unpack(data) == record,
    {
        let other = Self::spec_unpack(data);
        assert(other.authority.bytes =~= record.authority.bytes);
        assert(other.vault.bytes =~= record.vault.bytes);
    }

    /// Writes the record in its stored form.
    pub fn pack(&self) -> (out: Vec<u8>)
        ensures
            out@ == self.spec_pack(),
            out@.len() == 82,
    {
        let mut out: Vec<u8> = Vec::new();
        append_address(&mut out, &self.authority);
        append_u64(&mut out, self.active_payments);
        append_address(&mut out, &self.vault);
        append_u64(&mut out, self.balance);
        out.push(if self.suspended { 1u8 } else { 0u8 });
        out.push(self.bump);
        proof {
            lemma_auto_spec_u64_to_from_le_bytes();
            assert(out@ =~= self.spec_pack());
        }
        out
    }

    /// Reads a record from its stored form. Fails with
    /// `InvalidAccountData` on any other length and on a flag byte that is
    /// neither zero nor one.
    pub fn unpack(data: &[u8]) -> (read: Result<Bursary, ClockPayError>)
        ensures
            match read {
                Ok(record) => Self::decodes(data@, record) && record == Self::spec_unpack(data@),
                Err(e) => e == ClockPayError::InvalidAccountData && !Self::decodable(data@),
            },
    {
        if data.len() != Self::SIZE {
            return Err(ClockPayError::InvalidAccountData);
        }
        if data[80] > 1 {
            return Err(ClockPayError::InvalidAccountData);
        }
        let record =
            Bursary {
                authority: read_address(data, 0),
                active_payments: read_u64(data, 32),
                vault: read_address(data, 40),
                balance: read_u64(data, 72),
                suspended: data[80] == 1,
                bump: data[81],
            };
        proof {
            Self::lemma_decodes_one(data@, record);
        }
        Ok(record)
    }
}

impl PayInstance {
    /// Greatest number of bytes of a cadence descriptor.
    pub const MAX_CRON_LEN: usize = 30;

    /// Number of bytes of a stored schedule record.
    pub const SIZE: usize = 168;

    /// Whether the counters agree: no more cycles run than allowed, and
    /// the sum disbursed is the cycles run times the amount of one cycle.
    pub open spec fn wf(self) -> bool {
        &&& self.cycles_completed <= self.cycles
        &&& self.total_amount_disbursed == self.cycles_completed * self.amount
    }

    /// The cadence descriptor without its padding.
    pub open spec fn spec_schedule(self) -> Seq<u8> {
        trimmed(self.cron_schedule@)
    }

    /// The cadence descriptor without its padding.
    pub fn schedule(&self) -> (text: Vec<u8>)
        ensures
            text@ == self.spec_schedule(),
    {
        trim_schedule(&self.cron_schedule)
    }

    /// The stored form: the fields in order, numbers little-endian.
    pub open spec fn spec_pack(self) -> Seq<u8> {
        self.bursary@ + seq![flag_byte(self.payment_active)] + spec_u64_to_le_bytes(self.amount)
            + spec_u64_to_le_bytes(self.total_amount_disbursed) + self.cron_schedule@
            + spec_u64_to_le_bytes(self.cycles) + spec_u64_to_le_bytes(self.cycles_completed)
            + self.receiver_wallet@ + self.thread@ + spec_u64_to_le_bytes(bits_of(self.start_time))
            + seq![self.bump]
    }

    /// Whether the bytes hold a schedule record.
    pub open spec fn decodable(data: Seq<u8>) -> bool {
        data.len() == 168 && data[32] <= 1
    }

    /// Whether the bytes hold exactly this schedule record.
    pub open spec fn decodes(data: Seq<u8>, record: PayInstance) -> bool {
        &&& Self::decodable(data)
        &&& record.bursary@ == data.subrange(0, 32)
        &&& record.payment_active == (data[32] == 1)
        &&& record.amount == spec_u64_from_le_bytes(data.subrange(33, 41))
        &&& record.total_amount_disbursed == spec_u64_from_le_bytes(data.subrange(41, 49))
        &&& record.cron_schedule@ == data.subrange(49, 79)
        &&& record.cycles == spec_u64_from_le_bytes(data.subrange(79, 87))
        &&& record.cycles_completed == spec_u64_from_le_bytes(data.subrange(87, 95))
        &&& record.receiver_wallet@ == data.subrange(95, 127)
        &&& record.thread@ == data.subrange(127, 159)
        &&& record.start_time == signed_of(spec_u64_from_le_bytes(data.subrange(159, 167)))
        &&& record.bump == data[167]
    }

    /// The record that the bytes hold, where they hold one.
    pub open spec fn spec_unpack(data: Seq<u8>) -> PayInstance {
        choose|record: PayInstance| Self::decodes(data, record)
    }

    /// Bytes hold one record at most.
    pub proof fn lemma_decodes_one(data: Seq<u8>, record: PayInstance)
        requires
            Self::decodes(data, record),
        ensures
            Self::spec_unpack(data) == record,
    {
        let other = Self::spec_unpack(data);
        assert(other.bursary.bytes =~= record.bursary.bytes);
        assert(other.receiver_wallet.bytes =~= record.receiver_wallet.bytes);
        assert(other.thread.bytes =~= record.thread.bytes);
        assert(other.cron_schedule =~= record.cron_schedule);
    }

    /// Writes the record in its stored form.
    pub fn pack(&self) -> (out: Vec<u8>)
        ensures
            out@ == self.spec_pack(),
            out@.len() == 168,
    {
        let mut out: Vec<u8> = Vec::new();
        append_address(&mut out, &self.bursary);
        out.push(if self.payment_active { 1u8 } else { 0u8 });
        append_u64(&mut out, self.amount);
        append_u64(&mut out, self.total_amount_disbursed);
        append(&mut out, self.cron_schedule.as_slice());
        append_u64(&mut out, self.cycles);
        append_u64(&mut out, self.cycles_completed);
        append_address(&mut out, &self.receiver_wallet);
        append_address(&mut out, &self.thread);
        append_u64(&mut out, i64_bits(self.start_time));
        out.push(self.bump);
        proof {
            lemma_auto_spec_u64_to_from_le_bytes();
            assert(out@ =~= self.spec_pack());
        }
        out
    }

    /// Reads a record from its stored form. Fails with
    /// `InvalidAccountData` on any other length and on a flag byte that is
    /// neither zero nor one.
    pub fn unpack(data: &[u8]) -> (read: Result<PayInstance, ClockPayError>)
        ensures
            match read {
                Ok(record) => Self::decodes(data@, record) && record == Self::spec_unpack(data@),
                Err(e) => e == ClockPayError::InvalidAccountData && !Self::decodable(data@),
            },
    {
        if data.len() != Self::SIZE {
            return Err(ClockPayError::InvalidAccountData);
        }
        if data[32] > 1 {
            return Err(ClockPayError::InvalidAccountData);
        }
        let mut cron_schedule: [u8; 30] = [0u8; 30];
        let mut i: usize = 0;
        while i < 30
            invariant
                i <= 30,
                data@.len() == 168,
                forall|j: int| 0 <= j < i ==> cron_schedule[j] == data@[49 + j],
            decreases 30 - i,
        {
            cron_schedule[i] = data[49 + i];
            i += 1;
        }
        assert(cron_schedule@ =~= data@.subrange(49, 79));
        let record =
            PayInstance {
                bursary: read_address(data, 0),
                payment_active: data[32] == 1,
                amount: read_u64(data, 33),
                total_amount_disbursed: read_u64(data, 41),
                cron_schedule,
                cycles: read_u64(data, 79),
                cycles_completed: read_u64(data, 87),
                receiver_wallet: read_address(data, 95),
                thread: read_address(data, 127),
                start_time: i64_from_bits(read_u64(data, 159)),
                bump: data[167],
            };
        proof {
            Self::lemma_decodes_one(data@, record);
        }
        Ok(record)
    }
}

/// A stored custodian record reads back as the record that was written,
/// and as no other.
pub proof fn lemma_bursary_round_trip(record: Bursary, other: Bursary)
    ensures
        Bursary::decodes(record.spec_pack(), record),
        Bursary::decodes(record.spec_pack(), other) ==> other == record,
{
    lemma_auto_spec_u64_to_from_le_bytes();
    let data = record.spec_pack();
    assert(data.subrange(0, 32) =~= record.authority@);
    assert(data.subrange(32, 40) =~= spec_u64_to_le_bytes(record.active_payments));
    assert(data.subrange(40, 72) =~= record.vault@);
    assert(data.subrange(72, 80) =~= spec_u64_to_le_bytes(record.balance));
    if Bursary::decodes(data, other) {
        assert(other.authority.bytes =~= record.authority.bytes);
        assert(other.vault.bytes =~= record.vault.bytes);
    }
}

/// A stored schedule record reads back as the record that was written,
/// and as no other.
pub proof fn lemma_pay_instance_round_trip(record: PayInstance, other: PayInstance)
    ensures
        PayInstance::decodes(record.spec_pack(), record),
        PayInstance::decodes(record.spec_pack(), other) ==> other == record,
{
    lemma_auto_spec_u64_to_from_le_bytes();
    lemma_bits_round_trip(record.start_time, 0);
    let data = record.spec_pack();
    assert(data.subrange(0, 32) =~= record.bursary@);
    assert(data.subrange(33, 41) =~= spec_u64_to_le_bytes(record.amount));
    assert(data.subrange(41, 49) =~= spec_u64_to_le_bytes(record.total_amount_disbursed));
    assert(data.subrange(49, 79) =~= record.cron_schedule@);
    assert(data.subrange(79, 87) =~= spec_u64_to_le_bytes(record.cycles));
    assert(data.subrange(87, 95) =~= spec_u64_to_le_bytes(record.cycles_completed));
    assert(data.subrange(95, 127) =~= record.receiver_wallet@);
    assert(data.subrange(127, 159) =~= record.thread@);
    assert(data.subrange(159, 167) =~= spec_u64_to_le_bytes(bits_of(record.start_time)));
    if PayInstance::decodes(data, other) {
        assert(other.bursary.bytes =~= record.bursary.bytes);
        assert(other.receiver_wallet.bytes =~= record.receiver_wallet.bytes);
        assert(other.thread.bytes =~= record.thread.bytes);
        assert(other.cron_schedule =~= record.cron_schedule);
    }
}

} // verus!
