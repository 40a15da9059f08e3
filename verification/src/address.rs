//! Addresses and their derivation from seeds.

use solana_program::pubkey::Pubkey;
use vstd::prelude::*;
use vstd::string::*;
use vstd::utf8::is_ascii_chars;

verus! {

/// Number of bytes in an address.
pub const ADDRESS_LEN: usize = 32;

/// The identity of an account, a program or a party.
#[derive(Clone, Copy, Debug, PartialEq, Eq, Hash)]
pub struct Address {
    pub bytes: [u8; 32],
}

impl View for Address {
    type V = Seq<u8>;

    open spec fn view(&self) -> Seq<u8> {
        self.bytes@
    }
}

impl Address {
    /// The address with the given bytes.
    pub fn new(bytes: [u8; 32]) -> (a: Address)
        ensures
            a.bytes == bytes,
    {
        Address { bytes }
    }

    /// Whether every byte of the address is zero.
    pub open spec fn is_zero(self) -> bool {
        forall|i: int| 0 <= i < 32 ==> self.bytes[i] == 0
    }

    /// The address whose bytes are all zero.
    pub open spec fn spec_zero() -> Address {
        Address { bytes: vstd::array::spec_array_fill_for_copy_type::<u8, 32>(0u8) }
    }

    /// The address whose bytes are all zero.
    #[verifier::when_used_as_spec(spec_zero)]
    pub fn zero() -> (a: Address)
        ensures
            a.is_zero(),
            a == Self::spec_zero(),
    {
        Address { bytes: [0u8; 32] }
    }

    /// Whether two addresses hold the same bytes.
    pub fn equals(&self, other: &Address) -> (same: bool)
        ensures
            same == (self@ == other@),
            same == (*self == *other),
    {
        let mut i: usize = 0;
        while i < ADDRESS_LEN
            invariant
                i <= 32,
                forall|j: int| 0 <= j < i ==> self.bytes[j] == other.bytes[j],
            decreases 32 - i,
        {
            if self.bytes[i] != other.bytes[i] {
                return false;
            }
            i += 1;
        }
        assert(self.bytes =~= other.bytes);
        true
    }

    /// The bytes of the address, in a vector.
    pub fn to_vec(&self) -> (v: Vec<u8>)
        ensures
            v@ == self@,
    {
        let mut v: Vec<u8> = Vec::new();
        let mut i: usize = 0;
        while i < ADDRESS_LEN
            invariant
                i <= 32,
                v@.len() == i,
                forall|j: int| 0 <= j < i ==> v@[j] == self.bytes[j],
            decreases 32 - i,
        {
            v.push(self.bytes[i]);
            i += 1;
        }
        assert(v@ =~= self@);
        v
    }
}

/// What `Pubkey::try_find_program_address` yields for the given seeds and
/// program: the derived address with its bump, or nothing when no bump
/// gives a valid address.
pub uninterp spec fn program_address(seeds: Seq<Seq<u8>>, program_id: Seq<u8>) -> Option<(Seq<u8>, u8)>;

/// The seeds of a derivation as a sequence of byte strings.
pub open spec fn seeds_view(seeds: Seq<Vec<u8>>) -> Seq<Seq<u8>> {
    Seq::new(seeds.len(), |i: int| seeds[i]@)
}

/// Calls `Pubkey::try_find_program_address` of solana_program. The result
/// is a function of the seeds and the program alone; the contract names it
/// and claims nothing else about it.
#[verifier::external_body]
fn try_find_program_address(seeds: &Vec<Vec<u8>>, program_id: &Address) -> (found: Option<(Address, u8)>)
    ensures
        match found {
            Some((address, bump)) => program_address(seeds_view(seeds@), program_id@) == Some(
                (address@, bump),
            ),
            None => program_address(seeds_view(seeds@), program_id@) is None,
        },
{
    let parts: Vec<&[u8]> = seeds.iter().map(|s| s.as_slice()).collect();
    let program = Pubkey::new_from_array(program_id.bytes);
    match Pubkey::try_find_program_address(&parts, &program) {
        Some((key, bump)) => Some((Address { bytes: key.to_bytes() }, bump)),
        None => None,
    }
}

/// Derives the canonical address and bump for a seed sequence under a
/// program. Equal seeds and program always give the same answer.
pub fn derive_address(seeds: &Vec<Vec<u8>>, program_id: &Address) -> (found: Option<(Address, u8)>)
    ensures
        derived_view(found) == program_address(seeds_view(seeds@), program_id@),
{
    try_find_program_address(seeds, program_id)
}

/// A derivation result over plain sequences.
pub open spec fn derived_view(found: Option<(Address, u8)>) -> Option<(Seq<u8>, u8)> {
    match found {
        Some((address, bump)) => Some((address@, bump)),
        None => None,
    }
}

/// The tag that starts the seeds of a custodian record: `custodian`.
pub open spec fn custodian_tag() -> Seq<u8> {
    seq![99u8, 117u8, 115u8, 116u8, 111u8, 100u8, 105u8, 97u8, 110u8]
}

/// The tag that starts the seeds of a schedule record: `schedule`.
pub open spec fn schedule_tag() -> Seq<u8> {
    seq![115u8, 99u8, 104u8, 101u8, 100u8, 117u8, 108u8, 101u8]
}

/// The tag that starts the seeds of a trigger: `thread`.
pub open spec fn thread_tag() -> Seq<u8> {
    seq![116u8, 104u8, 114u8, 101u8, 97u8, 100u8]
}

/// The address of the trigger service's program.
pub open spec fn thread_program() -> Seq<u8> {
    seq![
        37u8, 137u8, 189u8, 252u8, 18u8, 245u8, 185u8, 255u8, 68u8, 142u8, 218u8, 80u8, 152u8,
        98u8, 37u8, 61u8, 122u8, 132u8, 248u8, 122u8, 88u8, 55u8, 81u8, 254u8, 135u8, 39u8, 205u8,
        172u8, 1u8, 199u8, 24u8, 161u8,
    ]
}

/// The seeds of a custodian record: the tag, the funder and the pool.
pub open spec fn custodian_seeds(funder: Seq<u8>, pool: Seq<u8>) -> Seq<Seq<u8>> {
    seq![custodian_tag(), funder, pool]
}

/// The seeds of a schedule record: the tag, the custodian record's
/// address and the recipient.
pub open spec fn schedule_seeds(custodian: Seq<u8>, recipient: Seq<u8>) -> Seq<Seq<u8>> {
    seq![schedule_tag(), custodian, recipient]
}

/// The seeds of a trigger: the tag, the trigger's authority and the bytes
/// of its id.
pub open spec fn thread_seeds(authority: Seq<u8>, id: Seq<u8>) -> Seq<Seq<u8>> {
    seq![thread_tag(), authority, id]
}

/// Seeds followed by the one-byte seed that holds the bump.
pub open spec fn with_bump(seeds: Seq<Seq<u8>>, bump: u8) -> Seq<Seq<u8>> {
    seeds.push(seq![bump])
}

/// The address of the trigger service's program.
pub fn thread_program_id() -> (id: Address)
    ensures
        id@ == thread_program(),
{
    let id = Address {
        bytes: [
            37u8, 137u8, 189u8, 252u8, 18u8, 245u8, 185u8, 255u8, 68u8, 142u8, 218u8, 80u8, 152u8,
            98u8, 37u8, 61u8, 122u8, 132u8, 248u8, 122u8, 88u8, 55u8, 81u8, 254u8, 135u8, 39u8,
            205u8, 172u8, 1u8, 199u8, 24u8, 161u8,
        ],
    };
    assert(id@ =~= thread_program());
    id
}

fn three_seeds(tag: Vec<u8>, first: Vec<u8>, second: Vec<u8>) -> (seeds: Vec<Vec<u8>>)
    ensures
        seeds_view(seeds@) == seq![tag@, first@, second@],
{
    let mut seeds: Vec<Vec<u8>> = Vec::new();
    seeds.push(tag);
    seeds.push(first);
    seeds.push(second);
    assert(seeds_view(seeds@) =~= seq![tag@, first@, second@]);
    seeds
}

/// The seeds of a custodian record, as the host takes them.
pub fn custodian_seed_list(funder: &Address, pool: &Address) -> (seeds: Vec<Vec<u8>>)
    ensures
        seeds_view(seeds@) == custodian_seeds(funder@, pool@),
{
    let tag: Vec<u8> = vec![99u8, 117u8, 115u8, 116u8, 111u8, 100u8, 105u8, 97u8, 110u8];
    assert(tag@ =~= custodian_tag());
    three_seeds(tag, funder.to_vec(), pool.to_vec())
}

/// The seeds of a schedule record, as the host takes them.
pub fn schedule_seed_list(custodian: &Address, recipient: &Address) -> (seeds: Vec<Vec<u8>>)
    ensures
        seeds_view(seeds@) == schedule_seeds(custodian@, recipient@),
{
    let tag: Vec<u8> = vec![115u8, 99u8, 104u8, 101u8, 100u8, 117u8, 108u8, 101u8];
    assert(tag@ =~= schedule_tag());
    three_seeds(tag, custodian.to_vec(), recipient.to_vec())
}

/// The seeds with which a derived address signs: its seeds and its bump.
pub fn signer_seeds(seeds: Vec<Vec<u8>>, bump: u8) -> (signer: Vec<Vec<u8>>)
    ensures
        seeds_view(signer@) == with_bump(seeds_view(seeds@), bump),
{
    let mut signer = seeds;
    let last: Vec<u8> = vec![bump];
    assert(last@ =~= seq![bump]);
    signer.push(last);
    assert(seeds_view(signer@) =~= with_bump(seeds_view(seeds@), bump));
    signer
}

/// The address and bump of the custodian record of a funder and a pool.
pub fn custodian_address(program_id: &Address, funder: &Address, pool: &Address) -> (found: Option<
    (Address, u8),
>)
    ensures
        derived_view(found) == program_address(custodian_seeds(funder@, pool@), program_id@),
{
    let seeds = custodian_seed_list(funder, pool);
    derive_address(&seeds, program_id)
}

/// The address and bump of the schedule record of a custodian record and
/// a recipient.
pub fn schedule_address(program_id: &Address, custodian: &Address, recipient: &Address) -> (found:
    Option<(Address, u8)>)
    ensures
        derived_view(found) == program_address(
            schedule_seeds(custodian@, recipient@),
            program_id@,
        ),
{
    let seeds = schedule_seed_list(custodian, recipient);
    derive_address(&seeds, program_id)
}

/// The address and bump of the trigger that an authority holds under an
/// id: derived under the trigger service's program from the tag, the
/// authority and the bytes of the id.
pub fn thread_address(authority: &Address, id: &str) -> (found: Option<(Address, u8)>)
    ensures
        derived_view(found) == program_address(
            thread_seeds(authority@, id.spec_bytes()),
            thread_program(),
        ),
{
    let tag: Vec<u8> = vec![116u8, 104u8, 114u8, 101u8, 97u8, 100u8];
    assert(tag@ =~= thread_tag());
    let seeds = three_seeds(tag, authority.to_vec(), id.as_bytes_vec());
    let program = thread_program_id();
    derive_address(&seeds, &program)
}

/// The base-58 text of an address, as `Pubkey` displays it.
pub uninterp spec fn base58_text(bytes: Seq<u8>) -> Seq<char>;

/// Formats the address as `Pubkey`'s `Display` does, which encodes the 32
/// bytes in base 58. The text is a function of the bytes alone; the
/// contract names it and claims nothing else about it.
#[verifier::external_body]
fn base58_string(address: &Address) -> (text: String)
    ensures
        text@ == base58_text(address@),
{
    Pubkey::new_from_array(address.bytes).to_string()
}

/// Number of characters in a trigger id.
pub const TRIGGER_ID_LEN: usize = 10;

/// The trigger id that a text gives: its first ten characters, where the
/// text is ASCII and has that many.
pub open spec fn trigger_id_of(text: Seq<char>) -> Option<Seq<char>> {
    if is_ascii_chars(text) && text.len() >= 10 {
        Some(text.subrange(0, 10))
    } else {
        None
    }
}

/// The view of an optional text.
pub open spec fn text_view(text: Option<String>) -> Option<Seq<char>> {
    match text {
        Some(t) => Some(t@),
        None => None,
    }
}

/// The first ten characters of an ASCII text of at least ten characters.
pub fn trigger_id_from_text(text: &str) -> (id: String)
    requires
        text.is_ascii(),
        text@.len() >= 10,
    ensures
        Some(id@) == trigger_id_of(text@),
        id@.len() == 10,
        id.is_ascii(),
{
    let head = text.substring_ascii(0, TRIGGER_ID_LEN);
    head.to_owned()
}

/// The id of the trigger that pays a recipient: the first ten characters
/// of the recipient's base-58 text. There is none where that text is
/// shorter or not ASCII. Recipients whose texts start with the same ten
/// characters get the same id, and with it, under one authority, the same
/// trigger address.
pub fn trigger_id(recipient: &Address) -> (id: Option<String>)
    ensures
        text_view(id) == trigger_id_of(base58_text(recipient@)),
{
    let text = base58_string(recipient);
    if text.as_str().is_ascii() && text.as_str().unicode_len() >= TRIGGER_ID_LEN {
        Some(trigger_id_from_text(text.as_str()))
    } else {
        None
    }
}

} // verus!
