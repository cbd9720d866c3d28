//! Storing messages, each in an account of its own at a program address
//! numbered by a counter kept in a base account.

use vstd::prelude::*;
use vstd::bytes::u32_to_le_bytes;
use crate::account::{AccountState, Effect, EffectView, effects_view, outcome_matches, seeds_view, signed_invoke, write_data};
use crate::address::{program_address, seed_list_view, signer_seeds_with_bump, try_find_program_address};
use crate::codec::{enc_u32, dec_u32, enc_string, lemma_fixed_width_roundtrips, push_u32, push_string, read_u32, key_bytes, bytes_vec};
use crate::cpi::{spec_create_account_ix, system_create_account};
use crate::error::ProgramError;
use crate::key::{Pubkey, key_eq};

verus! {

/// Seed of the message addresses: `b"pda"`.
pub const MESSAGE_SEED: [u8; 3] = [112, 100, 97];

/// The base account: how many messages have been stored.
#[derive(Debug, Clone, Copy, PartialEq, Eq)]
pub struct BaseAccount {
    pub message_count: u32,
}

/// Reading a base account: exactly the count, little-endian.
pub open spec fn spec_decode_base(b: Seq<u8>) -> Option<BaseAccount> {
    if b.len() == 4 { Some(BaseAccount { message_count: dec_u32(b) }) } else { None }
}

/// Reading back a stored count gives the same count.
pub proof fn lemma_base_roundtrip(b: BaseAccount)
    ensures
        spec_decode_base(enc_u32(b.message_count)) == Some(b),
{
    lemma_fixed_width_roundtrips();
}

impl BaseAccount {
    /// The stored bytes of the base account.
    pub fn to_bytes(&self) -> (r: Vec<u8>)
        ensures
            r@ == enc_u32(self.message_count),
    {
        let mut out: Vec<u8> = Vec::new();
        push_u32(&mut out, self.message_count);
        assert(out@ =~= enc_u32(self.message_count));
        out
    }

    /// Reads a base account from account data.
    pub fn try_from_slice(data: &[u8]) -> (r: Option<BaseAccount>)
        ensures
            r == spec_decode_base(data@),
    {
        if data.len() != 4 {
            return None;
        }
        assert(data@.subrange(0, 4) =~= data@);
        Some(BaseAccount { message_count: read_u32(data, 0) })
    }
}

/// One stored message.
pub struct MessageAccount {
    pub content: String,
}

impl MessageAccount {
    /// The stored bytes of the message; `None` when its UTF-8 form is
    /// longer than a 32-bit length can say.
    pub fn to_bytes(&self) -> (r: Option<Vec<u8>>)
        ensures
            vstd::utf8::encode_utf8(self.content@).len() > u32::MAX ==> r is None,
            vstd::utf8::encode_utf8(self.content@).len() <= u32::MAX ==> (r matches Some(v) && v@ == enc_string(self.content@)),
    {
        let bytes = self.content.as_str().as_bytes();
        if bytes.len() > 0xffff_ffffusize {
            return None;
        }
        let mut out: Vec<u8> = Vec::new();
        push_string(&mut out, &self.content);
        assert(out@ =~= enc_string(self.content@));
        Some(out)
    }
}

/// The seeds of the address of message number `count` of a base account.
pub open spec fn message_seeds(base: Pubkey, count: u32) -> Seq<Seq<u8>> {
    seq![MESSAGE_SEED@, base@, enc_u32(count)]
}

/// Each stored message gets seeds of its own: the seeds of message number
/// `count` differ from those of every other number.
pub proof fn lemma_message_seeds_distinct(base: Pubkey, count: u32, other: u32)
    requires
        count != other,
    ensures
        message_seeds(base, count) != message_seeds(base, other),
{
    lemma_fixed_width_roundtrips();
    assert(message_seeds(base, count)[2] == enc_u32(count));
    assert(message_seeds(base, other)[2] == enc_u32(other));
    assert(dec_u32(enc_u32(count)) != dec_u32(enc_u32(other)));
}

/// The seeds the program signs with: the count in big-endian order, then
/// the bump.
pub open spec fn message_signer_seeds(base: Pubkey, count: u32, bump: u8) -> Seq<Seq<Seq<u8>>> {
    seq![seq![MESSAGE_SEED@, base@, enc_u32(count).reverse(), seq![bump]]]
}

/// The count the base account holds: none when it has no data.
pub open spec fn stored_count(b: Seq<u8>) -> Option<u32> {
    if b.len() == 0 {
        Some(0)
    } else {
        match spec_decode_base(b) {
            Some(base) => Some(base.message_count),
            None => None,
        }
    }
}

/// Storing a message can be carried out where the request reaches the
/// increment of the counter: there the counter is below its largest value.
pub open spec fn message_defined(program_id: Pubkey, a: Seq<AccountState>, message: Seq<char>) -> bool {
    (a.len() >= 4 && stored_count(a[1].data@) is Some) ==> {
        let count = stored_count(a[1].data@).unwrap();
        (program_address(message_seeds(a[1].key, count), program_id@) matches Some((pda, _bump))
            && pda == a[2].key@
            && vstd::utf8::encode_utf8(message).len() <= u32::MAX) ==> count < u32::MAX
    }
}

/// What storing a message does. Accounts: payer, base account, message
/// account, system program. `rent_minimum` is the rent-exempt balance for
/// four bytes plus the message's UTF-8 length. The message account is
/// created owned by the base account, then the message and the incremented
/// count are written.
pub open spec fn spec_process_message(program_id: Pubkey, a: Seq<AccountState>, message: Seq<char>, rent_minimum: u64) -> Result<Seq<EffectView>, ProgramError> {
    let text = vstd::utf8::encode_utf8(message);
    if a.len() < 4 {
        Err(ProgramError::NotEnoughAccountKeys)
    } else {
        match stored_count(a[1].data@) {
            None => Err(ProgramError::BorshIoError),
            Some(count) => match program_address(message_seeds(a[1].key, count), program_id@) {
                None => Err(ProgramError::InvalidSeeds),
                Some((pda, bump)) => if pda != a[2].key@ {
                    Err(ProgramError::InvalidSeeds)
                } else if text.len() > u32::MAX || a[1].data@.len() < 4 {
                    Err(ProgramError::BorshIoError)
                } else {
                    Ok(seq![
                        EffectView::Invoke {
                            instruction: spec_create_account_ix(a[0].key, a[2].key, rent_minimum, (4 + text.len()) as u64, a[1].key),
                            accounts: seq![0usize, 2usize, 3usize],
                            signer_seeds: message_signer_seeds(a[1].key, count, bump),
                        },
                        EffectView::WriteData { account: 2, bytes: enc_string(message) },
                        EffectView::WriteData { account: 1, bytes: enc_u32((count + 1) as u32) },
                    ])
                },
            },
        }
    }
}

/// The big-endian bytes of a 32-bit count.
fn u32_be_bytes(x: u32) -> (r: Vec<u8>)
    ensures
        r@ == enc_u32(x).reverse(),
{
    let le = u32_to_le_bytes(x);
    let mut out: Vec<u8> = Vec::new();
    out.push(le[3]);
    out.push(le[2]);
    out.push(le[1]);
    out.push(le[0]);
    assert(out@ =~= enc_u32(x).reverse());
    out
}

/// Stores `message` in a new account at the next program address of the
/// base account and increments the base account's count.
pub fn process_message(program_id: &Pubkey, accounts: &[AccountState], message: String, rent_minimum: u64) -> (r: Result<Vec<Effect>, ProgramError>)
    requires
        message_defined(*program_id, accounts@, message@),
    ensures
        outcome_matches(r, spec_process_message(*program_id, accounts@, message@, rent_minimum)),
{
    if accounts.len() < 4 {
        return Err(ProgramError::NotEnoughAccountKeys);
    }
    let signer = &accounts[0];
    let base_account = &accounts[1];
    let message_account = &accounts[2];
    let mut base_data = if base_account.data.len() > 0 {
        match BaseAccount::try_from_slice(base_account.data.as_slice()) {
            Some(b) => b,
            None => return Err(ProgramError::BorshIoError),
        }
    } else {
        BaseAccount { message_count: 0 }
    };
    let seeds = make_message_seeds(&base_account.key, base_data.message_count);
    let (pda, bump) = match try_find_program_address(&seeds, program_id) {
        Some(found) => found,
        None => return Err(ProgramError::InvalidSeeds),
    };
    if !key_eq(&pda, &message_account.key) {
        return Err(ProgramError::InvalidSeeds);
    }
    let msg_data = MessageAccount { content: message };
    let msg_bytes = match msg_data.to_bytes() {
        Some(b) => b,
        None => return Err(ProgramError::BorshIoError),
    };
    let text_len = msg_data.content.as_str().as_bytes().len();
    let space: u64 = 4 + text_len as u64;
    let txn = system_create_account(&signer.key, &pda, rent_minimum, space, &base_account.key);
    let seed = MESSAGE_SEED;
    let mut signer_seed: Vec<Vec<u8>> = Vec::new();
    signer_seed.push(bytes_vec(seed.as_slice()));
    signer_seed.push(key_bytes(&base_account.key));
    signer_seed.push(u32_be_bytes(base_data.message_count));
    let ghost count = base_data.message_count;
    assert(seed_list_view(signer_seed) =~= seq![MESSAGE_SEED@, base_account.key@, enc_u32(count).reverse()]);
    assert(seq![MESSAGE_SEED@, base_account.key@, enc_u32(count).reverse()].push(seq![bump])
        =~= seq![MESSAGE_SEED@, base_account.key@, enc_u32(count).reverse(), seq![bump]]);
    let signer_seeds = signer_seeds_with_bump(signer_seed, bump);
    if base_account.data.len() < 4 {
        return Err(ProgramError::BorshIoError);
    }
    let mut effects: Vec<Effect> = Vec::new();
    effects.push(signed_invoke(txn, &[0usize, 2usize, 3usize], signer_seeds));
    effects.push(write_data(2, msg_bytes));
    base_data.message_count = base_data.message_count + 1;
    effects.push(write_data(1, base_data.to_bytes()));
    proof {
        assert(seeds_view(signer_seeds) =~= message_signer_seeds(base_account.key, count, bump));
        assert(effects_view(effects) =~= spec_process_message(*program_id, accounts@, message@, rent_minimum).unwrap());
    }
    Ok(effects)
}

/// The seeds of the address of message number `count` of `base`.
fn make_message_seeds(base: &Pubkey, count: u32) -> (r: Vec<Vec<u8>>)
    ensures
        seed_list_view(r) == message_seeds(*base, count),
{
    let mut seeds: Vec<Vec<u8>> = Vec::new();
    let seed = MESSAGE_SEED;
    seeds.push(bytes_vec(seed.as_slice()));
    seeds.push(key_bytes(base));
    seeds.push(u32_to_le_bytes(count));
    assert(seed_list_view(seeds) =~= message_seeds(*base, count));
    seeds
}

/// Whether storing `message` can be carried out.
pub fn message_is_defined(program_id: &Pubkey, accounts: &[AccountState], message: &String) -> (r: bool)
    ensures
        r == message_defined(*program_id, accounts@, message@),
{
    if accounts.len() < 4 {
        return true;
    }
    let count = if accounts[1].data.len() > 0 {
        match BaseAccount::try_from_slice(accounts[1].data.as_slice()) {
            Some(b) => b.message_count,
            None => return true,
        }
    } else {
        0
    };
    let seeds = make_message_seeds(&accounts[1].key, count);
    match try_find_program_address(&seeds, program_id) {
        Some((pda, _bump)) => if !key_eq(&pda, &accounts[2].key) || message.as_str().as_bytes().len() > 0xffff_ffffusize {
            true
        } else {
            count < 0xffff_ffffu32
        },
        None => true,
    }
}

/// Stores the message where that can be carried out, and gives `None`
/// where the counter would overflow (where the program panics).
pub fn try_process_message(program_id: &Pubkey, accounts: &[AccountState], message: String, rent_minimum: u64) -> (r: Option<Result<Vec<Effect>, ProgramError>>)
    ensures
        r is None <==> !message_defined(*program_id, accounts@, message@),
        r matches Some(res) ==> outcome_matches(res, spec_process_message(*program_id, accounts@, message@, rent_minimum)),
{
    if !message_is_defined(program_id, accounts, &message) {
        return None;
    }
    Some(process_message(program_id, accounts, message, rent_minimum))
}


/// Storing a message advances the count: the base account is written with
/// the count read from it plus one, so the next message is directed at
/// the address of the next number, which differs from the one just used.
pub proof fn lemma_store_advances_count(program_id: Pubkey, a: Seq<AccountState>, message: Seq<char>, rent_minimum: u64)
    requires
        spec_process_message(program_id, a, message, rent_minimum) is Ok,
        message_defined(program_id, a, message),
    ensures
        ({
            let count = stored_count(a[1].data@).unwrap();
            spec_process_message(program_id, a, message, rent_minimum).unwrap()[2] matches EffectView::WriteData { account, bytes }
                && (account == 1
                && (spec_decode_base(bytes) matches Some(b)
                && (b.message_count == count + 1
                && message_seeds(a[1].key, b.message_count) != message_seeds(a[1].key, count))))
        }),
{
    let count = stored_count(a[1].data@).unwrap();
    lemma_base_roundtrip(BaseAccount { message_count: (count + 1) as u32 });
    lemma_message_seeds_distinct(a[1].key, (count + 1) as u32, count);
}

} // verus!
