//! Moving lamports: through the system program, or directly between
//! accounts the program may debit.

use vstd::prelude::*;
use crate::account::{AccountState, Effect, EffectView, effects_view, outcome_matches, unchecked_invoke};
use crate::codec::{enc_u8, enc_u64, dec_u64, lemma_fixed_width_roundtrips, push_u8, push_u64, read_u64};
use crate::cpi::{spec_system_transfer_ix, system_transfer};
use crate::error::ProgramError;
use crate::key::{Pubkey, key_eq};

verus! {

#[derive(Debug, Clone, Copy, PartialEq, Eq)]
pub enum Input {
    /// Pay through the system program.
    CpiAccountTransfer(u64),
    /// Pay by changing the two balances directly.
    ProgramAccountTransfer(u64),
}

/// The instruction's bytes: a one-byte variant tag and the amount, little-endian.
pub open spec fn spec_encode_input(i: Input) -> Seq<u8> {
    match i {
        Input::CpiAccountTransfer(amount) => enc_u8(0) + enc_u64(amount),
        Input::ProgramAccountTransfer(amount) => enc_u8(1) + enc_u64(amount),
    }
}

/// Reading instruction bytes, which must hold exactly one instruction.
pub open spec fn spec_decode_input(b: Seq<u8>) -> Option<Input> {
    if b.len() == 9 && b[0] == 0 {
        Some(Input::CpiAccountTransfer(dec_u64(b.subrange(1, 9))))
    } else if b.len() == 9 && b[0] == 1 {
        Some(Input::ProgramAccountTransfer(dec_u64(b.subrange(1, 9))))
    } else {
        None
    }
}

/// Reading an instruction's bytes gives it back, and bytes that read as an
/// instruction are exactly its bytes.
pub proof fn lemma_input_roundtrip(i: Input, b: Seq<u8>)
    ensures
        spec_decode_input(spec_encode_input(i)) == Some(i),
        spec_decode_input(b) matches Some(j) ==> spec_encode_input(j) == b,
{
    lemma_fixed_width_roundtrips();
    let e = spec_encode_input(i);
    match i {
        Input::CpiAccountTransfer(amount) => assert(e.subrange(1, 9) =~= enc_u64(amount)),
        Input::ProgramAccountTransfer(amount) => assert(e.subrange(1, 9) =~= enc_u64(amount)),
    }
    if let Some(j) = spec_decode_input(b) {
        assert(enc_u64(dec_u64(b.subrange(1, 9))) == b.subrange(1, 9));
        assert(spec_encode_input(j) =~= b);
    }
}

impl Input {
    /// The instruction's bytes.
    pub fn to_bytes(&self) -> (r: Vec<u8>)
        ensures
            r@ == spec_encode_input(*self),
    {
        let mut out: Vec<u8> = Vec::new();
        match self {
            Input::CpiAccountTransfer(amount) => {
                push_u8(&mut out, 0);
                push_u64(&mut out, *amount);
            },
            Input::ProgramAccountTransfer(amount) => {
                push_u8(&mut out, 1);
                push_u64(&mut out, *amount);
            },
        }
        assert(out@ =~= spec_encode_input(*self));
        out
    }

    /// Reads an instruction from instruction data.
    pub fn try_from_slice(data: &[u8]) -> (r: Option<Input>)
        ensures
            r == spec_decode_input(data@),
    {
        if data.len() == 9 && data[0] == 0 {
            Some(Input::CpiAccountTransfer(read_u64(data, 1)))
        } else if data.len() == 9 && data[0] == 1 {
            Some(Input::ProgramAccountTransfer(read_u64(data, 1)))
        } else {
            None
        }
    }
}

/// What paying through the system program does. Accounts: payer, receiver,
/// system program.
pub open spec fn spec_pay_via_cpi(a: Seq<AccountState>, amount: u64) -> Result<Seq<EffectView>, ProgramError> {
    if a.len() < 3 {
        Err(ProgramError::NotEnoughAccountKeys)
    } else {
        Ok(seq![EffectView::InvokeUnchecked { instruction: spec_system_transfer_ix(a[0].key, a[1].key, amount), accounts: seq![0usize, 1usize, 2usize] }])
    }
}

/// Asks the system program to move `amount` lamports from payer to receiver.
pub fn pay_via_cpi(accounts: &[AccountState], amount: u64) -> (r: Result<Vec<Effect>, ProgramError>)
    ensures
        outcome_matches(r, spec_pay_via_cpi(accounts@, amount)),
{
    if accounts.len() < 3 {
        return Err(ProgramError::NotEnoughAccountKeys);
    }
    let payer = &accounts[0];
    let receiver = &accounts[1];
    let txn = system_transfer(&payer.key, &receiver.key, amount);
    let mut effects: Vec<Effect> = Vec::new();
    effects.push(unchecked_invoke(txn, &[0usize, 1usize, 2usize]));
    proof {
        assert(effects_view(effects) =~= spec_pay_via_cpi(accounts@, amount).unwrap());
    }
    Ok(effects)
}

/// The receiver's balance once the payer has been debited: when payer and
/// receiver are the same account the debit is already in it.
pub open spec fn receiver_base(a: Seq<AccountState>, amount: u64) -> int {
    if a[0].key == a[1].key { a[0].lamports - amount } else { a[1].lamports as int }
}

/// Paying directly neither underflows the payer nor overflows the receiver.
pub open spec fn direct_payment_defined(a: Seq<AccountState>, amount: u64) -> bool {
    a.len() >= 2 ==> {
        &&& amount <= a[0].lamports
        &&& receiver_base(a, amount) + amount <= u64::MAX
    }
}

/// Whether paying `amount` directly stays within the balances.
pub fn direct_payment_is_defined(accounts: &[AccountState], amount: u64) -> (r: bool)
    ensures
        r == direct_payment_defined(accounts@, amount),
{
    if accounts.len() < 2 {
        return true;
    }
    if amount > accounts[0].lamports {
        return false;
    }
    let base: u64 = if key_eq(&accounts[0].key, &accounts[1].key) { accounts[0].lamports - amount } else { accounts[1].lamports };
    base <= u64::MAX - amount
}

/// What paying directly does. Accounts: payer, receiver. The payer is
/// debited first, then the receiver credited.
pub open spec fn spec_pay_via_account(a: Seq<AccountState>, amount: u64) -> Result<Seq<EffectView>, ProgramError> {
    if a.len() < 2 {
        Err(ProgramError::NotEnoughAccountKeys)
    } else {
        Ok(seq![
            EffectView::SetLamports { account: 0, lamports: (a[0].lamports - amount) as u64 },
            EffectView::SetLamports { account: 1, lamports: (receiver_base(a, amount) + amount) as u64 },
        ])
    }
}

/// Moves `amount` lamports from the payer's balance to the receiver's.
pub fn pay_via_account(accounts: &[AccountState], amount: u64) -> (r: Result<Vec<Effect>, ProgramError>)
    requires
        direct_payment_defined(accounts@, amount),
    ensures
        outcome_matches(r, spec_pay_via_account(accounts@, amount)),
{
    if accounts.len() < 2 {
        return Err(ProgramError::NotEnoughAccountKeys);
    }
    let payer = &accounts[0];
    let reciever = &accounts[1];
    let payer_after = payer.lamports - amount;
    let receiver_before = if key_eq(&payer.key, &reciever.key) { payer_after } else { reciever.lamports };
    let mut effects: Vec<Effect> = Vec::new();
    effects.push(Effect::SetLamports { account: 0, lamports: payer_after });
    effects.push(Effect::SetLamports { account: 1, lamports: receiver_before + amount });
    proof {
        assert(effects_view(effects) =~= spec_pay_via_account(accounts@, amount).unwrap());
    }
    Ok(effects)
}

/// A direct payment between two different accounts moves lamports without
/// creating or destroying any: the two new balances add up to the two old
/// ones. Paying oneself leaves the balance as it was.
pub proof fn lemma_direct_payment_conserves(a: Seq<AccountState>, amount: u64)
    requires
        a.len() >= 2,
        direct_payment_defined(a, amount),
    ensures
        spec_pay_via_account(a, amount) matches Ok(e) && e[0] matches EffectView::SetLamports { lamports: p, .. }
            && e[1] matches EffectView::SetLamports { lamports: q, .. }
            && (if a[0].key != a[1].key { p + q == a[0].lamports + a[1].lamports } else { q == a[0].lamports }),
{
}

/// The runtime checks on a direct payment that the program itself does
/// not make: when the instruction asks for one, paying must stay within
/// the payer's balance and the receiver's range.
pub open spec fn transfer_defined(a: Seq<AccountState>, data: Seq<u8>) -> bool {
    spec_decode_input(data) matches Some(Input::ProgramAccountTransfer(amount)) ==> direct_payment_defined(a, amount)
}

/// Whether the payment the instruction asks for stays within the balances.
pub fn transfer_is_defined(accounts: &[AccountState], instruction_data: &[u8]) -> (r: bool)
    ensures
        r == transfer_defined(accounts@, instruction_data@),
{
    match Input::try_from_slice(instruction_data) {
        Some(Input::ProgramAccountTransfer(amount)) => direct_payment_is_defined(accounts, amount),
        _ => true,
    }
}

/// What the program does: it decodes the instruction and pays as asked.
/// A payment that fails (too few accounts) is dropped and the program
/// still succeeds, with nothing to do.
pub open spec fn spec_transfer_process(a: Seq<AccountState>, data: Seq<u8>) -> Result<Seq<EffectView>, ProgramError> {
    match spec_decode_input(data) {
        None => Err(ProgramError::BorshIoError),
        Some(input) => {
            let paid = match input {
                Input::CpiAccountTransfer(amount) => spec_pay_via_cpi(a, amount),
                Input::ProgramAccountTransfer(amount) => spec_pay_via_account(a, amount),
            };
            match paid {
                Ok(e) => Ok(e),
                Err(_) => Ok(Seq::empty()),
            }
        },
    }
}

/// Decodes the instruction and pays through the system program or directly.
pub fn process_instruction(_program_id: &Pubkey, accounts: &[AccountState], instruction_data: &[u8]) -> (r: Result<Vec<Effect>, ProgramError>)
    requires
        transfer_defined(accounts@, instruction_data@),
    ensures
        outcome_matches(r, spec_transfer_process(accounts@, instruction_data@)),
{
    let input = match Input::try_from_slice(instruction_data) {
        Some(i) => i,
        None => return Err(ProgramError::BorshIoError),
    };
    let paid = match input {
        Input::CpiAccountTransfer(amount) => pay_via_cpi(accounts, amount),
        Input::ProgramAccountTransfer(amount) => pay_via_account(accounts, amount),
    };
    match paid {
        Ok(effects) => Ok(effects),
        Err(_) => {
            let none: Vec<Effect> = Vec::new();
            proof { assert(effects_view(none) =~= Seq::<EffectView>::empty()); }
            Ok(none)
        },
    }
}

} // verus!
