//! What a program sees of its accounts, and what it asks the runtime to do.

use vstd::prelude::*;
use crate::key::Pubkey;

verus! {

/// The parts of an account that the programs read.
#[derive(Debug, Clone)]
pub struct AccountState {
    pub key: Pubkey,
    pub owner: Pubkey,
    pub lamports: u64,
    pub data: Vec<u8>,
    pub is_signer: bool,
    pub is_writable: bool,
}

/// One account of an instruction, with its signer and writable flags.
#[derive(Debug, Clone, Copy, PartialEq, Eq)]
pub struct AccountMeta {
    pub pubkey: Pubkey,
    pub is_signer: bool,
    pub is_writable: bool,
}

/// A writable account meta.
pub open spec fn meta_writable(pubkey: Pubkey, is_signer: bool) -> AccountMeta {
    AccountMeta { pubkey, is_signer, is_writable: true }
}

/// A read-only account meta.
pub open spec fn meta_readonly(pubkey: Pubkey, is_signer: bool) -> AccountMeta {
    AccountMeta { pubkey, is_signer, is_writable: false }
}

/// An instruction for another program: its id, accounts and data bytes.
#[derive(Debug, Clone, PartialEq, Eq)]
pub struct Instruction {
    pub program_id: Pubkey,
    pub accounts: Vec<AccountMeta>,
    pub data: Vec<u8>,
}

pub struct InstructionView {
    pub program_id: Pubkey,
    pub accounts: Seq<AccountMeta>,
    pub data: Seq<u8>,
}

impl View for Instruction {
    type V = InstructionView;

    open spec fn view(&self) -> InstructionView {
        InstructionView { program_id: self.program_id, accounts: self.accounts@, data: self.data@ }
    }
}

/// A request to the runtime, in the order the program makes it.
/// Account positions index the account list the program received.
#[derive(Debug, Clone, PartialEq, Eq)]
pub enum Effect {
    /// Invoke another program, passing the listed accounts and signing for
    /// the program addresses derived from `signer_seeds`.
    Invoke { instruction: Instruction, accounts: Vec<usize>, signer_seeds: Vec<Vec<Vec<u8>>> },
    /// Invoke another program without signing; the program does not look
    /// at the result of the invocation.
    InvokeUnchecked { instruction: Instruction, accounts: Vec<usize> },
    /// Overwrite the start of an account's data with `bytes`.
    WriteData { account: usize, bytes: Vec<u8> },
    /// Set the lamport balance of an account.
    SetLamports { account: usize, lamports: u64 },
    /// Set every byte of an account's data to zero.
    ZeroData { account: usize },
}

pub enum EffectView {
    Invoke { instruction: InstructionView, accounts: Seq<usize>, signer_seeds: Seq<Seq<Seq<u8>>> },
    InvokeUnchecked { instruction: InstructionView, accounts: Seq<usize> },
    WriteData { account: usize, bytes: Seq<u8> },
    SetLamports { account: usize, lamports: u64 },
    ZeroData { account: usize },
}

pub open spec fn seeds_view(s: Vec<Vec<Vec<u8>>>) -> Seq<Seq<Seq<u8>>> {
    s@.map_values(|g: Vec<Vec<u8>>| g@.map_values(|t: Vec<u8>| t@))
}

impl View for Effect {
    type V = EffectView;

    open spec fn view(&self) -> EffectView {
        match self {
            Effect::Invoke { instruction, accounts, signer_seeds } => EffectView::Invoke {
                instruction: instruction@,
                accounts: accounts@,
                signer_seeds: seeds_view(*signer_seeds),
            },
            Effect::InvokeUnchecked { instruction, accounts } => EffectView::InvokeUnchecked {
                instruction: instruction@,
                accounts: accounts@,
            },
            Effect::WriteData { account, bytes } => EffectView::WriteData {
                account: *account,
                bytes: bytes@,
            },
            Effect::SetLamports { account, lamports } => EffectView::SetLamports {
                account: *account,
                lamports: *lamports,
            },
            Effect::ZeroData { account } => EffectView::ZeroData { account: *account },
        }
    }
}

/// The views of a list of effects.
pub open spec fn effects_view(v: Vec<Effect>) -> Seq<EffectView> {
    v@.map_values(|e: Effect| e@)
}

/// The same instruction addressed to another program.
pub open spec fn addressed_to(ix: InstructionView, program_id: Pubkey) -> InstructionView {
    InstructionView { program_id, ..ix }
}

/// An invocation without program-address signatures.
pub open spec fn invoke_view(ix: InstructionView, accounts: Seq<usize>) -> EffectView {
    EffectView::Invoke { instruction: ix, accounts, signer_seeds: Seq::empty() }
}

} // verus!

verus! {

/// The clock's Unix timestamp read from the clock sysvar account: the
/// account must be the clock sysvar and hold at least the five 8-byte
/// fields of the clock (slot, epoch start, epoch, leader schedule epoch,
/// timestamp); the timestamp is the fifth.
pub open spec fn spec_clock_unix_timestamp(a: AccountState) -> Result<i64, crate::error::ProgramError> {
    if a.key != crate::key::CLOCK_SYSVAR_ID || a.data@.len() < 40 {
        Err(crate::error::ProgramError::InvalidArgument)
    } else {
        Ok(crate::codec::dec_i64(a.data@.subrange(32, 40)))
    }
}

/// Reads the clock's Unix timestamp from the clock sysvar account.
pub fn clock_unix_timestamp(a: &AccountState) -> (r: Result<i64, crate::error::ProgramError>)
    ensures
        r == spec_clock_unix_timestamp(*a),
{
    let clock_id = crate::key::CLOCK_SYSVAR_ID;
    if !crate::key::key_eq(&a.key, &clock_id) || a.data.len() < 40 {
        return Err(crate::error::ProgramError::InvalidArgument);
    }
    Ok(crate::codec::read_i64(a.data.as_slice(), 32))
}

} // verus!

verus! {

/// A copy of a list of account positions.
pub fn positions(p: &[usize]) -> (r: Vec<usize>)
    ensures
        r@ == p@,
{
    let mut out: Vec<usize> = Vec::new();
    let mut i: usize = 0;
    while i < p.len()
        invariant
            0 <= i <= p@.len(),
            out@ == p@.subrange(0, i as int),
        decreases p@.len() - i,
    {
        out.push(p[i]);
        assert(p@.subrange(0, i + 1) =~= p@.subrange(0, i as int).push(p@[i as int]));
        i = i + 1;
    }
    assert(p@.subrange(0, p@.len() as int) =~= p@);
    out
}

/// An invocation without program-address signatures.
pub fn plain_invoke(instruction: Instruction, accounts: &[usize]) -> (e: Effect)
    ensures
        e@ == invoke_view(instruction@, accounts@),
{
    let no_seeds: Vec<Vec<Vec<u8>>> = Vec::new();
    assert(seeds_view(no_seeds) =~= Seq::empty());
    Effect::Invoke { instruction, accounts: positions(accounts), signer_seeds: no_seeds }
}

/// Addresses an instruction to `program_id`, keeping its accounts and data.
pub fn address_to(instruction: Instruction, program_id: Pubkey) -> (r: Instruction)
    ensures
        r@ == addressed_to(instruction@, program_id),
{
    let mut r = instruction;
    r.program_id = program_id;
    r
}

/// An invocation whose answer the program does not look at.
pub fn unchecked_invoke(instruction: Instruction, accounts: &[usize]) -> (e: Effect)
    ensures
        e@ == (EffectView::InvokeUnchecked { instruction: instruction@, accounts: accounts@ }),
{
    Effect::InvokeUnchecked { instruction, accounts: positions(accounts) }
}

/// An invocation signed for the program addresses of `signer_seeds`.
pub fn signed_invoke(instruction: Instruction, accounts: &[usize], signer_seeds: Vec<Vec<Vec<u8>>>) -> (e: Effect)
    ensures
        e@ == (EffectView::Invoke { instruction: instruction@, accounts: accounts@, signer_seeds: seeds_view(signer_seeds) }),
{
    Effect::Invoke { instruction, accounts: positions(accounts), signer_seeds }
}

/// A write of `bytes` at the start of an account's data.
pub fn write_data(account: usize, bytes: Vec<u8>) -> (e: Effect)
    ensures
        e@ == (EffectView::WriteData { account, bytes: bytes@ }),
{
    Effect::WriteData { account, bytes }
}

} // verus!

verus! {

/// The effects or error `r` are the ones `s` describes.
pub open spec fn outcome_matches(r: Result<Vec<Effect>, crate::error::ProgramError>, s: Result<Seq<EffectView>, crate::error::ProgramError>) -> bool {
    match r {
        Ok(v) => s == Ok::<Seq<EffectView>, crate::error::ProgramError>(effects_view(v)),
        Err(e) => s == Err::<Seq<EffectView>, crate::error::ProgramError>(e),
    }
}

} // verus!
