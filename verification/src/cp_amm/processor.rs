//! The pool program's instruction processing.

use vstd::prelude::*;
use vstd::arithmetic::div_mod::{lemma_div_is_ordered, lemma_div_multiples_vanish};
use vstd::arithmetic::mul::lemma_mul_inequality;
use crate::account::{AccountState, Effect, EffectView, effects_view, invoke_view, outcome_matches, seeds_view, plain_invoke,
    signed_invoke, write_data};
use crate::codec::{bytes_vec, key_bytes};
use crate::cp_amm::error::{AmmErr, amm_error_code};
use crate::cp_amm::instruction::{AmmInstruction, spec_decode_amm_instruction};
use crate::cp_amm::state::{Pool, spec_decode_pool, spec_encode_pool};
use crate::cpi::{spec_token_amount_ix, spec_unpack_token_amount, token_transfer, token_burn, unpack_token_amount};
use crate::error::ProgramError;
use crate::key::{Pubkey, key_eq, default_pubkey, SPL_TOKEN_PROGRAM_ID, seq_to_key};
use crate::address::{program_address, seed_list_view, try_find_program_address};
use crate::solend::math::{saturated_product, saturating_mul_u128, lemma_floor_division};
use crate::codec::{dec_u64, enc_u64, lemma_fixed_width_roundtrips};

verus! {

/// The pool program.
#[allow(non_camel_case_types)]
pub struct processor;

pub open spec fn aerr(e: AmmErr) -> ProgramError {
    ProgramError::Custom(amm_error_code(e))
}

/// `b"authority"`, the seed of the pool's authority address.
pub open spec fn authority_seed() -> Seq<u8> {
    seq![97u8, 117u8, 116u8, 104u8, 111u8, 114u8, 105u8, 116u8, 121u8]
}

/// `b"auhtority"`, the seed with which withdrawal derives the authority.
pub open spec fn withdraw_authority_seed() -> Seq<u8> {
    seq![97u8, 117u8, 104u8, 116u8, 111u8, 114u8, 105u8, 116u8, 121u8]
}

/// The seeds that sign for a pool's authority address.
pub open spec fn spec_authority_seeds(pool_key: Pubkey, bump: u8) -> Seq<Seq<u8>> {
    seq![authority_seed(), pool_key@, seq![bump]]
}

/// A holder's pro-rata share of a reserve: `lp * reserve / total` rounded
/// down, the product clamped at `u128::MAX`.
pub open spec fn pro_rata(lp_amount: u64, reserve: u64, total_lp: u64) -> int {
    saturated_product(lp_amount as u128, reserve as u128) / (total_lp as int)
}

/// What pool initialization does. Accounts: payer, pool, token A mint,
/// token B mint, vault A, vault B, LP mint, rent sysvar, token program.
pub open spec fn spec_initialize_pool(program_id: Pubkey, a: Seq<AccountState>, fee_bps: u16) -> Result<Seq<EffectView>, ProgramError> {
    if a.len() < 9 {
        Err(ProgramError::NotEnoughAccountKeys)
    } else if !a[0].is_signer {
        Err(ProgramError::MissingRequiredSignature)
    } else if a[1].owner != program_id {
        Err(ProgramError::IncorrectProgramId)
    } else {
        match program_address(seq![authority_seed(), a[1].key@], program_id@) {
            None => Err(ProgramError::InvalidSeeds),
            Some((_authority, bump)) => {
                if spec_decode_pool(a[1].data@) matches Some(p) && p.is_initialized {
                    Err(aerr(AmmErr::AlreadyInitialized))
                } else if a[1].data@.len() < Pool::LEN {
                    Err(ProgramError::BorshIoError)
                } else {
                    let pool = Pool {
                        is_initialized: true,
                        authority_bump: bump,
                        token_a_mint: a[2].key,
                        token_b_mint: a[3].key,
                        vault_a: a[4].key,
                        vault_b: a[5].key,
                        lp_mint: a[6].key,
                        fee_bps,
                        total_lp_supply: 0,
                    };
                    Ok(seq![EffectView::WriteData { account: 1, bytes: spec_encode_pool(pool) }])
                }
            },
        }
    }
}

/// What a deposit does. Accounts: depositor, depositor's token A account,
/// depositor's token B account, pool, vault A, vault B, LP mint,
/// depositor's LP account, token program. The request is refused when the
/// first account signs.
pub open spec fn spec_add_liquidity(program_id: Pubkey, a: Seq<AccountState>, amount_a: u64, amount_b: u64, min_lp: u64) -> Result<Seq<EffectView>, ProgramError> {
    if a.len() < 9 {
        Err(ProgramError::NotEnoughAccountKeys)
    } else if a[0].is_signer {
        Err(ProgramError::MissingRequiredSignature)
    } else {
        match spec_decode_pool(a[3].data@) {
            None => Err(ProgramError::BorshIoError),
            Some(pool) => if !pool.is_initialized {
                Err(aerr(AmmErr::Uninitialized))
            } else if a[8].key != SPL_TOKEN_PROGRAM_ID {
                Err(ProgramError::IncorrectProgramId)
            } else {
                Ok(seq![
                    invoke_view(spec_token_amount_ix(a[8].key, 3, a[1].key, a[4].key, a[0].key, Seq::empty(), amount_a), seq![1usize, 4usize, 0usize, 8usize]),
                    invoke_view(spec_token_amount_ix(a[8].key, 3, a[2].key, a[5].key, a[0].key, Seq::empty(), amount_b), seq![0usize, 5usize, 2usize, 8usize]),
                ])
            },
        }
    }
}

/// What a withdrawal does. Accounts: holder, holder's LP account, LP mint,
/// pool, vault A, vault B, holder's token A account, holder's token B
/// account, token program.
pub open spec fn spec_remove_liquidity(program_id: Pubkey, a: Seq<AccountState>, lp_amount: u64, min_a: u64, min_b: u64) -> Result<Seq<EffectView>, ProgramError> {
    if a.len() < 9 {
        Err(ProgramError::NotEnoughAccountKeys)
    } else if !a[0].is_signer {
        Err(ProgramError::MissingRequiredSignature)
    } else {
        match spec_decode_pool(a[3].data@) {
            None => Err(ProgramError::BorshIoError),
            Some(pool) => if pool.total_lp_supply == 0 {
                Err(aerr(AmmErr::Uninitialized))
            } else if a[8].key != SPL_TOKEN_PROGRAM_ID {
                Err(ProgramError::IncorrectProgramId)
            } else {
                match (spec_unpack_token_amount(a[4].data@), spec_unpack_token_amount(a[5].data@)) {
                    (Err(e), _) => Err(e),
                    (Ok(_), Err(e)) => Err(e),
                    (Ok(reserve_a), Ok(reserve_b)) => {
                        let out_a = pro_rata(lp_amount, reserve_a, pool.total_lp_supply);
                        let out_b = pro_rata(lp_amount, reserve_b, pool.total_lp_supply);
                        if out_a < min_a || out_b < min_b {
                            Err(aerr(AmmErr::SlippageExceeded))
                        } else {
                            match program_address(seq![withdraw_authority_seed(), a[3].key@], program_id@) {
                                None => Err(ProgramError::InvalidSeeds),
                                Some((authority, bump)) => {
                                    let auth = seq_to_key(authority);
                                    let seeds = seq![spec_authority_seeds(a[3].key, bump)];
                                    Ok(seq![
                                        invoke_view(spec_token_amount_ix(a[8].key, 8, a[1].key, a[2].key, a[0].key, Seq::empty(), lp_amount), seq![1usize, 2usize, 0usize, 8usize]),
                                        EffectView::Invoke {
                                            instruction: spec_token_amount_ix(a[8].key, 3, a[4].key, a[6].key, auth, Seq::empty(), out_a as u64),
                                            accounts: seq![4usize, 6usize, 8usize],
                                            signer_seeds: seeds,
                                        },
                                        EffectView::Invoke {
                                            instruction: spec_token_amount_ix(a[8].key, 3, a[5].key, a[7].key, auth, Seq::empty(), out_b as u64),
                                            accounts: seq![5usize, 7usize, 8usize],
                                            signer_seeds: seeds,
                                        },
                                        EffectView::WriteData {
                                            account: 3,
                                            bytes: spec_encode_pool(Pool {
                                                total_lp_supply: if pool.total_lp_supply >= lp_amount { (pool.total_lp_supply - lp_amount) as u64 } else { 0 },
                                                ..pool
                                            }),
                                        },
                                    ])
                                },
                            }
                        }
                    },
                }
            },
        }
    }
}

/// What the program does with instruction data `data`. Swaps are not
/// implemented and are refused as invalid instruction data.
pub open spec fn spec_amm_process(program_id: Pubkey, a: Seq<AccountState>, data: Seq<u8>) -> Result<Seq<EffectView>, ProgramError> {
    match spec_decode_amm_instruction(data) {
        None => Err(ProgramError::InvalidInstructionData),
        Some(AmmInstruction::InitializePool { fee_bps }) => spec_initialize_pool(program_id, a, fee_bps),
        Some(AmmInstruction::AddLiquidity { amount_a, amount_b, min_lp }) => spec_add_liquidity(program_id, a, amount_a, amount_b, min_lp),
        Some(AmmInstruction::RemoveLiquidity { lp_amount, min_a, min_b }) => spec_remove_liquidity(program_id, a, lp_amount, min_a, min_b),
        Some(AmmInstruction::SwapExactIn { .. }) => Err(ProgramError::InvalidInstructionData),
    }
}

/// A pro-rata share never exceeds the reserve when at most the whole
/// supply is redeemed.
pub proof fn lemma_pro_rata_within_reserve(lp_amount: u64, reserve: u64, total_lp: u64)
    requires
        0 < total_lp,
        lp_amount <= total_lp,
    ensures
        0 <= pro_rata(lp_amount, reserve, total_lp) <= reserve,
{
    let p = lp_amount as int * reserve as int;
    assert(p <= u64::MAX as int * u64::MAX as int) by (nonlinear_arith)
        requires 0 <= lp_amount <= u64::MAX, 0 <= reserve <= u64::MAX, p == lp_amount as int * reserve as int;
    assert(u64::MAX as int * u64::MAX as int <= u128::MAX);
    assert(saturated_product(lp_amount as u128, reserve as u128) == p);
    lemma_mul_inequality(lp_amount as int, total_lp as int, reserve as int);
    lemma_mul_inequality(0, lp_amount as int, reserve as int);
    lemma_div_is_ordered(p, total_lp as int * reserve as int, total_lp as int);
    lemma_div_is_ordered(0, p, total_lp as int);
    assert(total_lp as int * reserve as int == reserve as int * total_lp as int) by (nonlinear_arith);
    lemma_div_multiples_vanish(reserve as int, total_lp as int);
}

impl processor {
    /// Decodes the instruction and runs it.
    pub fn process(program_id: &Pubkey, accounts: &[AccountState], instruction_data: &[u8]) -> (r: Result<Vec<Effect>, ProgramError>)
        ensures
            outcome_matches(r, spec_amm_process(*program_id, accounts@, instruction_data@)),
    {
        let instruction = match AmmInstruction::try_from_slice(instruction_data) {
            Some(i) => i,
            None => return Err(ProgramError::InvalidInstructionData),
        };
        match instruction {
            AmmInstruction::InitializePool { fee_bps } => Self::initialize_pool(program_id, accounts, fee_bps),
            AmmInstruction::AddLiquidity { amount_a, amount_b, min_lp } => Self::add_liquidity(program_id, accounts, amount_a, amount_b, min_lp),
            AmmInstruction::RemoveLiquidity { lp_amount, min_a, min_b } => Self::remove_liquidity(program_id, accounts, lp_amount, min_a, min_b),
            AmmInstruction::SwapExactIn { .. } => Err(ProgramError::InvalidInstructionData),
        }
    }

    /// The seeds that sign for a pool's authority address.
    pub fn authority_seeds(pool_key: &Pubkey, bump: u8) -> (r: Vec<Vec<u8>>)
        ensures
            seed_list_view(r) == spec_authority_seeds(*pool_key, bump),
    {
        let seed: [u8; 9] = [97, 117, 116, 104, 111, 114, 105, 116, 121];
        let mut seeds: Vec<Vec<u8>> = Vec::new();
        seeds.push(bytes_vec(seed.as_slice()));
        seeds.push(key_bytes(pool_key));
        let mut b: Vec<u8> = Vec::new();
        b.push(bump);
        seeds.push(b);
        assert(seed@ =~= authority_seed());
        assert(seed_list_view(seeds) =~= spec_authority_seeds(*pool_key, bump));
        seeds
    }

    /// Records a new pool: its mints, vaults, LP mint, fee and authority bump.
    pub fn initialize_pool(program_id: &Pubkey, accounts: &[AccountState], fee_bps: u16) -> (r: Result<Vec<Effect>, ProgramError>)
        ensures
            outcome_matches(r, spec_initialize_pool(*program_id, accounts@, fee_bps)),
    {
        if accounts.len() < 9 {
            return Err(ProgramError::NotEnoughAccountKeys);
        }
        let signer = &accounts[0];
        let pool_account = &accounts[1];
        if !signer.is_signer {
            return Err(ProgramError::MissingRequiredSignature);
        }
        if !key_eq(&pool_account.owner, program_id) {
            return Err(ProgramError::IncorrectProgramId);
        }
        let seed: [u8; 9] = [97, 117, 116, 104, 111, 114, 105, 116, 121];
        let mut seeds: Vec<Vec<u8>> = Vec::new();
        seeds.push(bytes_vec(seed.as_slice()));
        seeds.push(key_bytes(&pool_account.key));
        assert(seed@ =~= authority_seed());
        assert(seed_list_view(seeds) =~= seq![authority_seed(), pool_account.key@]);
        let (_authority_pda, bump) = match try_find_program_address(&seeds, program_id) {
            Some(found) => found,
            None => return Err(ProgramError::InvalidSeeds),
        };
        let mut pool = match Pool::try_from_slice(pool_account.data.as_slice()) {
            Some(p) => p,
            None => Pool {
                is_initialized: false,
                authority_bump: 0,
                token_a_mint: default_pubkey(),
                token_b_mint: default_pubkey(),
                vault_a: default_pubkey(),
                vault_b: default_pubkey(),
                lp_mint: default_pubkey(),
                fee_bps: 0,
                total_lp_supply: 0,
            },
        };
        if pool.is_initialized {
            return Err(ProgramError::from(AmmErr::AlreadyInitialized));
        }
        pool.is_initialized = true;
        pool.authority_bump = bump;
        pool.token_a_mint = accounts[2].key;
        pool.token_b_mint = accounts[3].key;
        pool.vault_a = accounts[4].key;
        pool.vault_b = accounts[5].key;
        pool.lp_mint = accounts[6].key;
        pool.fee_bps = fee_bps;
        pool.total_lp_supply = 0;
        if pool_account.data.len() < Pool::LEN {
            return Err(ProgramError::BorshIoError);
        }
        let mut effects: Vec<Effect> = Vec::new();
        effects.push(write_data(1, pool.to_bytes()));
        proof {
            assert(effects_view(effects) =~= spec_initialize_pool(*program_id, accounts@, fee_bps).unwrap());
        }
        Ok(effects)
    }

    /// Moves the deposited amounts of both tokens into the vaults.
    pub fn add_liquidity(program_id: &Pubkey, accounts: &[AccountState], amount_a: u64, amount_b: u64, min_lp: u64) -> (r: Result<Vec<Effect>, ProgramError>)
        ensures
            outcome_matches(r, spec_add_liquidity(*program_id, accounts@, amount_a, amount_b, min_lp)),
    {
        if accounts.len() < 9 {
            return Err(ProgramError::NotEnoughAccountKeys);
        }
        let signer = &accounts[0];
        let user_ata_a = &accounts[1];
        let user_ata_b = &accounts[2];
        let pool_account = &accounts[3];
        let vault_a = &accounts[4];
        let vault_b = &accounts[5];
        let token_program = &accounts[8];
        if signer.is_signer {
            return Err(ProgramError::MissingRequiredSignature);
        }
        let pool = match Pool::try_from_slice(pool_account.data.as_slice()) {
            Some(p) => p,
            None => return Err(ProgramError::BorshIoError),
        };
        if !pool.is_initialized {
            return Err(ProgramError::from(AmmErr::Uninitialized));
        }
        let instruction_a = match token_transfer(&token_program.key, &user_ata_a.key, &vault_a.key, &signer.key, &Vec::new(), amount_a) {
            Some(ix) => ix,
            None => return Err(ProgramError::IncorrectProgramId),
        };
        let instruction_b = match token_transfer(&token_program.key, &user_ata_b.key, &vault_b.key, &signer.key, &Vec::new(), amount_b) {
            Some(ix) => ix,
            None => return Err(ProgramError::IncorrectProgramId),
        };
        let mut effects: Vec<Effect> = Vec::new();
        effects.push(plain_invoke(instruction_a, &[1usize, 4usize, 0usize, 8usize]));
        effects.push(plain_invoke(instruction_b, &[0usize, 5usize, 2usize, 8usize]));
        proof {
            assert(effects_view(effects) =~= spec_add_liquidity(*program_id, accounts@, amount_a, amount_b, min_lp).unwrap());
        }
        Ok(effects)
    }

    /// Burns the holder's LP tokens and pays out the pro-rata share of both
    /// vaults, unless a share falls below its minimum.
    pub fn remove_liquidity(program_id: &Pubkey, accounts: &[AccountState], lp_amount: u64, min_a: u64, min_b: u64) -> (r: Result<Vec<Effect>, ProgramError>)
        ensures
            outcome_matches(r, spec_remove_liquidity(*program_id, accounts@, lp_amount, min_a, min_b)),
    {
        if accounts.len() < 9 {
            return Err(ProgramError::NotEnoughAccountKeys);
        }
        let user = &accounts[0];
        let user_lp_ata = &accounts[1];
        let lp_mint = &accounts[2];
        let pool_account = &accounts[3];
        let vault_a = &accounts[4];
        let vault_b = &accounts[5];
        let user_a_ata = &accounts[6];
        let user_b_ata = &accounts[7];
        let token_program = &accounts[8];
        if !user.is_signer {
            return Err(ProgramError::MissingRequiredSignature);
        }
        let mut pool = match Pool::try_from_slice(pool_account.data.as_slice()) {
            Some(p) => p,
            None => return Err(ProgramError::BorshIoError),
        };
        if pool.total_lp_supply == 0 {
            return Err(ProgramError::from(AmmErr::Uninitialized));
        }
        let burn_ix = match token_burn(&token_program.key, &user_lp_ata.key, &lp_mint.key, &user.key, &Vec::new(), lp_amount) {
            Some(ix) => ix,
            None => return Err(ProgramError::IncorrectProgramId),
        };
        let reserve_a = unpack_token_amount(vault_a.data.as_slice())?;
        let reserve_b = unpack_token_amount(vault_b.data.as_slice())?;
        let total_lp = pool.total_lp_supply as u128;
        let out_a: u128 = saturating_mul_u128(lp_amount as u128, reserve_a as u128) / total_lp;
        let out_b: u128 = saturating_mul_u128(lp_amount as u128, reserve_b as u128) / total_lp;
        if out_a < min_a as u128 || out_b < min_b as u128 {
            return Err(ProgramError::from(AmmErr::SlippageExceeded));
        }
        let typo_seed: [u8; 9] = [97, 117, 104, 116, 111, 114, 105, 116, 121];
        let mut derive_seeds: Vec<Vec<u8>> = Vec::new();
        derive_seeds.push(bytes_vec(typo_seed.as_slice()));
        derive_seeds.push(key_bytes(&pool_account.key));
        assert(typo_seed@ =~= withdraw_authority_seed());
        assert(seed_list_view(derive_seeds) =~= seq![withdraw_authority_seed(), pool_account.key@]);
        let (auth, bump) = match try_find_program_address(&derive_seeds, program_id) {
            Some(found) => found,
            None => return Err(ProgramError::InvalidSeeds),
        };
        proof {
            crate::codec::lemma_key_from_bytes(auth);
        }
        let seeds = Self::authority_seeds(&pool_account.key, bump);
        let amount_a = #[verifier::truncate] (out_a as u64);
        let amount_b = #[verifier::truncate] (out_b as u64);
        let transfer_a = match token_transfer(&token_program.key, &vault_a.key, &user_a_ata.key, &auth, &Vec::new(), amount_a) {
            Some(ix) => ix,
            None => return Err(ProgramError::IncorrectProgramId),
        };
        let transfer_b = match token_transfer(&token_program.key, &vault_b.key, &user_b_ata.key, &auth, &Vec::new(), amount_b) {
            Some(ix) => ix,
            None => return Err(ProgramError::IncorrectProgramId),
        };
        let mut signer_a: Vec<Vec<Vec<u8>>> = Vec::new();
        signer_a.push(Self::authority_seeds(&pool_account.key, bump));
        let mut signer_b: Vec<Vec<Vec<u8>>> = Vec::new();
        signer_b.push(seeds);
        let mut effects: Vec<Effect> = Vec::new();
        effects.push(plain_invoke(burn_ix, &[1usize, 2usize, 0usize, 8usize]));
        effects.push(signed_invoke(transfer_a, &[4usize, 6usize, 8usize], signer_a));
        effects.push(signed_invoke(transfer_b, &[5usize, 7usize, 8usize], signer_b));
        pool.total_lp_supply = pool.total_lp_supply.saturating_sub(lp_amount);
        effects.push(write_data(3, pool.to_bytes()));
        proof {
            assert(seeds_view(signer_a) =~= seq![spec_authority_seeds(pool_account.key, bump)]);
            assert(seeds_view(signer_b) =~= seq![spec_authority_seeds(pool_account.key, bump)]);
            assert(effects_view(effects) =~= spec_remove_liquidity(*program_id, accounts@, lp_amount, min_a, min_b).unwrap());
        }
        Ok(effects)
    }
}


/// The amount a token transfer effect moves, read from its instruction
/// data (a one-byte tag, then the amount); -1 for any other effect.
pub open spec fn transferred_amount(e: EffectView) -> int {
    match e {
        EffectView::Invoke { instruction, .. } => if instruction.data.len() == 9 {
            dec_u64(instruction.data.subrange(1, 9)) as int
        } else {
            -1
        },
        _ => -1,
    }
}

/// Removing liquidity pays the holder, from each vault, the share of the
/// vault's balance that the redeemed LP tokens are of the LP supply,
/// rounded down: the amount paid times the supply is at most the redeemed
/// amount times the balance, and less than one supply more.
pub proof fn lemma_remove_pays_pro_rata(program_id: Pubkey, a: Seq<AccountState>, lp_amount: u64, min_a: u64, min_b: u64)
    requires
        spec_remove_liquidity(program_id, a, lp_amount, min_a, min_b) is Ok,
        lp_amount <= spec_decode_pool(a[3].data@).unwrap().total_lp_supply,
    ensures
        ({
            let e = spec_remove_liquidity(program_id, a, lp_amount, min_a, min_b).unwrap();
            let total = spec_decode_pool(a[3].data@).unwrap().total_lp_supply as int;
            let reserve_a = spec_unpack_token_amount(a[4].data@).unwrap() as int;
            let reserve_b = spec_unpack_token_amount(a[5].data@).unwrap() as int;
            let out_a = transferred_amount(e[1]);
            let out_b = transferred_amount(e[2]);
            &&& out_a * total <= lp_amount * reserve_a < (out_a + 1) * total
            &&& out_b * total <= lp_amount * reserve_b < (out_b + 1) * total
            &&& out_a >= min_a && out_b >= min_b
        }),
{
    let total = spec_decode_pool(a[3].data@).unwrap().total_lp_supply;
    let reserve_a = spec_unpack_token_amount(a[4].data@).unwrap();
    let reserve_b = spec_unpack_token_amount(a[5].data@).unwrap();
    lemma_fixed_width_roundtrips();
    lemma_pro_rata_exact(lp_amount, reserve_a, total);
    lemma_pro_rata_exact(lp_amount, reserve_b, total);
    let e = spec_remove_liquidity(program_id, a, lp_amount, min_a, min_b).unwrap();
    let oa = pro_rata(lp_amount, reserve_a, total);
    let ob = pro_rata(lp_amount, reserve_b, total);
    match e[1] {
        EffectView::Invoke { instruction, .. } => {
            assert(instruction.data.subrange(1, 9) =~= enc_u64(oa as u64));
        },
        _ => {},
    }
    match e[2] {
        EffectView::Invoke { instruction, .. } => {
            assert(instruction.data.subrange(1, 9) =~= enc_u64(ob as u64));
        },
        _ => {},
    }
}

/// A share is the exact floor of the product over the supply.
proof fn lemma_pro_rata_exact(lp_amount: u64, reserve: u64, total_lp: u64)
    requires
        0 < total_lp,
        lp_amount <= total_lp,
    ensures
        pro_rata(lp_amount, reserve, total_lp) == (lp_amount * reserve) / (total_lp as int),
        0 <= pro_rata(lp_amount, reserve, total_lp) <= reserve,
        pro_rata(lp_amount, reserve, total_lp) * total_lp <= lp_amount * reserve
            < (pro_rata(lp_amount, reserve, total_lp) + 1) * total_lp,
{
    lemma_pro_rata_within_reserve(lp_amount, reserve, total_lp);
    assert(lp_amount * reserve <= u64::MAX as int * u64::MAX as int) by (nonlinear_arith)
        requires 0 <= lp_amount <= u64::MAX, 0 <= reserve <= u64::MAX;
    assert(lp_amount * reserve >= 0) by (nonlinear_arith)
        requires 0 <= lp_amount, 0 <= reserve;
    lemma_floor_division(lp_amount * reserve, total_lp as int);
}

} // verus!
