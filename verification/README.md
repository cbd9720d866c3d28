# solana_programs

Verified decision logic of a set of small Solana programs, written in Verus:
a lending market (`solend`), a constant-product pool (`cp_amm`), token
vesting (`vesting`), a staking pool (`staking`), lamport transfers and
account closing (`transfer_sol`, `delete_account`), account creation and
sizing (`create_daccount`, `determine_rent`, `check_instruction`,
`dynamic_data`, `pda`), a program invoking another (`cpi_programs`), token
and NFT minting (`create_spl_token`, `mint_nft`, `pda_mint`,
`transfer_token`) and the handlers of two framework-based programs
(`anchor`).

Layout:

- `src/` — the library. Each program takes the accounts it was given as
  plain values (`account::AccountState`) and returns either an error or
  the list of effects to carry out (`account::Effect`: invocations of
  other programs, some of them with their answer ignored, account data
  writes, lamport changes). Every public function states exactly which
  effects or error it returns. Values that only the runtime knows (the
  rent-exempt minimum of a size, the clock's time) are arguments. Where a
  program would overflow after its checks, the function requires that it
  does not, and a companion (`*_is_defined`, `try_*`) tests it first.
- `src/cpi.rs`, `src/address.rs` — the trusted boundary: wrappers around
  the instruction builders of the system, token, associated-token and
  metadata programs and around the program-address search, each with the
  contract it is trusted to meet.
- `tests/` — tests on concrete values, several of them comparing the
  effects with what the programs' own instruction builders produce.
- `app/` — runtime glue: reads `AccountInfo`s and sysvars, calls the
  library and carries out the effects.
