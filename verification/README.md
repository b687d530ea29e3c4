# Simple Vault

A vault for one SPL token on Solana. Users deposit tokens and get shares, burn
shares and get tokens back; an admin may open and close a position in a Raydium
pool with the vault's tokens.

```
first deposit     shares = amount
later deposits    shares = amount * total_shares / total_tokens
withdrawals       tokens = shares * total_tokens / total_shares
```

## Layout

- `src/` is the library, verified with Verus. `simple_vault` holds the entry
  points: each reads the accounts, refuses or hands out a `cpi::Run`, which
  names the calls into other programs one by one and in the end the vault to be
  stored. `laws` states what holds of the vault as a whole.
- `app/` is the Anchor program around it. It decodes the accounts, performs the
  calls and stores the vault. It needs `raydium_clmm_cpi`, which is not on
  crates.io.
- `tests/` runs the library.

## Addresses

| Account               | Seeds                          |
|-----------------------|--------------------------------|
| `vault_state`         | `["vault", token_mint]`        |
| `vault_token_account` | `["vault_tokens", token_mint]` |
| `share_mint`          | `["share_mint", token_mint]`   |

## What is trusted

`pda.rs` calls `Pubkey::create_program_address` and
`Pubkey::try_find_program_address`; their contracts are believed. Everything
else in `src/` is proved.
