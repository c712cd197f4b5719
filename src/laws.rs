use vstd::prelude::*;
use crate::accounts::{InitVault, Deposit, Withdraw, VaultErrors};
use crate::address::vault_address;
use crate::vault::{accounts_error, is_active, init_vault_step, deposit_step, withdraw_step};

verus! {

/// Deriving the vault address is deterministic: equal owner keys give the
/// same address and bump seed.
pub proof fn lemma_derivation_deterministic(a: [u8; 32], b: [u8; 32])
    requires
        a@ == b@,
    ensures
        vault_address(a@) == vault_address(b@),
{
}

/// A vault is created once: after a successful creation a second one fails
/// with `AccountAlreadyExists` and leaves the accounts as the first left them.
pub proof fn lemma_init_vault_once(ctx: InitVault, rent_exempt: u64)
    requires
        ctx.wf(),
        init_vault_step(ctx, rent_exempt).0 is Ok,
    ensures
        init_vault_step(init_vault_step(ctx, rent_exempt).1, rent_exempt)
            == (Err::<(), VaultErrors>(VaultErrors::AccountAlreadyExists), init_vault_step(ctx, rent_exempt).1),
{
}

/// Deposits add up: depositing `a` and then `b` succeeds exactly when
/// depositing `a + b` at once does, and both leave the same accounts, with
/// the vault's balance raised by `a + b`.
pub proof fn lemma_deposit_linear(ctx: Deposit, a: u64, b: u64)
    requires
        ctx.wf(),
        a + b <= u64::MAX,
    ensures
        ({
            let (ra, sa) = deposit_step(ctx, a);
            let (rb, sb) = deposit_step(sa, b);
            let (rab, sab) = deposit_step(ctx, (a + b) as u64);
            &&& (ra is Ok && rb is Ok) <==> rab is Ok
            &&& rab is Ok ==> sb == sab && sab.vault.lamports == ctx.vault.lamports + a + b
        }),
{
}

/// Once the cutoff is reached, every withdrawal from a valid vault fails with
/// `WithdrawalNotAvailable` and changes nothing, whatever the amount and the
/// balance, at that instant and at every later one.
pub proof fn lemma_frozen_rejects_withdraw(ctx: Withdraw, amount: u64, now: i64, later: i64, rent_exempt: u64)
    requires
        accounts_error(ctx.owner, ctx.vault) is None,
        ctx.vault.exists,
        !is_active(now),
        now <= later,
    ensures
        withdraw_step(ctx, amount, now, rent_exempt)
            == (Err::<(), VaultErrors>(VaultErrors::WithdrawalNotAvailable), ctx),
        withdraw_step(ctx, amount, later, rent_exempt)
            == (Err::<(), VaultErrors>(VaultErrors::WithdrawalNotAvailable), ctx),
{
}

/// The reserve bound is exact: before the cutoff a withdrawal from a valid
/// vault with balance `B` and reserve `R` succeeds if and only if
/// `amount <= B - R`; withdrawing `B - R` leaves exactly `R`, and withdrawing
/// `B - R + 1` fails with `InsufficientVaultFunds`.
pub proof fn lemma_reserve_boundary(ctx: Withdraw, amount: u64, now: i64, rent_exempt: u64)
    requires
        ctx.wf(),
        accounts_error(ctx.owner, ctx.vault) is None,
        ctx.vault.exists,
        is_active(now),
    ensures
        withdraw_step(ctx, amount, now, rent_exempt).0 is Ok
            <==> amount <= ctx.vault.lamports - rent_exempt,
        rent_exempt <= ctx.vault.lamports ==> ({
            let (r, s) = withdraw_step(ctx, (ctx.vault.lamports - rent_exempt) as u64, now, rent_exempt);
            r is Ok && s.vault.lamports == rent_exempt
        }),
        rent_exempt <= ctx.vault.lamports && ctx.vault.lamports - rent_exempt < u64::MAX ==>
            withdraw_step(ctx, (ctx.vault.lamports - rent_exempt + 1) as u64, now, rent_exempt).0
                == Err::<(), VaultErrors>(VaultErrors::InsufficientVaultFunds),
{
}

} // verus!
