use vstd::prelude::*;
use crate::accounts::{InitVault, Deposit, Withdraw, OwnerAccount, VaultAccount, VaultErrors};
use crate::address::{is_vault_of, check_vault_address};

verus! {

/// The instant (Unix seconds) from which withdrawals are refused for good.
pub const JANUARY_FIRST_2026: i64 = 1767218400;

/// The error of an instruction whose accounts are invalid: the owner did not
/// sign, or the vault is not the one derived from the owner's key.
pub open spec fn accounts_error(owner: OwnerAccount, vault: VaultAccount) -> Option<VaultErrors> {
    if !owner.is_signer {
        Some(VaultErrors::InvalidSigner)
    } else if !is_vault_of(owner.key@, vault.key@) {
        Some(VaultErrors::InvalidVaultAddress)
    } else {
        None
    }
}

/// Whether withdrawals are still accepted at `now`.
pub open spec fn is_active(now: i64) -> bool {
    now < JANUARY_FIRST_2026
}

/// The result of creating the vault and the accounts afterwards, where
/// `rent_exempt` is the minimum balance of an account with no data.
pub open spec fn init_vault_step(ctx: InitVault, rent_exempt: u64) -> (Result<(), VaultErrors>, InitVault) {
    if let Some(e) = accounts_error(ctx.owner, ctx.vault) {
        (Err(e), ctx)
    } else if ctx.vault.exists {
        (Err(VaultErrors::AccountAlreadyExists), ctx)
    } else if ctx.owner.lamports < rent_exempt {
        (Err(VaultErrors::InsufficientOwnerFunds), ctx)
    } else {
        (Ok(()), InitVault {
            owner: OwnerAccount { lamports: (ctx.owner.lamports - rent_exempt) as u64, ..ctx.owner },
            vault: VaultAccount { exists: true, lamports: rent_exempt, ..ctx.vault },
        })
    }
}

/// The result of depositing `amount` and the accounts afterwards.
pub open spec fn deposit_step(ctx: Deposit, amount: u64) -> (Result<(), VaultErrors>, Deposit) {
    if let Some(e) = accounts_error(ctx.owner, ctx.vault) {
        (Err(e), ctx)
    } else if !ctx.vault.exists {
        (Err(VaultErrors::VaultNotFound), ctx)
    } else if ctx.owner.lamports < amount {
        (Err(VaultErrors::InsufficientOwnerFunds), ctx)
    } else {
        (Ok(()), Deposit {
            owner: OwnerAccount { lamports: (ctx.owner.lamports - amount) as u64, ..ctx.owner },
            vault: VaultAccount { lamports: (ctx.vault.lamports + amount) as u64, ..ctx.vault },
        })
    }
}

/// The result of withdrawing `amount` at `now` and the accounts afterwards,
/// where `rent_exempt` is the reserve the vault must keep.
pub open spec fn withdraw_step(ctx: Withdraw, amount: u64, now: i64, rent_exempt: u64) -> (Result<(), VaultErrors>, Withdraw) {
    if let Some(e) = accounts_error(ctx.owner, ctx.vault) {
        (Err(e), ctx)
    } else if !ctx.vault.exists {
        (Err(VaultErrors::VaultNotFound), ctx)
    } else if !is_active(now) {
        (Err(VaultErrors::WithdrawalNotAvailable), ctx)
    } else if ctx.vault.lamports < rent_exempt + amount {
        (Err(VaultErrors::InsufficientVaultFunds), ctx)
    } else {
        (Ok(()), Withdraw {
            owner: OwnerAccount { lamports: (ctx.owner.lamports + amount) as u64, ..ctx.owner },
            vault: VaultAccount { lamports: (ctx.vault.lamports - amount) as u64, ..ctx.vault },
        })
    }
}

/// Checks that the owner signed and that the vault is the one derived from
/// the owner's key.
pub fn validate_accounts(owner: &OwnerAccount, vault: &VaultAccount) -> (r: Result<(), VaultErrors>)
    ensures
        r == (match accounts_error(*owner, *vault) {
            Some(e) => Err(e),
            None => Ok(()),
        }),
{
    if !owner.is_signer {
        Err(VaultErrors::InvalidSigner)
    } else if !check_vault_address(&owner.key, &vault.key) {
        Err(VaultErrors::InvalidVaultAddress)
    } else {
        Ok(())
    }
}

/// Creates the owner's vault, funded from the owner with exactly
/// `rent_exempt` lamports, the minimum balance of an account with no data.
pub fn init_vault(ctx: &mut InitVault, rent_exempt: u64) -> (r: Result<(), VaultErrors>)
    requires
        old(ctx).wf(),
    ensures
        (r, *final(ctx)) == init_vault_step(*old(ctx), rent_exempt),
        final(ctx).wf(),
{
    validate_accounts(&ctx.owner, &ctx.vault)?;
    if ctx.vault.exists {
        return Err(VaultErrors::AccountAlreadyExists);
    }
    if ctx.owner.lamports < rent_exempt {
        return Err(VaultErrors::InsufficientOwnerFunds);
    }
    ctx.owner.lamports = ctx.owner.lamports - rent_exempt;
    ctx.vault.lamports = rent_exempt;
    ctx.vault.exists = true;
    Ok(())
}

/// Whether the vault holds no lamports at all.
pub fn vault_is_empty(vault: &VaultAccount) -> (r: bool)
    ensures
        r == (vault.lamports == 0),
{
    vault.lamports == 0
}

/// Moves `amount` lamports from the owner into the vault. There is no time
/// or reserve check.
pub fn deposit(ctx: &mut Deposit, amount: u64) -> (r: Result<(), VaultErrors>)
    requires
        old(ctx).wf(),
    ensures
        (r, *final(ctx)) == deposit_step(*old(ctx), amount),
        r is Ok ==> final(ctx).vault.lamports == old(ctx).vault.lamports + amount,
        final(ctx).wf(),
{
    validate_accounts(&ctx.owner, &ctx.vault)?;
    if !ctx.vault.exists {
        return Err(VaultErrors::VaultNotFound);
    }
    if ctx.owner.lamports < amount {
        return Err(VaultErrors::InsufficientOwnerFunds);
    }
    ctx.owner.lamports = ctx.owner.lamports - amount;
    ctx.vault.lamports = ctx.vault.lamports + amount;
    Ok(())
}

/// Moves `amount` lamports from the vault back to the owner at time `now`.
/// Refused at or after the cutoff, whatever the amount; before it, refused
/// where the vault would keep less than `rent_exempt`.
pub fn withdraw(ctx: &mut Withdraw, amount: u64, now: i64, rent_exempt: u64) -> (r: Result<(), VaultErrors>)
    requires
        old(ctx).wf(),
    ensures
        (r, *final(ctx)) == withdraw_step(*old(ctx), amount, now, rent_exempt),
        accounts_error(old(ctx).owner, old(ctx).vault) is None && old(ctx).vault.exists
            && !is_active(now) ==> r == Err::<(), VaultErrors>(VaultErrors::WithdrawalNotAvailable),
        r is Ok ==> final(ctx).vault.lamports == old(ctx).vault.lamports - amount
            && final(ctx).owner.lamports == old(ctx).owner.lamports + amount,
        final(ctx).wf(),
{
    validate_accounts(&ctx.owner, &ctx.vault)?;
    if !ctx.vault.exists {
        return Err(VaultErrors::VaultNotFound);
    }
    if now >= JANUARY_FIRST_2026 {
        return Err(VaultErrors::WithdrawalNotAvailable);
    }
    if ctx.vault.lamports < rent_exempt || ctx.vault.lamports - rent_exempt < amount {
        return Err(VaultErrors::InsufficientVaultFunds);
    }
    ctx.vault.lamports = ctx.vault.lamports - amount;
    ctx.owner.lamports = ctx.owner.lamports + amount;
    Ok(())
}

} // verus!
