use vstd::prelude::*;

verus! {

/// The owner's account as an instruction sees it.
#[derive(Clone, Copy, Debug)]
pub struct OwnerAccount {
    pub key: [u8; 32],
    /// Whether the owner signed the transaction.
    pub is_signer: bool,
    pub lamports: u64,
}

/// The vault account as an instruction sees it.
#[derive(Clone, Copy, Debug)]
pub struct VaultAccount {
    pub key: [u8; 32],
    /// Whether the account has been created.
    pub exists: bool,
    pub lamports: u64,
}

/// Whether an owner and a vault account, seen together, are valid ledger
/// state: an account that was never created holds nothing, and the lamports
/// of the two fit in a `u64`, as every lamport of the ledger does.
pub open spec fn accounts_wf(owner: OwnerAccount, vault: VaultAccount) -> bool {
    &&& vault.exists || vault.lamports == 0
    &&& owner.lamports + vault.lamports <= u64::MAX
}

/// The accounts of the instruction that creates a vault.
#[derive(Clone, Copy, Debug)]
pub struct InitVault {
    pub owner: OwnerAccount,
    pub vault: VaultAccount,
}

/// The accounts of the instruction that moves funds into a vault.
#[derive(Clone, Copy, Debug)]
pub struct Deposit {
    pub owner: OwnerAccount,
    pub vault: VaultAccount,
}

/// The accounts of the instruction that moves funds out of a vault.
#[derive(Clone, Copy, Debug)]
pub struct Withdraw {
    pub owner: OwnerAccount,
    pub vault: VaultAccount,
}

impl InitVault {
    pub open spec fn wf(self) -> bool {
        accounts_wf(self.owner, self.vault)
    }
}

impl Deposit {
    pub open spec fn wf(self) -> bool {
        accounts_wf(self.owner, self.vault)
    }
}

impl Withdraw {
    pub open spec fn wf(self) -> bool {
        accounts_wf(self.owner, self.vault)
    }
}

/// Why an instruction was rejected. A rejected instruction changes nothing.
#[derive(Clone, Copy, Debug, PartialEq, Eq, Structural)]
pub enum VaultErrors {
    /// A withdrawal at or after the cutoff instant.
    WithdrawalNotAvailable,
    /// A withdrawal that would take the vault below its reserve.
    InsufficientVaultFunds,
    /// Creation of a vault that already exists.
    AccountAlreadyExists,
    /// An operation on a vault that was never created.
    VaultNotFound,
    /// The owner cannot pay for a deposit or for the vault's creation.
    InsufficientOwnerFunds,
    /// The owner did not sign the transaction.
    InvalidSigner,
    /// The vault account is not the one derived from the owner's key.
    InvalidVaultAddress,
}

impl VaultErrors {
    /// The message shown for the error.
    pub fn message(&self) -> (r: &'static str) {
        match self {
            VaultErrors::WithdrawalNotAvailable => "Withdrawal will be available until January 1st 2026",
            VaultErrors::InsufficientVaultFunds => "Withdrawal amount is greater than the available balance",
            VaultErrors::AccountAlreadyExists => "The vault account already exists",
            VaultErrors::VaultNotFound => "The vault account does not exist",
            VaultErrors::InsufficientOwnerFunds => "The owner's balance is too low",
            VaultErrors::InvalidSigner => "The owner did not sign the transaction",
            VaultErrors::InvalidVaultAddress => "The vault account is not derived from the owner",
        }
    }
}

} // verus!
