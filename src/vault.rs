use vstd::prelude::*;
use crate::pubkey::Pubkey;
use crate::error::{MetatoolsError, ProcessError};
use crate::address::{is_derived, matches_derived, vault_address};
use crate::state::{Record, Signer, VaultMetadata, VaultStatus};
use crate::instruction::CreateVault;
use crate::event::VaultCreatedEvent;

verus! {

/// A fresh vault: empty aggregates, no positions, active, created now.
pub open spec fn new_vault(session_wallet: Pubkey, main_wallet: Pubkey, referrer: Pubkey, now: i64) -> VaultMetadata {
    VaultMetadata {
        session_wallet: session_wallet,
        main_wallet: main_wallet,
        referrer: referrer,
        total_value_locked: 0,
        total_deposits: 0,
        total_withdrawals: 0,
        total_fees_paid: 0,
        next_position_id: 0,
        created_at: now,
        last_activity: now,
        active_positions: 0,
        status: VaultStatus::Active,
    }
}

/// The first reason, if any, for which a vault is not created.
pub open spec fn create_vault_error(
    session_wallet: Signer,
    main_wallet: Signer,
    vault: Record<VaultMetadata>,
) -> Option<ProcessError> {
    if !session_wallet.is_signer || !main_wallet.is_signer {
        Some(ProcessError::MissingRequiredSignature)
    } else if !is_derived(vault_address(session_wallet.key@), vault.key@) {
        Some(ProcessError::Vault(MetatoolsError::InvalidPDA))
    } else if vault.data is Some {
        Some(ProcessError::AccountAlreadyInitialized)
    } else {
        None
    }
}

/// Creates the vault record of `session_wallet`, attributed to `main_wallet`, at its
/// derived address.
pub fn process_create_vault(
    session_wallet: &Signer,
    main_wallet: &Signer,
    vault: &mut Record<VaultMetadata>,
    args: &CreateVault,
    now: i64,
) -> (r: Result<VaultCreatedEvent, ProcessError>)
    ensures
        create_vault_error(*session_wallet, *main_wallet, *old(vault)) matches Some(e) ==> r
            == Err::<VaultCreatedEvent, ProcessError>(e) && *final(vault) == *old(vault),
        create_vault_error(*session_wallet, *main_wallet, *old(vault)) is None ==> r
            == Ok::<VaultCreatedEvent, ProcessError>(
            VaultCreatedEvent {
                session_wallet: session_wallet.key,
                main_wallet: main_wallet.key,
                timestamp: now,
            },
        ) && final(vault).key == old(vault).key && final(vault).data == Some(
            new_vault(session_wallet.key, main_wallet.key, args.referrer, now),
        ),
{
    if !session_wallet.is_signer || !main_wallet.is_signer {
        return Err(ProcessError::MissingRequiredSignature);
    }
    let derived = VaultMetadata::pda(&session_wallet.key);
    if !matches_derived(&derived, &vault.key) {
        return Err(ProcessError::Vault(MetatoolsError::InvalidPDA));
    }
    if vault.data.is_some() {
        return Err(ProcessError::AccountAlreadyInitialized);
    }
    vault.data = Some(
        VaultMetadata {
            session_wallet: session_wallet.key,
            main_wallet: main_wallet.key,
            referrer: args.referrer,
            total_value_locked: 0,
            total_deposits: 0,
            total_withdrawals: 0,
            total_fees_paid: 0,
            next_position_id: 0,
            created_at: now,
            last_activity: now,
            active_positions: 0,
            status: VaultStatus::Active,
        },
    );
    Ok(VaultCreatedEvent { session_wallet: session_wallet.key, main_wallet: main_wallet.key, timestamp: now })
}

/// The first reason, if any, for which a vault is not closed.
pub open spec fn close_vault_error(session_wallet: Signer, vault: Record<VaultMetadata>) -> Option<
    ProcessError,
> {
    let v = vault.data.unwrap();
    if !session_wallet.is_signer {
        Some(ProcessError::MissingRequiredSignature)
    } else if !is_derived(vault_address(session_wallet.key@), vault.key@) {
        Some(ProcessError::Vault(MetatoolsError::InvalidPDA))
    } else if vault.data is None {
        Some(ProcessError::UninitializedAccount)
    } else if v.session_wallet@ != session_wallet.key@ {
        Some(ProcessError::Vault(MetatoolsError::Unauthorized))
    } else if v.status != VaultStatus::Active {
        Some(ProcessError::Vault(MetatoolsError::InvalidVaultStatus))
    } else if v.active_positions != 0 {
        Some(ProcessError::Vault(MetatoolsError::VaultHasOpenPositions))
    } else {
        None
    }
}

/// Closes a vault that has no open positions. The instruction that would reach this is
/// reserved and not decoded yet.
pub fn process_close_vault(session_wallet: &Signer, vault: &mut Record<VaultMetadata>, now: i64) -> (r:
    Result<(), ProcessError>)
    ensures
        close_vault_error(*session_wallet, *old(vault)) matches Some(e) ==> r == Err::<
            (),
            ProcessError,
        >(e) && *final(vault) == *old(vault),
        close_vault_error(*session_wallet, *old(vault)) is None ==> r is Ok && final(vault).key
            == old(vault).key && final(vault).data == Some(
            VaultMetadata {
                status: VaultStatus::Closed,
                last_activity: now,
                ..old(vault).data.unwrap()
            },
        ),
{
    if !session_wallet.is_signer {
        return Err(ProcessError::MissingRequiredSignature);
    }
    let derived = VaultMetadata::pda(&session_wallet.key);
    if !matches_derived(&derived, &vault.key) {
        return Err(ProcessError::Vault(MetatoolsError::InvalidPDA));
    }
    let v = match vault.data {
        Some(v) => v,
        None => {
            return Err(ProcessError::UninitializedAccount);
        },
    };
    if v.session_wallet != session_wallet.key {
        return Err(ProcessError::Vault(MetatoolsError::Unauthorized));
    }
    if v.status != VaultStatus::Active {
        return Err(ProcessError::Vault(MetatoolsError::InvalidVaultStatus));
    }
    if v.active_positions != 0 {
        return Err(ProcessError::Vault(MetatoolsError::VaultHasOpenPositions));
    }
    vault.data = Some(VaultMetadata { status: VaultStatus::Closed, last_activity: now, ..v });
    Ok(())
}

} // verus!
