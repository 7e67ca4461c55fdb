use vstd::prelude::*;
use crate::pubkey::Pubkey;
use crate::error::{MetatoolsError, ProcessError};
use crate::fee::{percentages_sum_to_whole, percentages_valid};
use crate::address::{config_address, is_derived, matches_derived};
use crate::state::{GlobalConfig, Record, Signer};
use crate::instruction::{InitializeConfig, UpdateConfig};

verus! {

/// The configuration that initialization writes.
pub open spec fn initialized_config(admin: Pubkey, args: InitializeConfig) -> GlobalConfig {
    GlobalConfig {
        admin: admin,
        treasury: args.treasury,
        buyback_wallet: args.buyback_wallet,
        fee_bps: args.fee_bps,
        referral_percentage: args.referral_pct,
        buyback_percentage: args.buyback_pct,
        treasury_percentage: args.treasury_pct,
        paused: false,
    }
}

/// The first reason, if any, for which initialization is refused.
pub open spec fn initialize_config_error(
    admin: Signer,
    config: Record<GlobalConfig>,
    args: InitializeConfig,
) -> Option<ProcessError> {
    if !admin.is_signer {
        Some(ProcessError::MissingRequiredSignature)
    } else if !percentages_valid(args.referral_pct, args.buyback_pct, args.treasury_pct) {
        Some(ProcessError::Vault(MetatoolsError::InvalidFeePercentages))
    } else if !is_derived(config_address(), config.key@) {
        Some(ProcessError::Vault(MetatoolsError::InvalidPDA))
    } else if config.data is Some {
        Some(ProcessError::AccountAlreadyInitialized)
    } else {
        None
    }
}

/// Creates the configuration record at its derived address, with `admin` as its
/// administrator and the program not paused.
pub fn process_initialize_config(
    admin: &Signer,
    config: &mut Record<GlobalConfig>,
    args: &InitializeConfig,
) -> (r: Result<(), ProcessError>)
    ensures
        initialize_config_error(*admin, *old(config), *args) matches Some(e) ==> r == Err::<
            (),
            ProcessError,
        >(e) && *final(config) == *old(config),
        initialize_config_error(*admin, *old(config), *args) is None ==> r is Ok
            && final(config).key == old(config).key && final(config).data == Some(
            initialized_config(admin.key, *args),
        ),
{
    if !admin.is_signer {
        return Err(ProcessError::MissingRequiredSignature);
    }
    if !percentages_sum_to_whole(args.referral_pct, args.buyback_pct, args.treasury_pct) {
        return Err(ProcessError::Vault(MetatoolsError::InvalidFeePercentages));
    }
    let derived = GlobalConfig::pda();
    if !matches_derived(&derived, &config.key) {
        return Err(ProcessError::Vault(MetatoolsError::InvalidPDA));
    }
    if config.data.is_some() {
        return Err(ProcessError::AccountAlreadyInitialized);
    }
    config.data = Some(
        GlobalConfig {
            admin: admin.key,
            treasury: args.treasury,
            buyback_wallet: args.buyback_wallet,
            fee_bps: args.fee_bps,
            referral_percentage: args.referral_pct,
            buyback_percentage: args.buyback_pct,
            treasury_percentage: args.treasury_pct,
            paused: false,
        },
    );
    Ok(())
}

/// The configuration that an update writes over `c`.
pub open spec fn updated_config(c: GlobalConfig, args: UpdateConfig) -> GlobalConfig {
    GlobalConfig {
        admin: c.admin,
        treasury: args.new_treasury,
        buyback_wallet: args.new_buyback_wallet,
        fee_bps: args.new_fee_bps,
        referral_percentage: args.new_referral_pct,
        buyback_percentage: args.new_buyback_pct,
        treasury_percentage: args.new_treasury_pct,
        paused: args.paused != 0,
    }
}

/// The first reason, if any, for which an update is refused.
pub open spec fn update_config_error(
    admin: Signer,
    config: Record<GlobalConfig>,
    args: UpdateConfig,
) -> Option<ProcessError> {
    if !admin.is_signer {
        Some(ProcessError::MissingRequiredSignature)
    } else if !percentages_valid(args.new_referral_pct, args.new_buyback_pct, args.new_treasury_pct) {
        Some(ProcessError::Vault(MetatoolsError::InvalidFeePercentages))
    } else if !is_derived(config_address(), config.key@) {
        Some(ProcessError::Vault(MetatoolsError::InvalidPDA))
    } else if config.data is None {
        Some(ProcessError::UninitializedAccount)
    } else if config.data.unwrap().admin@ != admin.key@ {
        Some(ProcessError::Vault(MetatoolsError::Unauthorized))
    } else {
        None
    }
}

/// Overwrites every setting of the configuration but its administrator, who alone may do so.
pub fn process_update_config(
    admin: &Signer,
    config: &mut Record<GlobalConfig>,
    args: &UpdateConfig,
) -> (r: Result<(), ProcessError>)
    ensures
        update_config_error(*admin, *old(config), *args) matches Some(e) ==> r == Err::<
            (),
            ProcessError,
        >(e) && *final(config) == *old(config),
        update_config_error(*admin, *old(config), *args) is None ==> r is Ok
            && final(config).key == old(config).key && final(config).data == Some(
            updated_config(old(config).data.unwrap(), *args),
        ),
{
    if !admin.is_signer {
        return Err(ProcessError::MissingRequiredSignature);
    }
    if !percentages_sum_to_whole(args.new_referral_pct, args.new_buyback_pct, args.new_treasury_pct) {
        return Err(ProcessError::Vault(MetatoolsError::InvalidFeePercentages));
    }
    let derived = GlobalConfig::pda();
    if !matches_derived(&derived, &config.key) {
        return Err(ProcessError::Vault(MetatoolsError::InvalidPDA));
    }
    let current = match config.data {
        Some(c) => c,
        None => {
            return Err(ProcessError::UninitializedAccount);
        },
    };
    if current.admin != admin.key {
        return Err(ProcessError::Vault(MetatoolsError::Unauthorized));
    }
    config.data = Some(
        GlobalConfig {
            admin: current.admin,
            treasury: args.new_treasury,
            buyback_wallet: args.new_buyback_wallet,
            fee_bps: args.new_fee_bps,
            referral_percentage: args.new_referral_pct,
            buyback_percentage: args.new_buyback_pct,
            treasury_percentage: args.new_treasury_pct,
            paused: args.paused != 0,
        },
    );
    Ok(())
}

} // verus!
