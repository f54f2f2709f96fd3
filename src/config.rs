use vstd::prelude::*;

use crate::address::Address;
use crate::errors::AcademyError;
use crate::state::Config;

verus! {

/// Changes the platform administrator may make to the configuration; `None`
/// leaves a field as it is.
#[derive(Clone, Copy, Debug)]
pub struct UpdateConfigParams {
    pub new_backend_signer: Option<Address>,
    pub new_max_daily_xp: Option<u32>,
    pub new_max_achievement_xp: Option<u32>,
}

/// The configuration created at genesis: `authority` administers the platform
/// and is also the first backend signer.
pub fn initialize(
    authority: Address,
    xp_mint: Address,
    max_daily_xp: u32,
    max_achievement_xp: u32,
    bump: u8,
) -> (r: Config)
    ensures
        r.authority == authority,
        r.backend_signer == authority,
        r.xp_mint == xp_mint,
        r.max_daily_xp == max_daily_xp,
        r.max_achievement_xp == max_achievement_xp,
        r.reserved@ == Seq::new(32, |i: int| 0u8),
        r.bump == bump,
{
    let r = Config {
        authority,
        backend_signer: authority,
        xp_mint,
        max_daily_xp,
        max_achievement_xp,
        reserved: [0u8; 32],
        bump,
    };
    assert(r.reserved@ =~= Seq::new(32, |i: int| 0u8));
    r
}

/// The configuration after a successful update: each field given in
/// `params` takes its new value.
pub open spec fn updated_config(c: Config, params: UpdateConfigParams) -> Config {
    Config {
        backend_signer: match params.new_backend_signer {
            Some(s) => s,
            None => c.backend_signer,
        },
        max_daily_xp: match params.new_max_daily_xp {
            Some(m) => m,
            None => c.max_daily_xp,
        },
        max_achievement_xp: match params.new_max_achievement_xp {
            Some(m) => m,
            None => c.max_achievement_xp,
        },
        ..c
    }
}

/// Applies `params` when `caller` is the platform authority.
pub fn update_config(config: &mut Config, caller: &Address, params: UpdateConfigParams) -> (r:
    Result<(), AcademyError>)
    ensures
        caller@ != old(config).authority@ ==> r == Err::<(), AcademyError>(AcademyError::Unauthorized)
            && *final(config) == *old(config),
        caller@ == old(config).authority@ ==> r is Ok && *final(config) == updated_config(
            *old(config),
            params,
        ),
{
    if !caller.same_as(&config.authority) {
        return Err(AcademyError::Unauthorized);
    }
    if let Some(s) = params.new_backend_signer {
        config.backend_signer = s;
    }
    if let Some(m) = params.new_max_daily_xp {
        config.max_daily_xp = m;
    }
    if let Some(m) = params.new_max_achievement_xp {
        config.max_achievement_xp = m;
    }
    Ok(())
}

} // verus!
