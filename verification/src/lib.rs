//! Bootstrap configuration layer of a multi-party marketplace protocol:
//! creation and initial population of the singleton program configuration
//! record, located at a seed-derived address and persisted in a bounded,
//! fixed-capacity layout.

pub mod address;
pub mod errors;
pub mod instructions;
pub mod runtime;
pub mod states;

use vstd::prelude::*;

use crate::address::derived_address;
use crate::errors::{ConfigError, InitError};
use crate::instructions::init_config::{init_config, init_ok_post, InitConfig};
use crate::runtime::Deployment;
use crate::states::{config_seed, Identity, MAX_ALLOWED_MINTS};

verus! {

/// Initializes the program configuration account: the single mutating
/// entry point in scope. See [`init_config`] for the full account of the
/// outcome on every input.
pub fn initialize(
    deployment: &mut Deployment,
    ctx: InitConfig,
    logistics_wallet: Identity,
    paused: bool,
    allowed_mints: Vec<Identity>,
) -> (r: Result<(), InitError>)
    requires
        old(deployment).wf(),
        ctx.admin.wf(),
        logistics_wallet.wf(),
        forall|i: int| 0 <= i < allowed_mints@.len() ==> (#[trigger] allowed_mints@[i]).wf(),
    ensures
        final(deployment).wf(),
        final(deployment).program_id == old(deployment).program_id,
        allowed_mints@.len() > MAX_ALLOWED_MINTS ==> {
            &&& r == Err::<(), InitError>(InitError::Config(ConfigError::TooManyAllowedMints))
            &&& *final(deployment) == *old(deployment)
        },
        allowed_mints@.len() <= MAX_ALLOWED_MINTS && old(deployment).config_account is Some ==> {
            &&& r == Err::<(), InitError>(InitError::AlreadyInitialized)
            &&& *final(deployment) == *old(deployment)
        },
        allowed_mints@.len() <= MAX_ALLOWED_MINTS && old(deployment).config_account is None
            && derived_address(config_seed(), old(deployment).program_id@) is None ==> {
            &&& r == Err::<(), InitError>(InitError::AddressUnavailable)
            &&& *final(deployment) == *old(deployment)
        },
        allowed_mints@.len() <= MAX_ALLOWED_MINTS && old(deployment).config_account is None
            && derived_address(config_seed(), old(deployment).program_id@) is Some ==> {
            &&& r == Ok::<(), InitError>(())
            &&& init_ok_post(
                *old(deployment),
                *final(deployment),
                ctx.admin@,
                logistics_wallet@,
                paused,
                allowed_mints@.map_values(|m: Identity| m@),
            )
        },
{
    init_config(deployment, ctx, logistics_wallet, paused, allowed_mints)
}

} // verus!
