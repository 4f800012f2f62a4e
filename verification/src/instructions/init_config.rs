//! Creation and initial population of the program configuration account.

use vstd::prelude::*;

use crate::address::{derive_config_address, derived_address};
use crate::errors::{ConfigError, InitError};
use crate::runtime::{ConfigAccount, Deployment};
use crate::states::{
    config_seed, encode_config, encoded_config, Identity, ProgramConfig, CONFIG_RECORD_SIZE,
    MAX_ALLOWED_MINTS,
};

verus! {

/// The accounts context of the initialization instruction: the
/// authenticated signer that becomes the admin. The host runtime has
/// already verified the signature; the configuration slot itself and the
/// system program are modeled by [`Deployment`].
pub struct InitConfig {
    pub admin: Identity,
}

/// The validation gate on the allowlist: accepts a supplied length if and
/// only if it respects the fixed capacity.
pub fn check_allowed_mints_len(n: usize) -> (r: Result<(), ConfigError>)
    ensures
        n <= MAX_ALLOWED_MINTS ==> r == Ok::<(), ConfigError>(()),
        n > MAX_ALLOWED_MINTS ==> r == Err::<(), ConfigError>(ConfigError::TooManyAllowedMints),
{
    if n <= MAX_ALLOWED_MINTS {
        Ok(())
    } else {
        Err(ConfigError::TooManyAllowedMints)
    }
}

/// What a successful initialization leaves behind: the slot holds an
/// account at the derived address whose record carries the supplied
/// fields verbatim, persisted at the full reserved size.
pub open spec fn init_ok_post(
    old_d: Deployment,
    new_d: Deployment,
    admin: Seq<u8>,
    logistics_wallet: Seq<u8>,
    paused: bool,
    allowed_mints: Seq<Seq<u8>>,
) -> bool {
    &&& new_d.program_id == old_d.program_id
    &&& (new_d.config_account matches Some(a) && {
        &&& a.record@.admin == admin
        &&& a.record@.logistics_wallet == logistics_wallet
        &&& a.record@.paused == paused
        &&& a.record@.allowed_mints == allowed_mints
        &&& a.data@ == encoded_config(a.record@)
        &&& a.data@.len() == CONFIG_RECORD_SIZE
        &&& Some((a.address@, a.bump)) == derived_address(config_seed(), old_d.program_id@)
    })
}

/// Creates and populates the configuration account.
///
/// Exactly one call per deployment can succeed: the first successful call
/// occupies the derived singleton address, and every later call fails with
/// `AlreadyInitialized` while the stored record keeps the values of the
/// first call. An allowlist over capacity is rejected before any storage
/// is written. Every failure leaves the deployment unchanged.
pub fn init_config(
    deployment: &mut Deployment,
    ctx: InitConfig,
    logistics_wallet: Identity,
    paused: bool,
    allowed_mints: Vec<Identity>,
) -> (r: Result<(), InitError>)
    requires
        old(deployment).wf(),
        ctx.admin.wf(),
        logistics_wallet.wf(),
        forall|i: int| 0 <= i < allowed_mints@.len() ==> (#[trigger] allowed_mints@[i]).wf(),
    ensures
        final(deployment).wf(),
        final(deployment).program_id == old(deployment).program_id,
        allowed_mints@.len() > MAX_ALLOWED_MINTS ==> {
            &&& r == Err::<(), InitError>(InitError::Config(ConfigError::TooManyAllowedMints))
            &&& *final(deployment) == *old(deployment)
        },
        allowed_mints@.len() <= MAX_ALLOWED_MINTS && old(deployment).config_account is Some ==> {
            &&& r == Err::<(), InitError>(InitError::AlreadyInitialized)
            &&& *final(deployment) == *old(deployment)
        },
        allowed_mints@.len() <= MAX_ALLOWED_MINTS && old(deployment).config_account is None
            && derived_address(config_seed(), old(deployment).program_id@) is None ==> {
            &&& r == Err::<(), InitError>(InitError::AddressUnavailable)
            &&& *final(deployment) == *old(deployment)
        },
        allowed_mints@.len() <= MAX_ALLOWED_MINTS && old(deployment).config_account is None
            && derived_address(config_seed(), old(deployment).program_id@) is Some ==> {
            &&& r == Ok::<(), InitError>(())
            &&& init_ok_post(
                *old(deployment),
                *final(deployment),
                ctx.admin@,
                logistics_wallet@,
                paused,
                allowed_mints@.map_values(|m: Identity| m@),
            )
        },
{
    if let Err(e) = check_allowed_mints_len(allowed_mints.len()) {
        return Err(InitError::Config(e));
    }
    if deployment.config_account.is_some() {
        return Err(InitError::AlreadyInitialized);
    }
    match derive_config_address(&deployment.program_id) {
        None => Err(InitError::AddressUnavailable),
        Some((address, bump)) => {
            let record = ProgramConfig {
                admin: ctx.admin,
                logistics_wallet,
                paused,
                allowed_mints,
            };
            let data = encode_config(&record);
            deployment.config_account = Some(ConfigAccount { address, bump, record, data });
            Ok(())
        },
    }
}

} // verus!
