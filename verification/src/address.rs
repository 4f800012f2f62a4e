//! Seed-derived addressing: locating the configuration singleton from its
//! domain tag alone, without a central directory.

use vstd::prelude::*;

use crate::states::{config_seed, seed_bytes, DomainTag, Identity};

verus! {

/// The address and bump that the host's derivation scheme assigns to a
/// (seed, program id) pair, or `None` when every bump candidate collides
/// with a key-controllable address. The result is a pure function of the
/// seed bytes and the program id.
pub uninterp spec fn derived_address(seed: Seq<u8>, program_id: Seq<u8>) -> Option<
    (Seq<u8>, u8),
>;

/// Relies on anchor_lang's `Pubkey::try_find_program_address`: off the
/// ledger it computes the derived address and bump by hashing the seeds,
/// the bump and the program id, so the result depends on the seed bytes
/// and the program id alone; it returns `None` instead of panicking when
/// no bump candidate works or a seed is over the host's length limits.
#[verifier::external_body]
fn find_address(seed: &Vec<u8>, program_id: &Identity) -> (r: Option<(Identity, u8)>)
    requires
        program_id.wf(),
    ensures
        r is Some == derived_address(seed@, program_id@) is Some,
        (r matches Some(p) ==> {
            &&& p.0@ == derived_address(seed@, program_id@).unwrap().0
            &&& p.1 == derived_address(seed@, program_id@).unwrap().1
            &&& p.0.wf()
        }),
{
    let pid = anchor_lang::prelude::Pubkey::new_from_array(
        program_id.bytes.as_slice().try_into().unwrap(),
    );
    match anchor_lang::prelude::Pubkey::try_find_program_address(&[seed.as_slice()], &pid) {
        Some((address, bump)) => Some((Identity { bytes: address.to_bytes().to_vec() }, bump)),
        None => None,
    }
}

/// Derives the storage address and bump of the configuration singleton for
/// a deployment of the program under `program_id`. The key material is
/// empty: the record is keyed by the `config` domain tag alone.
pub fn derive_config_address(program_id: &Identity) -> (r: Option<(Identity, u8)>)
    requires
        program_id.wf(),
    ensures
        r is Some == derived_address(config_seed(), program_id@) is Some,
        (r matches Some(p) ==> {
            &&& p.0@ == derived_address(config_seed(), program_id@).unwrap().0
            &&& p.1 == derived_address(config_seed(), program_id@).unwrap().1
            &&& p.0.wf()
        }),
{
    let seed = seed_bytes(&DomainTag::Config);
    find_address(&seed, program_id)
}

/// Law: address derivation is deterministic. Two derivations from the
/// `config` domain tag and the same program id agree: both fail, or both
/// yield the identical address and bump.
pub proof fn lemma_derivation_deterministic(
    program_id: Seq<u8>,
    r1: Option<(Seq<u8>, u8)>,
    r2: Option<(Seq<u8>, u8)>,
)
    requires
        r1 == derived_address(config_seed(), program_id),
        r2 == derived_address(config_seed(), program_id),
    ensures
        r1 == r2,
{
}

} // verus!
