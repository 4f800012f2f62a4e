//! Model of the host ledger's storage for one deployment of the program:
//! the singleton configuration slot, guarded by the host's exclusive
//! all-or-nothing allocation primitive.

use vstd::prelude::*;

use crate::address::derived_address;
use crate::states::{config_seed, encoded_config, Identity, ProgramConfig, CONFIG_RECORD_SIZE};

verus! {

/// The allocated configuration account: the derived address it occupies,
/// the bump that derivation chose, the typed record, and the bytes the
/// host persists for it.
pub struct ConfigAccount {
    pub address: Identity,
    pub bump: u8,
    pub record: ProgramConfig,
    pub data: Vec<u8>,
}

impl ConfigAccount {
    /// A well-formed account persists exactly the fixed-capacity encoding
    /// of a well-formed record.
    pub open spec fn wf(&self) -> bool {
        &&& self.address.wf()
        &&& self.record.wf()
        &&& self.data@ == encoded_config(self.record@)
        &&& self.data@.len() == CONFIG_RECORD_SIZE
    }
}

/// One deployment of the program: its program id and the singleton
/// configuration slot. At most one configuration account ever exists, and
/// it sits at the address derived from the `config` domain tag.
pub struct Deployment {
    pub program_id: Identity,
    pub config_account: Option<ConfigAccount>,
}

impl Deployment {
    pub open spec fn wf(&self) -> bool {
        &&& self.program_id.wf()
        &&& (self.config_account matches Some(a) ==> {
            &&& a.wf()
            &&& Some((a.address@, a.bump)) == derived_address(config_seed(), self.program_id@)
        })
    }

    /// A fresh deployment: no configuration account has been created yet.
    pub fn new(program_id: Identity) -> (d: Deployment)
        requires
            program_id.wf(),
        ensures
            d.wf(),
            d.program_id == program_id,
            d.config_account is None,
    {
        Deployment { program_id, config_account: None }
    }
}

} // verus!
