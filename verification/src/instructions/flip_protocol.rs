use vstd::prelude::*;

use crate::errors::ProtocolError;
use crate::state::{
    require_admin, require_program, spec_require_admin, spec_require_program, spec_then, Address, Config,
};

verus! {

/// The configuration with its lock switched.
pub open spec fn spec_flipped(config: Config) -> Config {
    Config { locked: !config.locked, ..config }
}

/// What locking or unlocking the protocol reads and writes.
#[derive(Debug, Clone, Copy, PartialEq, Eq)]
pub struct FlipProtocol {
    /// Address of the signer.
    pub admin: Address,
    /// The program's upgrade authority, if it has one.
    pub upgrade_authority: Option<Address>,
    /// Address of the program-data account given.
    pub program_data: Address,
    /// The program-data address that the program account records, if any.
    pub programdata_address: Option<Address>,
    pub config: Config,
}

impl FlipProtocol {
    /// The checks made before anything changes, in order: signed by the
    /// upgrade authority, and the program-data account is the recorded one.
    pub open spec fn admitted(self) -> Result<(), ProtocolError> {
        spec_then(
            spec_require_admin(self.admin, self.upgrade_authority),
            spec_require_program(self.program_data, self.programdata_address),
        )
    }

    /// Makes the checks of [`FlipProtocol::admitted`].
    pub fn check_admitted(&self) -> (r: Result<(), ProtocolError>)
        ensures
            r == self.admitted(),
    {
        require_admin(&self.admin, &self.upgrade_authority)?;
        require_program(&self.program_data, &self.programdata_address)
    }

    /// The admin locks an open protocol or opens a locked one.
    pub fn flip_protocol(&mut self) -> (r: Result<(), ProtocolError>)
        ensures
            r == old(self).admitted(),
            r is Ok ==> *final(self) == (FlipProtocol { config: spec_flipped(old(self).config), ..*old(self) }),
            r is Err ==> *final(self) == *old(self),
    {
        self.check_admitted()?;
        self.config.locked = !self.config.locked;
        Ok(())
    }
}

} // verus!
