use vstd::prelude::*;

use crate::errors::ProtocolError;
use crate::state::{
    require_address, require_maker_gate, spec_maker_gate, spec_require_address, spec_then, Address, Config,
    Inheritance,
};

verus! {

/// What changing the inactivity period reads and writes.
#[derive(Debug, Clone, Copy, PartialEq, Eq)]
pub struct ChangeInactivityTime {
    /// Address of the signer.
    pub maker: Address,
    pub inheritance: Inheritance,
    pub config: Config,
}

impl ChangeInactivityTime {
    /// The checks made before anything changes, in order: the signer is the
    /// inheritance's maker, the protocol is open, the maker is still active.
    pub open spec fn admitted(self, now: u64) -> Result<(), ProtocolError> {
        spec_then(
            spec_require_address(self.maker, self.inheritance.maker, ProtocolError::InvalidMaker),
            spec_maker_gate(self.config, self.inheritance, now),
        )
    }

    /// The maker sets a new inactivity period at `now`; this also counts as a check-in.
    pub fn change_inactivity_time(&mut self, inactivity_time: u64, now: u64) -> (r: Result<(), ProtocolError>)
        ensures
            r == old(self).admitted(now),
            r is Ok ==> final(self).config == old(self).config,
            r is Ok ==> final(self).maker == old(self).maker,
            r is Ok ==> final(self).inheritance == (Inheritance {
                inactivity_time: inactivity_time,
                ..old(self).inheritance.checked_in_at(now)
            }),
            r is Err ==> *final(self) == *old(self),
    {
        require_address(&self.maker, &self.inheritance.maker, ProtocolError::InvalidMaker)?;
        require_maker_gate(&self.config, &self.inheritance, now)?;
        self.inheritance.last_check_in = now;
        self.inheritance.inactivity_time = inactivity_time;
        Ok(())
    }
}

} // verus!
