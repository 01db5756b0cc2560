use vstd::prelude::*;

use crate::errors::ProtocolError;
use crate::state::{
    require_active, require_address, spec_require_active, spec_require_address, spec_then, Address, Inheritance,
};

verus! {

/// What a check-in reads and writes.
#[derive(Debug, Clone, Copy, PartialEq, Eq)]
pub struct CheckIn {
    /// Address of the signer.
    pub maker: Address,
    pub inheritance: Inheritance,
}

impl CheckIn {
    /// The checks made before anything changes, in order: the signer is the
    /// inheritance's maker, and the maker is still active at `now`.
    pub open spec fn admitted(self, now: u64) -> Result<(), ProtocolError> {
        spec_then(
            spec_require_address(self.maker, self.inheritance.maker, ProtocolError::InvalidMaker),
            spec_require_active(self.inheritance, now),
        )
    }

    /// The maker proves to be alive at `now`, which restarts the inactivity period.
    pub fn check_in(&mut self, now: u64) -> (r: Result<(), ProtocolError>)
        ensures
            r == old(self).admitted(now),
            r is Ok ==> final(self).inheritance == old(self).inheritance.checked_in_at(now),
            r is Ok ==> final(self).maker == old(self).maker,
            r is Err ==> *final(self) == *old(self),
    {
        require_address(&self.maker, &self.inheritance.maker, ProtocolError::InvalidMaker)?;
        require_active(&self.inheritance, now)?;
        self.inheritance.last_check_in = now;
        Ok(())
    }
}

} // verus!
