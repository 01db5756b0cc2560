use vstd::prelude::*;

use crate::cpi::{Cpi, Party};
use crate::errors::ProtocolError;
use crate::state::{
    require_address, require_maker_gate, spec_maker_gate, spec_require_address, spec_then, Address, Config,
    Inheritance,
};

verus! {

/// What raising the bounty reads and writes.
#[derive(Debug, Clone, Copy, PartialEq, Eq)]
pub struct IncreaseInheritanceBounty {
    /// Address of the signer.
    pub maker: Address,
    pub inheritance: Inheritance,
    pub config: Config,
}

impl IncreaseInheritanceBounty {
    /// The checks made before anything changes, in order: the signer is the
    /// inheritance's maker, the protocol is open, the maker is still active.
    pub open spec fn admitted(self, now: u64) -> Result<(), ProtocolError> {
        spec_then(
            spec_require_address(self.maker, self.inheritance.maker, ProtocolError::InvalidMaker),
            spec_maker_gate(self.config, self.inheritance, now),
        )
    }

    /// The bounty stays within 64 bits if the instruction gets that far.
    pub open spec fn no_overflow(self, bounty_amount: u64, now: u64) -> bool {
        self.admitted(now) is Ok ==> self.inheritance.bounty_amount + bounty_amount <= u64::MAX
    }

    /// Makes the checks of [`IncreaseInheritanceBounty::admitted`].
    pub fn check_admitted(&self, now: u64) -> (r: Result<(), ProtocolError>)
        ensures
            r == self.admitted(now),
    {
        require_address(&self.maker, &self.inheritance.maker, ProtocolError::InvalidMaker)?;
        require_maker_gate(&self.config, &self.inheritance, now)
    }

    /// Decides [`IncreaseInheritanceBounty::no_overflow`].
    pub fn fits(&self, bounty_amount: u64, now: u64) -> (r: bool)
        ensures
            r == self.no_overflow(bounty_amount, now),
    {
        self.check_admitted(now).is_err() || self.inheritance.bounty_amount <= u64::MAX - bounty_amount
    }

    /// The maker adds `bounty_amount` lamports to the bounty at `now`; this also
    /// counts as a check-in.
    pub fn increase_inheritance_bounty(&mut self, bounty_amount: u64, now: u64) -> (r: Result<Vec<Cpi>, ProtocolError>)
        requires
            old(self).no_overflow(bounty_amount, now),
        ensures
            match r {
                Ok(cpis) => {
                    &&& old(self).admitted(now) is Ok
                    &&& final(self).maker == old(self).maker
                    &&& final(self).config == old(self).config
                    &&& final(self).inheritance == (Inheritance {
                        bounty_amount: (old(self).inheritance.bounty_amount + bounty_amount) as u64,
                        ..old(self).inheritance.checked_in_at(now)
                    })
                    &&& cpis@ == seq![
                        Cpi::Transfer { from: Party::Maker, to: Party::InheritanceVault, lamports: bounty_amount },
                    ]
                },
                Err(e) => {
                    &&& old(self).admitted(now) == Err::<(), ProtocolError>(e)
                    &&& *final(self) == *old(self)
                },
            },
    {
        self.check_admitted(now)?;
        self.inheritance.last_check_in = now;
        self.inheritance.bounty_amount = self.inheritance.bounty_amount + bounty_amount;
        let mut cpis: Vec<Cpi> = Vec::new();
        cpis.push(Cpi::Transfer { from: Party::Maker, to: Party::InheritanceVault, lamports: bounty_amount });
        Ok(cpis)
    }
}

} // verus!
