use vstd::prelude::*;

use crate::errors::ProtocolError;
use crate::state::{require_admin, spec_require_admin, spec_then, Address, Config};

verus! {

/// What writing off lamports reads and writes.
#[derive(Debug, Clone, Copy, PartialEq, Eq)]
pub struct UpdateConfigBurned {
    /// Address of the signer.
    pub admin: Address,
    /// Address of the program's data account, if the program is upgradeable.
    ///
    /// The signer is checked against this address, not against the upgrade
    /// authority. No one can sign for a program's data account, so on chain
    /// the instruction is refused with `InvalidAdmin` whatever the signer.
    pub program_data_address: Option<Address>,
    pub config: Config,
}

impl UpdateConfigBurned {
    /// The checks made before anything changes, in order: the signer's
    /// address is the program's data account address, and the protocol is locked.
    pub open spec fn admitted(self) -> Result<(), ProtocolError> {
        spec_then(
            spec_require_admin(self.admin, self.program_data_address),
            if self.config.locked { Ok(()) } else { Err(ProtocolError::ProtocolUnlocked) },
        )
    }

    /// The written-off total stays within 64 bits if the instruction gets that far.
    pub open spec fn no_overflow(self, amount: u64) -> bool {
        self.admitted() is Ok ==> self.config.burned + amount <= u64::MAX
    }

    /// Makes the checks of [`UpdateConfigBurned::admitted`].
    pub fn check_admitted(&self) -> (r: Result<(), ProtocolError>)
        ensures
            r == self.admitted(),
    {
        require_admin(&self.admin, &self.program_data_address)?;
        if !self.config.locked {
            return Err(ProtocolError::ProtocolUnlocked);
        }
        Ok(())
    }

    /// Decides [`UpdateConfigBurned::no_overflow`].
    pub fn fits(&self, amount: u64) -> (r: bool)
        ensures
            r == self.no_overflow(amount),
    {
        match self.check_admitted() {
            Err(_) => true,
            Ok(_) => self.config.burned <= u64::MAX - amount,
        }
    }

    /// The signer adds `amount` to the written-off lamports; only while the protocol is locked.
    pub fn update_config_burned(&mut self, amount: u64) -> (r: Result<(), ProtocolError>)
        requires
            old(self).no_overflow(amount),
        ensures
            r == old(self).admitted(),
            r is Ok ==> final(self).config == (Config {
                burned: (old(self).config.burned + amount) as u64,
                ..old(self).config
            }),
            r is Ok ==> final(self).admin == old(self).admin && final(self).program_data_address
                == old(self).program_data_address,
            r is Err ==> *final(self) == *old(self),
    {
        self.check_admitted()?;
        self.config.burned = self.config.burned + amount;
        Ok(())
    }
}

} // verus!
