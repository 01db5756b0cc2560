use vstd::prelude::*;

use crate::errors::ProtocolError;
use crate::state::{
    require_admin, require_program, require_token_program, spec_require_admin, spec_require_program,
    spec_require_token_program, spec_then, Address, Config,
};

verus! {

/// Bump seeds of the accounts that setting up the protocol creates.
#[derive(Debug, Clone, Copy, PartialEq, Eq)]
pub struct InitializeAdminBumps {
    pub protocol_mint: u8,
    pub config: u8,
    pub vault: u8,
}

/// What setting up the protocol reads and writes.
#[derive(Debug, Clone, Copy, PartialEq, Eq)]
pub struct InitializeAdmin {
    /// Address of the signer.
    pub admin: Address,
    /// The program's upgrade authority, if it has one.
    pub upgrade_authority: Option<Address>,
    /// Address of the program-data account given.
    pub program_data: Address,
    /// The program-data address that the program account records, if any.
    pub programdata_address: Option<Address>,
    /// Address of the token program given.
    pub token_program: Address,
    /// Program id of Token-2022, the token program the protocol uses.
    pub token_2022_program_id: Address,
    /// Address of the protocol mint.
    pub protocol_mint: Address,
    /// Address of the shared vault.
    pub vault: Address,
    /// The configuration account, written from scratch.
    pub config: Config,
}

/// The configuration that a fresh protocol starts with.
pub open spec fn spec_initial_config(protocol_mint: Address, vault: Address, bumps: InitializeAdminBumps, fees: u64) -> Config {
    Config {
        fees: fees,
        amount_locked: 0,
        burned: 0,
        mint: protocol_mint,
        vault: vault,
        locked: false,
        bump: bumps.config,
        mint_bump: bumps.protocol_mint,
        vault_bump: bumps.vault,
    }
}

impl InitializeAdmin {
    /// The checks made before anything changes, in order: signed by the
    /// upgrade authority, the program-data account is the recorded one, and
    /// the token program is Token-2022.
    pub open spec fn admitted(self) -> Result<(), ProtocolError> {
        spec_then(
            spec_require_admin(self.admin, self.upgrade_authority),
            spec_then(
                spec_require_program(self.program_data, self.programdata_address),
                spec_require_token_program(self.token_program, self.token_2022_program_id),
            ),
        )
    }

    /// Makes the checks of [`InitializeAdmin::admitted`].
    pub fn check_admitted(&self) -> (r: Result<(), ProtocolError>)
        ensures
            r == self.admitted(),
    {
        require_admin(&self.admin, &self.upgrade_authority)?;
        require_program(&self.program_data, &self.programdata_address)?;
        require_token_program(&self.token_program, &self.token_2022_program_id)
    }

    /// The admin sets up an open protocol with an empty vault and the given fee.
    pub fn initialize_config(&mut self, bumps: InitializeAdminBumps, fees: u64) -> (r: Result<(), ProtocolError>)
        ensures
            r == old(self).admitted(),
            r is Ok ==> *final(self) == (InitializeAdmin {
                config: spec_initial_config(old(self).protocol_mint, old(self).vault, bumps, fees),
                ..*old(self)
            }),
            r is Err ==> *final(self) == *old(self),
    {
        self.check_admitted()?;
        self.config = Config {
            fees: fees,
            amount_locked: 0,
            burned: 0,
            mint: self.protocol_mint,
            vault: self.vault,
            locked: false,
            bump: bumps.config,
            mint_bump: bumps.protocol_mint,
            vault_bump: bumps.vault,
        };
        Ok(())
    }
}

} // verus!
