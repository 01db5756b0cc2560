use vstd::prelude::*;

use crate::cpi::{Cpi, Party};
use crate::errors::ProtocolError;
use crate::state::{
    lemma_product_fits_u128, require_program, require_token_program, spec_require_program, spec_require_token_program,
    require_address, require_admin, require_expired, require_unlocked, spec_lamports_to_return, spec_require_address,
    spec_require_admin, spec_require_expired, spec_require_unlocked, spec_then, Address, Config, Inheritance,
};

verus! {

/// Basis points in a whole.
pub const BASIS_POINTS: u64 = 10_000;

/// The protocol fee on `lamports` at a rate of `fees` basis points, rounded
/// down and taken modulo 2^64.
pub open spec fn spec_fee(lamports: u64, fees: u64) -> u64 {
    (lamports as int * fees as int / BASIS_POINTS as int) as u64
}

/// Computes [`spec_fee`] in 128-bit arithmetic.
pub fn calculate_fee(lamports: u64, fees: u64) -> (r: u64)
    ensures
        r == spec_fee(lamports, fees),
{
    proof {
        lemma_product_fits_u128(lamports, fees);
    }
    let product: u128 = (lamports as u128) * (fees as u128);
    let quotient: u128 = product / (BASIS_POINTS as u128);
    #[verifier::truncate]
    (quotient as u64)
}

/// What handing an expired inheritance to its inheritor reads and writes.
#[derive(Debug, Clone, Copy, PartialEq, Eq)]
pub struct TriggerInheritance {
    /// Address of the inheritor account given.
    pub inheritor: Address,
    /// Address of the maker account given.
    pub maker: Address,
    /// Address of the admin account given, which receives the fee.
    pub admin: Address,
    /// The program's upgrade authority, if it has one.
    pub upgrade_authority: Option<Address>,
    /// Address of the mint account given.
    pub protocol_mint: Address,
    /// Address of the token program given.
    pub token_program: Address,
    /// Program id of Token-2022, the token program the protocol uses.
    pub token_2022_program_id: Address,
    /// Address of the program-data account given.
    pub program_data: Address,
    /// The program-data address that the program account records, if any.
    pub programdata_address: Option<Address>,
    pub config: Config,
    pub inheritance: Inheritance,
    /// Protocol tokens in circulation.
    pub mint_supply: u64,
    /// Protocol tokens held in the maker's token account.
    pub maker_ata_amount: u64,
}

impl TriggerInheritance {
    /// Shares burned: those of the inheritance, or fewer if the maker holds fewer.
    pub open spec fn final_shares(self) -> u64 {
        if self.maker_ata_amount >= self.inheritance.shares {
            self.inheritance.shares
        } else {
            self.maker_ata_amount
        }
    }

    /// The checks on the accounts given, in order: the inheritor and the
    /// maker are those on record, the admin is the upgrade authority, the mint
    /// is the protocol's, the protocol is open, the token program is
    /// Token-2022, and the program-data account is the recorded one.
    pub open spec fn accounts_admitted(self) -> Result<(), ProtocolError> {
        spec_then(
            spec_require_address(self.inheritor, self.inheritance.inheritor, ProtocolError::InvalidInheritor),
            spec_then(
                spec_require_address(self.maker, self.inheritance.maker, ProtocolError::InvalidMaker),
                spec_then(
                    spec_require_admin(self.admin, self.upgrade_authority),
                    spec_then(
                        spec_require_address(self.protocol_mint, self.config.mint, ProtocolError::InvalidMintAccount),
                        spec_then(
                            spec_require_unlocked(self.config),
                            spec_then(
                                spec_require_token_program(self.token_program, self.token_2022_program_id),
                                spec_require_program(self.program_data, self.programdata_address),
                            ),
                        ),
                    ),
                ),
            ),
        )
    }

    /// The outcome before any transfer: the lamports released from the vault,
    /// or the reason for refusal, in the order the checks are made.
    pub open spec fn released(self, now: u64) -> Result<u64, ProtocolError> {
        match spec_then(self.accounts_admitted(), spec_require_expired(self.inheritance, now)) {
            Err(e) => Err(e),
            Ok(_) => match spec_lamports_to_return(self.final_shares(), self.config.amount_locked, self.mint_supply) {
                Err(e) => Err(e),
                Ok(lamports) => if spec_fee(lamports, self.config.fees) > lamports {
                    Err(ProtocolError::MathOverflow)
                } else {
                    Ok(lamports)
                },
            },
        }
    }

    /// The subtraction from the locked lamports stays within range.
    pub open spec fn no_overflow(self, now: u64) -> bool {
        self.released(now) is Ok ==> self.released(now)->Ok_0 <= self.config.amount_locked
    }

    /// Computes [`TriggerInheritance::final_shares`].
    pub fn burn_amount(&self) -> (r: u64)
        ensures
            r == self.final_shares(),
    {
        if self.maker_ata_amount >= self.inheritance.shares {
            self.inheritance.shares
        } else {
            self.maker_ata_amount
        }
    }

    /// Computes [`TriggerInheritance::released`].
    pub fn check_released(&self, now: u64) -> (r: Result<u64, ProtocolError>)
        ensures
            r == self.released(now),
    {
        require_address(&self.inheritor, &self.inheritance.inheritor, ProtocolError::InvalidInheritor)?;
        require_address(&self.maker, &self.inheritance.maker, ProtocolError::InvalidMaker)?;
        require_admin(&self.admin, &self.upgrade_authority)?;
        require_address(&self.protocol_mint, &self.config.mint, ProtocolError::InvalidMintAccount)?;
        require_unlocked(&self.config)?;
        require_token_program(&self.token_program, &self.token_2022_program_id)?;
        require_program(&self.program_data, &self.programdata_address)?;
        require_expired(&self.inheritance, now)?;
        let lamports_to_transfer = Inheritance::calculate_lamports_to_return(
            self.burn_amount(),
            self.config.amount_locked,
            self.mint_supply,
        )?;
        let fee_amount = calculate_fee(lamports_to_transfer, self.config.fees);
        match lamports_to_transfer.checked_sub(fee_amount) {
            Some(_) => Ok(lamports_to_transfer),
            None => Err(ProtocolError::MathOverflow),
        }
    }

    /// Decides [`TriggerInheritance::no_overflow`].
    pub fn fits(&self, now: u64) -> (r: bool)
        ensures
            r == self.no_overflow(now),
    {
        match self.check_released(now) {
            Err(_) => true,
            Ok(lamports) => lamports <= self.config.amount_locked,
        }
    }

    /// Anyone (the keeper) hands over an inheritance whose maker has been
    /// inactive for the whole period at `now`: the maker's shares are burned,
    /// their value less the fee goes to the inheritor, the fee to the admin,
    /// and the bounty and the rest of the inheritance vault to the keeper.
    pub fn trigger_inheritance(&mut self, now: u64) -> (r: Result<Vec<Cpi>, ProtocolError>)
        requires
            old(self).no_overflow(now),
        ensures
            match r {
                Ok(cpis) => {
                    &&& old(self).released(now) is Ok
                    &&& final(self).config == (Config {
                        amount_locked: (old(self).config.amount_locked - old(self).released(now)->Ok_0) as u64,
                        ..old(self).config
                    })
                    &&& final(self).inheritance == old(self).inheritance
                    &&& spec_fee(old(self).released(now)->Ok_0, old(self).config.fees) <= old(self).released(now)->Ok_0
                    &&& (old(self).released(now)->Ok_0 - spec_fee(old(self).released(now)->Ok_0, old(self).config.fees))
                        + spec_fee(old(self).released(now)->Ok_0, old(self).config.fees)
                        == old(self).config.amount_locked - final(self).config.amount_locked
                    &&& final(self).mint_supply == old(self).mint_supply
                    &&& final(self).maker_ata_amount == old(self).maker_ata_amount
                    &&& final(self).inheritor == old(self).inheritor
                    &&& final(self).maker == old(self).maker
                    &&& final(self).admin == old(self).admin
                    &&& final(self).upgrade_authority == old(self).upgrade_authority
                    &&& final(self).protocol_mint == old(self).protocol_mint
                    &&& final(self).token_program == old(self).token_program
                    &&& final(self).token_2022_program_id == old(self).token_2022_program_id
                    &&& final(self).program_data == old(self).program_data
                    &&& final(self).programdata_address == old(self).programdata_address
                    &&& cpis@ == seq![
                        Cpi::Burn {
                            from: Party::MakerTokenAccount,
                            authority: Party::Config,
                            amount: old(self).final_shares(),
                        },
                        Cpi::Transfer {
                            from: Party::Vault,
                            to: Party::Inheritor,
                            lamports: (old(self).released(now)->Ok_0
                                - spec_fee(old(self).released(now)->Ok_0, old(self).config.fees)) as u64,
                        },
                        Cpi::Transfer {
                            from: Party::InheritanceVault,
                            to: Party::Keeper,
                            lamports: old(self).inheritance.bounty_amount,
                        },
                        Cpi::Transfer {
                            from: Party::Vault,
                            to: Party::Admin,
                            lamports: spec_fee(old(self).released(now)->Ok_0, old(self).config.fees),
                        },
                        Cpi::SweepLamports { from: Party::InheritanceVault, to: Party::Keeper },
                    ]
                },
                Err(e) => {
                    &&& old(self).released(now) == Err::<u64, ProtocolError>(e)
                    &&& *final(self) == *old(self)
                },
            },
    {
        let lamports_to_transfer = self.check_released(now)?;
        let final_shares = self.burn_amount();
        let fee_amount = calculate_fee(lamports_to_transfer, self.config.fees);
        let final_amount = lamports_to_transfer - fee_amount;
        let mut cpis: Vec<Cpi> = Vec::new();
        cpis.push(Cpi::Burn { from: Party::MakerTokenAccount, authority: Party::Config, amount: final_shares });
        cpis.push(Cpi::Transfer { from: Party::Vault, to: Party::Inheritor, lamports: final_amount });
        cpis.push(Cpi::Transfer {
            from: Party::InheritanceVault,
            to: Party::Keeper,
            lamports: self.inheritance.bounty_amount,
        });
        cpis.push(Cpi::Transfer { from: Party::Vault, to: Party::Admin, lamports: fee_amount });
        cpis.push(Cpi::SweepLamports { from: Party::InheritanceVault, to: Party::Keeper });
        self.config.amount_locked = self.config.amount_locked - lamports_to_transfer;
        Ok(cpis)
    }
}

} // verus!
