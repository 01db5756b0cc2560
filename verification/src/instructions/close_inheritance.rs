use vstd::prelude::*;

use crate::cpi::{Cpi, Party};
use crate::errors::ProtocolError;
use crate::state::{require_address, require_maker_gate, spec_require_address, spec_then, Address, spec_lamports_to_return, spec_maker_gate, Config, Inheritance};

verus! {

/// What closing an inheritance reads and writes.
#[derive(Debug, Clone, Copy, PartialEq, Eq)]
pub struct CloseInheritance {
    /// Address of the signer.
    pub maker: Address,
    /// Address of the mint account given.
    pub protocol_mint: Address,
    pub config: Config,
    pub inheritance: Inheritance,
    /// Protocol tokens held in the maker's token account.
    pub maker_ata_amount: u64,
}

impl CloseInheritance {
    /// Shares burned on closing: those of the inheritance, or fewer if the maker holds fewer.
    pub open spec fn tokens_to_burn(self) -> u64 {
        if self.maker_ata_amount >= self.inheritance.shares {
            self.inheritance.shares
        } else {
            self.maker_ata_amount
        }
    }

    /// The checks on the accounts and the clock, in order: the signer is the
    /// inheritance's maker, the mint is the protocol's, the protocol is open,
    /// and the maker is still active at `now`.
    pub open spec fn admitted(self, now: u64) -> Result<(), ProtocolError> {
        spec_then(
            spec_require_address(self.maker, self.inheritance.maker, ProtocolError::InvalidMaker),
            spec_then(
                spec_require_address(self.protocol_mint, self.config.mint, ProtocolError::InvalidMintAccount),
                spec_maker_gate(self.config, self.inheritance, now),
            ),
        )
    }

    /// The checks pass up to the point where the vault's outstanding value is computed.
    pub open spec fn passes_checks(self, now: u64) -> bool {
        &&& self.admitted(now) is Ok
        &&& self.maker_ata_amount != 0
    }

    /// The outcome before any transfer: the lamports returned to the maker, or
    /// the reason for refusal. The burned shares are priced against the locked
    /// lamports less those written off.
    pub open spec fn returned(self, now: u64) -> Result<u64, ProtocolError> {
        match self.admitted(now) {
            Err(e) => Err(e),
            Ok(_) => if self.maker_ata_amount == 0 {
                Err(ProtocolError::NoSharesAvailable)
            } else {
                spec_lamports_to_return(
                    self.tokens_to_burn(),
                    self.config.amount_locked,
                    (self.config.amount_locked - self.config.burned) as u64,
                )
            },
        }
    }

    /// The subtractions of the instruction stay within range: the written-off
    /// lamports do not exceed the locked ones once the checks pass, and the
    /// returned lamports do not exceed the locked ones.
    pub open spec fn no_overflow(self, now: u64) -> bool {
        &&& self.passes_checks(now) ==> self.config.burned <= self.config.amount_locked
        &&& self.returned(now) is Ok ==> self.returned(now)->Ok_0 <= self.config.amount_locked
    }

    /// Computes [`CloseInheritance::tokens_to_burn`].
    pub fn burn_amount(&self) -> (r: u64)
        ensures
            r == self.tokens_to_burn(),
    {
        if self.maker_ata_amount >= self.inheritance.shares {
            self.inheritance.shares
        } else {
            self.maker_ata_amount
        }
    }

    /// Makes the checks of [`CloseInheritance::admitted`].
    pub fn check_admitted(&self, now: u64) -> (r: Result<(), ProtocolError>)
        ensures
            r == self.admitted(now),
    {
        require_address(&self.maker, &self.inheritance.maker, ProtocolError::InvalidMaker)?;
        require_address(&self.protocol_mint, &self.config.mint, ProtocolError::InvalidMintAccount)?;
        require_maker_gate(&self.config, &self.inheritance, now)
    }

    /// Computes [`CloseInheritance::returned`].
    pub fn check_returned(&self, now: u64) -> (r: Result<u64, ProtocolError>)
        requires
            self.passes_checks(now) ==> self.config.burned <= self.config.amount_locked,
        ensures
            r == self.returned(now),
    {
        self.check_admitted(now)?;
        if self.maker_ata_amount == 0 {
            return Err(ProtocolError::NoSharesAvailable);
        }
        let tokens_to_burn = self.burn_amount();
        let outstanding = self.config.amount_locked - self.config.burned;
        Inheritance::calculate_lamports_to_return(tokens_to_burn, self.config.amount_locked, outstanding)
    }

    /// Decides [`CloseInheritance::no_overflow`].
    pub fn fits(&self, now: u64) -> (r: bool)
        ensures
            r == self.no_overflow(now),
    {
        if self.check_admitted(now).is_err() || self.maker_ata_amount == 0 {
            return true;
        }
        if self.config.burned > self.config.amount_locked {
            return false;
        }
        match self.check_returned(now) {
            Err(_) => true,
            Ok(lamports) => lamports <= self.config.amount_locked,
        }
    }

    /// The maker closes the inheritance at `now`: their shares are burned, their
    /// part of the vault and the bounty are paid back to them.
    pub fn close_inheritance(&mut self, now: u64) -> (r: Result<Vec<Cpi>, ProtocolError>)
        requires
            old(self).no_overflow(now),
        ensures
            match r {
                Ok(cpis) => {
                    &&& old(self).returned(now) is Ok
                    &&& final(self).config == (Config {
                        amount_locked: (old(self).config.amount_locked - old(self).returned(now)->Ok_0) as u64,
                        ..old(self).config
                    })
                    &&& final(self).inheritance == old(self).inheritance
                    &&& final(self).maker_ata_amount == old(self).maker_ata_amount
                    &&& final(self).maker == old(self).maker
                    &&& final(self).protocol_mint == old(self).protocol_mint
                    &&& cpis@ == seq![
                        Cpi::Burn {
                            from: Party::MakerTokenAccount,
                            authority: Party::Config,
                            amount: old(self).tokens_to_burn(),
                        },
                        Cpi::Transfer { from: Party::Vault, to: Party::Maker, lamports: old(self).returned(now)->Ok_0 },
                        Cpi::Transfer {
                            from: Party::InheritanceAccount,
                            to: Party::Maker,
                            lamports: old(self).inheritance.bounty_amount,
                        },
                    ]
                },
                Err(e) => {
                    &&& old(self).returned(now) == Err::<u64, ProtocolError>(e)
                    &&& *final(self) == *old(self)
                },
            },
    {
        let lamports_to_return = self.check_returned(now)?;
        let tokens_to_burn = self.burn_amount();
        let mut cpis: Vec<Cpi> = Vec::new();
        cpis.push(Cpi::Burn { from: Party::MakerTokenAccount, authority: Party::Config, amount: tokens_to_burn });
        cpis.push(Cpi::Transfer { from: Party::Vault, to: Party::Maker, lamports: lamports_to_return });
        cpis.push(Cpi::Transfer {
            from: Party::InheritanceAccount,
            to: Party::Maker,
            lamports: self.inheritance.bounty_amount,
        });
        self.config.amount_locked = self.config.amount_locked - lamports_to_return;
        Ok(cpis)
    }
}

} // verus!
