use vstd::prelude::*;

use crate::cpi::{Cpi, Party};
use crate::errors::ProtocolError;
use crate::state::{require_address, require_maker_gate, spec_require_address, spec_then, Address, spec_maker_gate, spec_tokens_to_burn, Config, Inheritance};

verus! {

/// What taking funds out of an inheritance reads and writes.
#[derive(Debug, Clone, Copy, PartialEq, Eq)]
pub struct ReduceInheritance {
    /// Address of the signer.
    pub maker: Address,
    /// Address of the mint account given.
    pub protocol_mint: Address,
    pub config: Config,
    pub inheritance: Inheritance,
    /// Protocol tokens in circulation.
    pub mint_supply: u64,
    /// Protocol tokens held in the maker's token account.
    pub maker_ata_amount: u64,
}

impl ReduceInheritance {
    /// The checks on the accounts and the clock, in order: the signer is the
    /// inheritance's maker, the mint is the protocol's, the protocol is open,
    /// and the maker is still active at `now`.
    pub open spec fn admitted(self, now: u64) -> Result<(), ProtocolError> {
        spec_then(
            spec_require_address(self.maker, self.inheritance.maker, ProtocolError::InvalidMaker),
            spec_then(
                spec_require_address(self.protocol_mint, self.config.mint, ProtocolError::InvalidMintAccount),
                spec_maker_gate(self.config, self.inheritance, now),
            ),
        )
    }

    /// The outcome before any transfer: the shares to burn for `amount` lamports,
    /// or the reason for refusal, in the order the checks are made.
    pub open spec fn burn_plan(self, amount: u64, now: u64) -> Result<u64, ProtocolError> {
        match self.admitted(now) {
            Err(e) => Err(e),
            Ok(_) => match spec_tokens_to_burn(amount, self.config.amount_locked, self.mint_supply) {
                Err(e) => Err(e),
                Ok(tokens) => if tokens > self.inheritance.shares {
                    Err(ProtocolError::InvalidTokenAmount)
                } else if tokens == self.inheritance.shares {
                    Err(ProtocolError::InvalidInstruction)
                } else if self.maker_ata_amount == 0 {
                    Err(ProtocolError::NoSharesAvailable)
                } else if tokens > self.maker_ata_amount {
                    Err(ProtocolError::InvalidTokenAmount)
                } else {
                    Ok(tokens)
                },
            },
        }
    }

    /// The subtractions of a successful reduction stay within range.
    pub open spec fn no_overflow(self, amount: u64, now: u64) -> bool {
        self.burn_plan(amount, now) is Ok ==> {
            &&& amount <= self.inheritance.inheritance_amount
            &&& amount <= self.config.amount_locked
        }
    }

    /// Computes [`ReduceInheritance::burn_plan`].
    pub fn check_burn_plan(&self, amount: u64, now: u64) -> (r: Result<u64, ProtocolError>)
        ensures
            r == self.burn_plan(amount, now),
    {
        require_address(&self.maker, &self.inheritance.maker, ProtocolError::InvalidMaker)?;
        require_address(&self.protocol_mint, &self.config.mint, ProtocolError::InvalidMintAccount)?;
        require_maker_gate(&self.config, &self.inheritance, now)?;
        let tokens_to_burn = Inheritance::calculate_tokens_to_burn(amount, self.config.amount_locked, self.mint_supply)?;
        let shares_minted = self.inheritance.shares;
        if tokens_to_burn > shares_minted {
            return Err(ProtocolError::InvalidTokenAmount);
        }
        if tokens_to_burn == shares_minted {
            return Err(ProtocolError::InvalidInstruction);
        }
        let shares_available = self.maker_ata_amount;
        if shares_available == 0 {
            return Err(ProtocolError::NoSharesAvailable);
        }
        if tokens_to_burn > shares_available {
            return Err(ProtocolError::InvalidTokenAmount);
        }
        Ok(tokens_to_burn)
    }

    /// Decides [`ReduceInheritance::no_overflow`].
    pub fn fits(&self, amount: u64, now: u64) -> (r: bool)
        ensures
            r == self.no_overflow(amount, now),
    {
        match self.check_burn_plan(amount, now) {
            Err(_) => true,
            Ok(_) => amount <= self.inheritance.inheritance_amount && amount <= self.config.amount_locked,
        }
    }

    /// The maker takes `amount` lamports back out of the vault at `now`, burning
    /// the matching shares, and keeps part of the inheritance: burning all of
    /// its shares is refused. The recorded share count is left as it was.
    pub fn reduce_inheritance(&mut self, amount: u64, now: u64) -> (r: Result<Vec<Cpi>, ProtocolError>)
        requires
            old(self).no_overflow(amount, now),
        ensures
            match r {
                Ok(cpis) => {
                    &&& old(self).burn_plan(amount, now) is Ok
                    &&& final(self).config == (Config {
                        amount_locked: (old(self).config.amount_locked - amount) as u64,
                        ..old(self).config
                    })
                    &&& final(self).inheritance == (Inheritance {
                        inheritance_amount: (old(self).inheritance.inheritance_amount - amount) as u64,
                        ..old(self).inheritance
                    })
                    &&& final(self).mint_supply == old(self).mint_supply
                    &&& final(self).maker_ata_amount == old(self).maker_ata_amount
                    &&& final(self).maker == old(self).maker
                    &&& final(self).protocol_mint == old(self).protocol_mint
                    &&& cpis@ == seq![
                        Cpi::Burn {
                            from: Party::MakerTokenAccount,
                            authority: Party::Config,
                            amount: old(self).burn_plan(amount, now)->Ok_0,
                        },
                        Cpi::Transfer { from: Party::Vault, to: Party::Maker, lamports: amount },
                    ]
                },
                Err(e) => {
                    &&& old(self).burn_plan(amount, now) == Err::<u64, ProtocolError>(e)
                    &&& *final(self) == *old(self)
                },
            },
    {
        let tokens_to_burn = self.check_burn_plan(amount, now)?;
        let mut cpis: Vec<Cpi> = Vec::new();
        cpis.push(Cpi::Burn { from: Party::MakerTokenAccount, authority: Party::Config, amount: tokens_to_burn });
        cpis.push(Cpi::Transfer { from: Party::Vault, to: Party::Maker, lamports: amount });
        self.inheritance.inheritance_amount = self.inheritance.inheritance_amount - amount;
        self.config.amount_locked = self.config.amount_locked - amount;
        Ok(cpis)
    }
}

} // verus!
