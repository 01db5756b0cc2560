use vstd::prelude::*;

use crate::cpi::{Cpi, Party};
use crate::errors::ProtocolError;
use crate::state::{
    require_address, require_unlocked, spec_lamports_to_return, spec_require_address, spec_require_unlocked, spec_then,
    Address, Config, Inheritance,
};

verus! {

/// What redeeming protocol tokens for lamports reads and writes.
#[derive(Debug, Clone, Copy, PartialEq, Eq)]
pub struct WithdrawSol {
    /// Address of the mint account given.
    pub protocol_mint: Address,
    pub config: Config,
    /// Protocol tokens in circulation.
    pub mint_supply: u64,
}

impl WithdrawSol {
    /// The outcome before any transfer: the lamports that `amount` tokens
    /// redeem, or the reason for refusal (the mint is not the protocol's, the
    /// protocol is locked, or no tokens exist).
    pub open spec fn redeemed(self, amount: u64) -> Result<u64, ProtocolError> {
        match spec_then(
            spec_require_address(self.protocol_mint, self.config.mint, ProtocolError::InvalidMintAccount),
            spec_require_unlocked(self.config),
        ) {
            Err(e) => Err(e),
            Ok(_) => spec_lamports_to_return(amount, self.config.amount_locked, self.mint_supply),
        }
    }

    /// The subtraction from the locked lamports stays within range.
    pub open spec fn no_overflow(self, amount: u64) -> bool {
        self.redeemed(amount) is Ok ==> self.redeemed(amount)->Ok_0 <= self.config.amount_locked
    }

    /// Computes [`WithdrawSol::redeemed`].
    pub fn check_redeemed(&self, amount: u64) -> (r: Result<u64, ProtocolError>)
        ensures
            r == self.redeemed(amount),
    {
        require_address(&self.protocol_mint, &self.config.mint, ProtocolError::InvalidMintAccount)?;
        require_unlocked(&self.config)?;
        Inheritance::calculate_lamports_to_return(amount, self.config.amount_locked, self.mint_supply)
    }

    /// Decides [`WithdrawSol::no_overflow`].
    pub fn fits(&self, amount: u64) -> (r: bool)
        ensures
            r == self.no_overflow(amount),
    {
        match self.check_redeemed(amount) {
            Err(_) => true,
            Ok(lamports) => lamports <= self.config.amount_locked,
        }
    }

    /// A holder burns `amount` protocol tokens and receives their share of the vault.
    pub fn withraw_sol(&mut self, amount: u64) -> (r: Result<Vec<Cpi>, ProtocolError>)
        requires
            old(self).no_overflow(amount),
        ensures
            match r {
                Ok(cpis) => {
                    &&& old(self).redeemed(amount) is Ok
                    &&& final(self).config == (Config {
                        amount_locked: (old(self).config.amount_locked - old(self).redeemed(amount)->Ok_0) as u64,
                        ..old(self).config
                    })
                    &&& final(self).mint_supply == old(self).mint_supply
                    &&& final(self).protocol_mint == old(self).protocol_mint
                    &&& cpis@ == seq![
                        Cpi::Transfer {
                            from: Party::Vault,
                            to: Party::Withdrawer,
                            lamports: old(self).redeemed(amount)->Ok_0,
                        },
                        Cpi::Burn { from: Party::WithdrawerTokenAccount, authority: Party::Withdrawer, amount: amount },
                    ]
                },
                Err(e) => {
                    &&& old(self).redeemed(amount) == Err::<u64, ProtocolError>(e)
                    &&& *final(self) == *old(self)
                },
            },
    {
        let lamports_to_return = self.check_redeemed(amount)?;
        let mut cpis: Vec<Cpi> = Vec::new();
        cpis.push(Cpi::Transfer { from: Party::Vault, to: Party::Withdrawer, lamports: lamports_to_return });
        self.config.amount_locked = self.config.amount_locked - lamports_to_return;
        cpis.push(Cpi::Burn { from: Party::WithdrawerTokenAccount, authority: Party::Withdrawer, amount });
        Ok(cpis)
    }
}

} // verus!
