use vstd::prelude::*;

use crate::cpi::{Cpi, Party};
use crate::errors::ProtocolError;
use crate::state::{
    require_token_program, spec_require_token_program,
    require_address, require_unlocked, spec_require_address, spec_require_unlocked, spec_then, spec_token_to_mint,
    Address, Config, Inheritance,
};

verus! {

/// Bump seed of the inheritance account that the instruction creates.
#[derive(Debug, Clone, Copy, PartialEq, Eq)]
pub struct InitializeInheritanceBumps {
    pub inheritance: u8,
}

/// What opening an inheritance reads and writes.
#[derive(Debug, Clone, Copy, PartialEq, Eq)]
pub struct InitializeInheritance {
    /// Address of the maker who signs.
    pub maker: Address,
    /// Address of the mint account given.
    pub protocol_mint: Address,
    /// Address of the token program given.
    pub token_program: Address,
    /// Program id of Token-2022, the token program the protocol uses.
    pub token_2022_program_id: Address,
    pub config: Config,
    /// Protocol tokens in circulation.
    pub mint_supply: u64,
    /// The inheritance account, written from scratch.
    pub inheritance: Inheritance,
}

impl InitializeInheritance {
    /// The checks made before anything changes, in order: the protocol is
    /// open, the mint is the protocol's, and the token program is Token-2022.
    pub open spec fn admitted(self) -> Result<(), ProtocolError> {
        spec_then(
            spec_require_unlocked(self.config),
            spec_then(
                spec_require_address(self.protocol_mint, self.config.mint, ProtocolError::InvalidMintAccount),
                spec_require_token_program(self.token_program, self.token_2022_program_id),
            ),
        )
    }

    /// The locked total stays within 64 bits if the instruction gets that far.
    pub open spec fn no_overflow(self, inheritance_amount: u64) -> bool {
        self.admitted() is Ok ==> self.config.amount_locked + inheritance_amount <= u64::MAX
    }

    /// Makes the checks of [`InitializeInheritance::admitted`].
    pub fn check_admitted(&self) -> (r: Result<(), ProtocolError>)
        ensures
            r == self.admitted(),
    {
        require_unlocked(&self.config)?;
        require_address(&self.protocol_mint, &self.config.mint, ProtocolError::InvalidMintAccount)?;
        require_token_program(&self.token_program, &self.token_2022_program_id)
    }

    /// Decides [`InitializeInheritance::no_overflow`].
    pub fn fits(&self, inheritance_amount: u64) -> (r: bool)
        ensures
            r == self.no_overflow(inheritance_amount),
    {
        self.check_admitted().is_err() || self.config.amount_locked <= u64::MAX - inheritance_amount
    }

    /// Shares minted for the opening deposit.
    pub open spec fn mint_amount(self, inheritance_amount: u64) -> u64 {
        spec_token_to_mint(inheritance_amount, self.config.amount_locked, self.mint_supply)
    }

    /// The inheritance that the instruction writes.
    pub open spec fn new_inheritance(
        self,
        bumps: InitializeInheritanceBumps,
        seed: u64,
        inheritor: Address,
        inheritance_amount: u64,
        bounty_amount: u64,
        inactivity_time: u64,
        now: u64,
    ) -> Inheritance {
        Inheritance {
            maker: self.maker,
            seed: seed,
            inheritor: inheritor,
            inheritance_amount: inheritance_amount,
            bounty_amount: bounty_amount,
            inactivity_time: inactivity_time,
            last_check_in: now,
            shares: self.mint_amount(inheritance_amount),
            bump: bumps.inheritance,
        }
    }

    /// The maker opens an inheritance at `now`: `inheritance_amount` lamports go
    /// to the shared vault, `bounty_amount` lamports to the inheritance account,
    /// and the maker receives newly minted shares, which the config account is
    /// approved to burn.
    pub fn initialize_inheritance(
        &mut self,
        bumps: InitializeInheritanceBumps,
        seed: u64,
        inheritor: Address,
        inheritance_amount: u64,
        bounty_amount: u64,
        inactivity_time: u64,
        now: u64,
    ) -> (r: Result<Vec<Cpi>, ProtocolError>)
        requires
            old(self).no_overflow(inheritance_amount),
        ensures
            match r {
                Ok(cpis) => {
                    &&& old(self).admitted() is Ok
                    &&& final(self).config == (Config {
                        amount_locked: (old(self).config.amount_locked + inheritance_amount) as u64,
                        ..old(self).config
                    })
                    &&& final(self).inheritance == old(self).new_inheritance(
                        bumps, seed, inheritor, inheritance_amount, bounty_amount, inactivity_time, now)
                    &&& final(self).maker == old(self).maker
                    &&& final(self).protocol_mint == old(self).protocol_mint
                    &&& final(self).token_program == old(self).token_program
                    &&& final(self).token_2022_program_id == old(self).token_2022_program_id
                    &&& final(self).mint_supply == old(self).mint_supply
                    &&& cpis@ == seq![
                        Cpi::Transfer { from: Party::Maker, to: Party::Vault, lamports: inheritance_amount },
                        Cpi::Transfer { from: Party::Maker, to: Party::InheritanceAccount, lamports: bounty_amount },
                        Cpi::MintTo { to: Party::MakerTokenAccount, amount: old(self).mint_amount(inheritance_amount) },
                        Cpi::Approve {
                            account: Party::MakerTokenAccount,
                            delegate: Party::Config,
                            authority: Party::Maker,
                            amount: old(self).mint_amount(inheritance_amount),
                        },
                    ]
                },
                Err(e) => {
                    &&& old(self).admitted() == Err::<(), ProtocolError>(e)
                    &&& *final(self) == *old(self)
                },
            },
    {
        self.check_admitted()?;
        let amount_locked_before = self.config.amount_locked;
        let mint_amount = Inheritance::calculate_token_to_mint(inheritance_amount, amount_locked_before, self.mint_supply)?;
        let mut cpis: Vec<Cpi> = Vec::new();
        cpis.push(Cpi::Transfer { from: Party::Maker, to: Party::Vault, lamports: inheritance_amount });
        cpis.push(Cpi::Transfer { from: Party::Maker, to: Party::InheritanceAccount, lamports: bounty_amount });
        cpis.push(Cpi::MintTo { to: Party::MakerTokenAccount, amount: mint_amount });
        cpis.push(Cpi::Approve {
            account: Party::MakerTokenAccount,
            delegate: Party::Config,
            authority: Party::Maker,
            amount: mint_amount,
        });
        self.config.amount_locked = amount_locked_before + inheritance_amount;
        self.inheritance = Inheritance {
            maker: self.maker,
            seed,
            inheritor,
            inheritance_amount,
            bounty_amount,
            inactivity_time,
            last_check_in: now,
            shares: mint_amount,
            bump: bumps.inheritance,
        };
        Ok(cpis)
    }
}

} // verus!
