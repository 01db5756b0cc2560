use vstd::prelude::*;

use crate::cpi::{Cpi, Party};
use crate::errors::ProtocolError;
use crate::state::{
    require_active, require_token_program, require_unlocked, spec_require_active, spec_require_token_program,
    spec_require_unlocked,
    require_address, require_maker_gate, spec_maker_gate, spec_require_address, spec_then, spec_token_to_mint, Address,
    Config, Inheritance,
};

verus! {

/// What adding funds to an inheritance reads and writes.
#[derive(Debug, Clone, Copy, PartialEq, Eq)]
pub struct IncreaseInheritance {
    /// Address of the signer.
    pub maker: Address,
    /// Address of the mint account given.
    pub protocol_mint: Address,
    /// Address of the token program given.
    pub token_program: Address,
    /// Program id of Token-2022, the token program the protocol uses.
    pub token_2022_program_id: Address,
    pub config: Config,
    pub inheritance: Inheritance,
    /// Protocol tokens in circulation.
    pub mint_supply: u64,
}

impl IncreaseInheritance {
    /// The checks made before anything changes, in order: the signer is the
    /// inheritance's maker, the mint is the protocol's, the protocol is open,
    /// the token program is Token-2022, and the maker is still active at `now`.
    pub open spec fn admitted(self, now: u64) -> Result<(), ProtocolError> {
        spec_then(
            spec_require_address(self.maker, self.inheritance.maker, ProtocolError::InvalidMaker),
            spec_then(
                spec_require_address(self.protocol_mint, self.config.mint, ProtocolError::InvalidMintAccount),
                spec_then(
                    spec_require_unlocked(self.config),
                    spec_then(
                        spec_require_token_program(self.token_program, self.token_2022_program_id),
                        spec_require_active(self.inheritance, now),
                    ),
                ),
            ),
        )
    }

    /// Shares minted for a deposit of `amount` lamports.
    pub open spec fn tokens_to_mint(self, amount: u64) -> u64 {
        spec_token_to_mint(amount, self.config.amount_locked, self.mint_supply)
    }

    /// The counters that a successful deposit raises stay within 64 bits.
    pub open spec fn no_overflow(self, amount: u64, now: u64) -> bool {
        self.admitted(now) is Ok ==> {
            &&& self.config.amount_locked + amount <= u64::MAX
            &&& self.inheritance.inheritance_amount + amount <= u64::MAX
            &&& self.inheritance.shares + self.tokens_to_mint(amount) <= u64::MAX
        }
    }

    /// Makes the checks of [`IncreaseInheritance::admitted`].
    pub fn check_admitted(&self, now: u64) -> (r: Result<(), ProtocolError>)
        ensures
            r == self.admitted(now),
    {
        require_address(&self.maker, &self.inheritance.maker, ProtocolError::InvalidMaker)?;
        require_address(&self.protocol_mint, &self.config.mint, ProtocolError::InvalidMintAccount)?;
        require_unlocked(&self.config)?;
        require_token_program(&self.token_program, &self.token_2022_program_id)?;
        require_active(&self.inheritance, now)
    }

    /// Decides [`IncreaseInheritance::no_overflow`].
    pub fn fits(&self, amount: u64, now: u64) -> (r: bool)
        ensures
            r == self.no_overflow(amount, now),
    {
        if self.check_admitted(now).is_err() {
            return true;
        }
        let minted = match Inheritance::calculate_token_to_mint(amount, self.config.amount_locked, self.mint_supply) {
            Ok(m) => m,
            Err(_) => return true,
        };
        self.config.amount_locked <= u64::MAX - amount && self.inheritance.inheritance_amount <= u64::MAX - amount
            && self.inheritance.shares <= u64::MAX - minted
    }

    /// The maker deposits `amount` lamports at `now` and receives newly minted
    /// shares for them; this also counts as a check-in.
    pub fn increase_inheritance(&mut self, amount: u64, now: u64) -> (r: Result<Vec<Cpi>, ProtocolError>)
        requires
            old(self).no_overflow(amount, now),
        ensures
            match r {
                Ok(cpis) => {
                    &&& old(self).admitted(now) is Ok
                    &&& final(self).config == (Config {
                        amount_locked: (old(self).config.amount_locked + amount) as u64,
                        ..old(self).config
                    })
                    &&& final(self).inheritance == (Inheritance {
                        inheritance_amount: (old(self).inheritance.inheritance_amount + amount) as u64,
                        shares: (old(self).inheritance.shares + old(self).tokens_to_mint(amount)) as u64,
                        ..old(self).inheritance.checked_in_at(now)
                    })
                    &&& final(self).mint_supply == old(self).mint_supply
                    &&& final(self).maker == old(self).maker
                    &&& final(self).protocol_mint == old(self).protocol_mint
                    &&& final(self).token_program == old(self).token_program
                    &&& final(self).token_2022_program_id == old(self).token_2022_program_id
                    &&& cpis@ == seq![
                        Cpi::Transfer { from: Party::Maker, to: Party::Vault, lamports: amount },
                        Cpi::MintTo { to: Party::MakerTokenAccount, amount: old(self).tokens_to_mint(amount) },
                    ]
                },
                Err(e) => {
                    &&& old(self).admitted(now) == Err::<(), ProtocolError>(e)
                    &&& *final(self) == *old(self)
                },
            },
    {
        self.check_admitted(now)?;
        let tokens_to_mint = Inheritance::calculate_token_to_mint(amount, self.config.amount_locked, self.mint_supply)?;
        let mut cpis: Vec<Cpi> = Vec::new();
        cpis.push(Cpi::Transfer { from: Party::Maker, to: Party::Vault, lamports: amount });
        cpis.push(Cpi::MintTo { to: Party::MakerTokenAccount, amount: tokens_to_mint });
        self.inheritance.last_check_in = now;
        self.config.amount_locked = self.config.amount_locked + amount;
        self.inheritance.inheritance_amount = self.inheritance.inheritance_amount + amount;
        self.inheritance.shares = self.inheritance.shares + tokens_to_mint;
        Ok(cpis)
    }
}

} // verus!
