use vstd::prelude::*;

verus! {

/// The accounts that an instruction moves lamports or tokens between.
#[derive(Debug, Clone, Copy, PartialEq, Eq, Structural)]
pub enum Party {
    /// The maker who owns the inheritance (a signer, or the maker's account).
    Maker,
    /// The maker's token account for the protocol mint.
    MakerTokenAccount,
    /// The `config` account; authority of the protocol mint and delegate for burns.
    Config,
    /// The shared vault that holds the deposited lamports.
    Vault,
    /// The inheritance account itself.
    InheritanceAccount,
    /// The per-inheritance vault that holds the bounty.
    InheritanceVault,
    /// The beneficiary of the inheritance.
    Inheritor,
    /// Whoever triggers an expired inheritance.
    Keeper,
    /// The program's upgrade authority, which receives fees.
    Admin,
    /// A holder of protocol tokens who redeems them.
    Withdrawer,
    /// The withdrawer's token account for the protocol mint.
    WithdrawerTokenAccount,
}

/// One cross-program invocation that an instruction asks for, in order.
#[derive(Debug, Clone, Copy, PartialEq, Eq, Structural)]
pub enum Cpi {
    /// System-program transfer of `lamports` from `from` to `to`.
    Transfer { from: Party, to: Party, lamports: u64 },
    /// Mint `amount` protocol tokens to `to`, signed by the config account.
    MintTo { to: Party, amount: u64 },
    /// Burn `amount` protocol tokens held in `from`, with `authority` signing.
    Burn { from: Party, authority: Party, amount: u64 },
    /// Approve `delegate` to move `amount` tokens of `account`, signed by `authority`.
    Approve { account: Party, delegate: Party, authority: Party, amount: u64 },
    /// Move every lamport held by `from` to `to`.
    SweepLamports { from: Party, to: Party },
}

} // verus!
