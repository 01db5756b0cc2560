use vstd::prelude::*;

use crate::errors::ProtocolError;

verus! {

/// A 32-byte account address.
pub type Address = [u8; 32];

/// Global settings of the protocol, held in the `config` account.
#[derive(Debug, Clone, Copy, PartialEq, Eq)]
pub struct Config {
    /// Fee on triggered inheritances, in basis points (1/10 000).
    pub fees: u64,
    /// Lamports held in the shared vault on behalf of all inheritances.
    pub amount_locked: u64,
    /// Lamports written off by the admin while the protocol was locked.
    pub burned: u64,
    pub mint: Address,
    pub vault: Address,
    /// While set, user instructions are refused.
    pub locked: bool,
    pub bump: u8,
    pub mint_bump: u8,
    pub vault_bump: u8,
}

/// One maker's inheritance: funds that pass to `inheritor` once the maker
/// has not checked in for `inactivity_time` seconds.
#[derive(Debug, Clone, Copy, PartialEq, Eq)]
pub struct Inheritance {
    pub maker: Address,
    pub seed: u64,
    pub inheritor: Address,
    /// Lamports the maker has put in.
    pub inheritance_amount: u64,
    /// Lamports paid to whoever triggers the inheritance.
    pub bounty_amount: u64,
    /// Seconds without a check-in after which the inheritance can be triggered.
    pub inactivity_time: u64,
    /// Unix time of the maker's last check-in.
    pub last_check_in: u64,
    /// Protocol tokens minted to the maker for this inheritance.
    pub shares: u64,
    pub bump: u8,
}

/// Shares minted for `deposit` lamports into a vault that holds `total_assets`
/// lamports against `total_shares` shares: one share per lamport while the vault
/// is empty, otherwise `deposit * total_shares / total_assets` rounded down and
/// taken modulo 2^64.
pub open spec fn spec_token_to_mint(deposit: u64, total_assets: u64, total_shares: u64) -> u64 {
    if total_shares == 0 || total_assets == 0 {
        deposit
    } else {
        (deposit as int * total_shares as int / total_assets as int) as u64
    }
}

/// Lamports that `shares` shares redeem: `shares * total_assets / total_shares`
/// rounded down and taken modulo 2^64; refused with `MathOverflow` when there are no shares.
pub open spec fn spec_lamports_to_return(shares: u64, total_assets: u64, total_shares: u64) -> Result<u64, ProtocolError> {
    if total_shares == 0 {
        Err(ProtocolError::MathOverflow)
    } else {
        Ok((shares as int * total_assets as int / total_shares as int) as u64)
    }
}

/// Shares that must be burned to take `amount` lamports out of the vault:
/// `amount * total_shares / total_assets` rounded down and taken modulo 2^64;
/// refused with `MathOverflow` when the vault holds nothing.
pub open spec fn spec_tokens_to_burn(amount: u64, total_assets: u64, total_shares: u64) -> Result<u64, ProtocolError> {
    if total_assets == 0 {
        Err(ProtocolError::MathOverflow)
    } else {
        Ok((amount as int * total_shares as int / total_assets as int) as u64)
    }
}

/// The maker is still active at `now`: the last check-in is not in the future
/// and less than `inactivity_time` seconds have passed since.
pub open spec fn spec_require_active(inheritance: Inheritance, now: u64) -> Result<(), ProtocolError> {
    if now < inheritance.last_check_in {
        Err(ProtocolError::InvalidTimestamp)
    } else if now - inheritance.last_check_in >= inheritance.inactivity_time {
        Err(ProtocolError::TimeElapsed)
    } else {
        Ok(())
    }
}

/// The maker has been inactive for at least `inactivity_time` seconds at `now`.
pub open spec fn spec_require_expired(inheritance: Inheritance, now: u64) -> Result<(), ProtocolError> {
    if now < inheritance.last_check_in {
        Err(ProtocolError::InvalidTimestamp)
    } else if now - inheritance.last_check_in < inheritance.inactivity_time {
        Err(ProtocolError::TimeNotElapsed)
    } else {
        Ok(())
    }
}

/// Instructions that need the protocol open refuse while it is locked.
pub open spec fn spec_require_unlocked(config: Config) -> Result<(), ProtocolError> {
    if config.locked {
        Err(ProtocolError::ProtocolLocked)
    } else {
        Ok(())
    }
}

/// An account given to an instruction must be the one on record: refused
/// with `error` otherwise.
pub open spec fn spec_require_address(given: Address, expected: Address, error: ProtocolError) -> Result<(), ProtocolError> {
    if given@ == expected@ {
        Ok(())
    } else {
        Err(error)
    }
}

/// Admin instructions are signed by the address on record (for most, the
/// program's upgrade authority): refused with `InvalidAdmin` when there is
/// none or the signer is another.
pub open spec fn spec_require_admin(admin: Address, upgrade_authority: Option<Address>) -> Result<(), ProtocolError> {
    match upgrade_authority {
        Some(authority) => spec_require_address(admin, authority, ProtocolError::InvalidAdmin),
        None => Err(ProtocolError::InvalidAdmin),
    }
}

/// The program-data account given must be the one the program account
/// records: refused with `InvalidProgram` when the program records none or
/// another.
pub open spec fn spec_require_program(program_data: Address, programdata_address: Option<Address>) -> Result<(), ProtocolError> {
    match programdata_address {
        Some(recorded) => spec_require_address(program_data, recorded, ProtocolError::InvalidProgram),
        None => Err(ProtocolError::InvalidProgram),
    }
}

/// The token program given must be Token-2022, whose program id is
/// `token_2022_program_id`: refused with `InvalidTokenProgram` otherwise.
pub open spec fn spec_require_token_program(token_program: Address, token_2022_program_id: Address) -> Result<(), ProtocolError> {
    spec_require_address(token_program, token_2022_program_id, ProtocolError::InvalidTokenProgram)
}

/// Runs `second` only if `first` passes.
pub open spec fn spec_then(first: Result<(), ProtocolError>, second: Result<(), ProtocolError>) -> Result<(), ProtocolError> {
    match first {
        Err(e) => Err(e),
        Ok(_) => second,
    }
}

/// What every instruction a maker sends about a live inheritance checks
/// after the accounts: the protocol is open and the maker is still active at `now`.
pub open spec fn spec_maker_gate(config: Config, inheritance: Inheritance, now: u64) -> Result<(), ProtocolError> {
    spec_then(spec_require_unlocked(config), spec_require_active(inheritance, now))
}

impl Inheritance {
    /// The inheritance after its maker checks in at `now`.
    pub open spec fn checked_in_at(self, now: u64) -> Inheritance {
        Inheritance { last_check_in: now, ..self }
    }
}

/// The product of two 64-bit values is non-negative and fits in 128 bits.
pub proof fn lemma_product_fits_u128(a: u64, b: u64)
    ensures
        a as int * b as int <= u128::MAX,
        0 <= a as int * b as int,
{
    assert(a as int * b as int <= u64::MAX as int * u64::MAX as int) by (nonlinear_arith)
        requires
            a <= u64::MAX,
            b <= u64::MAX,
    ;
    assert(0 <= a as int * b as int) by (nonlinear_arith);
}

/// `a * b / c` in 128-bit arithmetic, as the program computes it.
fn mul_div_u128(a: u64, b: u64, c: u64) -> (r: Result<u128, ProtocolError>)
    ensures
        c == 0 ==> r == Err::<u128, ProtocolError>(ProtocolError::MathOverflow),
        c != 0 ==> r is Ok && r->Ok_0 as int == a as int * b as int / c as int,
{
    proof {
        lemma_product_fits_u128(a, b);
        if c != 0 {
            let p = a as int * b as int;
            assert(0 <= p / c as int <= p) by (nonlinear_arith)
                requires
                    0 <= p,
                    c >= 1,
            ;
        }
    }
    let product = match (a as u128).checked_mul(b as u128) {
        Some(p) => p,
        None => return Err(ProtocolError::MathOverflow),
    };
    match product.checked_div(c as u128) {
        Some(q) => Ok(q),
        None => Err(ProtocolError::MathOverflow),
    }
}

impl Inheritance {
    /// Shares to mint for a deposit; see [`spec_token_to_mint`]. Never refused.
    pub fn calculate_token_to_mint(deposit: u64, total_assets: u64, total_shares: u64) -> (r: Result<u64, ProtocolError>)
        ensures
            r == Ok::<u64, ProtocolError>(spec_token_to_mint(deposit, total_assets, total_shares)),
    {
        if total_shares == 0 || total_assets == 0 {
            return Ok(deposit);
        }
        let shares = mul_div_u128(deposit, total_shares, total_assets)?;
        Ok(#[verifier::truncate] (shares as u64))
    }

    /// Lamports that shares redeem; see [`spec_lamports_to_return`].
    pub fn calculate_lamports_to_return(shares: u64, total_assets: u64, total_shares: u64) -> (r: Result<u64, ProtocolError>)
        ensures
            r == spec_lamports_to_return(shares, total_assets, total_shares),
    {
        let assets = mul_div_u128(shares, total_assets, total_shares)?;
        Ok(#[verifier::truncate] (assets as u64))
    }

    /// Shares to burn for a withdrawal; see [`spec_tokens_to_burn`].
    pub fn calculate_tokens_to_burn(amount: u64, total_assets: u64, total_shares: u64) -> (r: Result<u64, ProtocolError>)
        ensures
            r == spec_tokens_to_burn(amount, total_assets, total_shares),
    {
        let shares = mul_div_u128(amount, total_shares, total_assets)?;
        Ok(#[verifier::truncate] (shares as u64))
    }
}

/// Refuses unless the maker is active at `now`; see [`spec_require_active`].
pub fn require_active(inheritance: &Inheritance, now: u64) -> (r: Result<(), ProtocolError>)
    ensures
        r == spec_require_active(*inheritance, now),
{
    let time_elapsed = match now.checked_sub(inheritance.last_check_in) {
        Some(t) => t,
        None => return Err(ProtocolError::InvalidTimestamp),
    };
    if time_elapsed >= inheritance.inactivity_time {
        return Err(ProtocolError::TimeElapsed);
    }
    Ok(())
}

/// Refuses while the protocol is locked; see [`spec_require_unlocked`].
pub fn require_unlocked(config: &Config) -> (r: Result<(), ProtocolError>)
    ensures
        r == spec_require_unlocked(*config),
{
    if config.locked {
        return Err(ProtocolError::ProtocolLocked);
    }
    Ok(())
}

/// Whether two addresses are the same.
pub fn same_address(a: &Address, b: &Address) -> (r: bool)
    ensures
        r == (a@ == b@),
{
    let mut i: usize = 0;
    while i < 32
        invariant
            0 <= i <= 32,
            a@.len() == 32,
            b@.len() == 32,
            forall|j: int| 0 <= j < i ==> a@[j] == b@[j],
        decreases 32 - i,
    {
        if a[i] != b[i] {
            return false;
        }
        i = i + 1;
    }
    assert(a@ =~= b@);
    true
}

/// Refuses with `error` unless `given` is `expected`; see [`spec_require_address`].
pub fn require_address(given: &Address, expected: &Address, error: ProtocolError) -> (r: Result<(), ProtocolError>)
    ensures
        r == spec_require_address(*given, *expected, error),
{
    if same_address(given, expected) {
        Ok(())
    } else {
        Err(error)
    }
}

/// Refuses unless `admin` is the address on record; see [`spec_require_admin`].
pub fn require_admin(admin: &Address, upgrade_authority: &Option<Address>) -> (r: Result<(), ProtocolError>)
    ensures
        r == spec_require_admin(*admin, *upgrade_authority),
{
    match upgrade_authority {
        Some(authority) => require_address(admin, authority, ProtocolError::InvalidAdmin),
        None => Err(ProtocolError::InvalidAdmin),
    }
}

/// Refuses unless the program-data account is the recorded one; see [`spec_require_program`].
pub fn require_program(program_data: &Address, programdata_address: &Option<Address>) -> (r: Result<(), ProtocolError>)
    ensures
        r == spec_require_program(*program_data, *programdata_address),
{
    match programdata_address {
        Some(recorded) => require_address(program_data, recorded, ProtocolError::InvalidProgram),
        None => Err(ProtocolError::InvalidProgram),
    }
}

/// Refuses unless the token program is Token-2022; see [`spec_require_token_program`].
pub fn require_token_program(token_program: &Address, token_2022_program_id: &Address) -> (r: Result<(), ProtocolError>)
    ensures
        r == spec_require_token_program(*token_program, *token_2022_program_id),
{
    require_address(token_program, token_2022_program_id, ProtocolError::InvalidTokenProgram)
}

/// Refuses unless the protocol is open and the maker active; see [`spec_maker_gate`].
pub fn require_maker_gate(config: &Config, inheritance: &Inheritance, now: u64) -> (r: Result<(), ProtocolError>)
    ensures
        r == spec_maker_gate(*config, *inheritance, now),
{
    require_unlocked(config)?;
    require_active(inheritance, now)
}

/// Refuses unless the maker has been inactive long enough at `now`; see [`spec_require_expired`].
pub fn require_expired(inheritance: &Inheritance, now: u64) -> (r: Result<(), ProtocolError>)
    ensures
        r == spec_require_expired(*inheritance, now),
{
    let time_elapsed = match now.checked_sub(inheritance.last_check_in) {
        Some(t) => t,
        None => return Err(ProtocolError::InvalidTimestamp),
    };
    if time_elapsed < inheritance.inactivity_time {
        return Err(ProtocolError::TimeNotElapsed);
    }
    Ok(())
}

} // verus!
