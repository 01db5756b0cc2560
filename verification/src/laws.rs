use vstd::prelude::*;
use vstd::arithmetic::div_mod::{lemma_fundamental_div_mod, lemma_multiply_divide_le, lemma_div_is_ordered};

use crate::errors::ProtocolError;
use crate::instructions::change_inactivity_time::ChangeInactivityTime;
use crate::instructions::change_inheritor::ChangeInheritor;
use crate::instructions::check_in::CheckIn;
use crate::instructions::close_inheritance::CloseInheritance;
use crate::instructions::increase_inheritance::IncreaseInheritance;
use crate::instructions::initialize_inheritance::{InitializeInheritance, InitializeInheritanceBumps};
use crate::instructions::increase_inheritance_bounty::IncreaseInheritanceBounty;
use crate::instructions::reduce_inheritance::ReduceInheritance;
use crate::instructions::trigger_inheritance::TriggerInheritance;
use crate::instructions::withdraw_sol::WithdrawSol;
use crate::instructions::flip_protocol::spec_flipped;
use crate::instructions::trigger_inheritance::{spec_fee, BASIS_POINTS};
use crate::state::{
    lemma_product_fits_u128,
    spec_lamports_to_return, spec_maker_gate, spec_then, spec_tokens_to_burn, Address, spec_require_active, spec_require_expired, spec_token_to_mint, Config,
    Inheritance,
};

verus! {

/// At any time not before the last check-in, an inheritance is either still
/// live (its maker's instructions pass the time check) or expired (it can be
/// triggered), never both; before the last check-in it is neither.
pub proof fn lemma_active_or_expired(inheritance: Inheritance, now: u64)
    ensures
        now >= inheritance.last_check_in ==> (spec_require_active(inheritance, now) is Ok
            <==> spec_require_expired(inheritance, now) is Err),
        now < inheritance.last_check_in ==> spec_require_active(inheritance, now) == Err::<(), ProtocolError>(
            ProtocolError::InvalidTimestamp,
        ) && spec_require_expired(inheritance, now) == Err::<(), ProtocolError>(ProtocolError::InvalidTimestamp),
{
}

/// After a successful check-in at `now`, the inheritance cannot be triggered
/// for a whole inactivity period, and can be from its end on.
pub proof fn lemma_check_in_defers_trigger(inheritance: Inheritance, now: u64, later: u64)
    requires
        spec_require_active(inheritance, now) is Ok,
        now <= later,
    ensures
        later < now + inheritance.inactivity_time ==> spec_require_expired(inheritance.checked_in_at(now), later)
            == Err::<(), ProtocolError>(ProtocolError::TimeNotElapsed),
        later >= now + inheritance.inactivity_time ==> spec_require_expired(inheritance.checked_in_at(now), later)
            is Ok,
{
}

/// A maker who checks in keeps the inheritance: on the checked-in inheritance,
/// triggering is refused with `TimeNotElapsed` for a whole inactivity period
/// (when the accounts given are the right ones; otherwise it is refused anyway).
pub proof fn lemma_check_in_keeps_inheritance(trigger: TriggerInheritance, now: u64, later: u64)
    requires
        spec_require_active(trigger.inheritance, now) is Ok,
        now <= later < now + trigger.inheritance.inactivity_time,
    ensures
        (TriggerInheritance { inheritance: trigger.inheritance.checked_in_at(now), ..trigger }).released(later) is Err,
        trigger.accounts_admitted() is Ok ==> (TriggerInheritance {
            inheritance: trigger.inheritance.checked_in_at(now),
            ..trigger
        }).released(later) == Err::<u64, ProtocolError>(ProtocolError::TimeNotElapsed),
{
}

/// A check-in and a trigger of the same inheritance never both succeed at one
/// instant: if the check-in passes its checks, triggering is refused (with
/// `TimeNotElapsed` once its accounts pass); if triggering passes its account
/// and time checks, the check-in is refused (with `TimeElapsed` once the
/// signer is the maker).
pub proof fn lemma_check_in_and_trigger_exclusive(check_in: CheckIn, trigger: TriggerInheritance, now: u64)
    requires
        check_in.inheritance == trigger.inheritance,
    ensures
        check_in.admitted(now) is Ok ==> trigger.released(now) is Err,
        check_in.admitted(now) is Ok && trigger.accounts_admitted() is Ok ==> trigger.released(now)
            == Err::<u64, ProtocolError>(ProtocolError::TimeNotElapsed),
        spec_then(trigger.accounts_admitted(), spec_require_expired(trigger.inheritance, now)) is Ok
            ==> check_in.admitted(now) is Err,
        spec_then(trigger.accounts_admitted(), spec_require_expired(trigger.inheritance, now)) is Ok
            && check_in.maker@ == check_in.inheritance.maker@ ==> check_in.admitted(now) == Err::<(), ProtocolError>(
            ProtocolError::TimeElapsed,
        ),
{
}

/// While the protocol is locked, users are refused: every instruction a maker
/// sends about a live inheritance with `ProtocolLocked` once the accounts are
/// checked, and triggering and redeeming tokens in any case.
pub proof fn lemma_locked_protocol_refuses_users(
    trigger: TriggerInheritance,
    withdraw: WithdrawSol,
    config: Config,
    inheritance: Inheritance,
    amount: u64,
    now: u64,
)
    requires
        config.locked,
        trigger.config.locked,
        withdraw.config.locked,
    ensures
        spec_maker_gate(config, inheritance, now) == Err::<(), ProtocolError>(ProtocolError::ProtocolLocked),
        trigger.released(now) is Err,
        withdraw.redeemed(amount) is Err,
{
}

/// Only the maker acts on an inheritance: whoever else signs a check-in, a
/// change of inheritor or of period, a deposit, a bounty, a reduction or a
/// closing is refused with `InvalidMaker`, before anything else is checked.
pub proof fn lemma_only_the_maker_acts(
    signer: Address,
    inheritance: Inheritance,
    config: Config,
    protocol_mint: Address,
    token_program: Address,
    token_2022_program_id: Address,
    mint_supply: u64,
    maker_ata_amount: u64,
    amount: u64,
    now: u64,
)
    requires
        signer@ != inheritance.maker@,
    ensures
        (CheckIn { maker: signer, inheritance }).admitted(now) == Err::<(), ProtocolError>(ProtocolError::InvalidMaker),
        (ChangeInheritor { maker: signer, inheritance, config }).admitted(now) == Err::<(), ProtocolError>(
            ProtocolError::InvalidMaker,
        ),
        (ChangeInactivityTime { maker: signer, inheritance, config }).admitted(now) == Err::<(), ProtocolError>(
            ProtocolError::InvalidMaker,
        ),
        (IncreaseInheritance {
            maker: signer,
            protocol_mint,
            token_program,
            token_2022_program_id,
            config,
            inheritance,
            mint_supply,
        }).admitted(now)
            == Err::<(), ProtocolError>(ProtocolError::InvalidMaker),
        (IncreaseInheritanceBounty { maker: signer, inheritance, config }).admitted(now) == Err::<(), ProtocolError>(
            ProtocolError::InvalidMaker,
        ),
        (ReduceInheritance { maker: signer, protocol_mint, config, inheritance, mint_supply, maker_ata_amount })
            .burn_plan(amount, now) == Err::<u64, ProtocolError>(ProtocolError::InvalidMaker),
        (CloseInheritance { maker: signer, protocol_mint, config, inheritance, maker_ata_amount }).returned(now)
            == Err::<u64, ProtocolError>(ProtocolError::InvalidMaker),
{
}

/// Flipping the lock twice restores the configuration.
pub proof fn lemma_flip_twice_restores(config: Config)
    ensures
        spec_flipped(spec_flipped(config)) == config,
        spec_flipped(config).locked != config.locked,
{
}

/// At a rate of at most 100%, the fee never exceeds the amount it is taken from.
pub proof fn lemma_fee_within_amount(lamports: u64, fees: u64)
    requires
        fees <= BASIS_POINTS,
    ensures
        spec_fee(lamports, fees) <= lamports,
{
    let p = lamports as int * fees as int;
    assert(p <= lamports as int * BASIS_POINTS as int) by (nonlinear_arith)
        requires
            fees <= BASIS_POINTS,
            p == lamports as int * fees as int,
            0 <= lamports,
    ;
    assert(0 <= p) by (nonlinear_arith)
        requires
            p == lamports as int * fees as int,
            0 <= lamports,
            0 <= fees,
    ;
    lemma_multiply_divide_le(p, BASIS_POINTS as int, lamports as int);
    assert(0 <= p / BASIS_POINTS as int);
}

/// When an expired inheritance is handed over, what the inheritor and the
/// admin receive from the vault adds up to exactly the lamports released.
pub proof fn lemma_trigger_payouts_add_up(trigger: TriggerInheritance, now: u64)
    requires
        trigger.released(now) is Ok,
    ensures
        ({
            let released = trigger.released(now)->Ok_0;
            let fee = spec_fee(released, trigger.config.fees);
            &&& fee <= released
            &&& (released - fee) as u64 + fee == released
        }),
{
}

/// Depositing more never mints fewer shares (as long as no result wraps).
pub proof fn lemma_mint_monotone(d1: u64, d2: u64, total_assets: u64, total_shares: u64)
    requires
        d1 <= d2,
        total_assets > 0 && total_shares > 0 ==> d2 as int * total_shares as int / total_assets as int <= u64::MAX,
    ensures
        spec_token_to_mint(d1, total_assets, total_shares) <= spec_token_to_mint(d2, total_assets, total_shares),
{
    if total_assets > 0 && total_shares > 0 {
        let a = total_assets as int;
        let s = total_shares as int;
        assert(d1 as int * s <= d2 as int * s) by (nonlinear_arith)
            requires
                d1 <= d2,
                0 <= s,
        ;
        assert(0 <= d1 as int * s) by (nonlinear_arith)
            requires
                0 <= d1,
                0 <= s,
        ;
        lemma_div_is_ordered(d1 as int * s, d2 as int * s, a);
        lemma_div_is_ordered(0, d1 as int * s, a);
    }
}

/// Shares minted for a deposit into a vault that already holds lamports
/// against shares are worth at most the deposit: `minted * assets <= deposit * shares`.
pub proof fn lemma_minted_shares_bounded(deposit: u64, total_assets: u64, total_shares: u64)
    requires
        total_assets > 0,
        total_shares > 0,
    ensures
        spec_token_to_mint(deposit, total_assets, total_shares) as int * total_assets as int <= deposit as int
            * total_shares as int,
{
    let d = deposit as int;
    let a = total_assets as int;
    let s = total_shares as int;
    let p = d * s;
    lemma_product_fits_u128(deposit, total_shares);
    lemma_fundamental_div_mod(p, a);
    let q = p / a;
    lemma_div_is_ordered(0, p, a);
    assert(q <= p) by (nonlinear_arith)
        requires
            0 <= p,
            a >= 1,
            q == p / a,
    ;
    lemma_truncation_never_grows(q);
    let m = spec_token_to_mint(deposit, total_assets, total_shares) as int;
    assert(m == (q as u64) as int);
    assert(m * a <= q * a) by (nonlinear_arith)
        requires
            0 <= m <= q,
            a >= 1,
    ;
    assert(q * a <= p) by (nonlinear_arith)
        requires
            p == a * q + p % a,
            0 <= p % a,
    ;
}

/// Minting never dilutes earlier holders: after a deposit into a vault that
/// holds lamports against shares, the lamports per share do not fall, that is
/// `(assets + deposit) * shares >= assets * (shares + minted)`.
pub proof fn lemma_minting_never_dilutes(deposit: u64, total_assets: u64, total_shares: u64)
    requires
        total_assets > 0,
        total_shares > 0,
    ensures
        (total_assets as int + deposit as int) * total_shares as int >= total_assets as int * (total_shares as int
            + spec_token_to_mint(deposit, total_assets, total_shares) as int),
{
    lemma_minted_shares_bounded(deposit, total_assets, total_shares);
    let m = spec_token_to_mint(deposit, total_assets, total_shares) as int;
    let d = deposit as int;
    let a = total_assets as int;
    let s = total_shares as int;
    assert((a + d) * s >= a * (s + m)) by (nonlinear_arith)
        requires
            m * a <= d * s,
    ;
}

/// A deposit into an inheritance never dilutes the other holders of shares.
pub proof fn lemma_deposit_never_dilutes(increase: IncreaseInheritance, amount: u64)
    requires
        increase.config.amount_locked > 0,
        increase.mint_supply > 0,
    ensures
        increase.tokens_to_mint(amount) as int * increase.config.amount_locked as int <= amount as int
            * increase.mint_supply as int,
        (increase.config.amount_locked as int + amount as int) * increase.mint_supply as int
            >= increase.config.amount_locked as int * (increase.mint_supply as int + increase.tokens_to_mint(
            amount,
        ) as int),
{
    lemma_minting_never_dilutes(amount, increase.config.amount_locked, increase.mint_supply);
    lemma_minted_shares_bounded(amount, increase.config.amount_locked, increase.mint_supply);
}

/// Opening an inheritance never dilutes the existing holders of shares.
pub proof fn lemma_opening_never_dilutes(open: InitializeInheritance, inheritance_amount: u64)
    requires
        open.config.amount_locked > 0,
        open.mint_supply > 0,
    ensures
        open.mint_amount(inheritance_amount) as int * open.config.amount_locked as int <= inheritance_amount as int
            * open.mint_supply as int,
        (open.config.amount_locked as int + inheritance_amount as int) * open.mint_supply as int
            >= open.config.amount_locked as int * (open.mint_supply as int + open.mint_amount(
            inheritance_amount,
        ) as int),
{
    lemma_minting_never_dilutes(inheritance_amount, open.config.amount_locked, open.mint_supply);
    lemma_minted_shares_bounded(inheritance_amount, open.config.amount_locked, open.mint_supply);
}

/// Shares minted for a deposit never redeem, right after the deposit, for more
/// lamports than were deposited; they can be redeemed whenever any shares exist.
/// This holds unless the vault held lamports against no shares at all.
pub proof fn lemma_deposit_then_redeem_no_gain(deposit: u64, total_assets: u64, total_shares: u64)
    requires
        !(total_shares == 0 && total_assets > 0),
        total_assets + deposit <= u64::MAX,
        total_shares + spec_token_to_mint(deposit, total_assets, total_shares) <= u64::MAX,
    ensures
        ({
            let minted = spec_token_to_mint(deposit, total_assets, total_shares);
            let redeemed = spec_lamports_to_return(
                minted,
                (total_assets + deposit) as u64,
                (total_shares + minted) as u64,
            );
            &&& total_shares + minted > 0 ==> redeemed is Ok
            &&& redeemed is Ok ==> redeemed->Ok_0 <= deposit
        }),
{
    let minted = spec_token_to_mint(deposit, total_assets, total_shares);
    let d = deposit as int;
    let a = total_assets as int;
    let s = total_shares as int;
    let m = minted as int;
    if s + m > 0 {
        if a > 0 && s > 0 {
            lemma_minted_shares_bounded(deposit, total_assets, total_shares);
        } else {
            assert(a == 0);
            assert(m == d);
        }
        assert(m * (a + d) <= (s + m) * d) by (nonlinear_arith)
            requires
                m * a <= d * s || (a == 0 && m == d),
                0 <= m,
                0 <= d,
                0 <= s,
        ;
        lemma_multiply_divide_le(m * (a + d), s + m, d);
        assert(0 <= m * (a + d)) by (nonlinear_arith)
            requires
                0 <= m,
                0 <= a + d,
        ;
        lemma_div_is_ordered(0, m * (a + d), s + m);
    }
}

/// Depositing into an inheritance and then redeeming the shares it minted
/// (with nothing else in between) never yields more lamports than were
/// deposited, unless the vault held lamports against no shares at all.
pub proof fn lemma_deposit_then_withdraw_no_profit(increase: IncreaseInheritance, withdraw: WithdrawSol, amount: u64)
    requires
        !(increase.mint_supply == 0 && increase.config.amount_locked > 0),
        increase.config.amount_locked + amount <= u64::MAX,
        increase.mint_supply + increase.tokens_to_mint(amount) <= u64::MAX,
        withdraw.config.amount_locked == increase.config.amount_locked + amount,
        withdraw.mint_supply == increase.mint_supply + increase.tokens_to_mint(amount),
    ensures
        withdraw.redeemed(increase.tokens_to_mint(amount)) is Ok ==> withdraw.redeemed(
            increase.tokens_to_mint(amount),
        )->Ok_0 <= amount,
{
    lemma_deposit_then_redeem_no_gain(amount, increase.config.amount_locked, increase.mint_supply);
}

/// Redeeming shares pays at most their pro-rata part of the vault:
/// `redeemed * total_shares <= shares * total_assets`; redemption is refused
/// only when no shares exist.
pub proof fn lemma_redemption_at_most_pro_rata(shares: u64, total_assets: u64, total_shares: u64)
    requires
        total_shares > 0,
    ensures
        spec_lamports_to_return(shares, total_assets, total_shares) is Ok,
        spec_lamports_to_return(shares, total_assets, total_shares)->Ok_0 as int * total_shares as int <= shares as int
            * total_assets as int,
{
    let p = shares as int * total_assets as int;
    let n = total_shares as int;
    lemma_product_fits_u128(shares, total_assets);
    lemma_fundamental_div_mod(p, n);
    let q = p / n;
    lemma_div_is_ordered(0, p, n);
    assert(q <= p) by (nonlinear_arith)
        requires
            0 <= p,
            n >= 1,
            q == p / n,
    ;
    lemma_truncation_never_grows(q);
    let r = spec_lamports_to_return(shares, total_assets, total_shares)->Ok_0 as int;
    assert(r == (q as u64) as int);
    assert(r * n <= q * n) by (nonlinear_arith)
        requires
            0 <= r <= q,
            n >= 1,
    ;
    assert(q * n <= p) by (nonlinear_arith)
        requires
            p == n * q + p % n,
            0 <= p % n,
    ;
}

/// Redeeming more shares (up to all of them) never pays less, and never more
/// than the whole vault.
pub proof fn lemma_redemption_monotone(s1: u64, s2: u64, total_assets: u64, total_shares: u64)
    requires
        total_shares > 0,
        s1 <= s2 <= total_shares,
    ensures
        spec_lamports_to_return(s1, total_assets, total_shares)->Ok_0 <= spec_lamports_to_return(
            s2,
            total_assets,
            total_shares,
        )->Ok_0,
        spec_lamports_to_return(s2, total_assets, total_shares)->Ok_0 <= total_assets,
{
    let a = total_assets as int;
    let n = total_shares as int;
    let p1 = s1 as int * a;
    let p2 = s2 as int * a;
    assert(0 <= p1 <= p2 <= n * a) by (nonlinear_arith)
        requires
            0 <= s1 <= s2 <= n,
            0 <= a,
            p1 == s1 as int * a,
            p2 == s2 as int * a,
    ;
    lemma_multiply_divide_le(p2, n, a);
    lemma_div_is_ordered(p1, p2, n);
    lemma_div_is_ordered(0, p1, n);
}

/// A withdrawal never lowers the lamports backing each remaining token:
/// `(locked - redeemed) * supply >= locked * (supply - amount)`.
pub proof fn lemma_withdraw_keeps_backing(withdraw: WithdrawSol, amount: u64)
    requires
        withdraw.redeemed(amount) is Ok,
        amount <= withdraw.mint_supply,
    ensures
        withdraw.redeemed(amount)->Ok_0 <= withdraw.config.amount_locked,
        (withdraw.config.amount_locked as int - withdraw.redeemed(amount)->Ok_0 as int) * withdraw.mint_supply as int
            >= withdraw.config.amount_locked as int * (withdraw.mint_supply as int - amount as int),
{
    lemma_redemption_at_most_pro_rata(amount, withdraw.config.amount_locked, withdraw.mint_supply);
    lemma_redemption_monotone(amount, withdraw.mint_supply, withdraw.config.amount_locked, withdraw.mint_supply);
    let r = withdraw.redeemed(amount)->Ok_0 as int;
    let l = withdraw.config.amount_locked as int;
    let n = withdraw.mint_supply as int;
    let s = amount as int;
    assert((l - r) * n >= l * (n - s)) by (nonlinear_arith)
        requires
            r * n <= s * l,
    ;
}

/// Triggering an inheritance never lowers the lamports backing each remaining
/// token: `(locked - released) * supply >= locked * (supply - burned)`.
pub proof fn lemma_trigger_keeps_backing(trigger: TriggerInheritance, now: u64)
    requires
        trigger.released(now) is Ok,
        trigger.final_shares() <= trigger.mint_supply,
    ensures
        trigger.released(now)->Ok_0 <= trigger.config.amount_locked,
        (trigger.config.amount_locked as int - trigger.released(now)->Ok_0 as int) * trigger.mint_supply as int
            >= trigger.config.amount_locked as int * (trigger.mint_supply as int - trigger.final_shares() as int),
{
    let shares = trigger.final_shares();
    lemma_redemption_at_most_pro_rata(shares, trigger.config.amount_locked, trigger.mint_supply);
    lemma_redemption_monotone(shares, trigger.mint_supply, trigger.config.amount_locked, trigger.mint_supply);
    let r = trigger.released(now)->Ok_0 as int;
    let l = trigger.config.amount_locked as int;
    let n = trigger.mint_supply as int;
    let s = shares as int;
    assert((l - r) * n >= l * (n - s)) by (nonlinear_arith)
        requires
            r * n <= s * l,
    ;
}

/// An expired inheritance whose accounts are all the ones on record is
/// handed over, on an open protocol with shares in circulation and a fee of
/// at most 100%: the trigger succeeds and releases exactly
/// `floor(burned * locked / supply)` (modulo 2^64), where `burned` is the
/// smaller of the inheritance's shares and the maker's token balance. The
/// product is formed in 128 bits, so no size of the amounts makes it fail.
pub proof fn lemma_trigger_releases_pro_rata(trigger: TriggerInheritance, now: u64)
    requires
        trigger.inheritor@ == trigger.inheritance.inheritor@,
        trigger.maker@ == trigger.inheritance.maker@,
        trigger.upgrade_authority matches Some(authority) && authority@ == trigger.admin@,
        trigger.protocol_mint@ == trigger.config.mint@,
        !trigger.config.locked,
        trigger.token_program@ == trigger.token_2022_program_id@,
        trigger.programdata_address matches Some(recorded) && recorded@ == trigger.program_data@,
        trigger.inheritance.last_check_in <= now,
        now - trigger.inheritance.last_check_in >= trigger.inheritance.inactivity_time,
        trigger.mint_supply > 0,
        trigger.config.fees <= 10_000,
    ensures
        trigger.released(now) == Ok::<u64, ProtocolError>(
            ((if trigger.maker_ata_amount >= trigger.inheritance.shares {
                trigger.inheritance.shares
            } else {
                trigger.maker_ata_amount
            }) as int * trigger.config.amount_locked as int / trigger.mint_supply as int) as u64,
        ),
{
    let burned: u64 = if trigger.maker_ata_amount >= trigger.inheritance.shares {
        trigger.inheritance.shares
    } else {
        trigger.maker_ata_amount
    };
    let lamports = (burned as int * trigger.config.amount_locked as int / trigger.mint_supply as int) as u64;
    lemma_fee_within_amount(lamports, trigger.config.fees);
}

/// Closing burns, and pays back, the smaller of the inheritance's recorded
/// shares and the maker's token balance: never a share that belongs to
/// another inheritance of the same maker.
pub proof fn lemma_close_burns_only_this_inheritance(close: CloseInheritance, now: u64)
    ensures
        close.tokens_to_burn() <= close.inheritance.shares,
        close.tokens_to_burn() <= close.maker_ata_amount,
        close.tokens_to_burn() == close.inheritance.shares || close.tokens_to_burn() == close.maker_ata_amount,
        close.maker@ == close.inheritance.maker@ && close.protocol_mint@ == close.config.mint@ && !close.config.locked
            && close.inheritance.last_check_in <= now && now - close.inheritance.last_check_in
            < close.inheritance.inactivity_time && close.maker_ata_amount != 0 && close.config.burned
            < close.config.amount_locked ==> close.returned(now) == Ok::<u64, ProtocolError>(
            ((if close.maker_ata_amount >= close.inheritance.shares {
                close.inheritance.shares
            } else {
                close.maker_ata_amount
            }) as int * close.config.amount_locked as int / (close.config.amount_locked - close.config.burned))
                as u64,
        ),
{
}

/// The shares burned for taking lamports out are `floor(amount * supply / locked)`
/// (modulo 2^64), formed in 128 bits: refused only when nothing is locked.
pub proof fn lemma_tokens_to_burn_pro_rata(amount: u64, total_assets: u64, total_shares: u64)
    ensures
        total_assets > 0 ==> spec_tokens_to_burn(amount, total_assets, total_shares) == Ok::<u64, ProtocolError>(
            (amount as int * total_shares as int / total_assets as int) as u64,
        ),
        total_assets == 0 ==> spec_tokens_to_burn(amount, total_assets, total_shares) == Err::<u64, ProtocolError>(
            ProtocolError::MathOverflow,
        ),
        total_assets > 0 && total_assets == total_shares ==> spec_tokens_to_burn(amount, total_assets, total_shares)
            == Ok::<u64, ProtocolError>(amount),
{
    if total_assets > 0 && total_assets == total_shares {
        let n = total_assets as int;
        let a = amount as int;
        assert(a * n / n == a) by (nonlinear_arith)
            requires
                n > 0,
        ;
    }
}

/// A reduction that passes its account and time checks burns exactly
/// `floor(amount * supply / locked)` shares whenever that leaves the
/// inheritance some shares and the maker holds them.
pub proof fn lemma_reduce_burns_pro_rata(reduce: ReduceInheritance, amount: u64, now: u64)
    requires
        reduce.maker@ == reduce.inheritance.maker@,
        reduce.protocol_mint@ == reduce.config.mint@,
        !reduce.config.locked,
        reduce.inheritance.last_check_in <= now,
        now - reduce.inheritance.last_check_in < reduce.inheritance.inactivity_time,
        reduce.config.amount_locked > 0,
        ({
            let tokens = (amount as int * reduce.mint_supply as int / reduce.config.amount_locked as int) as u64;
            &&& tokens < reduce.inheritance.shares
            &&& reduce.maker_ata_amount != 0
            &&& tokens <= reduce.maker_ata_amount
        }),
    ensures
        reduce.burn_plan(amount, now) == Ok::<u64, ProtocolError>(
            (amount as int * reduce.mint_supply as int / reduce.config.amount_locked as int) as u64,
        ),
{
}

/// With the protocol's mint, on an open protocol with tokens in circulation,
/// redeeming `amount` tokens succeeds with exactly
/// `floor(amount * locked / supply)` lamports (modulo 2^64), formed in 128 bits.
pub proof fn lemma_withdraw_redeems_pro_rata(withdraw: WithdrawSol, amount: u64)
    requires
        withdraw.protocol_mint@ == withdraw.config.mint@,
        !withdraw.config.locked,
        withdraw.mint_supply > 0,
    ensures
        withdraw.redeemed(amount) == Ok::<u64, ProtocolError>(
            (amount as int * withdraw.config.amount_locked as int / withdraw.mint_supply as int) as u64,
        ),
{
}

/// Opening an inheritance records exactly what the maker asked for: the
/// signer as maker, the given seed, inheritor, amounts, period and bump, the
/// opening time as last check-in, and the minted shares; nothing of what the
/// account held before survives.
pub proof fn lemma_opening_records_the_arguments(
    open: InitializeInheritance,
    other: Inheritance,
    bumps: InitializeInheritanceBumps,
    seed: u64,
    inheritor: Address,
    inheritance_amount: u64,
    bounty_amount: u64,
    inactivity_time: u64,
    now: u64,
)
    ensures
        ({
            let written = open.new_inheritance(
                bumps,
                seed,
                inheritor,
                inheritance_amount,
                bounty_amount,
                inactivity_time,
                now,
            );
            &&& written.maker == open.maker
            &&& written.seed == seed
            &&& written.inheritor == inheritor
            &&& written.inheritance_amount == inheritance_amount
            &&& written.bounty_amount == bounty_amount
            &&& written.inactivity_time == inactivity_time
            &&& written.last_check_in == now
            &&& written.bump == bumps.inheritance
            &&& written.shares == (if open.mint_supply == 0 || open.config.amount_locked == 0 {
                inheritance_amount
            } else {
                (inheritance_amount as int * open.mint_supply as int / open.config.amount_locked as int) as u64
            })
            &&& written == (InitializeInheritance { inheritance: other, ..open }).new_inheritance(
                bumps,
                seed,
                inheritor,
                inheritance_amount,
                bounty_amount,
                inactivity_time,
                now,
            )
        }),
{
}

/// Keeping the low 64 bits of a value never makes it larger.
proof fn lemma_truncation_never_grows(q: int)
    requires
        0 <= q <= u128::MAX,
    ensures
        (q as u64) as int <= q,
{
    let x = q as u128;
    assert(x as u64 <= x) by (bit_vector);
    assert(x as int == q);
}

} // verus!
