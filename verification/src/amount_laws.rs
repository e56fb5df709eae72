//! Laws of the amounts that deposits, withdrawals and rewards come to.

use crate::error::{lido_failure, Failure, LidoError, ProgramError};
use crate::exchange::ExchangeRate;
use crate::processor::{spec_rewards, spec_withdraw_amount};
use crate::solido::{Solido, SolidoExchangeRate};
use crate::token::{scaled, BLamports, Lamports, StLamports};
use vstd::prelude::*;

verus! {

/// What rounding down means: the quotient fits, and the next one does not.
proof fn lemma_floor(n: int, d: int)
    by (nonlinear_arith)
    requires
        n >= 0,
        d > 0,
    ensures
        (n / d) * d <= n < (n / d + 1) * d,
        n / d >= 0,
{
}

/// No number that fits is greater than the quotient.
proof fn lemma_floor_is_greatest(n: int, d: int, q: int)
    by (nonlinear_arith)
    requires
        n >= 0,
        d > 0,
        q * d <= n,
    ensures
        q <= n / d,
{
}

/// The quotient is no greater than a number after which the next one does not fit.
proof fn lemma_floor_is_least(n: int, d: int, q: int)
    by (nonlinear_arith)
    requires
        n >= 0,
        d > 0,
        n < (q + 1) * d,
    ensures
        n / d <= q,
{
}

/// A scaled amount is the exact fraction, rounded down to a whole number.
pub proof fn scaled_amount_is_rounded_down(amount: u64, numerator: u64, denominator: u64)
    ensures
        scaled(amount, numerator, denominator) matches Ok(x) ==> {
            &&& denominator > 0
            &&& x * denominator <= amount * numerator
            &&& amount * numerator < (x + 1) * denominator
        },
        scaled(amount, numerator, denominator) is Err ==> {
            ||| denominator == 0
            ||| amount * numerator >= (u64::MAX + 1) * denominator
        },
{
    if denominator > 0 {
        let n = amount * numerator;
        assert(n >= 0) by (nonlinear_arith)
            requires
                n == amount * numerator,
        ;
        lemma_floor(n, denominator as int);
        if n / denominator as int > u64::MAX {
            assert((u64::MAX + 1) * denominator <= (n / denominator as int) * denominator)
                by (nonlinear_arith)
                requires
                    u64::MAX + 1 <= n / denominator as int,
            ;
        }
    }
}

/// A deposit of stSOL mints bSOL at the rate of one bSOL per SOL, rounded down: the bSOL
/// is worth no more SOL than the stSOL, and one unit more would be worth more.
pub proof fn deposit_is_minted_at_the_peg(solido: Solido, amount: StLamports, minted: BLamports)
    requires
        ExchangeRate::spec_from_solido_pegged(solido).spec_exchange_st_sol(amount) == Ok::<
            BLamports,
            Failure,
        >(minted),
    ensures
        minted.0 * solido.exchange_rate.st_sol_supply.0 <= amount.0
            * solido.exchange_rate.sol_balance.0,
        amount.0 * solido.exchange_rate.sol_balance.0 < (minted.0 + 1)
            * solido.exchange_rate.st_sol_supply.0,
{
    scaled_amount_is_rounded_down(
        amount.0,
        solido.exchange_rate.sol_balance.0,
        solido.exchange_rate.st_sol_supply.0,
    );
}

/// Whether the reserve is worth at least one SOL for each bSOL.
pub open spec fn covers(solido: Solido, b_sol_supply: BLamports, reserve: StLamports) -> bool {
    b_sol_supply.0 * solido.exchange_rate.st_sol_supply.0 <= reserve.0
        * solido.exchange_rate.sol_balance.0
}

/// A withdrawal of bSOL that exists never pays more stSOL than the reserve holds.
pub proof fn withdrawal_is_within_the_reserve(
    solido: Solido,
    b_sol_supply: BLamports,
    reserve: StLamports,
    amount: BLamports,
)
    requires
        amount.0 <= b_sol_supply.0,
    ensures
        spec_withdraw_amount(solido, b_sol_supply, reserve, amount) matches Ok(paid) ==> paid.0
            <= reserve.0,
{
    if b_sol_supply.0 > 0 {
        lemma_share_is_within_the_reserve(b_sol_supply, reserve, amount);
    }
}

/// A share of the reserve is no more than the reserve.
proof fn lemma_share_is_within_the_reserve(
    b_sol_supply: BLamports,
    reserve: StLamports,
    amount: BLamports,
)
    requires
        amount.0 <= b_sol_supply.0,
        b_sol_supply.0 > 0,
    ensures
        0 <= amount.0 * reserve.0 / b_sol_supply.0 as int <= reserve.0,
        scaled(amount.0, reserve.0, b_sol_supply.0) is Ok,
{
    let n = amount.0 * reserve.0;
    let s = b_sol_supply.0 as int;
    assert(0 <= n < (reserve.0 + 1) * s) by (nonlinear_arith)
        requires
            n == amount.0 * reserve.0,
            amount.0 <= s,
            s > 0,
    ;
    lemma_floor(n, s);
    lemma_floor_is_least(n, s, reserve.0 as int);
}

/// While the reserve covers all bSOL, a withdrawal is paid at the peg: the stSOL that is
/// worth one SOL for each bSOL.
pub proof fn covered_withdrawal_is_paid_at_the_peg(
    solido: Solido,
    b_sol_supply: BLamports,
    reserve: StLamports,
    amount: BLamports,
)
    requires
        covers(solido, b_sol_supply, reserve),
        amount.0 <= b_sol_supply.0,
        b_sol_supply.0 > 0,
        solido.exchange_rate.sol_balance.0 > 0,
    ensures
        spec_withdraw_amount(solido, b_sol_supply, reserve, amount) is Ok,
        spec_withdraw_amount(solido, b_sol_supply, reserve, amount)
            == ExchangeRate::spec_from_solido_pegged(solido).spec_exchange_b_sol(amount),
{
    let a = amount.0 as int;
    let s = b_sol_supply.0 as int;
    let r = reserve.0 as int;
    let t = solido.exchange_rate.st_sol_supply.0 as int;
    let b = solido.exchange_rate.sol_balance.0 as int;
    lemma_share_is_within_the_reserve(b_sol_supply, reserve, amount);
    assert(a * t >= 0 && a * r >= 0) by (nonlinear_arith)
        requires
            a >= 0,
            t >= 0,
            r >= 0,
    ;
    let p = a * t / b;
    lemma_floor(a * t, b);
    assert(p * s <= a * r) by (nonlinear_arith)
        requires
            p * b <= a * t,
            s * t <= r * b,
            a >= 0,
            s > 0,
            b > 0,
    {
        assert(p * b * s <= a * t * s);
        assert(a * (s * t) <= a * (r * b));
        assert((p * s) * b <= (a * r) * b);
    }
    lemma_floor_is_greatest(a * r, s, p);
}

/// Where the reserve does not cover all bSOL, a withdrawal is paid its share of the
/// reserve, provided that its worth at the peg can be calculated.
pub proof fn uncovered_withdrawal_is_paid_its_share(
    solido: Solido,
    b_sol_supply: BLamports,
    reserve: StLamports,
    amount: BLamports,
)
    requires
        !covers(solido, b_sol_supply, reserve),
        amount.0 <= b_sol_supply.0,
        ExchangeRate::spec_from_solido_pegged(solido).spec_exchange_b_sol(amount) is Ok,
    ensures
        spec_withdraw_amount(solido, b_sol_supply, reserve, amount) is Ok,
        spec_withdraw_amount(solido, b_sol_supply, reserve, amount)
            == ExchangeRate::spec_from_anker_unpegged(
            b_sol_supply,
            reserve,
        ).spec_exchange_b_sol(amount),
{
    let a = amount.0 as int;
    let s = b_sol_supply.0 as int;
    let r = reserve.0 as int;
    let t = solido.exchange_rate.st_sol_supply.0 as int;
    let b = solido.exchange_rate.sol_balance.0 as int;
    assert(s > 0) by (nonlinear_arith)
        requires
            s * t > r * b,
            s >= 0,
            r >= 0,
            b >= 0,
    ;
    lemma_share_is_within_the_reserve(b_sol_supply, reserve, amount);
    assert(a * t >= 0 && a * r >= 0) by (nonlinear_arith)
        requires
            a >= 0,
            t >= 0,
            r >= 0,
    ;
    let q = a * r / s;
    lemma_floor(a * r, s);
    assert(q * b <= a * t) by (nonlinear_arith)
        requires
            q * s <= a * r,
            r * b < s * t,
            a >= 0,
            s > 0,
            b >= 0,
    {
        assert(q * s * b <= a * r * b);
        assert(a * (r * b) <= a * (s * t));
        assert((q * b) * s <= (a * t) * s);
    }
    lemma_floor_is_greatest(a * t, b, q);
}

/// All stSOL can be withdrawn where the reserve is worth no more than all bSOL at the peg:
/// whoever returns all the bSOL that is left is paid all the stSOL that is left, provided
/// that the worth at the peg can be calculated.
pub proof fn all_st_sol_can_be_withdrawn(
    solido: Solido,
    b_sol_supply: BLamports,
    reserve: StLamports,
)
    requires
        reserve.0 * solido.exchange_rate.sol_balance.0 <= b_sol_supply.0
            * solido.exchange_rate.st_sol_supply.0,
        b_sol_supply.0 > 0,
        ExchangeRate::spec_from_solido_pegged(solido).spec_exchange_b_sol(b_sol_supply) is Ok,
    ensures
        spec_withdraw_amount(solido, b_sol_supply, reserve, b_sol_supply) == Ok::<
            StLamports,
            Failure,
        >(reserve),
{
    let s = b_sol_supply.0 as int;
    let r = reserve.0 as int;
    let t = solido.exchange_rate.st_sol_supply.0 as int;
    let b = solido.exchange_rate.sol_balance.0 as int;
    lemma_share_is_within_the_reserve(b_sol_supply, reserve, b_sol_supply);
    assert(s * r >= 0 && r * s <= s * r && s * t >= 0) by (nonlinear_arith)
        requires
            s >= 0,
            r >= 0,
            t >= 0,
    ;
    lemma_floor_is_greatest(s * r, s, r);
    lemma_floor_is_greatest(s * t, b, r);
}

/// A loss is spread over all withdrawers: no withdrawal leaves a smaller share of the
/// reserve for each bSOL that remains.
pub proof fn withdrawal_does_not_dilute_the_rest(
    solido: Solido,
    b_sol_supply: BLamports,
    reserve: StLamports,
    amount: BLamports,
    paid: StLamports,
)
    requires
        spec_withdraw_amount(solido, b_sol_supply, reserve, amount) == Ok::<
            StLamports,
            Failure,
        >(paid),
    ensures
        reserve.0 * (b_sol_supply.0 - amount.0) <= (reserve.0 - paid.0) * b_sol_supply.0,
{
    scaled_amount_is_rounded_down(amount.0, reserve.0, b_sol_supply.0);
    let s = b_sol_supply.0 as int;
    let r = reserve.0 as int;
    let a = amount.0 as int;
    let p = paid.0 as int;
    let q = a * r / s;
    assert(p * s <= a * r) by (nonlinear_arith)
        requires
            p <= q,
            q * s <= a * r,
            s >= 0,
    ;
    assert(r * (s - a) <= (r - p) * s) by (nonlinear_arith)
        requires
            p * s <= a * r,
    ;
}

/// A withdrawal from a reserve that covers all bSOL leaves one that covers the rest.
pub proof fn withdrawal_keeps_the_reserve_covering(
    solido: Solido,
    b_sol_supply: BLamports,
    reserve: StLamports,
    amount: BLamports,
    paid: StLamports,
)
    requires
        covers(solido, b_sol_supply, reserve),
        amount.0 <= b_sol_supply.0,
        spec_withdraw_amount(solido, b_sol_supply, reserve, amount) == Ok::<
            StLamports,
            Failure,
        >(paid),
    ensures
        paid.0 <= reserve.0,
        covers(
            solido,
            BLamports((b_sol_supply.0 - amount.0) as u64),
            StLamports((reserve.0 - paid.0) as u64),
        ),
{
    withdrawal_is_within_the_reserve(solido, b_sol_supply, reserve, amount);
    let t = solido.exchange_rate.st_sol_supply.0;
    let b = solido.exchange_rate.sol_balance.0;
    scaled_amount_is_rounded_down(amount.0, t, b);
    let pegged = scaled(amount.0, t, b)->Ok_0;
    assert((b_sol_supply.0 - amount.0) * t <= (reserve.0 - paid.0) * b) by (nonlinear_arith)
        requires
            b_sol_supply.0 * t <= reserve.0 * b,
            paid.0 <= pegged,
            pegged * b <= amount.0 * t,
    ;
}

/// A deposit into a reserve that covers all bSOL leaves one that covers the new bSOL too.
pub proof fn deposit_keeps_the_reserve_covering(
    solido: Solido,
    b_sol_supply: BLamports,
    reserve: StLamports,
    amount: StLamports,
    minted: BLamports,
)
    requires
        covers(solido, b_sol_supply, reserve),
        ExchangeRate::spec_from_solido_pegged(solido).spec_exchange_st_sol(amount) == Ok::<
            BLamports,
            Failure,
        >(minted),
        reserve.0 + amount.0 <= u64::MAX,
        b_sol_supply.0 + minted.0 <= u64::MAX,
    ensures
        covers(
            solido,
            BLamports((b_sol_supply.0 + minted.0) as u64),
            StLamports((reserve.0 + amount.0) as u64),
        ),
{
    deposit_is_minted_at_the_peg(solido, amount, minted);
    let t = solido.exchange_rate.st_sol_supply.0;
    let b = solido.exchange_rate.sol_balance.0;
    assert((b_sol_supply.0 + minted.0) * t <= (reserve.0 + amount.0) * b) by (nonlinear_arith)
        requires
            b_sol_supply.0 * t <= reserve.0 * b,
            minted.0 * t <= amount.0 * b,
    ;
}

/// Whether the reserve holds the worth of all bSOL, rounded down: the condition under which
/// rewards can be sold.
pub open spec fn backs(solido: Solido, b_sol_supply: u64, reserve: StLamports) -> bool {
    solido.exchange_rate.spec_exchange_sol(Lamports(b_sol_supply)) matches Ok(worth) && worth.0
        <= reserve.0
}

/// What backing means where there is stSOL, and SOL behind it: one unit of stSOL more than
/// the reserve would be worth more SOL than there is bSOL.
proof fn lemma_backs(solido: Solido, b_sol_supply: u64, reserve: StLamports)
    requires
        solido.exchange_rate.st_sol_supply.0 > 0,
        solido.exchange_rate.sol_balance.0 > 0,
    ensures
        backs(solido, b_sol_supply, reserve) <==> b_sol_supply
            * solido.exchange_rate.st_sol_supply.0 < (reserve.0 + 1)
            * solido.exchange_rate.sol_balance.0,
{
    let t = solido.exchange_rate.st_sol_supply.0;
    let b = solido.exchange_rate.sol_balance.0 as int;
    let n = b_sol_supply * t;
    assert(n >= 0) by (nonlinear_arith)
        requires
            n == b_sol_supply * t,
    ;
    lemma_floor(n, b);
    if n < (reserve.0 + 1) * b {
        lemma_floor_is_least(n, b, reserve.0 as int);
    } else if n / b <= reserve.0 {
        assert((n / b + 1) * b <= (reserve.0 + 1) * b) by (nonlinear_arith)
            requires
                n / b <= reserve.0,
                b > 0,
        ;
    }
}

/// A reserve that covers all bSOL backs it, where there is stSOL, and SOL behind it.
pub proof fn covering_reserve_backs(solido: Solido, b_sol_supply: BLamports, reserve: StLamports)
    requires
        covers(solido, b_sol_supply, reserve),
        solido.exchange_rate.st_sol_supply.0 > 0,
        solido.exchange_rate.sol_balance.0 > 0,
    ensures
        backs(solido, b_sol_supply.0, reserve),
{
    let b = solido.exchange_rate.sol_balance.0;
    lemma_backs(solido, b_sol_supply.0, reserve);
    assert(reserve.0 * b < (reserve.0 + 1) * b) by (nonlinear_arith)
        requires
            b > 0,
    ;
}

/// A withdrawal from a reserve that backs all bSOL leaves one that backs the rest.
pub proof fn withdrawal_keeps_the_reserve_backing(
    solido: Solido,
    b_sol_supply: BLamports,
    reserve: StLamports,
    amount: BLamports,
    paid: StLamports,
)
    requires
        backs(solido, b_sol_supply.0, reserve),
        amount.0 <= b_sol_supply.0,
        spec_withdraw_amount(solido, b_sol_supply, reserve, amount) == Ok::<
            StLamports,
            Failure,
        >(paid),
    ensures
        paid.0 <= reserve.0,
        backs(
            solido,
            (b_sol_supply.0 - amount.0) as u64,
            StLamports((reserve.0 - paid.0) as u64),
        ),
{
    withdrawal_is_within_the_reserve(solido, b_sol_supply, reserve, amount);
    let t = solido.exchange_rate.st_sol_supply.0;
    let b = solido.exchange_rate.sol_balance.0;
    scaled_amount_is_rounded_down(amount.0, t, b);
    let pegged = scaled(amount.0, t, b)->Ok_0;
    if t > 0 {
        let left = (b_sol_supply.0 - amount.0) as u64;
        let rest = StLamports((reserve.0 - paid.0) as u64);
        lemma_backs(solido, b_sol_supply.0, reserve);
        assert(left * t < (rest.0 + 1) * b) by (nonlinear_arith)
            requires
                left == b_sol_supply.0 - amount.0,
                rest.0 == reserve.0 - paid.0,
                b_sol_supply.0 * t < (reserve.0 + 1) * b,
                paid.0 <= pegged,
                pegged * b <= amount.0 * t,
        ;
        lemma_backs(solido, left, rest);
    } else {
        assert(pegged == 0) by (nonlinear_arith)
            requires
                pegged * b <= amount.0 * t,
                t == 0,
                b > 0,
        ;
    }
}

/// A deposit into a reserve that backs all bSOL leaves one that backs the new bSOL too.
pub proof fn deposit_keeps_the_reserve_backing(
    solido: Solido,
    b_sol_supply: BLamports,
    reserve: StLamports,
    amount: StLamports,
    minted: BLamports,
)
    requires
        backs(solido, b_sol_supply.0, reserve),
        ExchangeRate::spec_from_solido_pegged(solido).spec_exchange_st_sol(amount) == Ok::<
            BLamports,
            Failure,
        >(minted),
        reserve.0 + amount.0 <= u64::MAX,
        b_sol_supply.0 + minted.0 <= u64::MAX,
    ensures
        backs(
            solido,
            (b_sol_supply.0 + minted.0) as u64,
            StLamports((reserve.0 + amount.0) as u64),
        ),
{
    deposit_is_minted_at_the_peg(solido, amount, minted);
    let t = solido.exchange_rate.st_sol_supply.0;
    let b = solido.exchange_rate.sol_balance.0;
    if b > 0 {
        let supply = (b_sol_supply.0 + minted.0) as u64;
        let balance = StLamports((reserve.0 + amount.0) as u64);
        lemma_backs(solido, b_sol_supply.0, reserve);
        assert(supply * t < (balance.0 + 1) * b) by (nonlinear_arith)
            requires
                supply == b_sol_supply.0 + minted.0,
                balance.0 == reserve.0 + amount.0,
                b_sol_supply.0 * t < (reserve.0 + 1) * b,
                minted.0 * t <= amount.0 * b,
        ;
        lemma_backs(solido, supply, balance);
    } else {
        assert(minted.0 == 0) by (nonlinear_arith)
            requires
                minted.0 * t <= amount.0 * b,
                b == 0,
                t > 0,
        ;
    }
}

/// While the reserve backs all bSOL, a withdrawal succeeds, and is paid at the peg or one
/// unit of stSOL less.
pub proof fn backed_withdrawal_is_paid_nearly_at_the_peg(
    solido: Solido,
    b_sol_supply: BLamports,
    reserve: StLamports,
    amount: BLamports,
)
    requires
        backs(solido, b_sol_supply.0, reserve),
        amount.0 <= b_sol_supply.0,
        b_sol_supply.0 > 0,
        solido.exchange_rate.st_sol_supply.0 > 0,
        solido.exchange_rate.sol_balance.0 > 0,
    ensures
        spec_withdraw_amount(solido, b_sol_supply, reserve, amount) matches Ok(paid)
            && ExchangeRate::spec_from_solido_pegged(solido).spec_exchange_b_sol(amount) matches Ok(
            pegged,
        ) && paid.0 <= pegged.0 <= paid.0 + 1,
{
    let a = amount.0 as int;
    let s = b_sol_supply.0 as int;
    let r = reserve.0 as int;
    let t = solido.exchange_rate.st_sol_supply.0 as int;
    let b = solido.exchange_rate.sol_balance.0 as int;
    lemma_backs(solido, b_sol_supply.0, reserve);
    lemma_share_is_within_the_reserve(b_sol_supply, reserve, amount);
    assert(a * t >= 0 && a * r >= 0 && a * t <= s * t) by (nonlinear_arith)
        requires
            0 <= a <= s,
            t >= 0,
            r >= 0,
    ;
    let p = a * t / b;
    lemma_floor(a * t, b);
    lemma_floor_is_least(a * t, b, r);
    assert((p - 1) * s <= a * r) by (nonlinear_arith)
        requires
            p * b <= a * t,
            s * t < (r + 1) * b,
            0 <= a <= s,
            s > 0,
            b > 0,
    {
        assert(p * b * s <= a * t * s);
        assert(a * (s * t) <= a * ((r + 1) * b));
        assert((p * s) * b <= (a * r + a) * b);
        assert(p * s <= a * r + a);
    }
    lemma_floor_is_greatest(a * r, s, p - 1);
}

/// Nobody gains by a deposit and a withdrawal at the same rate: the bSOL of a deposit is
/// paid out as no more stSOL than was deposited.
pub proof fn deposit_and_withdrawal_gain_nothing(
    solido: Solido,
    deposited: StLamports,
    minted: BLamports,
    b_sol_supply: BLamports,
    reserve: StLamports,
)
    requires
        ExchangeRate::spec_from_solido_pegged(solido).spec_exchange_st_sol(deposited) == Ok::<
            BLamports,
            Failure,
        >(minted),
    ensures
        spec_withdraw_amount(solido, b_sol_supply, reserve, minted) matches Ok(paid) ==> paid.0
            <= deposited.0,
{
    deposit_is_minted_at_the_peg(solido, deposited, minted);
    let t = solido.exchange_rate.st_sol_supply.0;
    let b = solido.exchange_rate.sol_balance.0;
    scaled_amount_is_rounded_down(minted.0, t, b);
    if scaled(minted.0, t, b) is Ok {
        let back = scaled(minted.0, t, b)->Ok_0;
        assert(back <= deposited.0) by (nonlinear_arith)
            requires
                back * b <= minted.0 * t,
                minted.0 * t <= deposited.0 * b,
                b > 0,
        ;
    }
}

/// Rewards are what the reserve holds beyond the worth of all bSOL: what is left of the
/// reserve is that worth exactly.
pub proof fn rewards_are_the_excess_of_the_reserve(
    solido: Solido,
    b_sol_supply: u64,
    reserve: StLamports,
    rewards: StLamports,
)
    requires
        spec_rewards(solido, b_sol_supply, reserve) == Ok::<StLamports, Failure>(
            rewards,
        ),
    ensures
        rewards.0 <= reserve.0,
        solido.exchange_rate.spec_exchange_sol(Lamports(b_sol_supply)) == Ok::<
            StLamports,
            Failure,
        >(StLamports((reserve.0 - rewards.0) as u64)),
{
}

/// Rewards are refused exactly where the worth of all bSOL cannot be calculated or is more
/// than the reserve holds, with a calculation failure.
pub proof fn rewards_are_refused_where_the_reserve_falls_short(
    solido: Solido,
    b_sol_supply: u64,
    reserve: StLamports,
)
    ensures
        spec_rewards(solido, b_sol_supply, reserve) is Err <==> match solido.exchange_rate.spec_exchange_sol(
            Lamports(b_sol_supply),
        ) {
            Ok(worth) => reserve.0 < worth.0,
            Err(_) => true,
        },
        spec_rewards(solido, b_sol_supply, reserve) is Ok <==> backs(solido, b_sol_supply, reserve),
        spec_rewards(solido, b_sol_supply, reserve) matches Err(e) ==> e == lido_failure(
            LidoError::CalculationFailure,
        ),
{
}

/// A sale of rewards takes place only where the reserve backs all bSOL, and leaves one that
/// still does.
pub proof fn selling_rewards_keeps_the_reserve_backing(
    solido: Solido,
    b_sol_supply: u64,
    reserve: StLamports,
    rewards: StLamports,
)
    requires
        spec_rewards(solido, b_sol_supply, reserve) == Ok::<StLamports, Failure>(
            rewards,
        ),
    ensures
        backs(solido, b_sol_supply, reserve),
        backs(solido, b_sol_supply, StLamports((reserve.0 - rewards.0) as u64)),
{
}

/// Once rewards are sold, there are none left to sell at the same rate.
pub proof fn rewards_are_sold_once(
    solido: Solido,
    b_sol_supply: u64,
    reserve: StLamports,
    rewards: StLamports,
)
    requires
        spec_rewards(solido, b_sol_supply, reserve) == Ok::<StLamports, Failure>(
            rewards,
        ),
    ensures
        spec_rewards(solido, b_sol_supply, StLamports((reserve.0 - rewards.0) as u64)) == Ok::<
            StLamports,
            Failure,
        >(StLamports(0)),
{
}

/// Selling rewards takes nothing from the holders of bSOL as a whole: afterwards a return
/// of the whole supply is still paid at the peg. A return of a part of it may be paid less
/// than before the sale, by rounding.
pub proof fn selling_rewards_leaves_the_peg(
    solido: Solido,
    b_sol_supply: u64,
    reserve: StLamports,
    rewards: StLamports,
)
    requires
        spec_rewards(solido, b_sol_supply, reserve) == Ok::<StLamports, Failure>(
            rewards,
        ),
        b_sol_supply > 0,
        solido.exchange_rate.sol_balance.0 > 0,
        solido.exchange_rate.st_sol_supply.0 > 0,
    ensures
        spec_withdraw_amount(
            solido,
            BLamports(b_sol_supply),
            StLamports((reserve.0 - rewards.0) as u64),
            BLamports(b_sol_supply),
        ) == ExchangeRate::spec_from_solido_pegged(solido).spec_exchange_b_sol(
            BLamports(b_sol_supply),
        ),
        ExchangeRate::spec_from_solido_pegged(solido).spec_exchange_b_sol(BLamports(b_sol_supply))
            == Ok::<StLamports, Failure>(
            StLamports((reserve.0 - rewards.0) as u64),
        ),
{
    let s = b_sol_supply as int;
    let left = (reserve.0 - rewards.0) as u64;
    assert(s * left >= 0 && left * s <= s * left) by (nonlinear_arith)
        requires
            s >= 0,
            left >= 0,
    ;
    lemma_share_is_within_the_reserve(
        BLamports(b_sol_supply),
        StLamports(left),
        BLamports(b_sol_supply),
    );
    lemma_floor_is_greatest(s * left, s, left as int);
}

/// Multiplying by a fraction comes to the one number that is the exact fraction rounded
/// down, wherever that number exists and is a `u64`, and is a calculation failure elsewhere.
pub proof fn fraction_is_rounded_down(amount: u64, numerator: u64, denominator: u64, x: u64)
    ensures
        scaled(amount, numerator, denominator) == Ok::<u64, Failure>(x) <==> (x * denominator
            <= amount * numerator < (x + 1) * denominator),
        scaled(amount, numerator, denominator) is Err <==> (denominator == 0 || amount * numerator
            >= (u64::MAX + 1) * denominator),
        scaled(amount, numerator, denominator) matches Err(e) ==> e == Failure::Error(
            ProgramError::Lido(LidoError::CalculationFailure),
        ),
{
    scaled_amount_is_rounded_down(amount, numerator, denominator);
    let n = amount * numerator;
    let d = denominator as int;
    assert(n >= 0) by (nonlinear_arith)
        requires
            n == amount * numerator,
    ;
    if scaled(amount, numerator, denominator) is Ok {
        let y = scaled(amount, numerator, denominator)->Ok_0;
        assert((y + 1) * d <= (u64::MAX + 1) * d) by (nonlinear_arith)
            requires
                y <= u64::MAX,
                d >= 0,
        ;
    }
    if x * d <= n < (x + 1) * d {
        assert(d > 0) by (nonlinear_arith)
            requires
                x * d < (x + 1) * d,
        ;
        assert((x + 1) * d <= (u64::MAX + 1) * d) by (nonlinear_arith)
            requires
                x <= u64::MAX,
                d >= 0,
        ;
        lemma_floor_is_greatest(n, d, x as int);
        lemma_floor_is_least(n, d, x as int);
    }
}

/// At a rate, stSOL is exchanged for the bSOL of the same value, rounded down, and bSOL for
/// the stSOL of the same value, rounded down.
pub proof fn amounts_are_exchanged_at_the_rate(
    rate: ExchangeRate,
    st_sol: StLamports,
    b_sol: BLamports,
)
    ensures
        rate.spec_exchange_st_sol(st_sol) == Ok::<BLamports, Failure>(b_sol) <==> (b_sol.0
            * rate.st_sol_amount.0 <= st_sol.0 * rate.b_sol_amount.0 < (b_sol.0 + 1)
            * rate.st_sol_amount.0),
        rate.spec_exchange_b_sol(b_sol) == Ok::<StLamports, Failure>(st_sol) <==> (st_sol.0
            * rate.b_sol_amount.0 <= b_sol.0 * rate.st_sol_amount.0 < (st_sol.0 + 1)
            * rate.b_sol_amount.0),
        rate.spec_exchange_st_sol(st_sol) is Err <==> (rate.st_sol_amount.0 == 0 || st_sol.0
            * rate.b_sol_amount.0 >= (u64::MAX + 1) * rate.st_sol_amount.0),
        rate.spec_exchange_b_sol(b_sol) is Err <==> (rate.b_sol_amount.0 == 0 || b_sol.0
            * rate.st_sol_amount.0 >= (u64::MAX + 1) * rate.b_sol_amount.0),
        rate.spec_exchange_st_sol(st_sol) matches Err(e) ==> e == Failure::Error(
            ProgramError::Lido(LidoError::CalculationFailure),
        ),
        rate.spec_exchange_b_sol(b_sol) matches Err(e) ==> e == Failure::Error(
            ProgramError::Lido(LidoError::CalculationFailure),
        ),
{
    fraction_is_rounded_down(st_sol.0, rate.b_sol_amount.0, rate.st_sol_amount.0, b_sol.0);
    fraction_is_rounded_down(b_sol.0, rate.st_sol_amount.0, rate.b_sol_amount.0, st_sol.0);
}

/// The two rates: at the peg, all stSOL stands for as much bSOL as there is SOL; without
/// it, the reserve stands for the bSOL supply.
pub proof fn rates_are_spelled_out(solido: Solido, b_sol_supply: BLamports, reserve: StLamports)
    ensures
        ExchangeRate::spec_from_solido_pegged(solido).st_sol_amount.0
            == solido.exchange_rate.st_sol_supply.0,
        ExchangeRate::spec_from_solido_pegged(solido).b_sol_amount.0
            == solido.exchange_rate.sol_balance.0,
        ExchangeRate::spec_from_anker_unpegged(b_sol_supply, reserve).st_sol_amount.0 == reserve.0,
        ExchangeRate::spec_from_anker_unpegged(b_sol_supply, reserve).b_sol_amount.0
            == b_sol_supply.0,
{
}

/// SOL is exchanged for the stSOL of the same value, rounded down; one for one while there
/// is no stSOL or no SOL behind it.
pub proof fn sol_is_exchanged_at_the_rate_of_solido(
    rate: SolidoExchangeRate,
    sol: Lamports,
    st_sol: StLamports,
)
    ensures
        rate.st_sol_supply.0 == 0 || rate.sol_balance.0 == 0 ==> rate.spec_exchange_sol(sol)
            == Ok::<StLamports, Failure>(StLamports(sol.0)),
        rate.st_sol_supply.0 > 0 && rate.sol_balance.0 > 0 ==> {
            &&& rate.spec_exchange_sol(sol) == Ok::<StLamports, Failure>(st_sol) <==> (st_sol.0
                * rate.sol_balance.0 <= sol.0 * rate.st_sol_supply.0 < (st_sol.0 + 1)
                * rate.sol_balance.0)
            &&& rate.spec_exchange_sol(sol) is Err <==> sol.0 * rate.st_sol_supply.0 >= (u64::MAX
                + 1) * rate.sol_balance.0
        },
        rate.spec_exchange_sol(sol) matches Err(e) ==> e == Failure::Error(
            ProgramError::Lido(LidoError::CalculationFailure),
        ),
{
    fraction_is_rounded_down(sol.0, rate.st_sol_supply.0, rate.sol_balance.0, st_sol.0);
}

/// Amounts are subtracted exactly, and the lesser of two is one of them, and no more than
/// either.
pub proof fn amounts_are_subtracted_and_compared(a: StLamports, b: StLamports, x: StLamports)
    ensures
        a.spec_minus(b) == Ok::<StLamports, Failure>(x) <==> x.0 + b.0 == a.0,
        a.spec_minus(b) is Err <==> a.0 < b.0,
        a.spec_minus(b) matches Err(e) ==> e == Failure::Error(
            ProgramError::Lido(LidoError::CalculationFailure),
        ),
        a.spec_lesser(b).0 <= a.0,
        a.spec_lesser(b).0 <= b.0,
        a.spec_lesser(b) == a || a.spec_lesser(b) == b,
{
}

/// What a withdrawal is paid: the most stSOL that is worth no more than one SOL for each
/// bSOL returned, and no more than its share of the reserve. It fails exactly where there
/// is no SOL behind stSOL, where there is no bSOL, or where the peg or the share comes to
/// no `u64`.
pub proof fn withdrawal_is_paid_the_most_within_peg_and_share(
    solido: Solido,
    b_sol_supply: BLamports,
    reserve: StLamports,
    amount: BLamports,
    paid: StLamports,
)
    ensures
        ({
            let st_sol = solido.exchange_rate.st_sol_supply.0;
            let sol = solido.exchange_rate.sol_balance.0;
            let result = spec_withdraw_amount(solido, b_sol_supply, reserve, amount);
            let worth = amount.0 * st_sol;
            let share = amount.0 * reserve.0;
            let fails = {
                ||| sol == 0
                ||| b_sol_supply.0 == 0
                ||| worth >= (u64::MAX + 1) * sol
                ||| share >= (u64::MAX + 1) * b_sol_supply.0
            };
            &&& result is Err <==> fails
            &&& result matches Err(e) ==> e == Failure::Error(
                ProgramError::Lido(LidoError::CalculationFailure),
            )
            &&& result == Ok::<StLamports, Failure>(paid) <==> {
                &&& !fails
                &&& paid.0 * sol <= worth && paid.0 * b_sol_supply.0 <= share
                &&& worth < (paid.0 + 1) * sol || share < (paid.0 + 1) * b_sol_supply.0
            }
        }),
{
    let st_sol = solido.exchange_rate.st_sol_supply.0;
    let sol = solido.exchange_rate.sol_balance.0;
    let supply = b_sol_supply.0;
    let pegged = scaled(amount.0, st_sol, sol);
    let shared = scaled(amount.0, reserve.0, supply);
    let p = paid.0;
    fraction_is_rounded_down(amount.0, st_sol, sol, pegged->Ok_0);
    fraction_is_rounded_down(amount.0, reserve.0, supply, shared->Ok_0);
    if pegged is Ok && shared is Ok {
        let peg = pegged->Ok_0 as int;
        let part = shared->Ok_0 as int;
        lemma_at_most_the_quotient(p as int, amount.0 * st_sol, sol as int, peg);
        lemma_at_most_the_quotient(p + 1, amount.0 * st_sol, sol as int, peg);
        lemma_at_most_the_quotient(p as int, amount.0 * reserve.0, supply as int, part);
        lemma_at_most_the_quotient(p + 1, amount.0 * reserve.0, supply as int, part);
    }
}

/// A number fits exactly where it is no greater than the quotient.
proof fn lemma_at_most_the_quotient(x: int, n: int, d: int, q: int)
    by (nonlinear_arith)
    requires
        d > 0,
        q * d <= n < (q + 1) * d,
    ensures
        x * d <= n <==> x <= q,
{
    if x <= q {
        assert(x * d <= q * d);
    } else {
        assert((q + 1) * d <= x * d);
    }
}

/// What can be sold as rewards: the reserve less the worth of all bSOL in stSOL, rounded
/// down; one for one while there is no stSOL or no SOL behind it. Where the reserve holds
/// less than that worth, or it is no `u64`, it is a calculation failure.
pub proof fn rewards_leave_the_worth_of_all_b_sol(
    solido: Solido,
    b_sol_supply: u64,
    reserve: StLamports,
    rewards: StLamports,
)
    ensures
        ({
            let st_sol = solido.exchange_rate.st_sol_supply.0;
            let sol = solido.exchange_rate.sol_balance.0;
            let result = spec_rewards(solido, b_sol_supply, reserve);
            let left = reserve.0 - rewards.0;
            &&& st_sol == 0 || sol == 0 ==> {
                &&& result == Ok::<StLamports, Failure>(rewards) <==> left == b_sol_supply
                &&& result is Err <==> reserve.0 < b_sol_supply
            }
            &&& st_sol > 0 && sol > 0 ==> {
                &&& result == Ok::<StLamports, Failure>(rewards) <==> (left >= 0 && left * sol
                    <= b_sol_supply * st_sol < (left + 1) * sol)
                &&& result is Err <==> b_sol_supply * st_sol >= (reserve.0 + 1) * sol
            }
            &&& result matches Err(e) ==> e == Failure::Error(
                ProgramError::Lido(LidoError::CalculationFailure),
            )
        }),
{
    let st_sol = solido.exchange_rate.st_sol_supply.0;
    let sol = solido.exchange_rate.sol_balance.0;
    if st_sol > 0 && sol > 0 {
        lemma_backs(solido, b_sol_supply, reserve);
        if rewards.0 <= reserve.0 {
            fraction_is_rounded_down(b_sol_supply, st_sol, sol, (reserve.0 - rewards.0) as u64);
        }
    }
}

/// Two deposits mint no more bSOL than both in one, and at most one unit less.
pub proof fn deposits_add_up(solido: Solido, a: StLamports, b: StLamports, both: StLamports)
    requires
        both.0 == a.0 + b.0,
    ensures
        ({
            let rate = ExchangeRate::spec_from_solido_pegged(solido);
            rate.spec_exchange_st_sol(both) matches Ok(m) ==> {
                &&& rate.spec_exchange_st_sol(a) matches Ok(x)
                &&& rate.spec_exchange_st_sol(b) matches Ok(y)
                &&& x.0 + y.0 <= m.0 <= x.0 + y.0 + 1
            }
        }),
{
    let t = solido.exchange_rate.st_sol_supply.0;
    let s = solido.exchange_rate.sol_balance.0;
    fraction_is_rounded_down(both.0, s, t, scaled(both.0, s, t)->Ok_0);
    fraction_is_rounded_down(a.0, s, t, scaled(a.0, s, t)->Ok_0);
    fraction_is_rounded_down(b.0, s, t, scaled(b.0, s, t)->Ok_0);
    if scaled(both.0, s, t) is Ok {
        let m = scaled(both.0, s, t)->Ok_0;
        assert(both.0 * s == a.0 * s + b.0 * s && a.0 * s >= 0 && b.0 * s >= 0) by (nonlinear_arith)
            requires
                both.0 == a.0 + b.0,
        ;
        let x = scaled(a.0, s, t)->Ok_0;
        let y = scaled(b.0, s, t)->Ok_0;
        assert(x + y <= m <= x + y + 1) by (nonlinear_arith)
            requires
                m * t <= both.0 * s < (m + 1) * t,
                x * t <= a.0 * s < (x + 1) * t,
                y * t <= b.0 * s < (y + 1) * t,
                both.0 * s == a.0 * s + b.0 * s,
                t > 0,
        ;
    }
}

} // verus!
