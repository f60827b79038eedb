//! The library's global guarantees, stated and proved over the settlement
//! and ledger spec functions.
use vstd::prelude::*;

use crate::errors::MarketError;
use crate::fraction::fractions_fit;
use crate::ledger::bal_or_zero;
use crate::ledger::credit_ok;
use crate::ledger::spec_credit;
use crate::ledger::spec_withdraw;
use crate::settle::AuthMsg;
use crate::settle::spec_auth_error;
use crate::settle::spec_nft_mint;
use crate::settle::spec_referral_1_fee;
use crate::settle::spec_referral_2_fee;
use crate::settle::spec_seller_fee;
use crate::settle::spec_system_fee;
use crate::state::MarketModel;
use crate::token::Balance;
use crate::token::Timestamp;
use vstd::arithmetic::div_mod::lemma_fundamental_div_mod;
use vstd::arithmetic::div_mod::lemma_mod_bound;
use vstd::arithmetic::mul::lemma_mul_inequality;

verus! {

/// On every accepted resale, the token's generation advances by exactly
/// one and its price never decreases.
pub proof fn lemma_resale_advances_generation(
    m: MarketModel,
    a: AuthMsg,
    signature_valid: bool,
    receiver: Seq<char>,
    deposit: Balance,
    now: Timestamp,
)
    requires
        m.fees_valid(),
        m.registry.contains_key(a.token_id),
        spec_nft_mint(m, a, signature_valid, receiver, deposit, now).result is Ok,
    ensures
        ({
            let after = spec_nft_mint(m, a, signature_valid, receiver, deposit, now).state;
            &&& after.token_data_of(a.token_id).generation == m.token_data_of(a.token_id).generation
                + 1
            &&& after.token_data_of(a.token_id).price >= m.token_data_of(a.token_id).price
        }),
{
    crate::fraction::lemma_mul_spec_le(m.mint_price_increase_fee, m.token_data_of(a.token_id).price);
}

/// Whenever the treasury share is granted (the underflow-skip policy did
/// not strike), the four shares of a fee computation sum to exactly the
/// increase.
pub proof fn lemma_fee_split_exact(
    m: MarketModel,
    initial_sale: bool,
    increase: Balance,
    referral_1_present: bool,
    referral_2_present: bool,
)
    requires
        spec_system_fee(
            increase,
            spec_seller_fee(m, initial_sale, increase),
            spec_referral_1_fee(m, referral_1_present, increase),
            spec_referral_2_fee(m, referral_2_present, increase),
        ) is Some,
    ensures
        ({
            let sf = spec_seller_fee(m, initial_sale, increase);
            let f1 = spec_referral_1_fee(m, referral_1_present, increase);
            let f2 = spec_referral_2_fee(m, referral_2_present, increase);
            sf + f1 + f2 + spec_system_fee(increase, sf, f1, f2)->0 == increase
        }),
{
}

/// `floor(a*n1/d1) + floor(a*n2/d2) + floor(a*n3/d3) <= a` whenever the
/// three fractions sum to at most one.
proof fn lemma_floor_sum_within(a: int, n1: int, d1: int, n2: int, d2: int, n3: int, d3: int)
    requires
        0 <= a,
        0 < d1,
        0 < d2,
        0 < d3,
        0 <= n1 <= d1,
        0 <= n2 <= d2,
        0 <= n3 <= d3,
        n1 * d2 * d3 + n2 * d1 * d3 + n3 * d1 * d2 <= d1 * d2 * d3,
    ensures
        (n1 * a) / d1 + (n2 * a) / d2 + (n3 * a) / d3 <= a,
{
    let f1 = (n1 * a) / d1;
    let f2 = (n2 * a) / d2;
    let f3 = (n3 * a) / d3;
    lemma_fundamental_div_mod(n1 * a, d1);
    lemma_mod_bound(n1 * a, d1);
    assert(d1 * f1 <= n1 * a);
    lemma_fundamental_div_mod(n2 * a, d2);
    lemma_mod_bound(n2 * a, d2);
    assert(d2 * f2 <= n2 * a);
    lemma_fundamental_div_mod(n3 * a, d3);
    lemma_mod_bound(n3 * a, d3);
    assert(d3 * f3 <= n3 * a);
    let dd = d1 * d2 * d3;
    let ss = n1 * d2 * d3 + n2 * d1 * d3 + n3 * d1 * d2;
    assert(0 < d2 * d3 && 0 < d1 * d3 && 0 < d1 * d2 && 0 < dd) by (nonlinear_arith)
        requires
            0 < d1 && 0 < d2 && 0 < d3 && dd == d1 * d2 * d3,
    ;
    lemma_mul_inequality(d1 * f1, n1 * a, d2 * d3);
    lemma_mul_inequality(d2 * f2, n2 * a, d1 * d3);
    lemma_mul_inequality(d3 * f3, n3 * a, d1 * d2);
    assert((d1 * f1) * (d2 * d3) == dd * f1 && (n1 * a) * (d2 * d3) == (n1 * d2 * d3) * a) by (
        nonlinear_arith
    )
        requires
            dd == d1 * d2 * d3,
    ;
    assert((d2 * f2) * (d1 * d3) == dd * f2 && (n2 * a) * (d1 * d3) == (n2 * d1 * d3) * a) by (
        nonlinear_arith
    )
        requires
            dd == d1 * d2 * d3,
    ;
    assert((d3 * f3) * (d1 * d2) == dd * f3 && (n3 * a) * (d1 * d2) == (n3 * d1 * d2) * a) by (
        nonlinear_arith
    )
        requires
            dd == d1 * d2 * d3,
    ;
    assert(dd * f1 + dd * f2 + dd * f3 <= (n1 * d2 * d3) * a + (n2 * d1 * d3) * a + (n3 * d1 * d2)
        * a);
    assert((n1 * d2 * d3) * a + (n2 * d1 * d3) * a + (n3 * d1 * d2) * a == ss * a) by (
        nonlinear_arith
    )
        requires
            ss == n1 * d2 * d3 + n2 * d1 * d3 + n3 * d1 * d2,
    ;
    lemma_mul_inequality(ss, dd, a);
    assert(dd * f1 + dd * f2 + dd * f3 == dd * (f1 + f2 + f3)) by (nonlinear_arith);
    assert(dd * (f1 + f2 + f3) <= dd * a);
    assert(f1 + f2 + f3 <= a) by (nonlinear_arith)
        requires
            dd * (f1 + f2 + f3) <= dd * a && 0 < dd,
    ;
}

/// Under the configuration the constructor enforces — seller and referral
/// fractions together claiming at most the whole increase — the
/// underflow-skip policy never strikes: the treasury share is always
/// granted, and the four shares sum to exactly the increase.
pub proof fn lemma_fees_fit_no_skip(
    m: MarketModel,
    initial_sale: bool,
    increase: Balance,
    referral_1_present: bool,
    referral_2_present: bool,
)
    requires
        m.fees_valid(),
        fractions_fit(m.seller_fee, m.referral_1_fee, m.referral_2_fee),
    ensures
        ({
            let sf = spec_seller_fee(m, initial_sale, increase);
            let f1 = spec_referral_1_fee(m, referral_1_present, increase);
            let f2 = spec_referral_2_fee(m, referral_2_present, increase);
            &&& spec_system_fee(increase, sf, f1, f2) is Some
            &&& sf + f1 + f2 + spec_system_fee(increase, sf, f1, f2)->0 == increase
        }),
{
    let sf = spec_seller_fee(m, initial_sale, increase);
    let f1 = spec_referral_1_fee(m, referral_1_present, increase);
    let f2 = spec_referral_2_fee(m, referral_2_present, increase);
    let full1 = m.seller_fee.mul_spec(increase);
    let full2 = m.referral_1_fee.mul_spec(increase);
    let full3 = m.referral_2_fee.mul_spec(increase);
    crate::fraction::lemma_mul_spec_le(m.seller_fee, increase);
    crate::fraction::lemma_mul_spec_le(m.referral_1_fee, increase);
    crate::fraction::lemma_mul_spec_le(m.referral_2_fee, increase);
    lemma_floor_sum_within(
        increase as int,
        m.seller_fee.numerator as int,
        m.seller_fee.denominator as int,
        m.referral_1_fee.numerator as int,
        m.referral_1_fee.denominator as int,
        m.referral_2_fee.numerator as int,
        m.referral_2_fee.denominator as int,
    );
    assert(full1 + full2 + full3 <= increase);
    assert(sf <= full1 && f1 <= full2 && f2 <= full3);
    assert(sf + f1 + f2 <= increase);
}

/// Authorization consumption is at-most-once: replaying an identical,
/// previously accepted authorization message against the state that call
/// left behind — whether or not its settlement succeeded — is rejected as
/// stale, whatever the clock and deposit of the replay.
pub proof fn lemma_authorization_consumed(
    m: MarketModel,
    a: AuthMsg,
    signature_valid: bool,
    deposit: Balance,
    now: Timestamp,
    deposit2: Balance,
    now2: Timestamp,
)
    requires
        spec_auth_error(m, a, signature_valid, a.account_id, now) is None,
    ensures
        ({
            let after = spec_nft_mint(m, a, signature_valid, a.account_id, deposit, now).state;
            spec_nft_mint(after, a, signature_valid, a.account_id, deposit2, now2).result == Err::<
                crate::settle::MintOutcomeModel,
                MarketError,
            >(MarketError::StaleAuthorization)
        }),
{
    let after = spec_nft_mint(m, a, signature_valid, a.account_id, deposit, now).state;
    assert(after.last_user_action.contains_key(a.account_id));
    assert(after.last_user_action[a.account_id] == a.timestamp);
    assert(spec_auth_error(after, a, signature_valid, a.account_id, now2) == Some(
        MarketError::StaleAuthorization,
    ));
}

/// Every accepted purchase hands the token to the acquiring account, and
/// the acquiring account is always the one the authorization names.
pub proof fn lemma_accepted_purchase_transfers_ownership(
    m: MarketModel,
    a: AuthMsg,
    signature_valid: bool,
    receiver: Seq<char>,
    deposit: Balance,
    now: Timestamp,
)
    requires
        spec_nft_mint(m, a, signature_valid, receiver, deposit, now).result is Ok,
    ensures
        receiver == a.account_id,
        ({
            let after = spec_nft_mint(m, a, signature_valid, receiver, deposit, now).state;
            after.registry.contains_key(a.token_id) && after.registry[a.token_id] == receiver
        }),
{
}

/// Crediting an account and then withdrawing the same amount returns its
/// claimable balance to the pre-credit value when the external transfer
/// succeeds, and compensation restores the post-credit value when the
/// transfer fails.
pub proof fn lemma_credit_withdraw_round_trip(
    b: Map<Seq<char>, Balance>,
    a: Seq<char>,
    amount: Balance,
    success: bool,
)
    requires
        amount > 0,
        credit_ok(b, a, amount),
    ensures
        ({
            let credited = spec_credit(b, a, amount);
            let (debited, res) = spec_withdraw(credited, a, Some(amount));
            &&& res == Ok::<Balance, MarketError>(amount)
            &&& success ==> bal_or_zero(debited, a) == bal_or_zero(b, a)
            &&& !success ==> credit_ok(debited, a, amount) && bal_or_zero(
                spec_credit(debited, a, amount),
                a,
            ) == bal_or_zero(credited, a)
        }),
{
}

} // verus!
