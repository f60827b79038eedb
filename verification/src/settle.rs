//! The settlement engine: authorization gating, pricing, fee distribution,
//! archival, and ownership transfer for every mint and resale.
//!
//! [`Market::nft_mint`] is the single state-changing entry point of a
//! purchase. Its whole behaviour — which input is rejected with which
//! error, and exactly how the state changes on acceptance — is the spec
//! function [`spec_nft_mint`].
use vstd::prelude::*;

use crate::TIMESTAMP_MAX_INTERVAL;
use crate::archive::spec_add_entry;
use crate::errors::MarketError;
use crate::ledger::credit_map;
use crate::ledger::credit_ok;
use crate::ledger::spec_credit;
use crate::state::Market;
use crate::state::MarketModel;
use crate::token::Balance;
use crate::token::Timestamp;
use crate::token::TokenData;
use crate::token::TokenGeneration;
use crate::token::derived_token_id;
use crate::token::generate_token_id;

verus! {

/// The decoded content of a signed authorization message.
pub struct AuthMsg {
    pub token_id: Seq<char>,
    pub account_id: Seq<char>,
    pub referral_id_1: Option<Seq<char>>,
    pub referral_id_2: Option<Seq<char>>,
    pub timestamp: Timestamp,
    pub seller_storage_size: Option<u64>,
}

/// A signed authorization payload, decoded at the boundary into a closed
/// tagged union; unknown variants are rejected by the decoder around the
/// library.
pub enum MintNftMsg {
    SimpleMint {
        token_id: String,
        account_id: String,
        referral_id_1: Option<String>,
        referral_id_2: Option<String>,
        timestamp: Timestamp,
        seller_storage_size: Option<u64>,
    },
}

impl View for MintNftMsg {
    type V = AuthMsg;

    open spec fn view(&self) -> AuthMsg {
        match self {
            MintNftMsg::SimpleMint {
                token_id,
                account_id,
                referral_id_1,
                referral_id_2,
                timestamp,
                seller_storage_size,
            } => AuthMsg {
                token_id: token_id@,
                account_id: account_id@,
                referral_id_1: referral_id_1.deep_view(),
                referral_id_2: referral_id_2.deep_view(),
                timestamp: *timestamp,
                seller_storage_size: *seller_storage_size,
            },
        }
    }
}

/// What a payment-receipt message may carry; its sole variant is a
/// purchase wrapping an authorization message and its detached signature,
/// both as the wire carries them.
pub enum TokenReceiverMsg {
    Purchase { message: String, signature: String },
}

/// What an accepted purchase settles to: a fresh mint, or a resale whose
/// seller is to be paid `seller_payout` through the asynchronous payout
/// path.
#[derive(PartialEq, Eq, Debug)]
pub enum MintOutcome {
    Minted,
    Resale { seller_id: String, seller_payout: Balance },
}

/// The view of a settlement outcome.
pub enum MintOutcomeModel {
    Minted,
    Resale { seller_id: Seq<char>, seller_payout: Balance },
}

impl View for MintOutcome {
    type V = MintOutcomeModel;

    open spec fn view(&self) -> MintOutcomeModel {
        match self {
            MintOutcome::Minted => MintOutcomeModel::Minted,
            MintOutcome::Resale { seller_id, seller_payout } => MintOutcomeModel::Resale {
                seller_id: seller_id@,
                seller_payout: *seller_payout,
            },
        }
    }
}

/// The view of a settlement result.
pub open spec fn mint_result_model(r: Result<MintOutcome, MarketError>) -> Result<
    MintOutcomeModel,
    MarketError,
> {
    match r {
        Ok(o) => Ok(o@),
        Err(e) => Err(e),
    }
}

/// A settlement step: the state it leaves behind and what it reports.
pub struct MintStep {
    pub state: MarketModel,
    pub result: Result<MintOutcomeModel, MarketError>,
}

/// The rejection, if any, of the authorization gate: signature validity,
/// self-acquisition, the absolute staleness bound, the per-account replay
/// bound, and the token's last-sale bound, in that order.
pub open spec fn spec_auth_error(
    m: MarketModel,
    a: AuthMsg,
    signature_valid: bool,
    receiver: Seq<char>,
    now: Timestamp,
) -> Option<MarketError> {
    if !signature_valid {
        Some(MarketError::AuthorizationFailed)
    } else if receiver != a.account_id {
        Some(MarketError::AuthorizationFailed)
    } else if a.timestamp + TIMESTAMP_MAX_INTERVAL < now {
        Some(MarketError::StaleAuthorization)
    } else if m.last_user_action.contains_key(a.account_id) && a.timestamp
        <= m.last_user_action[a.account_id] {
        Some(MarketError::StaleAuthorization)
    } else if m.token_data.contains_key(a.token_id) && m.token_data[a.token_id].last_sale is Some
        && a.timestamp < m.token_data[a.token_id].last_sale->0 {
        Some(MarketError::StaleAuthorization)
    } else {
        None
    }
}

/// The previous owner's share of a price increase; zero on a first sale,
/// where there is no previous owner.
pub open spec fn spec_seller_fee(m: MarketModel, initial_sale: bool, increase: Balance) -> Balance {
    if initial_sale {
        0
    } else {
        m.seller_fee.mul_spec(increase) as Balance
    }
}

/// A first-level referrer's share of a price increase, owed only when a
/// referrer is named.
pub open spec fn spec_referral_1_fee(m: MarketModel, present: bool, increase: Balance) -> Balance {
    if present {
        m.referral_1_fee.mul_spec(increase) as Balance
    } else {
        0
    }
}

/// A second-level referrer's share of a price increase.
pub open spec fn spec_referral_2_fee(m: MarketModel, present: bool, increase: Balance) -> Balance {
    if present {
        m.referral_2_fee.mul_spec(increase) as Balance
    } else {
        0
    }
}

/// The treasury's share: what remains of the increase after the seller and
/// referral fees, by running checked subtraction; when the already-granted
/// fees exceed the increase, the treasury share is skipped entirely.
pub open spec fn spec_system_fee(
    increase: Balance,
    seller: Balance,
    r1: Balance,
    r2: Balance,
) -> Option<Balance> {
    if seller <= increase && seller + r1 <= increase && seller + r1 + r2 <= increase {
        Some((increase - seller - r1 - r2) as Balance)
    } else {
        None
    }
}

/// One optional credit in the fee cascade; `None` on overflow.
pub open spec fn spec_credit_step(
    b: Map<Seq<char>, Balance>,
    a: Option<Seq<char>>,
    v: Balance,
) -> Option<Map<Seq<char>, Balance>> {
    match a {
        None => Some(b),
        Some(acct) => if credit_ok(b, acct, v) {
            Some(spec_credit(b, acct, v))
        } else {
            None
        },
    }
}

/// The ledger after distributing the fees of one settlement: first-level
/// referral, second-level referral, then the treasury share (unless the
/// skip policy struck it); `None` when any credit would overflow, in which
/// case the whole settlement is refused.
pub open spec fn spec_fees_applied(
    m: MarketModel,
    initial_sale: bool,
    increase: Balance,
    r1: Option<Seq<char>>,
    r2: Option<Seq<char>>,
) -> Option<Map<Seq<char>, Balance>> {
    let sf = spec_seller_fee(m, initial_sale, increase);
    let f1 = spec_referral_1_fee(m, r1 is Some, increase);
    let f2 = spec_referral_2_fee(m, r2 is Some, increase);
    match spec_credit_step(m.balances, r1, f1) {
        None => None,
        Some(b1) => match spec_credit_step(b1, r2, f2) {
            None => None,
            Some(b2) => match spec_system_fee(increase, sf, f1, f2) {
                None => Some(b2),
                Some(sys) => spec_credit_step(b2, Some(m.owner_id), sys),
            },
        },
    }
}

/// A first sale: the full minimum mint price plays the role of the
/// increase, the seller fee is forced to zero, and the token starts at
/// generation zero.
pub open spec fn spec_first_mint(
    m: MarketModel,
    a: AuthMsg,
    receiver: Seq<char>,
    deposit: Balance,
    now: Timestamp,
) -> MintStep {
    let price = m.min_mint_price;
    if deposit < price {
        MintStep {
            state: m,
            result: Err(MarketError::InsufficientPayment { missing: (price - deposit) as Balance }),
        }
    } else {
        match spec_fees_applied(m, true, price, a.referral_id_1, a.referral_id_2) {
            None => MintStep { state: m, result: Err(MarketError::Overflow) },
            Some(b) => MintStep {
                state: MarketModel {
                    token_data: m.token_data.insert(
                        a.token_id,
                        TokenData { generation: 0, price, last_sale: Some(now) },
                    ),
                    registry: m.registry.insert(a.token_id, receiver),
                    balances: b,
                    ..m
                },
                result: Ok(MintOutcomeModel::Minted),
            },
        }
    }
}

/// A resale: the price grows by the configured fraction, the caller must
/// cover the new price, seller and buyer must differ, the superseded
/// generation is archived when the seller opted in and the buyer-declared
/// capacity hint exceeds the seller's archived-item count, the pricing
/// record advances atomically, and the previous owner is owed the old
/// price plus the seller fee.
pub open spec fn spec_resale(
    m: MarketModel,
    a: AuthMsg,
    receiver: Seq<char>,
    deposit: Balance,
    now: Timestamp,
) -> MintStep {
    let d = m.token_data_of(a.token_id);
    let increase = m.mint_price_increase_fee.mul_spec(d.price) as Balance;
    if d.price + increase > u128::MAX {
        MintStep { state: m, result: Err(MarketError::Overflow) }
    } else {
        let required = (d.price + increase) as Balance;
        if deposit < required {
            MintStep {
                state: m,
                result: Err(
                    MarketError::InsufficientPayment { missing: (required - deposit) as Balance },
                ),
            }
        } else {
            let seller = m.registry[a.token_id];
            if seller == receiver {
                MintStep { state: m, result: Err(MarketError::CannotSelfTrade) }
            } else {
                let archive = m.stores_tokens(seller) && match a.seller_storage_size {
                    Some(h) => h > m.collection_count(seller),
                    None => false,
                };
                let archived_id = derived_token_id(d.generation, a.token_id);
                if archive && m.registry.contains_key(archived_id) {
                    MintStep { state: m, result: Err(MarketError::TokenExists) }
                } else if d.generation == u32::MAX {
                    MintStep { state: m, result: Err(MarketError::Overflow) }
                } else {
                    match spec_fees_applied(m, false, increase, a.referral_id_1, a.referral_id_2) {
                        None => MintStep { state: m, result: Err(MarketError::Overflow) },
                        Some(b) => {
                            let sf = spec_seller_fee(m, false, increase);
                            MintStep {
                                state: MarketModel {
                                    token_data: m.token_data.insert(
                                        a.token_id,
                                        TokenData {
                                            generation: (d.generation + 1) as TokenGeneration,
                                            price: required,
                                            last_sale: Some(now),
                                        },
                                    ),
                                    registry: (if archive {
                                        m.registry.insert(archived_id, seller)
                                    } else {
                                        m.registry
                                    }).insert(a.token_id, receiver),
                                    collections: if archive {
                                        m.collections.insert(
                                            seller,
                                            spec_add_entry(
                                                m.collection_of(seller),
                                                (a.token_id, d.generation),
                                            ),
                                        )
                                    } else {
                                        m.collections
                                    },
                                    balances: b,
                                    ..m
                                },
                                result: Ok(
                                    MintOutcomeModel::Resale {
                                        seller_id: seller,
                                        seller_payout: (d.price + sf) as Balance,
                                    },
                                ),
                            }
                        },
                    }
                }
            }
        }
    }
}

/// A whole purchase: the authorization gate first; on acceptance the
/// account's replay timestamp is consumed at once, so that every later
/// rejection of the same call still leaves the message unusable; then
/// settlement as a first sale or a resale of the named token.
pub open spec fn spec_nft_mint(
    m: MarketModel,
    a: AuthMsg,
    signature_valid: bool,
    receiver: Seq<char>,
    deposit: Balance,
    now: Timestamp,
) -> MintStep {
    match spec_auth_error(m, a, signature_valid, receiver, now) {
        Some(e) => MintStep { state: m, result: Err(e) },
        None => {
            let m1 = MarketModel {
                last_user_action: m.last_user_action.insert(a.account_id, a.timestamp),
                ..m
            };
            if m.registry.contains_key(a.token_id) {
                spec_resale(m1, a, receiver, deposit, now)
            } else {
                spec_first_mint(m1, a, receiver, deposit, now)
            }
        },
    }
}

/// Checks that an attached deposit covers a price, reporting the exact
/// shortfall otherwise.
pub fn assert_deposit(deposit: Balance, price: Balance) -> (r: Result<(), MarketError>)
    ensures
        r is Ok <==> deposit >= price,
        r is Err ==> r == Err::<(), MarketError>(
            MarketError::InsufficientPayment { missing: (price - deposit) as Balance },
        ),
{
    if deposit >= price {
        Ok(())
    } else {
        Err(MarketError::InsufficientPayment { missing: price - deposit })
    }
}

impl Market {
    /// The pricing record a first mint starts from.
    pub fn get_new_token_data(&self) -> (r: TokenData)
        ensures
            r == (TokenData { generation: 0, price: self@.min_mint_price, last_sale: None }),
    {
        TokenData { generation: 0, price: self.min_mint_price, last_sale: None }
    }

    /// A token's pricing record, or the fresh record for a token never
    /// sold.
    pub fn get_token_data(&self, token_id: &String) -> (r: TokenData)
        requires
            self.wf(),
        ensures
            r == self@.token_data_of(token_id@),
    {
        match self.token_data.get(token_id) {
            Some(d) => *d,
            None => self.get_new_token_data(),
        }
    }

    /// A token's current price baseline.
    pub fn get_token_price(&self, token_id: &String) -> (r: Balance)
        requires
            self.wf(),
        ensures
            r == self@.token_data_of(token_id@).price,
    {
        self.get_token_data(token_id).price
    }

    /// A token's resale generation.
    pub fn get_token_generation(&self, token_id: &String) -> (r: TokenGeneration)
        requires
            self.wf(),
        ensures
            r == self@.token_data_of(token_id@).generation,
    {
        self.get_token_data(token_id).generation
    }

    /// Distributes the fees of one settlement into the claimable-balance
    /// ledger and reports the seller fee; on any overflow the whole
    /// distribution is refused and nothing is credited.
    pub fn manage_fees(
        &mut self,
        initial_sale: bool,
        price_increase: Balance,
        referral_id_1: &Option<String>,
        referral_id_2: &Option<String>,
    ) -> (r: Result<Balance, MarketError>)
        requires
            old(self).wf(),
        ensures
            final(self).wf(),
            match spec_fees_applied(
                old(self)@,
                initial_sale,
                price_increase,
                referral_id_1.deep_view(),
                referral_id_2.deep_view(),
            ) {
                Some(b) => r matches Ok(f) && f == spec_seller_fee(
                    old(self)@,
                    initial_sale,
                    price_increase,
                ) && final(self)@ == (MarketModel { balances: b, ..old(self)@ }),
                None => r == Err::<Balance, MarketError>(MarketError::Overflow) && final(self)@
                    == old(self)@,
            },
    {
        let ghost m0 = self@;
        let seller_fee: Balance = if !initial_sale {
            self.seller_fee.multiply(price_increase)
        } else {
            0
        };
        let mut nb = self.internal_balances.duplicate();
        let mut referral_1_fee: Balance = 0;
        if let Some(referral_1) = referral_id_1 {
            referral_1_fee = self.referral_1_fee.multiply(price_increase);
            if credit_map(&mut nb, referral_1, referral_1_fee).is_err() {
                return Err(MarketError::Overflow);
            }
        }
        let mut referral_2_fee: Balance = 0;
        if let Some(referral_2) = referral_id_2 {
            referral_2_fee = self.referral_2_fee.multiply(price_increase);
            if credit_map(&mut nb, referral_2, referral_2_fee).is_err() {
                return Err(MarketError::Overflow);
            }
        }
        let system_fee: Option<Balance> = if seller_fee <= price_increase {
            let rem1 = price_increase - seller_fee;
            if referral_1_fee <= rem1 {
                let rem2 = rem1 - referral_1_fee;
                if referral_2_fee <= rem2 {
                    Some(rem2 - referral_2_fee)
                } else {
                    None
                }
            } else {
                None
            }
        } else {
            None
        };
        if let Some(sys) = system_fee {
            if credit_map(&mut nb, &self.owner_id, sys).is_err() {
                return Err(MarketError::Overflow);
            }
        }
        self.internal_balances = nb;
        proof {
            let b = spec_fees_applied(
                m0,
                initial_sale,
                price_increase,
                referral_id_1.deep_view(),
                referral_id_2.deep_view(),
            );
            assert(self@ =~~= (MarketModel { balances: b->0, ..m0 }));
        }
        Ok(seller_fee)
    }

    /// Settles one signed purchase: either the first mint of a token or a
    /// resale. The whole behaviour — every rejection and the exact state
    /// left behind — is [`spec_nft_mint`]; on a resale the caller must
    /// route the returned payout through the external token contract and
    /// reconcile it via [`Market::callback_after_withdraw`].
    pub fn nft_mint(
        &mut self,
        msg: MintNftMsg,
        signature_valid: bool,
        receiver_id: String,
        deposit: Balance,
        now: Timestamp,
    ) -> (r: Result<MintOutcome, MarketError>)
        requires
            old(self).wf(),
        ensures
            final(self).wf(),
            final(self)@ == spec_nft_mint(
                old(self)@,
                msg@,
                signature_valid,
                receiver_id@,
                deposit,
                now,
            ).state,
            mint_result_model(r) == spec_nft_mint(
                old(self)@,
                msg@,
                signature_valid,
                receiver_id@,
                deposit,
                now,
            ).result,
    {
        let ghost m0 = self@;
        let ghost a = msg@;
        let MintNftMsg::SimpleMint {
            token_id,
            account_id,
            referral_id_1,
            referral_id_2,
            timestamp,
            seller_storage_size,
        } = msg;
        if !signature_valid {
            return Err(MarketError::AuthorizationFailed);
        }
        if !(receiver_id == account_id) {
            return Err(MarketError::AuthorizationFailed);
        }
        if now > TIMESTAMP_MAX_INTERVAL && timestamp < now - TIMESTAMP_MAX_INTERVAL {
            return Err(MarketError::StaleAuthorization);
        }
        match self.last_user_action.get(&account_id) {
            Some(last) => {
                if timestamp <= *last {
                    return Err(MarketError::StaleAuthorization);
                }
            },
            None => {},
        }
        match self.token_data.get(&token_id) {
            Some(d) => match d.last_sale {
                Some(ls) => {
                    if timestamp < ls {
                        return Err(MarketError::StaleAuthorization);
                    }
                },
                None => {},
            },
            None => {},
        }
        proof {
            assert(spec_auth_error(m0, a, signature_valid, receiver_id@, now) is None);
        }
        // Consume the authorization before anything else, so a duplicate of
        // this message stays rejected even if settlement fails below.
        self.last_user_action.insert(account_id.clone(), timestamp);
        let ghost m1 = self@;
        proof {
            assert(m1 =~~= (MarketModel {
                last_user_action: m0.last_user_action.insert(a.account_id, a.timestamp),
                ..m0
            }));
        }
        let owner_of_token: Option<String> = match self.registry.get(&token_id) {
            Some(owner) => Some(owner.clone()),
            None => None,
        };
        if let Some(seller_id) = owner_of_token {
            // Resale of an existing token.
            let token_data = self.get_token_data(&token_id);
            let old_price = token_data.price;
            let old_generation = token_data.generation;
            let price_increase = self.mint_price_increase_fee.multiply(old_price);
            if old_price > u128::MAX - price_increase {
                return Err(MarketError::Overflow);
            }
            let new_price = old_price + price_increase;
            match assert_deposit(deposit, new_price) {
                Ok(()) => {},
                Err(e) => {
                    return Err(e);
                },
            }
            if seller_id == receiver_id {
                return Err(MarketError::CannotSelfTrade);
            }
            let storing = self.get_store_user_tokens(&seller_id);
            let collection_count = self.get_user_collection_items(&seller_id);
            let archive = storing && match seller_storage_size {
                Some(h) => h > collection_count,
                None => false,
            };
            let derived = generate_token_id(&old_generation, &token_id);
            if archive && self.registry.contains_key(&derived) {
                return Err(MarketError::TokenExists);
            }
            if old_generation == u32::MAX {
                return Err(MarketError::Overflow);
            }
            let seller_fee = match self.manage_fees(
                false,
                price_increase,
                &referral_id_1,
                &referral_id_2,
            ) {
                Ok(f) => f,
                Err(e) => {
                    return Err(e);
                },
            };
            if archive {
                // Cannot fail here: the derived identifier was checked free
                // before any fee was credited.
                if self.store_nft(&token_id, old_generation, &seller_id).is_err() {
                    return Err(MarketError::TokenExists);
                }
            }
            self.token_data.insert(
                token_id.clone(),
                TokenData {
                    generation: old_generation + 1,
                    price: new_price,
                    last_sale: Some(now),
                },
            );
            self.registry.insert(token_id, receiver_id);
            proof {
                crate::fraction::lemma_mul_spec_le(m1.seller_fee, price_increase);
            }
            let seller_payout = old_price + seller_fee;
            proof {
                assert(self@ =~~= spec_resale(m1, a, receiver_id@, deposit, now).state);
            }
            Ok(MintOutcome::Resale { seller_id, seller_payout })
        } else {
            // First mint of a fresh token.
            let min_price = self.min_mint_price;
            match assert_deposit(deposit, min_price) {
                Ok(()) => {},
                Err(e) => {
                    return Err(e);
                },
            }
            match self.manage_fees(true, min_price, &referral_id_1, &referral_id_2) {
                Ok(_) => {},
                Err(e) => {
                    return Err(e);
                },
            }
            self.token_data.insert(
                token_id.clone(),
                TokenData { generation: 0, price: min_price, last_sale: Some(now) },
            );
            self.registry.insert(token_id, receiver_id);
            proof {
                assert(self@ =~~= spec_first_mint(m1, a, receiver_id@, deposit, now).state);
            }
            Ok(MintOutcome::Minted)
        }
    }

    /// The payment-receipt hook: funds arrive from the whitelisted token
    /// contract together with a purchase message; funds from any other
    /// token contract are refused and nothing changes.
    pub fn ft_on_transfer(
        &mut self,
        token_contract: &String,
        sender_id: String,
        amount: Balance,
        msg: MintNftMsg,
        signature_valid: bool,
        now: Timestamp,
    ) -> (r: Result<MintOutcome, MarketError>)
        requires
            old(self).wf(),
        ensures
            final(self).wf(),
            token_contract@ != old(self)@.ft_account_id ==> r == Err::<MintOutcome, MarketError>(
                MarketError::Unauthorized,
            ) && final(self)@ == old(self)@,
            token_contract@ == old(self)@.ft_account_id ==> final(self)@ == spec_nft_mint(
                old(self)@,
                msg@,
                signature_valid,
                sender_id@,
                amount,
                now,
            ).state && mint_result_model(r) == spec_nft_mint(
                old(self)@,
                msg@,
                signature_valid,
                sender_id@,
                amount,
                now,
            ).result,
    {
        if !(*token_contract == self.ft_account_id) {
            return Err(MarketError::Unauthorized);
        }
        self.nft_mint(msg, signature_valid, sender_id, amount, now)
    }
}

} // verus!
