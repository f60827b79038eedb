//! The persisted state of the marketplace engine and its administrative
//! operations.
//!
//! The state is a handful of keyed maps (ownership registry, claimable
//! balances, pricing records, replay timestamps, archived collections,
//! storage quotas) plus scalar configuration. Its mathematical view is a
//! [`MarketModel`]; every operation's contract is stated over that model.
use vstd::prelude::*;

use crate::errors::MarketError;
use crate::fraction::FeeFraction;
use crate::fraction::fractions_fit;
use crate::maps::IdMap;
use crate::maps::StrMap;
use crate::maps::keys_with_value;
use crate::token::Balance;
use crate::token::CollectionItem;
use crate::token::StoragePackage;
use crate::token::StoragePackageIndex;
use crate::token::StorageSize;
use crate::token::Timestamp;
use crate::token::TokenData;
use crate::token::TokenGeneration;
use crate::token::UserToken;

verus! {

/// Accounts start with no purchased storage quota.
pub const FREE_STORAGE_SIZE: StorageSize = 0;

/// The mathematical view of the whole engine state.
#[verifier::ext_equal]
pub struct MarketModel {
    pub owner_id: Seq<char>,
    pub public_key: Seq<char>,
    pub ft_account_id: Seq<char>,
    pub min_mint_price: Balance,
    pub mint_price_increase_fee: FeeFraction,
    pub seller_fee: FeeFraction,
    pub referral_1_fee: FeeFraction,
    pub referral_2_fee: FeeFraction,
    /// Token identifier -> owning account, archived copies included.
    pub registry: Map<Seq<char>, Seq<char>>,
    /// Account -> claimable balance.
    pub balances: Map<Seq<char>, Balance>,
    /// Account -> archive opt-in flag.
    pub store_user_tokens: Map<Seq<char>, bool>,
    /// Token identifier -> pricing record.
    pub token_data: Map<Seq<char>, TokenData>,
    /// Account -> timestamp of its last accepted authorization.
    pub last_user_action: Map<Seq<char>, Timestamp>,
    /// Account -> archived `(token, generation)` snapshots.
    pub collections: Map<Seq<char>, Seq<(Seq<char>, TokenGeneration)>>,
    /// Account -> purchased storage quota.
    pub storage: Map<Seq<char>, StorageSize>,
    pub max_storage_size: StorageSize,
    pub storage_packages: Map<StoragePackageIndex, StoragePackage>,
    /// Counterpart contract allowed to send storage quota here.
    pub storage_contract_id: Option<Seq<char>>,
    pub user_token_requests: Seq<(u64, UserToken)>,
    pub last_user_token_request_id: u64,
}

impl MarketModel {
    /// All four configured fractions satisfy their invariants.
    pub open spec fn fees_valid(self) -> bool {
        self.mint_price_increase_fee.valid() && self.seller_fee.valid()
            && self.referral_1_fee.valid() && self.referral_2_fee.valid()
    }

    /// An account's claimable balance; zero before first credit.
    pub open spec fn balance_of(self, a: Seq<char>) -> Balance {
        if self.balances.contains_key(a) {
            self.balances[a]
        } else {
            0
        }
    }

    /// An account's purchased storage quota; zero before first purchase.
    pub open spec fn storage_of(self, a: Seq<char>) -> StorageSize {
        if self.storage.contains_key(a) {
            self.storage[a]
        } else {
            FREE_STORAGE_SIZE
        }
    }

    /// Whether an account opted in to archiving.
    pub open spec fn stores_tokens(self, a: Seq<char>) -> bool {
        if self.store_user_tokens.contains_key(a) {
            self.store_user_tokens[a]
        } else {
            false
        }
    }

    /// An account's archived items.
    pub open spec fn collection_of(self, a: Seq<char>) -> Seq<(Seq<char>, TokenGeneration)> {
        if self.collections.contains_key(a) {
            self.collections[a]
        } else {
            Seq::empty()
        }
    }

    /// How many items an account has archived.
    pub open spec fn collection_count(self, a: Seq<char>) -> nat {
        self.collection_of(a).len()
    }

    /// The pricing record of a token, or the fresh record a first mint
    /// would start from.
    pub open spec fn token_data_of(self, t: Seq<char>) -> TokenData {
        if self.token_data.contains_key(t) {
            self.token_data[t]
        } else {
            TokenData { generation: 0, price: self.min_mint_price, last_sale: None }
        }
    }

    /// How many registry entries an account owns.
    pub open spec fn supply_of(self, a: Seq<char>) -> nat {
        keys_with_value(self.registry, a).len()
    }
}

/// The engine state: configuration and the persisted maps.
pub struct Market {
    pub owner_id: String,
    pub public_key: String,
    pub ft_account_id: String,
    pub min_mint_price: Balance,
    pub mint_price_increase_fee: FeeFraction,
    pub seller_fee: FeeFraction,
    pub referral_1_fee: FeeFraction,
    pub referral_2_fee: FeeFraction,
    pub registry: StrMap<String>,
    pub internal_balances: StrMap<Balance>,
    pub is_store_user_tokens: StrMap<bool>,
    pub token_data: StrMap<TokenData>,
    pub last_user_action: StrMap<Timestamp>,
    pub user_collection_items: StrMap<Vec<CollectionItem>>,
    pub storage: StrMap<StorageSize>,
    pub max_storage_size: StorageSize,
    pub storage_packages: IdMap<StoragePackage>,
    pub storage_contract_id: Option<String>,
    pub user_token_requests: Vec<(u64, UserToken)>,
    pub last_user_token_request_id: u64,
}

impl View for Market {
    type V = MarketModel;

    open spec fn view(&self) -> MarketModel {
        MarketModel {
            owner_id: self.owner_id@,
            public_key: self.public_key@,
            ft_account_id: self.ft_account_id@,
            min_mint_price: self.min_mint_price,
            mint_price_increase_fee: self.mint_price_increase_fee,
            seller_fee: self.seller_fee,
            referral_1_fee: self.referral_1_fee,
            referral_2_fee: self.referral_2_fee,
            registry: self.registry@,
            balances: self.internal_balances@,
            store_user_tokens: self.is_store_user_tokens@,
            token_data: self.token_data@,
            last_user_action: self.last_user_action@,
            collections: self.user_collection_items@,
            storage: self.storage@,
            max_storage_size: self.max_storage_size,
            storage_packages: self.storage_packages@,
            storage_contract_id: self.storage_contract_id.deep_view(),
            user_token_requests: self.user_token_requests@,
            last_user_token_request_id: self.last_user_token_request_id,
        }
    }
}

impl Market {
    /// The state's internal invariant: every map keeps its keys distinct
    /// and the configured fractions are valid.
    pub open spec fn wf(self) -> bool {
        &&& self.registry.wf()
        &&& self.internal_balances.wf()
        &&& self.is_store_user_tokens.wf()
        &&& self.token_data.wf()
        &&& self.last_user_action.wf()
        &&& self.user_collection_items.wf()
        &&& self.storage.wf()
        &&& self.storage_packages.wf()
        &&& self@.fees_valid()
    }

    /// Sets up a fresh engine. Rejected with `ConfigurationInvalid` unless
    /// every fraction is valid and the seller and referral fractions
    /// together claim at most the whole price increase.
    pub fn new(
        owner_id: String,
        ft_account_id: String,
        public_key: String,
        min_mint_price: Balance,
        mint_price_increase_fee: FeeFraction,
        seller_fee: FeeFraction,
        referral_1_fee: FeeFraction,
        referral_2_fee: FeeFraction,
        max_storage_size: StorageSize,
        storage_contract_id: Option<String>,
    ) -> (r: Result<Market, MarketError>)
        ensures
            r is Ok <==> (mint_price_increase_fee.valid() && seller_fee.valid()
                && referral_1_fee.valid() && referral_2_fee.valid() && fractions_fit(
                seller_fee,
                referral_1_fee,
                referral_2_fee,
            )),
            r matches Ok(m) ==> m.wf() && m@ == (MarketModel {
                owner_id: owner_id@,
                public_key: public_key@,
                ft_account_id: ft_account_id@,
                min_mint_price,
                mint_price_increase_fee,
                seller_fee,
                referral_1_fee,
                referral_2_fee,
                registry: Map::empty(),
                balances: Map::empty(),
                store_user_tokens: Map::empty(),
                token_data: Map::empty(),
                last_user_action: Map::empty(),
                collections: Map::empty(),
                storage: Map::empty(),
                max_storage_size,
                storage_packages: Map::empty(),
                storage_contract_id: storage_contract_id.deep_view(),
                user_token_requests: Seq::empty(),
                last_user_token_request_id: 0,
            }),
            r is Err ==> r == Err::<Market, MarketError>(MarketError::ConfigurationInvalid),
    {
        mint_price_increase_fee.assert_valid()?;
        seller_fee.assert_valid()?;
        referral_1_fee.assert_valid()?;
        referral_2_fee.assert_valid()?;
        crate::fraction::assert_fees_overflow(&seller_fee, &referral_1_fee, &referral_2_fee)?;
        let m = Market {
            owner_id,
            public_key,
            ft_account_id,
            min_mint_price,
            mint_price_increase_fee,
            seller_fee,
            referral_1_fee,
            referral_2_fee,
            registry: StrMap::new(),
            internal_balances: StrMap::new(),
            is_store_user_tokens: StrMap::new(),
            token_data: StrMap::new(),
            last_user_action: StrMap::new(),
            user_collection_items: StrMap::new(),
            storage: StrMap::new(),
            max_storage_size,
            storage_packages: IdMap::new(),
            storage_contract_id,
            user_token_requests: Vec::new(),
            last_user_token_request_id: 0,
        };
        Ok(m)
    }

    /// The operator gate: accepts exactly the configured owner account.
    pub fn assert_owner(&self, caller: &String) -> (r: Result<(), MarketError>)
        ensures
            r is Ok <==> caller@ == self@.owner_id,
            r is Err ==> r == Err::<(), MarketError>(MarketError::Unauthorized),
    {
        if *caller == self.owner_id {
            Ok(())
        } else {
            Err(MarketError::Unauthorized)
        }
    }

    pub fn get_ft_account_id(&self) -> (r: String)
        ensures
            r@ == self@.ft_account_id,
    {
        self.ft_account_id.clone()
    }

    pub fn get_public_key(&self) -> (r: String)
        ensures
            r@ == self@.public_key,
    {
        self.public_key.clone()
    }

    pub fn set_public_key(&mut self, caller: &String, public_key: String) -> (r: Result<
        (),
        MarketError,
    >)
        requires
            old(self).wf(),
        ensures
            final(self).wf(),
            r is Ok <==> caller@ == old(self)@.owner_id,
            r is Ok ==> final(self)@ == (MarketModel { public_key: public_key@, ..old(self)@ }),
            r is Err ==> final(self)@ == old(self)@ && r == Err::<(), MarketError>(
                MarketError::Unauthorized,
            ),
    {
        self.assert_owner(caller)?;
        self.public_key = public_key;
        Ok(())
    }

    pub fn get_min_mint_price(&self) -> (r: Balance)
        ensures
            r == self@.min_mint_price,
    {
        self.min_mint_price
    }

    pub fn set_min_mint_price(&mut self, caller: &String, min_mint_price: Balance) -> (r: Result<
        (),
        MarketError,
    >)
        requires
            old(self).wf(),
        ensures
            final(self).wf(),
            r is Ok <==> caller@ == old(self)@.owner_id,
            r is Ok ==> final(self)@ == (MarketModel { min_mint_price, ..old(self)@ }),
            r is Err ==> final(self)@ == old(self)@ && r == Err::<(), MarketError>(
                MarketError::Unauthorized,
            ),
    {
        self.assert_owner(caller)?;
        self.min_mint_price = min_mint_price;
        Ok(())
    }

    pub fn set_mint_price_increase_fee(
        &mut self,
        caller: &String,
        mint_price_increase_fee: FeeFraction,
    ) -> (r: Result<(), MarketError>)
        requires
            old(self).wf(),
        ensures
            final(self).wf(),
            r is Ok <==> caller@ == old(self)@.owner_id && mint_price_increase_fee.valid(),
            r is Ok ==> final(self)@ == (MarketModel { mint_price_increase_fee, ..old(self)@ }),
            r is Err ==> final(self)@ == old(self)@,
            r is Err ==> (r == Err::<(), MarketError>(MarketError::Unauthorized) <==> caller@
                != old(self)@.owner_id),
            r is Err ==> (r == Err::<(), MarketError>(MarketError::ConfigurationInvalid) <==> (
            caller@ == old(self)@.owner_id && !mint_price_increase_fee.valid())),
    {
        self.assert_owner(caller)?;
        mint_price_increase_fee.assert_valid()?;
        self.mint_price_increase_fee = mint_price_increase_fee;
        Ok(())
    }

    pub fn set_seller_fee(&mut self, caller: &String, seller_fee: FeeFraction) -> (r: Result<
        (),
        MarketError,
    >)
        requires
            old(self).wf(),
        ensures
            final(self).wf(),
            r is Ok <==> caller@ == old(self)@.owner_id && seller_fee.valid(),
            r is Ok ==> final(self)@ == (MarketModel { seller_fee, ..old(self)@ }),
            r is Err ==> final(self)@ == old(self)@,
            r is Err ==> (r == Err::<(), MarketError>(MarketError::Unauthorized) <==> caller@
                != old(self)@.owner_id),
            r is Err ==> (r == Err::<(), MarketError>(MarketError::ConfigurationInvalid) <==> (
            caller@ == old(self)@.owner_id && !seller_fee.valid())),
    {
        self.assert_owner(caller)?;
        seller_fee.assert_valid()?;
        self.seller_fee = seller_fee;
        Ok(())
    }

    pub fn set_referral_fee(
        &mut self,
        caller: &String,
        referral_1_fee: FeeFraction,
        referral_2_fee: FeeFraction,
    ) -> (r: Result<(), MarketError>)
        requires
            old(self).wf(),
        ensures
            final(self).wf(),
            r is Ok <==> caller@ == old(self)@.owner_id && referral_1_fee.valid()
                && referral_2_fee.valid(),
            r is Ok ==> final(self)@ == (MarketModel { referral_1_fee, referral_2_fee, ..old(
                self,
            )@ }),
            r is Err ==> final(self)@ == old(self)@,
            r is Err ==> (r == Err::<(), MarketError>(MarketError::Unauthorized) <==> caller@
                != old(self)@.owner_id),
            r is Err ==> (r == Err::<(), MarketError>(MarketError::ConfigurationInvalid) <==> (
            caller@ == old(self)@.owner_id && !(referral_1_fee.valid() && referral_2_fee.valid()))),
    {
        self.assert_owner(caller)?;
        referral_1_fee.assert_valid()?;
        referral_2_fee.assert_valid()?;
        self.referral_1_fee = referral_1_fee;
        self.referral_2_fee = referral_2_fee;
        Ok(())
    }

    pub fn get_max_storage_size(&self) -> (r: StorageSize)
        ensures
            r == self@.max_storage_size,
    {
        self.max_storage_size
    }

    pub fn set_max_storage_size(&mut self, caller: &String, max_storage_size: StorageSize) -> (r:
        Result<(), MarketError>)
        requires
            old(self).wf(),
        ensures
            final(self).wf(),
            r is Ok <==> caller@ == old(self)@.owner_id,
            r is Ok ==> final(self)@ == (MarketModel { max_storage_size, ..old(self)@ }),
            r is Err ==> final(self)@ == old(self)@ && r == Err::<(), MarketError>(
                MarketError::Unauthorized,
            ),
    {
        self.assert_owner(caller)?;
        self.max_storage_size = max_storage_size;
        Ok(())
    }

    pub fn set_store_user_tokens(&mut self, caller: String, store_tokens: bool)
        requires
            old(self).wf(),
        ensures
            final(self).wf(),
            final(self)@ == (MarketModel {
                store_user_tokens: old(self)@.store_user_tokens.insert(caller@, store_tokens),
                ..old(self)@
            }),
    {
        self.is_store_user_tokens.insert(caller, store_tokens);
    }

    pub fn get_store_user_tokens(&self, account_id: &String) -> (r: bool)
        requires
            self.wf(),
        ensures
            r == self@.stores_tokens(account_id@),
    {
        match self.is_store_user_tokens.get(account_id) {
            Some(b) => *b,
            None => false,
        }
    }

    pub fn get_balance(&self, account_id: &String) -> (r: Balance)
        requires
            self.wf(),
        ensures
            r == self@.balance_of(account_id@),
    {
        match self.internal_balances.get(account_id) {
            Some(b) => *b,
            None => 0,
        }
    }

    pub fn get_user_storage(&self, account_id: &String) -> (r: StorageSize)
        requires
            self.wf(),
        ensures
            r == self@.storage_of(account_id@),
    {
        match self.storage.get(account_id) {
            Some(s) => *s,
            None => FREE_STORAGE_SIZE,
        }
    }

    pub fn get_free_storage_size(&self) -> (r: StorageSize)
        ensures
            r == FREE_STORAGE_SIZE,
    {
        FREE_STORAGE_SIZE
    }

    /// How many registry entries `account_id` owns, archived copies
    /// included.
    pub fn internal_total_supply_by_user(&self, account_id: &String) -> (r: u64)
        requires
            self.wf(),
        ensures
            r == self@.supply_of(account_id@),
    {
        self.registry.count_values(account_id)
    }
}

} // verus!
