//! Core engine of a dynamic-pricing marketplace for uniquely identified
//! digital assets. Every resale raises a token's price by a configured
//! fraction and splits the increase among the previous owner, up to two
//! referrers, and the protocol treasury; settlement of seller proceeds goes
//! through an asynchronous external transfer that is reconciled by a later
//! callback.
use vstd::prelude::*;

mod archive;
mod errors;
mod events;
mod fraction;
mod hexdec;
mod laws;
mod ledger;
mod maps;
mod queries;
mod settle;
mod state;
mod storage;
mod token;
mod user_token;

pub use archive::contains_entry;
pub use archive::spec_add_entry;
pub use archive::spec_remove_entry;
pub use archive::spec_store_nft;
pub use errors::MarketError;
pub use events::Event;
pub use events::EventData;
pub use events::add_burn_nft;
pub use events::add_deposit;
pub use events::add_referral_fee;
pub use events::add_seller_payout;
pub use events::add_storage;
pub use events::add_system_fee;
pub use events::add_withdraw_failed;
pub use events::add_withdraw_succeeded;
pub use events::log_event;
pub use events::storage_transferred;
pub use events::token_status_changed;
pub use events::transfer_storage_failed;
pub use events::transfer_storage_succeeded;
pub use hexdec::decode_signature;
pub use hexdec::decode_verification_key;
pub use hexdec::hex_bytes;
pub use hexdec::hex_digit_val;
pub use hexdec::is_hex_digit;
pub use hexdec::valid_hex;
pub use fraction::FeeFraction;
pub use fraction::assert_fees_overflow;
pub use fraction::fractions_fit;
pub use laws::lemma_accepted_purchase_transfers_ownership;
pub use laws::lemma_authorization_consumed;
pub use laws::lemma_credit_withdraw_round_trip;
pub use laws::lemma_fee_split_exact;
pub use laws::lemma_fees_fit_no_skip;
pub use laws::lemma_resale_advances_generation;
pub use ledger::Transfer;
pub use ledger::bal_or_zero;
pub use ledger::credit_ok;
pub use ledger::spec_credit;
pub use ledger::spec_withdraw;
pub use maps::IdMap;
pub use maps::StrMap;
pub use maps::keys_with_value;
pub use settle::AuthMsg;
pub use settle::MintNftMsg;
pub use settle::MintOutcome;
pub use settle::MintOutcomeModel;
pub use settle::MintStep;
pub use settle::TokenReceiverMsg;
pub use settle::assert_deposit;
pub use settle::mint_result_model;
pub use settle::spec_auth_error;
pub use settle::spec_fees_applied;
pub use settle::spec_first_mint;
pub use settle::spec_nft_mint;
pub use settle::spec_resale;
pub use settle::spec_referral_1_fee;
pub use settle::spec_referral_2_fee;
pub use settle::spec_seller_fee;
pub use settle::spec_system_fee;
pub use settle::spec_credit_step;
pub use state::FREE_STORAGE_SIZE;
pub use state::Market;
pub use state::MarketModel;
pub use storage::StorageGrant;
pub use token::Balance;
pub use token::CollectionItem;
pub use token::StoragePackage;
pub use token::StoragePackageIndex;
pub use token::StorageSize;
pub use token::Timestamp;
pub use token::Token;
pub use token::TokenData;
pub use token::TokenGeneration;
pub use token::TokenStatus;
pub use token::UserToken;
pub use token::colon_idx;
pub use token::contains_colon;
pub use token::dec_digits_of;
pub use token::dec_value;
pub use token::derived_token_id;
pub use token::generate_token_id;
pub use token::parse_token_id;
pub use token::parse_u32_or_zero_spec;
pub use token::parsed_generation;
pub use token::parsed_token;

verus! {

/// How long an authorization message stays valid, in nanoseconds
/// (five minutes).
pub const TIMESTAMP_MAX_INTERVAL: u64 = 5 * 60 * 1_000_000_000;

} // verus!
