//! Observability events. The engine decides which event each state change
//! produces and with what payload; serializing and emitting them is left to
//! the host around the library.
use vstd::prelude::*;
use vstd::string::StringExecFns;

use crate::token::Balance;
use crate::token::StorageSize;
use crate::token::TokenStatus;

verus! {

/// The payload of an event.
#[derive(PartialEq, Eq, Debug)]
pub enum EventData {
    AccountToken { account_id: String, token_id: String },
    AccountAmount { account_id: String, amount: Balance },
    AccountTokenAmount { account_id: String, token_id: String, amount: Balance },
    ReferralTokenAmount {
        authorized_id: String,
        account_id: String,
        token_id: String,
        amount: Balance,
    },
    UserTokenRequest { account_id: String, token_id: String, status: TokenStatus },
    AccountStorage { account_id: String, storage: StorageSize },
}

/// One emitted event: the fixed standard and version envelope, the event
/// name, and its payload.
#[derive(PartialEq, Eq, Debug)]
pub struct Event {
    pub standard: String,
    pub version: String,
    pub name: String,
    pub data: EventData,
}

/// Wraps a payload in the event envelope.
pub fn log_event(event: &str, data: EventData) -> (r: Event)
    ensures
        r.standard@ == "nftinder"@,
        r.version@ == "1.0.0"@,
        r.name@ == event@,
        r.data == data,
{
    Event {
        standard: String::from_str("nftinder"),
        version: String::from_str("1.0.0"),
        name: String::from_str(event),
        data,
    }
}

pub fn token_status_changed(account_id: &String, token_id: &String, status: &TokenStatus) -> (r:
    Event)
    ensures
        r.standard@ == "nftinder"@,
        r.version@ == "1.0.0"@,
        r.name@ == "token_status_changed"@,
        r.data == (EventData::UserTokenRequest {
            account_id: *account_id,
            token_id: *token_id,
            status: *status,
        }),
{
    log_event(
        "token_status_changed",
        EventData::UserTokenRequest {
            account_id: account_id.clone(),
            token_id: token_id.clone(),
            status: *status,
        },
    )
}

pub fn add_referral_fee(
    referrer_id: &String,
    account_id: &String,
    token_id: &String,
    amount: Balance,
) -> (r: Event)
    ensures
        r.standard@ == "nftinder"@,
        r.version@ == "1.0.0"@,
        r.name@ == "referral_fee"@,
        r.data == (EventData::ReferralTokenAmount {
            authorized_id: *referrer_id,
            account_id: *account_id,
            token_id: *token_id,
            amount,
        }),
{
    log_event(
        "referral_fee",
        EventData::ReferralTokenAmount {
            authorized_id: referrer_id.clone(),
            account_id: account_id.clone(),
            token_id: token_id.clone(),
            amount,
        },
    )
}

pub fn add_system_fee(account_id: &String, token_id: &String, amount: Balance) -> (r: Event)
    ensures
        r.standard@ == "nftinder"@,
        r.version@ == "1.0.0"@,
        r.name@ == "system_fee"@,
        r.data == (EventData::AccountTokenAmount {
            account_id: *account_id,
            token_id: *token_id,
            amount,
        }),
{
    log_event(
        "system_fee",
        EventData::AccountTokenAmount {
            account_id: account_id.clone(),
            token_id: token_id.clone(),
            amount,
        },
    )
}

pub fn add_seller_payout(account_id: &String, token_id: &String, amount: Balance) -> (r: Event)
    ensures
        r.standard@ == "nftinder"@,
        r.version@ == "1.0.0"@,
        r.name@ == "seller_payout"@,
        r.data == (EventData::AccountTokenAmount {
            account_id: *account_id,
            token_id: *token_id,
            amount,
        }),
{
    log_event(
        "seller_payout",
        EventData::AccountTokenAmount {
            account_id: account_id.clone(),
            token_id: token_id.clone(),
            amount,
        },
    )
}

pub fn add_deposit(account_id: &String, amount: Balance) -> (r: Event)
    ensures
        r.standard@ == "nftinder"@,
        r.version@ == "1.0.0"@,
        r.name@ == "deposit"@,
        r.data == (EventData::AccountAmount { account_id: *account_id, amount }),
{
    log_event("deposit", EventData::AccountAmount { account_id: account_id.clone(), amount })
}

pub fn add_storage(account_id: &String, amount: Balance) -> (r: Event)
    ensures
        r.standard@ == "nftinder"@,
        r.version@ == "1.0.0"@,
        r.name@ == "storage"@,
        r.data == (EventData::AccountAmount { account_id: *account_id, amount }),
{
    log_event("storage", EventData::AccountAmount { account_id: account_id.clone(), amount })
}

pub fn storage_transferred(account_id: &String, storage: StorageSize) -> (r: Event)
    ensures
        r.standard@ == "nftinder"@,
        r.version@ == "1.0.0"@,
        r.name@ == "storage_transferred"@,
        r.data == (EventData::AccountStorage { account_id: *account_id, storage }),
{
    log_event(
        "storage_transferred",
        EventData::AccountStorage { account_id: account_id.clone(), storage },
    )
}

pub fn transfer_storage_succeeded(account_id: &String, storage: StorageSize) -> (r: Event)
    ensures
        r.standard@ == "nftinder"@,
        r.version@ == "1.0.0"@,
        r.name@ == "transfer_storage_succeeded"@,
        r.data == (EventData::AccountStorage { account_id: *account_id, storage }),
{
    log_event(
        "transfer_storage_succeeded",
        EventData::AccountStorage { account_id: account_id.clone(), storage },
    )
}

pub fn transfer_storage_failed(account_id: &String, storage: StorageSize) -> (r: Event)
    ensures
        r.standard@ == "nftinder"@,
        r.version@ == "1.0.0"@,
        r.name@ == "transfer_storage_failed"@,
        r.data == (EventData::AccountStorage { account_id: *account_id, storage }),
{
    log_event(
        "transfer_storage_failed",
        EventData::AccountStorage { account_id: account_id.clone(), storage },
    )
}

pub fn add_withdraw_succeeded(account_id: &String, amount: Balance) -> (r: Event)
    ensures
        r.standard@ == "nftinder"@,
        r.version@ == "1.0.0"@,
        r.name@ == "withdraw_succeeded"@,
        r.data == (EventData::AccountAmount { account_id: *account_id, amount }),
{
    log_event(
        "withdraw_succeeded",
        EventData::AccountAmount { account_id: account_id.clone(), amount },
    )
}

pub fn add_withdraw_failed(account_id: &String, amount: Balance) -> (r: Event)
    ensures
        r.standard@ == "nftinder"@,
        r.version@ == "1.0.0"@,
        r.name@ == "withdraw_failed"@,
        r.data == (EventData::AccountAmount { account_id: *account_id, amount }),
{
    log_event(
        "withdraw_failed",
        EventData::AccountAmount { account_id: account_id.clone(), amount },
    )
}

pub fn add_burn_nft(account_id: &String, token_id: &String) -> (r: Event)
    ensures
        r.standard@ == "nftinder"@,
        r.version@ == "1.0.0"@,
        r.name@ == "nft_burn"@,
        r.data == (EventData::AccountToken { account_id: *account_id, token_id: *token_id }),
{
    log_event(
        "nft_burn",
        EventData::AccountToken { account_id: account_id.clone(), token_id: token_id.clone() },
    )
}

} // verus!
