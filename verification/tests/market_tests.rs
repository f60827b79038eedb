use nftinder::FeeFraction;
use nftinder::Market;
use nftinder::MarketError;
use nftinder::MintNftMsg;
use nftinder::MintOutcome;

fn fraction(numerator: u32, denominator: u32) -> FeeFraction {
    FeeFraction { numerator, denominator }
}

/// A market configured as in the resale scenario: 10% price increase,
/// the seller keeping 50% of the increase, 20% to a first-level referrer,
/// nothing to a second-level one, minimum mint price 100.
fn standard_market() -> Market {
    Market::new(
        "owner".to_string(),
        "ft".to_string(),
        "aa".repeat(32),
        100,
        fraction(10, 100),
        fraction(50, 100),
        fraction(20, 100),
        fraction(0, 100),
        10,
        Some("other_market".to_string()),
    )
    .unwrap()
}

fn simple_mint(
    token_id: &str,
    account_id: &str,
    referral_1: Option<&str>,
    timestamp: u64,
    hint: Option<u64>,
) -> MintNftMsg {
    MintNftMsg::SimpleMint {
        token_id: token_id.to_string(),
        account_id: account_id.to_string(),
        referral_id_1: referral_1.map(|s| s.to_string()),
        referral_id_2: None,
        timestamp,
        seller_storage_size: hint,
    }
}

#[test]
fn mint_first_token_for_alice() {
    let mut m = standard_market();
    let r = m.nft_mint(
        simple_mint("T1", "alice", None, 1, None),
        true,
        "alice".to_string(),
        100,
        1,
    );
    assert_eq!(r, Ok(MintOutcome::Minted));
    let (token, data) = m.get_token("T1".to_string());
    let token = token.unwrap();
    assert_eq!(token.owner_id, "alice");
    assert_eq!(token.token_id, "T1");
    assert_eq!(data, Some((0, 100)));
    // The whole minimum price is the "increase" of a first sale; with no
    // referrers it all lands in the treasury.
    assert_eq!(m.get_balance(&"owner".to_string()), 100);
}

#[test]
fn resale_with_referral_splits_fees() {
    let mut m = standard_market();
    m.nft_mint(
        simple_mint("T1", "alice", None, 1, None),
        true,
        "alice".to_string(),
        100,
        1,
    )
    .unwrap();
    let r = m.nft_mint(
        simple_mint("T1", "bob", Some("carol"), 2, None),
        true,
        "bob".to_string(),
        110,
        2,
    );
    // increase = 10, seller fee = 5, referral fee = 2, system fee = 3.
    assert_eq!(
        r,
        Ok(MintOutcome::Resale { seller_id: "alice".to_string(), seller_payout: 105 })
    );
    let (token, data) = m.get_token("T1".to_string());
    assert_eq!(token.unwrap().owner_id, "bob");
    assert_eq!(data, Some((1, 110)));
    assert_eq!(m.get_balance(&"carol".to_string()), 2);
    assert_eq!(m.get_balance(&"owner".to_string()), 103);
    // The seller payout goes through the external transfer, not the
    // ledger.
    assert_eq!(m.get_balance(&"alice".to_string()), 0);
}

#[test]
fn fee_shares_sum_to_increase() {
    // increase 10: seller 5 + referral 2 + system 3 == 10.
    let seller = fraction(50, 100).multiply(10);
    let referral = fraction(20, 100).multiply(10);
    let system = 10 - seller - referral;
    assert_eq!(seller, 5);
    assert_eq!(referral, 2);
    assert_eq!(seller + referral + system, 10);
}

#[test]
fn underflow_skip_drops_the_treasury_share() {
    let mut m = standard_market();
    m.nft_mint(
        simple_mint("T1", "alice", None, 1, None),
        true,
        "alice".to_string(),
        100,
        1,
    )
    .unwrap();
    // Reconfigured so that the granted shares outgrow the increase: the
    // setters check each fraction alone, not their sum.
    m.set_seller_fee(&"owner".to_string(), fraction(3, 4)).unwrap();
    m.set_referral_fee(&"owner".to_string(), fraction(3, 4), fraction(0, 1))
        .unwrap();
    let r = m.nft_mint(
        simple_mint("T1", "bob", Some("carol"), 2, None),
        true,
        "bob".to_string(),
        110,
        2,
    );
    // increase 10: seller 7 and referral 7 already exceed it, so the
    // treasury share is skipped; the granted shares stand.
    assert_eq!(
        r,
        Ok(MintOutcome::Resale { seller_id: "alice".to_string(), seller_payout: 107 })
    );
    assert_eq!(m.get_balance(&"carol".to_string()), 7);
    assert_eq!(m.get_balance(&"owner".to_string()), 100);
}

#[test]
fn payment_boundary_is_exact() {
    let mut m = standard_market();
    m.nft_mint(
        simple_mint("T1", "alice", None, 1, None),
        true,
        "alice".to_string(),
        100,
        1,
    )
    .unwrap();
    // One unit short of price + increase: rejected with the exact deficit.
    let short = m.nft_mint(
        simple_mint("T1", "bob", None, 2, None),
        true,
        "bob".to_string(),
        109,
        2,
    );
    assert_eq!(short, Err(MarketError::InsufficientPayment { missing: 1 }));
    // A fresh authorization with the exact amount succeeds.
    let exact = m.nft_mint(
        simple_mint("T1", "bob", None, 3, None),
        true,
        "bob".to_string(),
        110,
        3,
    );
    assert!(exact.is_ok());
}

#[test]
fn generation_advances_by_one_per_resale() {
    let mut m = standard_market();
    m.nft_mint(
        simple_mint("T1", "alice", None, 1, None),
        true,
        "alice".to_string(),
        100,
        1,
    )
    .unwrap();
    assert_eq!(m.get_token_generation(&"T1".to_string()), 0);
    m.nft_mint(
        simple_mint("T1", "bob", None, 2, None),
        true,
        "bob".to_string(),
        110,
        2,
    )
    .unwrap();
    assert_eq!(m.get_token_generation(&"T1".to_string()), 1);
    assert_eq!(m.get_token_price(&"T1".to_string()), 110);
    m.nft_mint(
        simple_mint("T1", "alice", None, 3, None),
        true,
        "alice".to_string(),
        121,
        3,
    )
    .unwrap();
    assert_eq!(m.get_token_generation(&"T1".to_string()), 2);
    assert_eq!(m.get_token_price(&"T1".to_string()), 121);
}

#[test]
fn replaying_an_accepted_authorization_is_stale() {
    let mut m = standard_market();
    let accepted = m.nft_mint(
        simple_mint("T1", "alice", None, 5, None),
        true,
        "alice".to_string(),
        100,
        5,
    );
    assert!(accepted.is_ok());
    let replay = m.nft_mint(
        simple_mint("T1", "alice", None, 5, None),
        true,
        "alice".to_string(),
        100,
        9,
    );
    assert_eq!(replay, Err(MarketError::StaleAuthorization));
}

#[test]
fn authorization_is_consumed_even_when_settlement_fails() {
    let mut m = standard_market();
    m.nft_mint(
        simple_mint("T1", "alice", None, 1, None),
        true,
        "alice".to_string(),
        100,
        1,
    )
    .unwrap();
    // Underpaid resale: rejected, but the authorization is consumed.
    let poor = m.nft_mint(
        simple_mint("T1", "bob", None, 2, None),
        true,
        "bob".to_string(),
        50,
        2,
    );
    assert_eq!(poor, Err(MarketError::InsufficientPayment { missing: 60 }));
    let retry = m.nft_mint(
        simple_mint("T1", "bob", None, 2, None),
        true,
        "bob".to_string(),
        110,
        2,
    );
    assert_eq!(retry, Err(MarketError::StaleAuthorization));
}

#[test]
fn bad_signature_is_rejected_without_mutation() {
    let mut m = standard_market();
    let r = m.nft_mint(
        simple_mint("T1", "alice", None, 1, None),
        false,
        "alice".to_string(),
        100,
        1,
    );
    assert_eq!(r, Err(MarketError::AuthorizationFailed));
    let (token, _) = m.get_token("T1".to_string());
    assert!(token.is_none());
    // The authorization was not consumed: the same message verifies later.
    let retry = m.nft_mint(
        simple_mint("T1", "alice", None, 1, None),
        true,
        "alice".to_string(),
        100,
        1,
    );
    assert!(retry.is_ok());
}

#[test]
fn minting_for_someone_else_is_rejected() {
    let mut m = standard_market();
    let r = m.nft_mint(
        simple_mint("T1", "alice", None, 1, None),
        true,
        "bob".to_string(),
        100,
        1,
    );
    assert_eq!(r, Err(MarketError::AuthorizationFailed));
}

#[test]
fn expired_timestamp_is_stale() {
    let mut m = standard_market();
    let five_minutes: u64 = 5 * 60 * 1_000_000_000;
    let r = m.nft_mint(
        simple_mint("T1", "alice", None, 1, None),
        true,
        "alice".to_string(),
        100,
        five_minutes + 2,
    );
    assert_eq!(r, Err(MarketError::StaleAuthorization));
}

#[test]
fn buying_your_own_token_is_rejected() {
    let mut m = standard_market();
    m.nft_mint(
        simple_mint("T1", "alice", None, 1, None),
        true,
        "alice".to_string(),
        100,
        1,
    )
    .unwrap();
    let r = m.nft_mint(
        simple_mint("T1", "alice", None, 2, None),
        true,
        "alice".to_string(),
        110,
        2,
    );
    assert_eq!(r, Err(MarketError::CannotSelfTrade));
}

#[test]
fn withdrawal_exceeding_balance_fails_before_any_transfer() {
    let mut m = standard_market();
    m.internal_add_balance(&"dave".to_string(), 30).unwrap();
    let r = m.withdraw("dave".to_string(), Some(50));
    assert_eq!(r, Err(MarketError::InsufficientPayment { missing: 20 }));
    assert_eq!(m.get_balance(&"dave".to_string()), 30);
}

#[test]
fn credit_then_withdraw_round_trip() {
    let mut m = standard_market();
    m.internal_add_balance(&"erin".to_string(), 40).unwrap();
    assert_eq!(m.get_balance(&"erin".to_string()), 40);
    let t = m.withdraw("erin".to_string(), Some(40)).unwrap();
    assert_eq!(t.recipient, "erin");
    assert_eq!(t.amount, 40);
    // Debited eagerly, back at the pre-credit value.
    assert_eq!(m.get_balance(&"erin".to_string()), 0);
    // The external transfer succeeded: nothing more changes.
    m.callback_after_withdraw(&"erin".to_string(), 40, true).unwrap();
    assert_eq!(m.get_balance(&"erin".to_string()), 0);
}

#[test]
fn failed_withdrawal_is_compensated() {
    let mut m = standard_market();
    m.internal_add_balance(&"erin".to_string(), 40).unwrap();
    let t = m.withdraw("erin".to_string(), None).unwrap();
    assert_eq!(t.amount, 40);
    assert_eq!(m.get_balance(&"erin".to_string()), 0);
    // The external transfer failed: compensation restores the balance.
    m.callback_after_withdraw(&"erin".to_string(), 40, false).unwrap();
    assert_eq!(m.get_balance(&"erin".to_string()), 40);
}

#[test]
fn withdrawing_nothing_is_rejected() {
    let mut m = standard_market();
    let r = m.withdraw("erin".to_string(), None);
    assert_eq!(r, Err(MarketError::ZeroAmount));
    let r2 = m.withdraw("erin".to_string(), Some(0));
    assert_eq!(r2, Err(MarketError::ZeroAmount));
}

#[test]
fn credit_overflow_fails_the_whole_operation() {
    let mut m = standard_market();
    m.internal_add_balance(&"erin".to_string(), u128::MAX).unwrap();
    let r = m.internal_add_balance(&"erin".to_string(), 1);
    assert_eq!(r, Err(MarketError::Overflow));
    assert_eq!(m.get_balance(&"erin".to_string()), u128::MAX);
}

#[test]
fn resale_archives_for_an_opted_in_seller() {
    let mut m = standard_market();
    m.nft_mint(
        simple_mint("T1", "alice", None, 1, None),
        true,
        "alice".to_string(),
        100,
        1,
    )
    .unwrap();
    m.set_store_user_tokens("alice".to_string(), true);
    let r = m.nft_mint(
        simple_mint("T1", "bob", None, 2, Some(1)),
        true,
        "bob".to_string(),
        110,
        2,
    );
    assert!(r.is_ok());
    let collection = m.get_collection(&"alice".to_string()).unwrap();
    assert_eq!(collection.len(), 1);
    assert_eq!(collection[0].token_id, "T1");
    assert_eq!(collection[0].generation, 0);
    // The archived copy lives in the registry under its derived
    // identifier, owned by the previous owner.
    let (archived, data) = m.get_token("0:T1".to_string());
    assert_eq!(archived.unwrap().owner_id, "alice");
    assert_eq!(data, None);
}

#[test]
fn no_archival_without_capacity_hint() {
    let mut m = standard_market();
    m.nft_mint(
        simple_mint("T1", "alice", None, 1, None),
        true,
        "alice".to_string(),
        100,
        1,
    )
    .unwrap();
    m.set_store_user_tokens("alice".to_string(), true);
    m.nft_mint(
        simple_mint("T1", "bob", None, 2, None),
        true,
        "bob".to_string(),
        110,
        2,
    )
    .unwrap();
    assert!(m.get_collection(&"alice".to_string()).is_none());
}

#[test]
fn removing_an_archived_copy_deletes_it_everywhere() {
    let mut m = standard_market();
    m.nft_mint(
        simple_mint("T1", "alice", None, 1, None),
        true,
        "alice".to_string(),
        100,
        1,
    )
    .unwrap();
    m.set_store_user_tokens("alice".to_string(), true);
    m.nft_mint(
        simple_mint("T1", "bob", None, 2, Some(1)),
        true,
        "bob".to_string(),
        110,
        2,
    )
    .unwrap();
    let r = m.remove_user_collection_item("alice".to_string(), 0, "T1".to_string());
    assert_eq!(r, Ok(()));
    assert_eq!(m.get_collection_items(&"alice".to_string()), 0);
    let (archived, _) = m.get_token("0:T1".to_string());
    assert!(archived.is_none());
    // Removing it again: nothing left to remove.
    let again = m.remove_user_collection_item("alice".to_string(), 0, "T1".to_string());
    assert_eq!(again, Err(MarketError::NotFound));
}

#[test]
fn storing_the_same_copy_twice_is_rejected() {
    let mut m = standard_market();
    assert_eq!(m.store_nft(&"T9".to_string(), 3, &"alice".to_string()), Ok(()));
    assert_eq!(
        m.store_nft(&"T9".to_string(), 3, &"alice".to_string()),
        Err(MarketError::TokenExists)
    );
}

#[test]
fn payment_hook_refuses_foreign_token_contracts() {
    let mut m = standard_market();
    let r = m.ft_on_transfer(
        &"not_the_ft".to_string(),
        "alice".to_string(),
        100,
        simple_mint("T1", "alice", None, 1, None),
        true,
        1,
    );
    assert_eq!(r, Err(MarketError::Unauthorized));
    let ok = m.ft_on_transfer(
        &"ft".to_string(),
        "alice".to_string(),
        100,
        simple_mint("T1", "alice", None, 1, None),
        true,
        1,
    );
    assert_eq!(ok, Ok(MintOutcome::Minted));
}

#[test]
fn token_for_sale_reports_the_next_required_payment() {
    let mut m = standard_market();
    m.nft_mint(
        simple_mint("T1", "alice", None, 1, None),
        true,
        "alice".to_string(),
        100,
        1,
    )
    .unwrap();
    m.set_store_user_tokens("alice".to_string(), true);
    let (token, required, collection_items, total_items, stores) =
        m.get_token_for_sale("T1".to_string()).unwrap();
    assert_eq!(token.owner_id, "alice");
    assert_eq!(required, 110);
    assert_eq!(collection_items, 0);
    assert_eq!(total_items, 1);
    assert!(stores);
    assert!(m.get_token_for_sale("0:T1".to_string()).is_none());
    assert!(m.get_token_for_sale("T2".to_string()).is_none());
}
