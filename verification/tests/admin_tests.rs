use nftinder::FeeFraction;
use nftinder::Market;
use nftinder::MarketError;
use nftinder::MintNftMsg;
use nftinder::parse_token_id;

fn fraction(numerator: u32, denominator: u32) -> FeeFraction {
    FeeFraction { numerator, denominator }
}

fn market() -> Market {
    Market::new(
        "owner".to_string(),
        "ft".to_string(),
        String::new(),
        100,
        fraction(10, 100),
        fraction(50, 100),
        fraction(20, 100),
        fraction(0, 1),
        10,
        None,
    )
    .unwrap()
}

fn mint(m: &mut Market, token: &str, buyer: &str, timestamp: u64, deposit: u128) {
    m.nft_mint(
        MintNftMsg::SimpleMint {
            token_id: token.to_string(),
            account_id: buyer.to_string(),
            referral_id_1: None,
            referral_id_2: None,
            timestamp,
            seller_storage_size: Some(10),
        },
        true,
        buyer.to_string(),
        deposit,
        timestamp,
    )
    .unwrap();
}

#[test]
fn operator_identity_is_checked() {
    let m = market();
    assert_eq!(m.assert_owner(&"owner".to_string()), Ok(()));
    assert_eq!(
        m.assert_owner(&"mallory".to_string()),
        Err(MarketError::Unauthorized)
    );
}

#[test]
fn raising_the_increase_fraction_raises_the_next_price() {
    let mut m = market();
    mint(&mut m, "T1", "alice", 1, 100);
    m.set_mint_price_increase_fee(&"owner".to_string(), fraction(50, 100))
        .unwrap();
    // Price 100, increase now 50%: the next sale requires 150.
    let (_, required, _, _, _) = m.get_token_for_sale("T1".to_string()).unwrap();
    assert_eq!(required, 150);
    let r = m.nft_mint(
        MintNftMsg::SimpleMint {
            token_id: "T1".to_string(),
            account_id: "bob".to_string(),
            referral_id_1: None,
            referral_id_2: None,
            timestamp: 2,
            seller_storage_size: None,
        },
        true,
        "bob".to_string(),
        149,
        2,
    );
    assert_eq!(r, Err(MarketError::InsufficientPayment { missing: 1 }));
}

#[test]
fn referral_fee_setter_validates() {
    let mut m = market();
    assert_eq!(
        m.set_referral_fee(&"mallory".to_string(), fraction(1, 10), fraction(1, 10)),
        Err(MarketError::Unauthorized)
    );
    assert_eq!(
        m.set_referral_fee(&"owner".to_string(), fraction(11, 10), fraction(1, 10)),
        Err(MarketError::ConfigurationInvalid)
    );
    assert_eq!(
        m.set_referral_fee(&"owner".to_string(), fraction(1, 10), fraction(1, 10)),
        Ok(())
    );
    assert_eq!(
        m.set_mint_price_increase_fee(&"owner".to_string(), fraction(1, 0)),
        Err(MarketError::ConfigurationInvalid)
    );
}

#[test]
fn storage_maximum_is_adjustable() {
    let mut m = market();
    m.add_storage_package(&"owner".to_string(), 15, 500).unwrap();
    assert_eq!(
        m.buy_storage("alice".to_string(), 500, 1),
        Err(MarketError::QuotaExceeded)
    );
    assert_eq!(
        m.set_max_storage_size(&"mallory".to_string(), 20),
        Err(MarketError::Unauthorized)
    );
    m.set_max_storage_size(&"owner".to_string(), 20).unwrap();
    assert_eq!(m.get_max_storage_size(), 20);
    assert_eq!(m.buy_storage("alice".to_string(), 500, 1), Ok(()));
}

#[test]
fn operator_can_remove_any_archived_copy() {
    let mut m = market();
    mint(&mut m, "T1", "alice", 1, 100);
    m.set_store_user_tokens("alice".to_string(), true);
    m.nft_mint(
        MintNftMsg::SimpleMint {
            token_id: "T1".to_string(),
            account_id: "bob".to_string(),
            referral_id_1: None,
            referral_id_2: None,
            timestamp: 2,
            seller_storage_size: Some(1),
        },
        true,
        "bob".to_string(),
        110,
        2,
    )
    .unwrap();
    assert_eq!(m.get_collection_items(&"alice".to_string()), 1);
    assert_eq!(
        m.remove_user_collection_item_for_user(
            &"mallory".to_string(),
            "alice".to_string(),
            0,
            "T1".to_string(),
        ),
        Err(MarketError::Unauthorized)
    );
    assert_eq!(
        m.remove_user_collection_item_for_user(
            &"owner".to_string(),
            "alice".to_string(),
            0,
            "T1".to_string(),
        ),
        Ok(())
    );
    assert_eq!(m.get_collection_items(&"alice".to_string()), 0);
}

#[test]
fn generation_query_follows_resales() {
    let mut m = market();
    mint(&mut m, "T1", "alice", 1, 100);
    assert_eq!(m.get_token_generation(&"T1".to_string()), 0);
    assert_eq!(m.get_token_price(&"T1".to_string()), 100);
    // An unknown token reports the fresh record a mint would start from.
    assert_eq!(m.get_token_generation(&"T9".to_string()), 0);
    assert_eq!(m.get_token_price(&"T9".to_string()), 100);
}

#[test]
fn empty_base_identifier_still_parses() {
    assert_eq!(parse_token_id("7:".to_string()), (7, String::new()));
    assert_eq!(parse_token_id("::x".to_string()), (0, String::new()));
}
