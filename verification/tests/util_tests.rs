use nftinder::EventData;
use nftinder::FeeFraction;
use nftinder::Market;
use nftinder::MarketError;
use nftinder::StoragePackage;
use nftinder::TokenStatus;
use nftinder::add_referral_fee;
use nftinder::add_withdraw_failed;
use nftinder::assert_deposit;
use nftinder::assert_fees_overflow;
use nftinder::decode_signature;
use nftinder::decode_verification_key;
use nftinder::generate_token_id;
use nftinder::parse_token_id;

fn fraction(numerator: u32, denominator: u32) -> FeeFraction {
    FeeFraction { numerator, denominator }
}

fn plain_market() -> Market {
    Market::new(
        "owner".to_string(),
        "ft".to_string(),
        "00".repeat(32),
        100,
        fraction(10, 100),
        fraction(50, 100),
        fraction(20, 100),
        fraction(5, 100),
        10,
        Some("other_market".to_string()),
    )
    .unwrap()
}

#[test]
fn fraction_multiply_is_exact_floor() {
    assert_eq!(fraction(1, 2).multiply(101), 50);
    assert_eq!(fraction(1, 3).multiply(100), 33);
    assert_eq!(fraction(10, 100).multiply(100), 10);
    assert_eq!(fraction(0, 7).multiply(1_000_000), 0);
    assert_eq!(fraction(7, 7).multiply(u128::MAX), u128::MAX);
    // A wide value: the intermediate product does not fit the balance
    // width, the result still does.
    assert_eq!(fraction(1, 2).multiply(u128::MAX), u128::MAX / 2);
}

#[test]
fn fraction_validity() {
    assert_eq!(fraction(1, 2).assert_valid(), Ok(()));
    assert_eq!(fraction(5, 5).assert_valid(), Ok(()));
    assert_eq!(fraction(1, 0).assert_valid(), Err(MarketError::ConfigurationInvalid));
    assert_eq!(fraction(6, 5).assert_valid(), Err(MarketError::ConfigurationInvalid));
}

#[test]
fn fee_fractions_must_fit_within_one() {
    assert_eq!(
        assert_fees_overflow(&fraction(1, 2), &fraction(1, 4), &fraction(1, 4)),
        Ok(())
    );
    assert_eq!(
        assert_fees_overflow(&fraction(3, 4), &fraction(3, 4), &fraction(0, 1)),
        Err(MarketError::ConfigurationInvalid)
    );
    assert!(
        Market::new(
            "owner".to_string(),
            "ft".to_string(),
            String::new(),
            100,
            fraction(10, 100),
            fraction(3, 4),
            fraction(3, 4),
            fraction(0, 1),
            10,
            None,
        )
        .is_err()
    );
}

#[test]
fn deposit_check_reports_exact_shortfall() {
    assert_eq!(assert_deposit(110, 110), Ok(()));
    assert_eq!(
        assert_deposit(109, 110),
        Err(MarketError::InsufficientPayment { missing: 1 })
    );
    assert_eq!(
        assert_deposit(0, 110),
        Err(MarketError::InsufficientPayment { missing: 110 })
    );
}

#[test]
fn derived_identifiers_round_trip() {
    let derived = generate_token_id(&7, &"T1".to_string());
    assert_eq!(derived, "7:T1");
    assert_eq!(parse_token_id(derived), (7, "T1".to_string()));
    assert_eq!(generate_token_id(&0, &"x".to_string()), "0:x");
    assert_eq!(
        generate_token_id(&4_294_967_295, &"t".to_string()),
        "4294967295:t"
    );
}

#[test]
fn parsing_identifiers_tolerates_malformed_prefixes() {
    assert_eq!(parse_token_id("T1".to_string()), (0, "T1".to_string()));
    assert_eq!(parse_token_id("a:b:c".to_string()), (0, "b".to_string()));
    assert_eq!(parse_token_id("12:x:y".to_string()), (12, "x".to_string()));
    // Too large for the generation counter: falls back to zero.
    assert_eq!(parse_token_id("4294967296:x".to_string()), (0, "x".to_string()));
    assert_eq!(parse_token_id(":x".to_string()), (0, "x".to_string()));
    assert_eq!(parse_token_id("+12:x".to_string()), (12, "x".to_string()));
    assert_eq!(parse_token_id(String::new()), (0, String::new()));
}

#[test]
fn hex_decoding_yields_the_named_bytes() {
    let key = decode_verification_key(&"00ff".repeat(16));
    assert_eq!(key.len(), 32);
    assert_eq!(key[0], 0x00);
    assert_eq!(key[1], 0xff);
    assert_eq!(key[30], 0x00);
    assert_eq!(key[31], 0xff);
    let sig = decode_signature(&"aB".repeat(64));
    assert_eq!(sig.len(), 64);
    assert!(sig.iter().all(|b| *b == 0xab));
    // Malformed hex leaves the zero buffer behind rather than failing.
    let zeroed = decode_verification_key(&"zz".to_string());
    assert_eq!(zeroed, vec![0u8; 32]);
}

#[test]
fn events_carry_their_payload() {
    let e = add_referral_fee(
        &"carol".to_string(),
        &"bob".to_string(),
        &"T1".to_string(),
        2,
    );
    assert_eq!(e.standard, "nftinder");
    assert_eq!(e.version, "1.0.0");
    assert_eq!(e.name, "referral_fee");
    assert_eq!(
        e.data,
        EventData::ReferralTokenAmount {
            authorized_id: "carol".to_string(),
            account_id: "bob".to_string(),
            token_id: "T1".to_string(),
            amount: 2,
        }
    );
    let w = add_withdraw_failed(&"erin".to_string(), 40);
    assert_eq!(w.name, "withdraw_failed");
    assert_eq!(
        w.data,
        EventData::AccountAmount { account_id: "erin".to_string(), amount: 40 }
    );
}

#[test]
fn operator_gate_on_admin_operations() {
    let mut m = plain_market();
    assert_eq!(
        m.set_min_mint_price(&"mallory".to_string(), 7),
        Err(MarketError::Unauthorized)
    );
    assert_eq!(m.get_min_mint_price(), 100);
    assert_eq!(m.set_min_mint_price(&"owner".to_string(), 7), Ok(()));
    assert_eq!(m.get_min_mint_price(), 7);
    assert_eq!(
        m.set_seller_fee(&"owner".to_string(), fraction(9, 8)),
        Err(MarketError::ConfigurationInvalid)
    );
    assert_eq!(m.set_seller_fee(&"owner".to_string(), fraction(1, 8)), Ok(()));
    assert_eq!(m.set_public_key(&"owner".to_string(), "ff".repeat(32)), Ok(()));
    assert_eq!(m.get_public_key(), "ff".repeat(32));
}

#[test]
fn storage_package_catalog() {
    let mut m = plain_market();
    assert_eq!(
        m.add_storage_package(&"mallory".to_string(), 5, 1000),
        Err(MarketError::Unauthorized)
    );
    m.add_storage_package(&"owner".to_string(), 5, 1000).unwrap();
    m.add_storage_package(&"owner".to_string(), 9, 2000).unwrap();
    let packages = m.get_storage_packages();
    assert_eq!(packages.len(), 2);
    assert!(packages.contains(&(1, StoragePackage { storage_size: 5, price: 1000 })));
    assert!(packages.contains(&(2, StoragePackage { storage_size: 9, price: 2000 })));
    m.remove_storage_package(&"owner".to_string(), 1).unwrap();
    assert_eq!(m.get_storage_packages().len(), 1);
}

#[test]
fn buying_storage_respects_price_and_maximum() {
    let mut m = plain_market();
    m.add_storage_package(&"owner".to_string(), 5, 1000).unwrap();
    assert_eq!(
        m.buy_storage("alice".to_string(), 100, 1),
        Err(MarketError::InsufficientPayment { missing: 900 })
    );
    assert_eq!(
        m.buy_storage("alice".to_string(), 1000, 2),
        Err(MarketError::NotFound)
    );
    assert_eq!(m.buy_storage("alice".to_string(), 1000, 1), Ok(()));
    assert_eq!(m.get_user_storage(&"alice".to_string()), 5);
    assert_eq!(m.buy_storage("alice".to_string(), 1000, 1), Ok(()));
    assert_eq!(m.get_user_storage(&"alice".to_string()), 10);
    // The configured maximum is 10: a third package does not fit.
    assert_eq!(
        m.buy_storage("alice".to_string(), 1000, 1),
        Err(MarketError::QuotaExceeded)
    );
}

#[test]
fn storage_transfer_compensates_on_failure() {
    let mut m = plain_market();
    m.add_storage_package(&"owner".to_string(), 5, 1000).unwrap();
    m.buy_storage("alice".to_string(), 1000, 1).unwrap();
    let grant = m.transfer_storage("alice".to_string()).unwrap();
    assert_eq!(grant.account_id, "alice");
    assert_eq!(grant.storage, 5);
    assert_eq!(m.get_user_storage(&"alice".to_string()), 0);
    // The counterpart rejected the offer: the quota is restored.
    m.callback_after_transfer_storage("alice".to_string(), grant.storage, false)
        .unwrap();
    assert_eq!(m.get_user_storage(&"alice".to_string()), 5);
    // With no unused quota there is nothing to transfer.
    m.transfer_storage("alice".to_string()).unwrap();
    assert_eq!(
        m.transfer_storage("alice".to_string()),
        Err(MarketError::QuotaExceeded)
    );
}

#[test]
fn receiving_storage_requires_the_counterpart() {
    let mut m = plain_market();
    assert_eq!(
        m.on_transfer_storage(&"mallory".to_string(), "alice".to_string(), 5),
        Err(MarketError::Unauthorized)
    );
    assert_eq!(
        m.on_transfer_storage(&"other_market".to_string(), "alice".to_string(), 5),
        Ok(())
    );
    assert_eq!(m.get_user_storage(&"alice".to_string()), 5);
    assert_eq!(
        m.on_transfer_storage(&"other_market".to_string(), "alice".to_string(), 50),
        Err(MarketError::QuotaExceeded)
    );
}

#[test]
fn user_mint_requests_are_queued_and_paged() {
    let mut m = plain_market();
    assert_eq!(
        m.mint_user_token("T1".to_string(), "alice".to_string(), 11),
        Ok(1)
    );
    assert_eq!(
        m.mint_user_token("T2".to_string(), "bob".to_string(), 12),
        Ok(2)
    );
    assert_eq!(
        m.mint_user_token("T3".to_string(), "alice".to_string(), 13),
        Ok(3)
    );
    let all = m.get_user_mint_requests(None, None);
    assert_eq!(all.len(), 3);
    assert_eq!(all[0].0, 1);
    assert_eq!(all[0].1.token_id, "T1");
    assert_eq!(all[0].1.status, TokenStatus::PENDING);
    assert_eq!(all[0].1.created_at, 11);
    let page = m.get_user_mint_requests(Some(1), Some(1));
    assert_eq!(page.len(), 1);
    assert_eq!(page[0].0, 2);
    assert_eq!(page[0].1.account_id, "bob");
    assert!(m.get_user_mint_requests(Some(9), None).is_empty());
}

#[test]
fn token_metadata_media_link() {
    let m = plain_market();
    assert_eq!(m.get_token_metadata(&"QmHash".to_string()), "ipfs://QmHash");
}

#[test]
fn free_storage_is_zero_until_purchased() {
    let m = plain_market();
    assert_eq!(m.get_free_storage_size(), 0);
    assert_eq!(m.get_user_storage(&"nobody".to_string()), 0);
    assert_eq!(m.get_ft_account_id(), "ft");
    assert_eq!(m.get_max_storage_size(), 10);
}
