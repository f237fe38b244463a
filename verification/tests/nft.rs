use metadao::collections::VecMap;
use metadao::nft::contract::{
    page_range, price_with_margin, refund_deposit, royalty_to_payout, Contract, CURRENT_TRANSACTION_FEE,
};
use metadao::nft::series::{check_royalty, series_id_of};
use metadao::nft::{NftError, TokenMetadata};

const OWNER: &str = "owner.near";
const VAULT: &str = "vault.near";
const ARTIST: &str = "artist.near";

fn s(x: &str) -> String {
    x.to_string()
}

fn sample_token_metadata(copies: Option<u64>) -> TokenMetadata {
    TokenMetadata {
        title: Some(s("Olympus Mons")),
        description: Some(s("The tallest mountain in the charted solar system")),
        media: None,
        media_hash: None,
        copies,
        issued_at: None,
        expires_at: None,
        starts_at: None,
        updated_at: None,
        extra: None,
        reference: None,
        reference_hash: None,
    }
}

fn royalty(entries: &[(&str, u32)]) -> VecMap<String, u32> {
    let mut m = VecMap::new();
    for (k, v) in entries {
        m.insert(s(k), *v);
    }
    m
}

fn with_series(copies: Option<u64>) -> Contract {
    let mut c = Contract::new(s(OWNER), s(VAULT));
    c.update_tasa(&s(OWNER), 2.5f64.to_bits(), true).unwrap();
    c.nft_series(&s(OWNER), true, sample_token_metadata(copies), Some(10.5f64.to_bits()), Some(royalty(&[(ARTIST, 1000)])))
        .unwrap();
    c
}

#[test]
fn admin_calls() {
    let mut c = Contract::new(s(OWNER), s(VAULT));
    assert_eq!(c.edit_vault(&s("x.near"), s("y.near")), Err(NftError::OnlyAdministrator));
    assert_eq!(c.add_admin(&s(OWNER), s("admin.near")), Ok(()));
    assert_eq!(c.edit_vault(&s("admin.near"), s("y.near")), Ok(()));
    assert_eq!(c.vault_id, "y.near");
    assert_eq!(c.update_tasa(&s("admin.near"), 0.0f64.to_bits(), false), Err(NftError::RateNotPositive));
    assert_eq!(c.update_tasa(&s("admin.near"), 3.0f64.to_bits(), true), Ok(3.0f64.to_bits()));
    assert_eq!(f64::from_bits(c.get_tasa()), 3.0);
}

#[test]
fn series_get_consecutive_ids() {
    let mut c = Contract::new(s(OWNER), s(VAULT));
    let md = sample_token_metadata(None);
    assert!(matches!(c.nft_series(&s(OWNER), false, md, None, None), Err(NftError::RateRequired)));
    let first = c.nft_series(&s(OWNER), true, sample_token_metadata(None), None, None).unwrap();
    let second = c.nft_series(&s(OWNER), true, sample_token_metadata(None), None, None).unwrap();
    assert_eq!(first.token_series_id, "1");
    assert_eq!(second.token_series_id, "2");
    assert_eq!(second.creator_id, OWNER);
    assert_eq!(c.id_serie, 3);
    let mut untitled = sample_token_metadata(None);
    untitled.title = None;
    assert!(matches!(c.nft_series(&s(OWNER), true, untitled, None, None), Err(NftError::TitleRequired)));
    assert!(matches!(
        c.nft_series(&s("nobody.near"), true, sample_token_metadata(None), None, None),
        Err(NftError::OnlyAdministrator)
    ));
}

#[test]
fn royalty_rules() {
    assert_eq!(check_royalty(&royalty(&[(ARTIST, 9000)])), Ok(()));
    assert_eq!(check_royalty(&royalty(&[(ARTIST, 9001)])), Err(NftError::RoyaltyTooHigh));
    assert_eq!(check_royalty(&royalty(&[("Bad!", 1)])), Err(NftError::InvalidRoyaltyAccount));
    assert_eq!(check_royalty(&royalty(&[("-a.near", 1)])), Err(NftError::InvalidRoyaltyAccount));
    assert_eq!(check_royalty(&royalty(&[("a..near", 1)])), Err(NftError::InvalidRoyaltyAccount));
    assert_eq!(check_royalty(&royalty(&[("a", 1)])), Err(NftError::InvalidRoyaltyAccount));
    let many: Vec<(String, u32)> = (0..11).map(|i| (format!("acc{}.near", i), 1)).collect();
    let mut m = VecMap::new();
    for (k, v) in many {
        m.insert(k, v);
    }
    assert_eq!(check_royalty(&m), Err(NftError::TooManyRoyaltyAccounts));
    assert_eq!(
        check_royalty(&royalty(&[("a.near", u32::MAX), ("b.near", 1)])),
        Err(NftError::Overflow)
    );
}

#[test]
fn minting_names_copies() {
    let mut c = with_series(Some(2));
    assert!(matches!(c.nft_mint(&s("1"), &s("buyer.near"), &s("someone.near"), 5), Err(NftError::NotCreator)));
    let t = c.nft_mint(&s("1"), &s("buyer.near"), &s(OWNER), 1_650_000_000).unwrap();
    assert_eq!(t.token_id, "1:1");
    assert_eq!(t.owner_id, "buyer.near");
    assert_eq!(t.metadata.title, Some(s("Olympus Mons  # 1  # 1")));
    assert_eq!(t.metadata.issued_at, Some(s("1650000000")));
    assert_eq!(t.metadata.copies, Some(2));
    assert_eq!(c.get_nft_series_copies_availables(&s("1")), Ok(1));
    let t2 = c.nft_mint(&s("1"), &s("buyer.near"), &s(OWNER), 6).unwrap();
    assert_eq!(t2.token_id, "1:2");
    let series = c.token_series_by_id.get(&s("1")).unwrap();
    assert!(!series.is_mintable);
    assert_eq!(series.price_bits, None);
    assert!(matches!(c.nft_mint(&s("1"), &s("buyer.near"), &s(OWNER), 7), Err(NftError::NotMintable)));
    assert_eq!(c.nft_supply_for_series(&s("1")), Ok(2));
    assert_eq!(c.get_nft_series_copies_availables(&s("1")), Ok(0));
    assert!(matches!(c.nft_mint(&s("9"), &s("buyer.near"), &s(OWNER), 7), Err(NftError::SeriesNotExist)));
}

#[test]
fn minting_many() {
    let mut c = with_series(Some(3));
    assert!(matches!(
        c.nft_mint_for(&s("1"), 41, &s("r.near"), &s(OWNER), &s(OWNER), 0),
        Err(NftError::TooManyMints)
    ));
    assert!(matches!(
        c.nft_mint_for(&s("1"), 2, &s("r.near"), &s("x.near"), &s("x.near"), 0),
        Err(NftError::OnlyAdministrator)
    ));
    assert!(matches!(
        c.nft_mint_for(&s("1"), 4, &s("r.near"), &s(OWNER), &s(OWNER), 0),
        Err(NftError::NotMintable)
    ));
    assert_eq!(c.nft_supply_for_series(&s("1")), Ok(0));
    let tokens = c.nft_mint_for(&s("1"), 2, &s("r.near"), &s(OWNER), &s(OWNER), 0).unwrap();
    assert_eq!(tokens.len(), 2);
    assert_eq!(tokens[1].token_id, "1:2");
    assert_eq!(tokens[1].owner_id, "r.near");
    assert_eq!(tokens[0].metadata.title, Some(s("Olympus Mons  # 1  # 1")));
    assert_eq!(tokens[1].metadata.title, Some(s("Olympus Mons  # 1  # 2")));
    assert_eq!(tokens[1].metadata.issued_at, Some(s("0")));
    assert_eq!(c.nft_mint_for(&s("1"), -5, &s("r.near"), &s(OWNER), &s(OWNER), 0).unwrap().len(), 0);
}

#[test]
fn buying_needs_price_and_deposit() {
    let mut c = with_series(None);
    assert_eq!(c.buy_price_bits(&s("1")), Ok(10.5f64.to_bits()));
    let margin = 50_000_000_000_000_000_000_000u128;
    assert!(matches!(
        c.nft_buy(&s("1"), None, &s("buyer.near"), margin + 9, 10, 0),
        Err(NftError::DepositBelowPrice(due)) if due == margin + 10
    ));
    assert!(matches!(
        c.nft_buy(&s("1"), Some(s("BAD")), &s("buyer.near"), margin + 10, 10, 0),
        Err(NftError::InvalidRoyaltyAccount)
    ));
    let (token, paid) = c.nft_buy(&s("1"), None, &s("buyer.near"), margin + 10, 10, 0).unwrap();
    assert_eq!(token.owner_id, "buyer.near");
    assert_eq!(token.token_id, "1:1");
    assert_eq!(paid, 10);
    assert_eq!(
        NftError::DepositBelowPrice(12).message(),
        "attached deposit is less than price : 12"
    );
}

#[test]
fn updating_series() {
    let mut c = with_series(Some(1));
    let j = c
        .update_nft_series(&s(OWNER), s("1"), Some(s("New")), None, None, Some(None), None, Some(royalty(&[("x.near", 5)])))
        .unwrap();
    assert_eq!(j.metadata.title, Some(s("New")));
    assert_eq!(j.royalty.len(), 1);
    assert_eq!(c.series_price_bits(&s("1")), Ok(None));
    c.nft_mint(&s("1"), &s("r.near"), &s(OWNER), 0).unwrap();
    assert!(matches!(
        c.update_nft_series(&s(OWNER), s("1"), None, None, None, Some(Some(1)), None, None),
        Err(NftError::NotMintable)
    ));
    assert!(matches!(
        c.update_nft_series(&s(OWNER), s("7"), None, None, None, None, None, None),
        Err(NftError::SeriesIdNotExist)
    ));
    let single = c.nft_get_series_single(&s("1")).unwrap();
    assert_eq!(single.transaction_fee, CURRENT_TRANSACTION_FEE);
    assert_eq!(single.transaction_fee, 200);
}

#[test]
fn paging_series() {
    let mut c = with_series(None);
    c.nft_series(&s(OWNER), true, sample_token_metadata(None), None, None).unwrap();
    c.nft_series(&s(OWNER), true, sample_token_metadata(None), None, None).unwrap();
    let all = c.get_nft_series(None, None).unwrap();
    assert_eq!(all.len(), 3);
    assert_eq!(all[2].token_series_id, "3");
    let page = c.get_nft_series(Some(1), Some(1)).unwrap();
    assert_eq!(page.len(), 1);
    assert_eq!(page[0].token_series_id, "2");
    assert!(matches!(c.get_nft_series(Some(3), None), Err(NftError::OutOfBounds)));
    assert!(matches!(c.get_nft_series(None, Some(0)), Err(NftError::ZeroLimit)));
}

#[test]
fn series_of_a_token() {
    assert_eq!(series_id_of(&s("12:3")), "12");
    assert_eq!(series_id_of(&s("12:3:4")), "12");
    assert_eq!(series_id_of(&s("abc")), "abc");
    assert_eq!(series_id_of(&s(":x")), "");
}

#[test]
fn payouts_split_the_balance() {
    let c = with_series(None);
    assert_eq!(royalty_to_payout(1000, 10_000), Ok(1000));
    assert_eq!(royalty_to_payout(3, 10), Ok(0));
    assert_eq!(royalty_to_payout(2, u128::MAX), Err(NftError::Overflow));
    let p = c.nft_payout(&s("seller.near"), &s("1:1"), 10_000, 10).unwrap();
    assert_eq!(p.payout.len(), 2);
    assert_eq!(*p.payout.get(&s(ARTIST)).unwrap(), 1000);
    assert_eq!(*p.payout.get(&s("seller.near")).unwrap(), 9000);
    let own = c.nft_payout(&s(ARTIST), &s("1:1"), 10_000, 10).unwrap();
    assert_eq!(own.payout.len(), 1);
    assert_eq!(*own.payout.get(&s(ARTIST)).unwrap(), 10_000);
    assert!(matches!(c.nft_payout(&s("seller.near"), &s("1:1"), 10_000, 0), Err(NftError::TooManyReceivers)));
    assert!(matches!(c.nft_payout(&s("seller.near"), &s("5:1"), 10_000, 10), Err(NftError::NoType)));
    assert!(matches!(c.nft_transfer_payout(&s("seller.near"), &s("1:1"), None, None), Ok(None)));
    assert!(matches!(
        c.nft_transfer_payout(&s("seller.near"), &s("1:1"), Some(100), None),
        Err(NftError::MissingValue)
    ));
    let t = c.nft_transfer_payout(&s("seller.near"), &s("1:1"), Some(100), Some(5)).unwrap().unwrap();
    assert_eq!(*t.payout.get(&s(ARTIST)).unwrap(), 10);
    assert_eq!(*t.payout.get(&s("seller.near")).unwrap(), 90);
    assert_eq!(c.royalty_of_token(&s("1:4")).unwrap().len(), 1);
    assert!(matches!(c.royalty_of_token(&s("2:1")), Err(NftError::MissingValue)));
}

#[test]
fn storage_refunds() {
    // 10 bytes at 7 each out of a deposit of 100, 20 of which are spent.
    assert_eq!(refund_deposit(10, 7, 100, 20), Ok(Some(10)));
    assert_eq!(refund_deposit(10, 7, 71, 0), Ok(None));
    assert_eq!(refund_deposit(10, 7, 72, 0), Ok(Some(2)));
    assert_eq!(refund_deposit(10, 7, 69, 0), Err(NftError::StorageNotCovered(70)));
    assert_eq!(NftError::StorageNotCovered(70).message(), "Must attach 70 yoctoNEAR to cover storage");
    assert_eq!(refund_deposit(1, 7, 5, 6), Err(NftError::Overflow));
    assert_eq!(refund_deposit(2, u128::MAX, 5, 0), Err(NftError::Overflow));
}

#[test]
fn pages_of_tokens() {
    assert_eq!(page_range(5, None, None), Ok((0, 5)));
    assert_eq!(page_range(5, Some(1), Some(2)), Ok((1, 3)));
    assert_eq!(page_range(5, Some(3), Some(10)), Ok((3, 5)));
    assert_eq!(page_range(5, Some(5), None), Err(NftError::OutOfBounds));
    assert_eq!(page_range(0, None, None), Err(NftError::OutOfBounds));
    assert_eq!(page_range(5, None, Some(0)), Err(NftError::ZeroLimit));
}

#[test]
fn listing_price_adds_the_margin() {
    assert_eq!(price_with_margin(1), Ok(100_000_000_000_000_000_000_001));
    assert_eq!(price_with_margin(u128::MAX), Err(NftError::Overflow));
}

#[test]
fn payouts_never_exceed_the_balance() {
    let mut c = Contract::new(s(OWNER), s(VAULT));
    c.update_tasa(&s(OWNER), 2.0f64.to_bits(), true).unwrap();
    let r = royalty(&[("a.near", 1000), ("b.near", 2500)]);
    c.nft_series(&s(OWNER), true, sample_token_metadata(None), None, Some(r)).unwrap();
    let p = c.nft_payout(&s("seller.near"), &s("1:1"), 12_345, 10).unwrap();
    assert_eq!(*p.payout.get(&s("a.near")).unwrap(), 1234);
    assert_eq!(*p.payout.get(&s("b.near")).unwrap(), 3086);
    assert_eq!(*p.payout.get(&s("seller.near")).unwrap(), 8024);
    let paid: u128 = (0..p.payout.len()).map(|i| *p.payout.value_at(i)).sum();
    assert_eq!(paid, 12_344);
    assert!(paid <= 12_345);
}

#[test]
fn stored_royalties_stay_within_bounds() {
    let mut c = Contract::new(s(OWNER), s(VAULT));
    let ten: Vec<(String, u32)> = (0..10).map(|i| (format!("acc{}.near", i), 900)).collect();
    let mut m = VecMap::new();
    for (k, v) in ten {
        m.insert(k, v);
    }
    let j = c.nft_series(&s(OWNER), true, sample_token_metadata(None), None, Some(m)).unwrap();
    assert_eq!(j.royalty.len(), 10);
    let too_high = royalty(&[(ARTIST, 9001)]);
    assert_eq!(
        c.update_nft_series(&s(OWNER), s("1"), None, None, None, None, None, Some(too_high)).err(),
        Some(NftError::RoyaltyTooHigh)
    );
    assert_eq!(c.royalty_of_token(&s("1:1")).unwrap().len(), 10);
}

#[test]
fn minted_ids_are_fresh_across_series() {
    let mut c = Contract::new(s(OWNER), s(VAULT));
    for _ in 0..12 {
        c.nft_series(&s(OWNER), true, sample_token_metadata(None), None, None).unwrap();
    }
    let mut ids: Vec<String> = Vec::new();
    for series in ["1", "11", "12"] {
        for _ in 0..2 {
            ids.push(c.nft_mint(&s(series), &s("r.near"), &s(OWNER), 0).unwrap().token_id);
        }
    }
    assert_eq!(ids, vec!["1:1", "1:2", "11:1", "11:2", "12:1", "12:2"]);
    let mut sorted = ids.clone();
    sorted.sort();
    sorted.dedup();
    assert_eq!(sorted.len(), ids.len());
    assert_eq!(c.nft_supply_for_series(&s("11")), Ok(2));
}

#[test]
fn royalty_check_ignores_order() {
    assert_eq!(check_royalty(&royalty(&[("a.near", 5000), ("b.near", 4001)])), Err(NftError::RoyaltyTooHigh));
    assert_eq!(check_royalty(&royalty(&[("b.near", 4001), ("a.near", 5000)])), Err(NftError::RoyaltyTooHigh));
    assert_eq!(check_royalty(&royalty(&[("b.near", 4000), ("a.near", 5000)])), Ok(()));
    let many: Vec<(String, u32)> = (0..11).map(|i| (format!("acc{}.near", i), 0)).collect();
    let mut m = VecMap::new();
    for (k, v) in many {
        m.insert(k, v);
    }
    assert_eq!(check_royalty(&m), Err(NftError::TooManyRoyaltyAccounts));
}
