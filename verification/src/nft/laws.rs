//! What holds of token series across their calls: sound copies, royalties
//! within bounds, token ids fresh for the token registry, and payouts within
//! the balance.

use vstd::prelude::*;

use crate::amounts::{amount_sum, lemma_amount_sum_insert};
use crate::collections::VecMap;
use crate::nft::contract::{
    lemma_others_total_grows, opt_royalty, opt_royalty_check, others_total, payout_map, share,
    ContractView,
};
use crate::nft::series::{max_copies, royalty_check, scan_royalty, token_id_of, TokenSeriesView};
use crate::nft::NftError;
use crate::nft::TokenMetadataView;
use crate::text::{decimal, digit_char, valid_account_id};

verus! {

proof fn lemma_decimal_len(n: nat)
    ensures
        decimal(n).len() >= 1,
        n >= 10 ==> decimal(n).len() >= 2,
    decreases n,
{
    if n >= 10 {
        lemma_decimal_len(n / 10);
    }
}

/// Different numbers are written differently.
pub proof fn lemma_decimal_injective(a: nat, b: nat)
    requires
        decimal(a) == decimal(b),
    ensures
        a == b,
    decreases a,
{
    lemma_decimal_len(a);
    lemma_decimal_len(b);
    if a < 10 && b < 10 {
        assert(decimal(a)[0] == digit_char(a));
        assert(decimal(b)[0] == digit_char(b));
    } else if a >= 10 && b >= 10 {
        let da = decimal(a);
        let db = decimal(b);
        assert(da.last() == digit_char(a % 10));
        assert(db.last() == digit_char(b % 10));
        assert(a % 10 == b % 10);
        assert(da.drop_last() =~= decimal(a / 10));
        assert(db.drop_last() =~= decimal(b / 10));
        lemma_decimal_injective(a / 10, b / 10);
    }
}

/// Copies of a series have different ids.
pub proof fn lemma_token_ids_distinct(series_id: Seq<char>, a: nat, b: nat)
    requires
        token_id_of(series_id, a) == token_id_of(series_id, b),
    ensures
        a == b,
{
    let prefix = series_id + ":"@;
    assert(token_id_of(series_id, a).subrange(prefix.len() as int, token_id_of(series_id, a).len() as int) =~= decimal(a));
    assert(token_id_of(series_id, b).subrange(prefix.len() as int, token_id_of(series_id, b).len() as int) =~= decimal(b));
    lemma_decimal_injective(a, b);
}

/// A series holds exactly copies 1 to n of its ids, never more than its
/// copies.
pub open spec fn series_tokens_sound(s: TokenSeriesView, series_id: Seq<char>) -> bool {
    &&& s.tokens.finite()
    &&& s.tokens.len() <= max_copies(s.metadata)
    &&& forall|t: Seq<char>|
        #[trigger] s.tokens.contains(t) <==> exists|n: nat|
            1 <= n <= s.tokens.len() && t == token_id_of(series_id, n)
}

/// A series holds exactly copies 1 to n of its ids, never more than its
/// copies, and is closed once all are minted.
pub open spec fn series_sound(s: TokenSeriesView, series_id: Seq<char>) -> bool {
    &&& series_tokens_sound(s, series_id)
    &&& s.tokens.len() == max_copies(s.metadata) ==> !s.is_mintable
}

/// A new series holds no tokens.
pub proof fn law_new_series_sound(s: TokenSeriesView, series_id: Seq<char>)
    requires
        s.tokens == Set::<Seq<char>>::empty(),
        max_copies(s.metadata) > 0 || !s.is_mintable,
    ensures
        series_sound(s, series_id),
{
}

proof fn lemma_mint_keeps_tokens_sound(s: TokenSeriesView, series_id: Seq<char>, now: u64)
    requires
        series_tokens_sound(s, series_id),
    ensures
        s.mint(series_id, now) is Ok ==> {
            let (s2, token_id, _) = s.mint(series_id, now)->Ok_0;
            &&& token_id == token_id_of(series_id, s.tokens.len() + 1)
            &&& !s.tokens.contains(token_id)
            &&& s2.tokens == s.tokens.insert(token_id)
            &&& s2.tokens.len() == s.tokens.len() + 1
            &&& s2.metadata == s.metadata
            &&& series_tokens_sound(s2, series_id)
        },
{
    if s.mint(series_id, now) is Ok {
        let (s2, token_id, _) = s.mint(series_id, now)->Ok_0;
        let len = s.tokens.len();
        if s.tokens.contains(token_id) {
            let n = choose|n: nat| 1 <= n <= len && token_id == token_id_of(series_id, n);
            lemma_token_ids_distinct(series_id, n, len + 1);
        }
        assert(s2.tokens.len() == len + 1);
        assert forall|t: Seq<char>| #[trigger] s2.tokens.contains(t) <==> exists|n: nat|
            1 <= n <= s2.tokens.len() && t == token_id_of(series_id, n) by {
            if s2.tokens.contains(t) && t != token_id {
                assert(s.tokens.contains(t));
                let n = choose|n: nat| 1 <= n <= len && t == token_id_of(series_id, n);
                assert(1 <= n <= s2.tokens.len());
            }
            if t == token_id {
                assert(1 <= len + 1 <= s2.tokens.len() && t == token_id_of(series_id, len + 1));
            }
            if exists|n: nat| 1 <= n <= s2.tokens.len() && t == token_id_of(series_id, n) {
                let n = choose|n: nat| 1 <= n <= s2.tokens.len() && t == token_id_of(series_id, n);
                if n <= len {
                    assert(s.tokens.contains(t));
                }
            }
        }
    }
}

/// Minting gives the copy after the last, under an id no copy holds, and
/// keeps the series sound: a series never holds more copies than it has, and
/// the last copy closes it.
pub proof fn law_mint_keeps_series_sound(s: TokenSeriesView, series_id: Seq<char>, now: u64)
    requires
        series_sound(s, series_id),
    ensures
        s.mint(series_id, now) is Ok ==> {
            let (s2, token_id, _) = s.mint(series_id, now)->Ok_0;
            &&& token_id == token_id_of(series_id, s.tokens.len() + 1)
            &&& !s.tokens.contains(token_id)
            &&& s2.tokens.len() == s.tokens.len() + 1
            &&& series_sound(s2, series_id)
        },
        s.tokens.len() == max_copies(s.metadata) ==> s.mint(series_id, now) is Err,
{
    lemma_mint_keeps_tokens_sound(s, series_id, now);
}

/// Series are numbered 1, 2, 3, ... as they are made: the id of a new series
/// is the next number written in decimal, and the next number moves on.
pub proof fn law_series_ids_consecutive(
    c: ContractView,
    signer: Seq<char>,
    rate_positive: bool,
    metadata: TokenMetadataView,
    price_bits: Option<u64>,
    royalty_ok: Result<(), NftError>,
    royalty: Map<Seq<char>, u32>,
)
    requires
        c.create_series(signer, rate_positive, metadata, price_bits, royalty_ok, royalty) is Ok,
    ensures
        ({
            let (c2, id) = c.create_series(
                signer,
                rate_positive,
                metadata,
                price_bits,
                royalty_ok,
                royalty,
            )->Ok_0;
            &&& id == decimal(c.id_serie as nat)
            &&& c2.id_serie == c.id_serie + 1
            &&& !c.token_series_by_id.contains_key(id)
            &&& c2.token_series_by_id.contains_key(id)
            &&& c2.token_series_by_id[id].tokens == Set::<Seq<char>>::empty()
            &&& c2.token_series_by_id[id].creator_id == signer
        }),
{
}

/// What the royalty accounts other than `owner` among the first `n` entries
/// receive of `balance`.
pub open spec fn others_share_sum(
    keys: Seq<Seq<char>>,
    values: Seq<u32>,
    owner: Seq<char>,
    balance: int,
    n: int,
) -> int
    decreases n,
{
    if n <= 0 {
        0
    } else {
        others_share_sum(keys, values, owner, balance, n - 1) + if keys[n - 1] != owner {
            share(values[n - 1] as int, balance)
        } else {
            0
        }
    }
}

/// The shares paid to the first `n` royalty accounts, as a map.
pub open spec fn others_share_map(
    keys: Seq<Seq<char>>,
    royalty: Map<Seq<char>, u32>,
    owner: Seq<char>,
    balance: u128,
    n: int,
) -> Map<Seq<char>, u128> {
    Map::new(
        |k: Seq<char>| keys.subrange(0, n).contains(k) && k != owner,
        |k: Seq<char>| share(royalty[k] as int, balance as int) as u128,
    )
}

proof fn lemma_share_bounds(v: int, balance: int)
    requires
        0 <= v <= 10000,
        0 <= balance,
    ensures
        0 <= share(v, balance) <= balance,
        share(v, balance) * 10000 <= v * balance,
{
    assert(v * balance <= 10000 * balance) by (nonlinear_arith)
        requires
            0 <= v <= 10000,
            0 <= balance,
    ;
    assert(0 <= v * balance) by (nonlinear_arith)
        requires
            0 <= v,
            0 <= balance,
    ;
    let q = v * balance / 10000;
    assert(q * 10000 <= v * balance);
    assert(q <= balance);
}

proof fn lemma_share_sum_bound(keys: Seq<Seq<char>>, values: Seq<u32>, owner: Seq<char>, balance: int, n: int)
    requires
        0 <= n <= keys.len(),
        keys.len() == values.len(),
        0 <= balance,
        others_total(keys, values, owner, keys.len() as int) <= 10000,
    ensures
        others_share_sum(keys, values, owner, balance, n) * 10000 <= others_total(
            keys,
            values,
            owner,
            n,
        ) * balance,
        0 <= others_share_sum(keys, values, owner, balance, n),
    decreases n,
{
    if n > 0 {
        lemma_share_sum_bound(keys, values, owner, balance, n - 1);
        let prev_s = others_share_sum(keys, values, owner, balance, n - 1);
        let prev_t = others_total(keys, values, owner, n - 1);
        if keys[n - 1] != owner {
            let v = values[n - 1] as int;
            lemma_others_total_grows(keys, values, owner, n, keys.len() as int);
            lemma_others_total_grows(keys, values, owner, 0, n - 1);
            lemma_share_bounds(v, balance);
            let sh = share(v, balance);
            assert((prev_s + sh) * 10000 <= (prev_t + v) * balance) by (nonlinear_arith)
                requires
                    prev_s * 10000 <= prev_t * balance,
                    sh * 10000 <= v * balance,
            ;
        }
    }
}

proof fn lemma_share_map_sum(
    keys: Seq<Seq<char>>,
    values: Seq<u32>,
    royalty: Map<Seq<char>, u32>,
    owner: Seq<char>,
    balance: u128,
    n: int,
)
    requires
        0 <= n <= keys.len(),
        keys.len() == values.len(),
        keys.no_duplicates(),
        forall|j: int| 0 <= j < keys.len() ==> #[trigger] royalty[keys[j]] == values[j],
        others_total(keys, values, owner, keys.len() as int) <= 10000,
    ensures
        others_share_map(keys, royalty, owner, balance, n).dom().finite(),
        amount_sum(others_share_map(keys, royalty, owner, balance, n)) == others_share_sum(
            keys,
            values,
            owner,
            balance as int,
            n,
        ),
    decreases n,
{
    let m = others_share_map(keys, royalty, owner, balance, n);
    if n == 0 {
        assert(m.dom() =~= Set::<Seq<char>>::empty());
    } else {
        lemma_share_map_sum(keys, values, royalty, owner, balance, n - 1);
        let prev = others_share_map(keys, royalty, owner, balance, n - 1);
        let k = keys[n - 1];
        assert(keys.subrange(0, n) =~= keys.subrange(0, n - 1).push(k));
        assert(!keys.subrange(0, n - 1).contains(k)) by {
            if keys.subrange(0, n - 1).contains(k) {
                let j = choose|j: int| 0 <= j < n - 1 && #[trigger] keys.subrange(0, n - 1)[j] == k;
                assert(keys[j] == keys[n - 1]);
            }
        }
        if k != owner {
            let v = values[n - 1] as int;
            lemma_others_total_grows(keys, values, owner, n, keys.len() as int);
            lemma_others_total_grows(keys, values, owner, 0, n - 1);
            lemma_share_bounds(v, balance as int);
            assert(royalty[keys[n - 1]] == values[n - 1]);
            assert forall|x: Seq<char>| #[trigger] keys.subrange(0, n).contains(x) == (keys.subrange(
                0,
                n - 1,
            ).contains(x) || x == k) by {
                broadcast use vstd::seq_lib::group_seq_properties;

            }
            assert(m =~= prev.insert(k, share(v, balance as int) as u128));
            lemma_amount_sum_insert(prev, k, share(v, balance as int) as u128);
        } else {
            assert forall|x: Seq<char>| #[trigger] keys.subrange(0, n).contains(x) == (keys.subrange(
                0,
                n - 1,
            ).contains(x) || x == k) by {
                broadcast use vstd::seq_lib::group_seq_properties;

            }
            assert(m =~= prev);
        }
    }
}

/// A payout never pays out more than the balance: the royalty accounts other
/// than the owner get their shares, the owner the rest of the 10000 basis
/// points, and each share is rounded down.  `keys` and `values` are the
/// royalty accounts and their basis points, as the series holds them.
pub proof fn law_payout_within_balance(
    keys: Seq<Seq<char>>,
    values: Seq<u32>,
    royalty: Map<Seq<char>, u32>,
    owner: Seq<char>,
    balance: u128,
)
    requires
        keys.len() == values.len(),
        keys.no_duplicates(),
        royalty.dom() == keys.to_set(),
        forall|j: int| 0 <= j < keys.len() ==> #[trigger] royalty[keys[j]] == values[j],
        others_total(keys, values, owner, keys.len() as int) <= 10000,
    ensures
        ({
            let payout = payout_map(
                royalty,
                owner,
                balance,
                others_total(keys, values, owner, keys.len() as int),
            );
            &&& payout.dom().finite()
            &&& amount_sum(payout) <= balance
        }),
{
    let n = keys.len() as int;
    let total = others_total(keys, values, owner, n);
    lemma_share_map_sum(keys, values, royalty, owner, balance, n);
    lemma_share_sum_bound(keys, values, owner, balance as int, n);
    let others = others_share_map(keys, royalty, owner, balance, n);
    assert(keys.subrange(0, n) =~= keys);
    assert forall|k: Seq<char>| #[trigger] keys.contains(k) == royalty.contains_key(k) by {
        assert(keys.to_set().contains(k) == keys.contains(k));
    }
    let rest = share(10000 - total, balance as int);
    lemma_others_total_grows(keys, values, owner, 0, n);
    lemma_share_bounds(10000 - total, balance as int);
    assert(!others.contains_key(owner));
    let payout = payout_map(royalty, owner, balance, total);
    assert(payout =~= others.insert(owner, rest as u128));
    lemma_amount_sum_insert(others, owner, rest as u128);
    let sum = others_share_sum(keys, values, owner, balance as int, n);
    assert(sum + rest <= balance) by (nonlinear_arith)
        requires
            sum * 10000 <= total * balance,
            rest * 10000 <= (10000 - total) * balance,
    ;
}


/// The basis points of royalties, in all.
pub open spec fn royalty_total(royalty: Map<Seq<char>, u32>) -> int {
    amount_sum(Map::new(|k: Seq<char>| royalty.contains_key(k), |k: Seq<char>| royalty[k] as u128))
}

/// Royalties that a series may hold: valid accounts, at most ten of them, at
/// most 9000 basis points in all.
pub open spec fn royalty_bounded(royalty: Map<Seq<char>, u32>) -> bool {
    &&& royalty.dom().finite()
    &&& royalty.len() <= 10
    &&& royalty_total(royalty) <= 9000
    &&& forall|k: Seq<char>| #[trigger] royalty.contains_key(k) ==> valid_account_id(k)
}

/// Every stored series holds royalties that a series may hold.
pub open spec fn royalties_bounded(c: ContractView) -> bool {
    forall|id: Seq<char>|
        #[trigger] c.token_series_by_id.contains_key(id) ==> royalty_bounded(
            c.token_series_by_id[id].royalty,
        )
}

/// The basis points of royalties given in order, in all.
pub open spec fn values_total(values: Seq<u32>) -> int
    decreases values.len(),
{
    if values.len() == 0 {
        0
    } else {
        values[0] + values_total(values.drop_first())
    }
}

proof fn lemma_scan_total(keys: Seq<Seq<char>>, values: Seq<u32>, total: int)
    requires
        keys.len() == values.len(),
        scan_royalty(keys, values, total) is Ok,
    ensures
        scan_royalty(keys, values, total)->Ok_0 == total + values_total(values),
        forall|i: int| 0 <= i < keys.len() ==> valid_account_id(#[trigger] keys[i]),
    decreases keys.len(),
{
    if keys.len() > 0 {
        lemma_scan_total(keys.drop_first(), values.drop_first(), total + values[0]);
        assert forall|i: int| 0 <= i < keys.len() implies valid_account_id(#[trigger] keys[i]) by {
            if i > 0 {
                assert(keys[i] == keys.drop_first()[i - 1]);
            }
        }
    }
}

proof fn lemma_values_total_sum(keys: Seq<Seq<char>>, values: Seq<u32>, royalty: Map<Seq<char>, u32>)
    requires
        keys.len() == values.len(),
        keys.no_duplicates(),
        forall|j: int| 0 <= j < keys.len() ==> #[trigger] royalty[keys[j]] == values[j],
    ensures
        Map::new(|k: Seq<char>| keys.contains(k), |k: Seq<char>| royalty[k] as u128).dom().finite(),
        amount_sum(Map::new(|k: Seq<char>| keys.contains(k), |k: Seq<char>| royalty[k] as u128))
            == values_total(values),
    decreases keys.len(),
{
    let m = Map::new(|k: Seq<char>| keys.contains(k), |k: Seq<char>| royalty[k] as u128);
    if keys.len() == 0 {
        assert(m.dom() =~= Set::<Seq<char>>::empty());
    } else {
        let rest_keys = keys.drop_first();
        let rest_values = values.drop_first();
        assert forall|j: int| 0 <= j < rest_keys.len() implies #[trigger] royalty[rest_keys[j]]
            == rest_values[j] by {
            assert(royalty[keys[j + 1]] == values[j + 1]);
        }
        assert(rest_keys.no_duplicates()) by {
            assert forall|a: int, b: int| 0 <= a < rest_keys.len() && 0 <= b < rest_keys.len() && a
                != b implies rest_keys[a] != rest_keys[b] by {
                assert(keys[a + 1] != keys[b + 1]);
            }
        }
        lemma_values_total_sum(rest_keys, rest_values, royalty);
        let rest = Map::new(|k: Seq<char>| rest_keys.contains(k), |k: Seq<char>| royalty[k] as u128);
        let k0 = keys[0];
        assert(!rest_keys.contains(k0)) by {
            if rest_keys.contains(k0) {
                let j = choose|j: int| 0 <= j < rest_keys.len() && #[trigger] rest_keys[j] == k0;
                assert(keys[j + 1] == keys[0]);
            }
        }
        assert forall|k: Seq<char>| #[trigger] keys.contains(k) == (rest_keys.contains(k) || k == k0) by {
            if keys.contains(k) && k != k0 {
                let j = choose|j: int| 0 <= j < keys.len() && #[trigger] keys[j] == k;
                assert(rest_keys[j - 1] == k);
            }
            if rest_keys.contains(k) {
                let j = choose|j: int| 0 <= j < rest_keys.len() && #[trigger] rest_keys[j] == k;
                assert(keys[j + 1] == k);
            }
            if k == k0 {
                assert(keys[0] == k0);
            }
        }
        assert(royalty[keys[0]] == values[0]);
        assert(m =~= rest.insert(k0, values[0] as u128));
        lemma_amount_sum_insert(rest, k0, values[0] as u128);
    }
}

proof fn lemma_values_total_nonneg(values: Seq<u32>)
    ensures
        values_total(values) >= 0,
    decreases values.len(),
{
    if values.len() > 0 {
        lemma_values_total_nonneg(values.drop_first());
    }
}

proof fn lemma_scan_valid(keys: Seq<Seq<char>>, values: Seq<u32>, total: int)
    requires
        keys.len() == values.len(),
        forall|i: int| 0 <= i < keys.len() ==> valid_account_id(#[trigger] keys[i]),
        total <= u32::MAX,
    ensures
        scan_royalty(keys, values, total) == (if total + values_total(values) > u32::MAX {
            Err::<int, NftError>(NftError::Overflow)
        } else {
            Ok::<int, NftError>(total + values_total(values))
        }),
    decreases keys.len(),
{
    if keys.len() > 0 {
        lemma_values_total_nonneg(values.drop_first());
        assert(valid_account_id(keys[0]));
        assert forall|i: int| 0 <= i < keys.drop_first().len() implies valid_account_id(
            #[trigger] keys.drop_first()[i],
        ) by {
            assert(valid_account_id(keys[i + 1]));
        }
        assert(values_total(values) == values[0] + values_total(values.drop_first()));
        if total + values[0] > u32::MAX {
            assert(scan_royalty(keys, values, total) == Err::<int, NftError>(NftError::Overflow));
        } else {
            lemma_scan_valid(keys.drop_first(), values.drop_first(), total + values[0]);
            assert(scan_royalty(keys, values, total) == scan_royalty(
                keys.drop_first(),
                values.drop_first(),
                total + values[0],
            ));
        }
    } else {
        assert(values.len() == 0);
    }
}

proof fn lemma_royalty_total_of(r: VecMap<String, u32>)
    requires
        r.well_formed(),
    ensures
        royalty_total(r@) == values_total(r.value_order()),
        r@.len() == r.key_order().len(),
{
    r.lemma_view();
    let keys = r.key_order();
    let values = r.value_order();
    assert forall|j: int| 0 <= j < keys.len() implies #[trigger] r@[keys[j]] == values[j] by {
        assert(r@.contains_key(r.key_order()[j]));
    }
    lemma_values_total_sum(keys, values, r@);
    assert(Map::new(|k: Seq<char>| r@.contains_key(k), |k: Seq<char>| r@[k] as u128) =~= Map::new(
        |k: Seq<char>| keys.contains(k),
        |k: Seq<char>| r@[k] as u128,
    )) by {
        assert forall|k: Seq<char>| r@.contains_key(k) == keys.contains(k) by {
            assert(keys.to_set().contains(k) == keys.contains(k));
        }
    }
}

/// Royalties that pass the check are royalties that a series may hold.  `r`
/// is a well-formed map of royalties.
pub proof fn law_checked_royalty_bounded(r: VecMap<String, u32>)
    requires
        r.well_formed(),
        royalty_check(r.key_order(), r.value_order()) is Ok,
    ensures
        royalty_bounded(r@),
{
    r.lemma_view();
    let keys = r.key_order();
    let values = r.value_order();
    lemma_scan_total(keys, values, 0);
    lemma_royalty_total_of(r);
    assert forall|k: Seq<char>| #[trigger] r@.contains_key(k) implies valid_account_id(k) by {
        let i = choose|i: int| 0 <= i < r.size() && r.key_order()[i] == k;
        assert(valid_account_id(keys[i]));
    }
}

/// On royalties to valid accounts the check refuses exactly more than ten
/// entries or more than 9000 basis points in all (a total past the range of
/// a `u32` being refused as an overflow first), whatever the order of the
/// entries.  `r` is a well-formed map of royalties.
pub proof fn law_royalty_check_exact(r: VecMap<String, u32>)
    requires
        r.well_formed(),
        forall|k: Seq<char>| #[trigger] r@.contains_key(k) ==> valid_account_id(k),
    ensures
        royalty_check(r.key_order(), r.value_order()) == (if royalty_total(r@) > u32::MAX {
            Err::<(), NftError>(NftError::Overflow)
        } else if r@.len() > 10 {
            Err::<(), NftError>(NftError::TooManyRoyaltyAccounts)
        } else if royalty_total(r@) > 9000 {
            Err::<(), NftError>(NftError::RoyaltyTooHigh)
        } else {
            Ok::<(), NftError>(())
        }),
{
    r.lemma_view();
    let keys = r.key_order();
    let values = r.value_order();
    assert forall|i: int| 0 <= i < keys.len() implies valid_account_id(#[trigger] keys[i]) by {
        assert(r@.contains_key(r.key_order()[i]));
    }
    lemma_scan_valid(keys, values, 0);
    lemma_royalty_total_of(r);
}

/// A new contract holds no series, so no royalties out of bounds.
pub proof fn law_royalties_start_bounded(c: ContractView)
    requires
        c.token_series_by_id == Map::<Seq<char>, TokenSeriesView>::empty(),
    ensures
        royalties_bounded(c),
{
}

/// Making a series keeps every stored series' royalties within bounds: the
/// new series gets royalties that passed the check, or none.
pub proof fn law_new_series_keeps_royalties_bounded(
    c: ContractView,
    signer: Seq<char>,
    rate_positive: bool,
    metadata: TokenMetadataView,
    price_bits: Option<u64>,
    royalty: Option<VecMap<String, u32>>,
)
    requires
        royalties_bounded(c),
        royalty matches Some(r) ==> r.well_formed(),
    ensures
        c.create_series(
            signer,
            rate_positive,
            metadata,
            price_bits,
            opt_royalty_check(royalty),
            opt_royalty(royalty),
        ) is Ok ==> royalties_bounded(
            c.create_series(
                signer,
                rate_positive,
                metadata,
                price_bits,
                opt_royalty_check(royalty),
                opt_royalty(royalty),
            )->Ok_0.0,
        ),
{
    match royalty {
        Some(r) => {
            if opt_royalty_check(royalty) is Ok {
                law_checked_royalty_bounded(r);
            }
        },
        None => {
            let e = Map::<Seq<char>, u32>::empty();
            assert(Map::new(|k: Seq<char>| e.contains_key(k), |k: Seq<char>| e[k] as u128).dom()
                =~= Set::<Seq<char>>::empty());
        },
    }
}

/// Changing a series keeps every stored series' royalties within bounds: the
/// changed series keeps its royalties or gets royalties that passed the check.
pub proof fn law_update_keeps_royalties_bounded(
    c: ContractView,
    id: Seq<char>,
    title: Option<Seq<char>>,
    description: Option<Seq<char>>,
    media: Option<Seq<char>>,
    price: Option<Option<u64>>,
    extra: Option<Seq<char>>,
    royalty: Option<VecMap<String, u32>>,
)
    requires
        royalties_bounded(c),
        c.token_series_by_id.contains_key(id),
        opt_royalty_check(royalty) is Ok,
        royalty matches Some(r) ==> r.well_formed(),
    ensures
        royalties_bounded(
            ContractView {
                token_series_by_id: c.token_series_by_id.insert(
                    id,
                    ContractView::updated_series(
                        c.token_series_by_id[id],
                        title,
                        description,
                        media,
                        price,
                        extra,
                        match royalty {
                            Some(m) => Some(m@),
                            None => None,
                        },
                    ),
                ),
                ..c
            },
        ),
{
    if let Some(r) = royalty {
        law_checked_royalty_bounded(r);
    }
}

/// Minting leaves royalties as they are, so within bounds.
pub proof fn law_mint_keeps_royalties_bounded(c: ContractView, id: Seq<char>, now: u64)
    requires
        royalties_bounded(c),
    ensures
        c.mint_series(id, now) is Ok ==> royalties_bounded(c.mint_series(id, now)->Ok_0.0),
{
}


proof fn lemma_decimal_no_colon(n: nat)
    ensures
        !decimal(n).contains(':'),
    decreases n,
{
    if n >= 10 {
        lemma_decimal_no_colon(n / 10);
    }
    if decimal(n).contains(':') {
        let i = choose|i: int| 0 <= i < decimal(n).len() && decimal(n)[i] == ':';
        if n >= 10 {
            let d = decimal(n / 10);
            if i < d.len() {
                assert(d[i] == ':');
            }
        }
    }
}

proof fn lemma_same_series(a: Seq<char>, x: Seq<char>, b: Seq<char>, y: Seq<char>)
    requires
        !a.contains(':'),
        !b.contains(':'),
        a + ":"@ + x == b + ":"@ + y,
    ensures
        a == b,
{
    reveal_strlit(":");
    let t = a + ":"@ + x;
    assert(t[a.len() as int] == ':');
    assert(t[b.len() as int] == ':');
    if a.len() < b.len() {
        assert(t[a.len() as int] == b[a.len() as int]);
        assert(b.contains(':'));
    } else if b.len() < a.len() {
        assert(t[b.len() as int] == a[b.len() as int]);
        assert(a.contains(':'));
    }
    assert(a =~= t.subrange(0, a.len() as int));
    assert(b =~= t.subrange(0, b.len() as int));
}

/// Whether some series holds the token.
pub open spec fn series_holds(c: ContractView, token_id: Seq<char>) -> bool {
    exists|id: Seq<char>|
        c.token_series_by_id.contains_key(id) && #[trigger] c.token_series_by_id[id].tokens.contains(
            token_id,
        )
}

/// A registry of minted token ids, as the token standard keeps them, is in
/// step with the series: no series id holds a `:`, each series holds exactly
/// its copies 1 to n and no more than its copies, and every registered token
/// is a copy of some series.
pub open spec fn registry_in_step(c: ContractView, registry: Set<Seq<char>>) -> bool {
    &&& forall|id: Seq<char>|
        #[trigger] c.token_series_by_id.contains_key(id) ==> !id.contains(':')
            && series_tokens_sound(c.token_series_by_id[id], id)
    &&& forall|t: Seq<char>| #[trigger] registry.contains(t) ==> series_holds(c, t)
}

/// A new contract with an empty registry is in step.
pub proof fn law_registry_starts_in_step(c: ContractView)
    requires
        c.token_series_by_id == Map::<Seq<char>, TokenSeriesView>::empty(),
    ensures
        registry_in_step(c, Set::empty()),
{
}

/// Minting hands out a token id that no series and no registered token holds,
/// and registering it keeps the registry in step.
pub proof fn law_mint_keeps_registry_in_step(
    c: ContractView,
    registry: Set<Seq<char>>,
    id: Seq<char>,
    now: u64,
)
    requires
        registry_in_step(c, registry),
    ensures
        c.mint_series(id, now) is Ok ==> {
            let (c2, token_id, _) = c.mint_series(id, now)->Ok_0;
            &&& !registry.contains(token_id)
            &&& !series_holds(c, token_id)
            &&& registry_in_step(c2, registry.insert(token_id))
        },
{
    if c.mint_series(id, now) is Ok {
        let (c2, token_id, _) = c.mint_series(id, now)->Ok_0;
        let s = c.token_series_by_id[id];
        assert(c.token_series_by_id.contains_key(id));
        lemma_mint_keeps_tokens_sound(s, id, now);
        let s2 = s.mint(id, now)->Ok_0.0;
        let len = s.tokens.len();
        assert(token_id == token_id_of(id, len + 1));
        if series_holds(c, token_id) {
            let other = choose|other: Seq<char>|
                c.token_series_by_id.contains_key(other)
                    && #[trigger] c.token_series_by_id[other].tokens.contains(token_id);
            let so = c.token_series_by_id[other];
            assert(so.tokens.contains(token_id));
            let n = choose|n: nat| 1 <= n <= so.tokens.len() && token_id == token_id_of(other, n);
            lemma_decimal_no_colon(len + 1);
            lemma_same_series(id, decimal(len + 1), other, decimal(n));
            lemma_token_ids_distinct(id, n, len + 1);
            assert(false);
        }
        assert forall|sid: Seq<char>| #[trigger] c2.token_series_by_id.contains_key(sid) implies !sid.contains(
            ':',
        ) && series_tokens_sound(c2.token_series_by_id[sid], sid) by {
            assert(c.token_series_by_id.contains_key(sid));
        }
        assert forall|t: Seq<char>| #[trigger] registry.insert(token_id).contains(t) implies series_holds(
            c2,
            t,
        ) by {
            if t == token_id {
                assert(c2.token_series_by_id[id].tokens.contains(t));
            } else {
                assert(series_holds(c, t));
                let other = choose|other: Seq<char>|
                    c.token_series_by_id.contains_key(other)
                        && #[trigger] c.token_series_by_id[other].tokens.contains(t);
                assert(c2.token_series_by_id[other].tokens.contains(t));
            }
        }
    }
}

/// Making a series keeps the registry in step: the new series is named by a
/// number and holds no tokens.
pub proof fn law_new_series_keeps_registry_in_step(
    c: ContractView,
    registry: Set<Seq<char>>,
    signer: Seq<char>,
    rate_positive: bool,
    metadata: TokenMetadataView,
    price_bits: Option<u64>,
    royalty_ok: Result<(), NftError>,
    royalty: Map<Seq<char>, u32>,
)
    requires
        registry_in_step(c, registry),
    ensures
        c.create_series(signer, rate_positive, metadata, price_bits, royalty_ok, royalty) is Ok
            ==> registry_in_step(
            c.create_series(signer, rate_positive, metadata, price_bits, royalty_ok, royalty)->Ok_0.0,
            registry,
        ),
{
    if c.create_series(signer, rate_positive, metadata, price_bits, royalty_ok, royalty) is Ok {
        let (c2, new_id) = c.create_series(
            signer,
            rate_positive,
            metadata,
            price_bits,
            royalty_ok,
            royalty,
        )->Ok_0;
        lemma_decimal_no_colon(c.id_serie as nat);
        assert forall|sid: Seq<char>| #[trigger] c2.token_series_by_id.contains_key(sid) implies !sid.contains(
            ':',
        ) && series_tokens_sound(c2.token_series_by_id[sid], sid) by {
            if sid != new_id {
                assert(c.token_series_by_id.contains_key(sid));
            }
        }
        assert forall|t: Seq<char>| #[trigger] registry.contains(t) implies series_holds(c2, t) by {
            assert(series_holds(c, t));
            let other = choose|other: Seq<char>|
                c.token_series_by_id.contains_key(other)
                    && #[trigger] c.token_series_by_id[other].tokens.contains(t);
            assert(other != new_id);
            assert(c2.token_series_by_id[other].tokens.contains(t));
        }
    }
}

/// Changing a series keeps the registry in step: its tokens and its number of
/// copies stay as they are.
pub proof fn law_update_keeps_registry_in_step(
    c: ContractView,
    registry: Set<Seq<char>>,
    id: Seq<char>,
    title: Option<Seq<char>>,
    description: Option<Seq<char>>,
    media: Option<Seq<char>>,
    price: Option<Option<u64>>,
    extra: Option<Seq<char>>,
    royalty: Option<Map<Seq<char>, u32>>,
)
    requires
        registry_in_step(c, registry),
        c.token_series_by_id.contains_key(id),
    ensures
        registry_in_step(
            ContractView {
                token_series_by_id: c.token_series_by_id.insert(
                    id,
                    ContractView::updated_series(
                        c.token_series_by_id[id],
                        title,
                        description,
                        media,
                        price,
                        extra,
                        royalty,
                    ),
                ),
                ..c
            },
            registry,
        ),
{
    let c2 = ContractView {
        token_series_by_id: c.token_series_by_id.insert(
            id,
            ContractView::updated_series(
                c.token_series_by_id[id],
                title,
                description,
                media,
                price,
                extra,
                royalty,
            ),
        ),
        ..c
    };
    assert forall|sid: Seq<char>| #[trigger] c2.token_series_by_id.contains_key(sid) implies !sid.contains(
        ':',
    ) && series_tokens_sound(c2.token_series_by_id[sid], sid) by {
        assert(c.token_series_by_id.contains_key(sid));
    }
    assert forall|t: Seq<char>| #[trigger] registry.contains(t) implies series_holds(c2, t) by {
        assert(series_holds(c, t));
        let other = choose|other: Seq<char>|
            c.token_series_by_id.contains_key(other)
                && #[trigger] c.token_series_by_id[other].tokens.contains(t);
        assert(c2.token_series_by_id[other].tokens.contains(t));
    }
}

} // verus!
