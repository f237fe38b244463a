//! Token series: their royalties and the minting of their copies.

use vstd::prelude::*;

use crate::collections::{Duplicate, VecMap, VecSet};
use crate::dao::proposal::{duplicate_opt_text, opt_text};
use crate::nft::{duplicate_opt_bytes, NftError, TokenMetadata, TokenMetadataView};
use crate::text::{decimal, is_valid_account_id, to_decimal, valid_account_id};

verus! {

/// A series of tokens sharing metadata, price and royalties.
/// `price_bits` holds the bits of an `f64` price in dollars.
pub struct TokenSeries {
    pub metadata: TokenMetadata,
    pub creator_id: String,
    pub tokens: VecSet<String>,
    pub price_bits: Option<u64>,
    pub is_mintable: bool,
    pub royalty: VecMap<String, u32>,
}

/// The view of a `TokenSeries`.
pub struct TokenSeriesView {
    pub metadata: TokenMetadataView,
    pub creator_id: Seq<char>,
    pub tokens: Set<Seq<char>>,
    pub price_bits: Option<u64>,
    pub is_mintable: bool,
    pub royalty: Map<Seq<char>, u32>,
}

impl View for TokenSeries {
    type V = TokenSeriesView;

    open spec fn view(&self) -> TokenSeriesView {
        TokenSeriesView {
            metadata: self.metadata@,
            creator_id: self.creator_id@,
            tokens: self.tokens@,
            price_bits: self.price_bits,
            is_mintable: self.is_mintable,
            royalty: self.royalty@,
        }
    }
}

impl Duplicate for TokenSeries {
    fn duplicate(&self) -> (r: TokenSeries) {
        TokenSeries {
            metadata: self.metadata.duplicate(),
            creator_id: self.creator_id.clone(),
            tokens: self.tokens.duplicate(),
            price_bits: self.price_bits,
            is_mintable: self.is_mintable,
            royalty: self.royalty.duplicate(),
        }
    }
}

/// Runs over royalty entries in order: each account must be valid and the
/// running total must fit a `u32`; yields the total.
pub open spec fn scan_royalty(keys: Seq<Seq<char>>, values: Seq<u32>, total: int) -> Result<
    int,
    NftError,
>
    decreases keys.len(),
{
    if keys.len() == 0 || values.len() == 0 {
        Ok(total)
    } else if !valid_account_id(keys[0]) {
        Err(NftError::InvalidRoyaltyAccount)
    } else if total + values[0] > u32::MAX {
        Err(NftError::Overflow)
    } else {
        scan_royalty(keys.drop_first(), values.drop_first(), total + values[0])
    }
}

/// Whether royalties, given as entries in order, may be set on a series: valid
/// accounts, at most ten of them, at most 9000 basis points in all.
pub open spec fn royalty_check(keys: Seq<Seq<char>>, values: Seq<u32>) -> Result<(), NftError> {
    match scan_royalty(keys, values, 0) {
        Err(e) => Err(e),
        Ok(total) => if keys.len() > 10 {
            Err(NftError::TooManyRoyaltyAccounts)
        } else if total > 9000 {
            Err(NftError::RoyaltyTooHigh)
        } else {
            Ok(())
        },
    }
}

proof fn lemma_scan_step(keys: Seq<Seq<char>>, values: Seq<u32>, i: int, total: int)
    requires
        0 <= i < keys.len(),
        keys.len() == values.len(),
        valid_account_id(keys[i]),
        total + values[i] <= u32::MAX,
    ensures
        scan_royalty(keys.skip(i), values.skip(i), total) == scan_royalty(
            keys.skip(i + 1),
            values.skip(i + 1),
            total + values[i],
        ),
{
    assert(keys.skip(i).drop_first() =~= keys.skip(i + 1));
    assert(values.skip(i).drop_first() =~= values.skip(i + 1));
}

/// Checks the royalties that a series would get.
pub fn check_royalty(royalty: &VecMap<String, u32>) -> (r: Result<(), NftError>)
    ensures
        r == royalty_check(royalty.key_order(), royalty.value_order()),
{
    proof {
        use_type_invariant(royalty);
        royalty.lemma_view();
    }
    let n = royalty.len();
    let mut total: u32 = 0;
    let mut i: usize = 0;
    let ghost keys = royalty.key_order();
    let ghost values = royalty.value_order();
    assert(keys.skip(0) =~= keys);
    assert(values.skip(0) =~= values);
    while i < n
        invariant
            i <= n,
            n == royalty.size(),
            keys == royalty.key_order(),
            values == royalty.value_order(),
            keys.len() == n,
            values.len() == n,
            scan_royalty(keys, values, 0) == scan_royalty(keys.skip(i as int), values.skip(i as int), total as int),
        decreases n - i,
    {
        let key = royalty.key_at(i);
        let value = *royalty.value_at(i);
        if !is_valid_account_id(key) {
            assert(keys.skip(i as int)[0] == keys[i as int]);
            return Err(NftError::InvalidRoyaltyAccount);
        }
        if total > u32::MAX - value {
            assert(keys.skip(i as int)[0] == keys[i as int]);
            assert(values.skip(i as int)[0] == values[i as int]);
            return Err(NftError::Overflow);
        }
        proof {
            lemma_scan_step(keys, values, i as int, total as int);
        }
        total = total + value;
        i = i + 1;
    }
    assert(keys.skip(n as int).len() == 0);
    if n > 10 {
        return Err(NftError::TooManyRoyaltyAccounts);
    }
    if total > 9000 {
        return Err(NftError::RoyaltyTooHigh);
    }
    Ok(())
}

/// A minted token: its id, owner and metadata, for the token registry.
pub struct MintedToken {
    pub token_id: String,
    pub owner_id: String,
    pub metadata: TokenMetadata,
}

/// The id of copy `n` of a series: the series id, a colon, the number.
pub open spec fn token_id_of(series_id: Seq<char>, n: nat) -> Seq<char> {
    series_id + ":"@ + decimal(n)
}

/// The title of copy `n`: the series title, `#`, the series id, `#`, the number.
pub open spec fn token_title(title: Seq<char>, series_id: Seq<char>, n: nat) -> Seq<char> {
    title + " "@ + " #"@ + " "@ + series_id + " "@ + " #"@ + " "@ + decimal(n)
}

/// The metadata of copy `n` minted at `now`: the series' metadata with the
/// copy's title and the time of issue.
pub open spec fn token_metadata_of(
    m: TokenMetadataView,
    series_id: Seq<char>,
    n: nat,
    now: u64,
) -> TokenMetadataView {
    TokenMetadataView {
        title: Some(token_title(m.title->0, series_id, n)),
        issued_at: Some(decimal(now as nat)),
        ..m
    }
}

/// The largest number of copies of a series; unlimited is `u64::MAX`.
pub open spec fn max_copies(m: TokenMetadataView) -> u64 {
    match m.copies {
        Some(c) => c,
        None => u64::MAX,
    }
}

impl TokenSeriesView {
    /// Mints the next copy at time `now`: the series gains the token id, and
    /// closes (losing its price) once the last copy is minted.
    pub open spec fn mint(self, series_id: Seq<char>, now: u64) -> Result<
        (TokenSeriesView, Seq<char>, TokenMetadataView),
        NftError,
    > {
        let num = self.tokens.len();
        let max = max_copies(self.metadata);
        if !self.is_mintable {
            Err(NftError::NotMintable)
        } else if num >= max {
            Err(NftError::SupplyMaxed)
        } else if self.metadata.title is None {
            Err(NftError::MissingValue)
        } else {
            let token_id = token_id_of(series_id, num + 1);
            let last = num + 1 >= max;
            Ok(
                (
                    TokenSeriesView {
                        tokens: self.tokens.insert(token_id),
                        is_mintable: if last {
                            false
                        } else {
                            self.is_mintable
                        },
                        price_bits: if last {
                            None
                        } else {
                            self.price_bits
                        },
                        ..self
                    },
                    token_id,
                    token_metadata_of(self.metadata, series_id, num + 1, now),
                ),
            )
        }
    }

    /// Mints `n` copies for the same owner, one after another: the series
    /// after them, and the id and metadata of each copy in turn.
    pub open spec fn mint_many(self, series_id: Seq<char>, now: u64, n: nat) -> Result<
        (TokenSeriesView, Seq<(Seq<char>, TokenMetadataView)>),
        NftError,
    >
        decreases n,
    {
        if n == 0 {
            Ok((self, Seq::empty()))
        } else {
            match self.mint_many(series_id, now, (n - 1) as nat) {
                Err(e) => Err(e),
                Ok((s, copies)) => match s.mint(series_id, now) {
                    Err(e) => Err(e),
                    Ok((s2, id, m)) => Ok((s2, copies.push((id, m)))),
                },
            }
        }
    }
}

/// Once minting fails, minting more copies fails the same way.
pub proof fn lemma_mint_many_err(s: TokenSeriesView, series_id: Seq<char>, now: u64, m: nat, n: nat)
    requires
        m <= n,
        s.mint_many(series_id, now, m) is Err,
    ensures
        s.mint_many(series_id, now, n) == s.mint_many(series_id, now, m),
    decreases n - m,
{
    if m < n {
        lemma_mint_many_err(s, series_id, now, m, (n - 1) as nat);
    }
}

impl TokenSeries {
    /// Mints the next copy for `receiver_id` at time `now`.
    pub fn mint_copy(&mut self, series_id: &String, receiver_id: &String, now: u64) -> (r: Result<
        MintedToken,
        NftError,
    >)
        ensures
            match old(self)@.mint(series_id@, now) {
                Ok((s, id, m)) => r matches Ok(t) && final(self)@ == s && t.token_id@ == id
                    && t.owner_id@ == receiver_id@ && t.metadata@ == m,
                Err(e) => r == Err::<MintedToken, NftError>(e) && final(self)@ == old(self)@,
            },
    {
        if !self.is_mintable {
            return Err(NftError::NotMintable);
        }
        let num_tokens = self.tokens.len() as u64;
        let max_copies = match self.metadata.copies {
            Some(c) => c,
            None => u64::MAX,
        };
        if num_tokens >= max_copies {
            return Err(NftError::SupplyMaxed);
        }
        let title = match &self.metadata.title {
            Some(t) => t.clone(),
            None => {
                return Err(NftError::MissingValue);
            },
        };
        if num_tokens + 1 >= max_copies {
            self.is_mintable = false;
            self.price_bits = None;
        }
        let number = to_decimal((num_tokens + 1) as u128);
        let token_id = series_id.clone().concat(":").concat(number.as_str());
        self.tokens.insert(token_id.clone());
        let full_title = title.concat(" ").concat(" #").concat(" ").concat(series_id.as_str()).concat(
            " ",
        ).concat(" #").concat(" ").concat(number.as_str());
        let metadata = TokenMetadata {
            title: Some(full_title),
            description: duplicate_opt_text(&self.metadata.description),
            media: duplicate_opt_text(&self.metadata.media),
            media_hash: duplicate_opt_bytes(&self.metadata.media_hash),
            copies: self.metadata.copies,
            issued_at: Some(to_decimal(now as u128)),
            expires_at: duplicate_opt_text(&self.metadata.expires_at),
            starts_at: duplicate_opt_text(&self.metadata.starts_at),
            updated_at: duplicate_opt_text(&self.metadata.updated_at),
            extra: duplicate_opt_text(&self.metadata.extra),
            reference: duplicate_opt_text(&self.metadata.reference),
            reference_hash: duplicate_opt_bytes(&self.metadata.reference_hash),
        };
        Ok(MintedToken { token_id, owner_id: receiver_id.clone(), metadata })
    }
}

/// The series part of a token id: what stands before its first colon, or the
/// whole id.
pub open spec fn series_part(token_id: Seq<char>) -> Seq<char> {
    if exists|i: int| 0 <= i < token_id.len() && token_id[i] == ':' {
        token_id.subrange(
            0,
            choose|i: int|
                0 <= i < token_id.len() && token_id[i] == ':' && forall|j: int|
                    0 <= j < i ==> token_id[j] != ':',
        )
    } else {
        token_id
    }
}

/// The series id of a token id.
pub fn series_id_of(token_id: &String) -> (r: String)
    ensures
        r@ == series_part(token_id@),
{
    let s = token_id.as_str();
    let n = s.unicode_len();
    let mut i: usize = 0;
    while i < n
        invariant
            i <= n,
            n == token_id@.len(),
            s@ == token_id@,
            forall|j: int| 0 <= j < i ==> token_id@[j] != ':',
        decreases n - i,
    {
        if s.get_char(i) == ':' {
            proof {
                let t = token_id@;
                let first = choose|k: int|
                    0 <= k < t.len() && t[k] == ':' && forall|j: int| 0 <= j < k ==> t[j] != ':';
                assert(0 <= i < t.len() && t[i as int] == ':' && forall|j: int|
                    0 <= j < i ==> t[j] != ':');
                if first < i {
                    assert(t[first] != ':');
                } else if first > i {
                    assert(t[i as int] != ':');
                }
            }
            return String::from_str(s.substring_char(0, i));
        }
        i = i + 1;
    }
    String::from_str(s)
}

} // verus!
