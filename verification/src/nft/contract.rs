//! The state of the NFT contract's own bookkeeping and its calls.  A refused
//! call leaves the state as it was.

use vstd::prelude::*;

use crate::collections::{Duplicate, VecMap, VecSet};
use crate::nft::series::{
    lemma_mint_many_err, check_royalty, max_copies, royalty_check, series_id_of, series_part, MintedToken, TokenSeries,
    TokenSeriesView,
};
use crate::nft::{NftError, TokenMetadata, TokenMetadataView};
use crate::dao::proposal::opt_text;
use crate::text::{decimal, is_valid_account_id, to_decimal, valid_account_id};

verus! {

/// The fee reported with a series, in hundredths of a percent.
pub const CURRENT_TRANSACTION_FEE: u128 = 200;

/// The part of the deposit of a purchase kept above the price.
pub const PURCHASE_MARGIN: u128 = 50_000_000_000_000_000_000_000;

/// What a quoted listing price adds to the price.
pub const LISTING_MARGIN: u128 = 100_000_000_000_000_000_000_000;

/// A series as reported after it is made or changed.
pub struct TokenSeriesJson {
    pub token_series_id: String,
    pub metadata: TokenMetadata,
    pub creator_id: String,
    pub royalty: VecMap<String, u32>,
}

/// A series as listed; `price_usd_bits` holds the bits of its `f64` price.
pub struct TokenSeriesJson2 {
    pub token_series_id: String,
    pub metadata: TokenMetadata,
    pub creator_id: String,
    pub price_usd_bits: Option<u64>,
    pub is_mintable: bool,
    pub royalty: VecMap<String, u32>,
}

/// A series as read alone, with the transaction fee.
pub struct TokenSeriesJson3 {
    pub token_series_id: String,
    pub metadata: TokenMetadata,
    pub creator_id: String,
    pub royalty: VecMap<String, u32>,
    pub transaction_fee: u128,
}

/// The amounts a sale pays to each account.
pub struct Payout {
    pub payout: VecMap<String, u128>,
}

/// The state of the NFT contract's own bookkeeping.  `tasa_bits` holds the
/// bits of the `f64` dollar rate of NEAR.
pub struct Contract {
    pub owner_id: String,
    pub list_admin: VecSet<String>,
    pub id_serie: u128,
    pub token_series_by_id: VecMap<String, TokenSeries>,
    pub vault_id: String,
    pub tasa_bits: u64,
}

/// The view of the NFT contract's state.
pub struct ContractView {
    pub owner_id: Seq<char>,
    pub list_admin: Set<Seq<char>>,
    pub id_serie: u128,
    pub token_series_by_id: Map<Seq<char>, TokenSeriesView>,
    pub vault_id: Seq<char>,
    pub tasa_bits: u64,
}

impl View for Contract {
    type V = ContractView;

    open spec fn view(&self) -> ContractView {
        ContractView {
            owner_id: self.owner_id@,
            list_admin: self.list_admin@,
            id_serie: self.id_serie,
            token_series_by_id: self.token_series_by_id@,
            vault_id: self.vault_id@,
            tasa_bits: self.tasa_bits,
        }
    }
}

/// A royalty check of optional royalties given as a map.
pub open spec fn opt_royalty_check(royalty: Option<VecMap<String, u32>>) -> Result<(), NftError> {
    match royalty {
        Some(r) => royalty_check(r.key_order(), r.value_order()),
        None => Ok(()),
    }
}

/// The royalties given, or none.
pub open spec fn opt_royalty(royalty: Option<VecMap<String, u32>>) -> Map<Seq<char>, u32> {
    match royalty {
        Some(r) => r@,
        None => Map::empty(),
    }
}

/// What a royalty of `basis_points` pays out of `balance`.
pub open spec fn share(basis_points: int, balance: int) -> int {
    basis_points * balance / 10000
}

/// The royalty basis points of the first `n` entries that go to accounts
/// other than `owner`.
pub open spec fn others_total(keys: Seq<Seq<char>>, values: Seq<u32>, owner: Seq<char>, n: int) -> int
    decreases n,
{
    if n <= 0 {
        0
    } else {
        others_total(keys, values, owner, n - 1) + if keys[n - 1] != owner {
            values[n - 1] as int
        } else {
            0
        }
    }
}

pub(crate) proof fn lemma_others_total_grows(keys: Seq<Seq<char>>, values: Seq<u32>, owner: Seq<char>, a: int, b: int)
    requires
        0 <= a <= b,
    ensures
        others_total(keys, values, owner, a) <= others_total(keys, values, owner, b),
    decreases b - a,
{
    if a < b {
        lemma_others_total_grows(keys, values, owner, a, b - 1);
    }
}

/// The payout of `balance` on `royalty` with the rest to `owner`.
pub open spec fn payout_map(
    royalty: Map<Seq<char>, u32>,
    owner: Seq<char>,
    balance: u128,
    total: int,
) -> Map<Seq<char>, u128> {
    Map::new(
        |k: Seq<char>| royalty.contains_key(k) && k != owner,
        |k: Seq<char>| share(royalty[k] as int, balance as int) as u128,
    ).insert(owner, share(10000 - total, balance as int) as u128)
}

/// What a royalty of `a` basis points pays out of `b`.
pub fn royalty_to_payout(a: u32, b: u128) -> (r: Result<u128, NftError>)
    ensures
        a * b <= u128::MAX ==> r == Ok::<u128, NftError>(share(a as int, b as int) as u128),
        a * b > u128::MAX ==> r == Err::<u128, NftError>(NftError::Overflow),
{
    match (a as u128).checked_mul(b) {
        Some(p) => Ok(p / 10000),
        None => Err(NftError::Overflow),
    }
}

impl ContractView {
    /// Whether `signer` is the owner or an administrator.
    pub open spec fn is_admin(self, signer: Seq<char>) -> bool {
        self.owner_id == signer || self.list_admin.contains(signer)
    }

    /// The series that a token id belongs to.
    pub open spec fn series_of_token(self, token_id: Seq<char>) -> Option<TokenSeriesView> {
        if self.token_series_by_id.contains_key(series_part(token_id)) {
            Some(self.token_series_by_id[series_part(token_id)])
        } else {
            None
        }
    }

    /// Records a series under the next id, made by `signer`.
    pub open spec fn create_series(
        self,
        signer: Seq<char>,
        rate_positive: bool,
        metadata: TokenMetadataView,
        price_bits: Option<u64>,
        royalty_ok: Result<(), NftError>,
        royalty: Map<Seq<char>, u32>,
    ) -> Result<(ContractView, Seq<char>), NftError> {
        let id = decimal(self.id_serie as nat);
        if !self.is_admin(signer) {
            Err(NftError::OnlyAdministrator)
        } else if !rate_positive {
            Err(NftError::RateRequired)
        } else if self.token_series_by_id.contains_key(id) {
            Err(NftError::DuplicateSeries)
        } else if metadata.title is None {
            Err(NftError::TitleRequired)
        } else if royalty_ok is Err {
            Err(royalty_ok->Err_0)
        } else if self.id_serie + 1 > u128::MAX {
            Err(NftError::Overflow)
        } else {
            Ok(
                (
                    ContractView {
                        token_series_by_id: self.token_series_by_id.insert(
                            id,
                            TokenSeriesView {
                                metadata,
                                creator_id: signer,
                                tokens: Set::empty(),
                                price_bits,
                                is_mintable: true,
                                royalty,
                            },
                        ),
                        id_serie: (self.id_serie + 1) as u128,
                        ..self
                    },
                    id,
                ),
            )
        }
    }

    /// The series after the given fields are set; `price` is the new stored
    /// price where a price was given.
    pub open spec fn updated_series(
        s: TokenSeriesView,
        title: Option<Seq<char>>,
        description: Option<Seq<char>>,
        media: Option<Seq<char>>,
        price: Option<Option<u64>>,
        extra: Option<Seq<char>>,
        royalty: Option<Map<Seq<char>, u32>>,
    ) -> TokenSeriesView {
        let m = s.metadata;
        TokenSeriesView {
            metadata: TokenMetadataView {
                title: if title is Some {
                    title
                } else {
                    m.title
                },
                description: if description is Some {
                    description
                } else {
                    m.description
                },
                media: if media is Some {
                    media
                } else {
                    m.media
                },
                extra: if extra is Some {
                    extra
                } else {
                    m.extra
                },
                ..m
            },
            price_bits: match price {
                Some(p) => p,
                None => s.price_bits,
            },
            royalty: match royalty {
                Some(r) => r,
                None => s.royalty,
            },
            ..s
        }
    }

    /// Mints the next copy of series `id` at `now`.
    pub open spec fn mint_series(self, id: Seq<char>, now: u64) -> Result<
        (ContractView, Seq<char>, TokenMetadataView),
        NftError,
    > {
        if !self.token_series_by_id.contains_key(id) {
            Err(NftError::SeriesNotExist)
        } else {
            match self.token_series_by_id[id].mint(id, now) {
                Err(e) => Err(e),
                Ok((s, token_id, m)) => Ok(
                    (
                        ContractView {
                            token_series_by_id: self.token_series_by_id.insert(id, s),
                            ..self
                        },
                        token_id,
                        m,
                    ),
                ),
            }
        }
    }
}

/// What goes back to the caller of a deposit of `attached_deposit`, of which
/// `extra_spend` is spent, once `storage_used` bytes are paid for at
/// `storage_byte_cost` each: the rest, sent only when above one yoctoNEAR.
/// The deposit must cover the storage.
pub fn refund_deposit(
    storage_used: u64,
    storage_byte_cost: u128,
    attached_deposit: u128,
    extra_spend: u128,
) -> (r: Result<Option<u128>, NftError>)
    ensures
        ({
            let required = storage_byte_cost * storage_used;
            let available = attached_deposit - extra_spend;
            if required > u128::MAX || available < 0 {
                r == Err::<Option<u128>, NftError>(NftError::Overflow)
            } else if required > available {
                r == Err::<Option<u128>, NftError>(NftError::StorageNotCovered(required as u128))
            } else if available - required > 1 {
                r == Ok::<Option<u128>, NftError>(Some((available - required) as u128))
            } else {
                r == Ok::<Option<u128>, NftError>(None)
            }
        }),
{
    let required_cost = match storage_byte_cost.checked_mul(storage_used as u128) {
        Some(c) => c,
        None => {
            return Err(NftError::Overflow);
        },
    };
    if attached_deposit < extra_spend {
        return Err(NftError::Overflow);
    }
    let available = attached_deposit - extra_spend;
    if required_cost > available {
        return Err(NftError::StorageNotCovered(required_cost));
    }
    let refund = available - required_cost;
    if refund > 1 {
        Ok(Some(refund))
    } else {
        Ok(None)
    }
}

impl Contract {
    /// A contract owned by `owner_id` paying sales to `vault_id`, with no
    /// series and a rate of zero.
    pub fn new(owner_id: String, vault_id: String) -> (c: Contract)
        ensures
            c@ == (ContractView {
                owner_id: owner_id@,
                list_admin: Set::empty(),
                id_serie: 1,
                token_series_by_id: Map::empty(),
                vault_id: vault_id@,
                tasa_bits: 0,
            }),
    {
        Contract {
            owner_id,
            list_admin: VecSet::new(),
            id_serie: 1,
            token_series_by_id: VecMap::new(),
            vault_id,
            tasa_bits: 0,
        }
    }

    fn is_admin(&self, signer: &String) -> (b: bool)
        ensures
            b == self@.is_admin(signer@),
    {
        self.owner_id == *signer || self.list_admin.contains(signer)
    }

    /// An administrator sets the account that receives the proceeds of sales.
    pub fn edit_vault(&mut self, signer: &String, account_id: String) -> (r: Result<(), NftError>)
        ensures
            self_admin_or_refused(old(self)@, final(self)@, signer@, r),
            r is Ok ==> final(self)@ == (ContractView { vault_id: account_id@, ..old(self)@ }),
    {
        if !self.is_admin(signer) {
            return Err(NftError::OnlyAdministrator);
        }
        self.vault_id = account_id;
        Ok(())
    }

    /// An administrator adds an administrator.
    pub fn add_admin(&mut self, signer: &String, account_id: String) -> (r: Result<(), NftError>)
        ensures
            self_admin_or_refused(old(self)@, final(self)@, signer@, r),
            r is Ok ==> final(self)@ == (ContractView {
                list_admin: old(self)@.list_admin.insert(account_id@),
                ..old(self)@
            }),
    {
        if !self.is_admin(signer) {
            return Err(NftError::OnlyAdministrator);
        }
        self.list_admin.insert(account_id);
        Ok(())
    }

    /// An administrator sets the dollar rate (the bits of an `f64`);
    /// `positive` says whether the rate is above zero.
    pub fn update_tasa(&mut self, signer: &String, tasa_bits: u64, positive: bool) -> (r: Result<
        u64,
        NftError,
    >)
        ensures
            !old(self)@.is_admin(signer@) ==> r == Err::<u64, NftError>(NftError::OnlyAdministrator)
                && final(self)@ == old(self)@,
            old(self)@.is_admin(signer@) && !positive ==> r == Err::<u64, NftError>(
                NftError::RateNotPositive,
            ) && final(self)@ == old(self)@,
            old(self)@.is_admin(signer@) && positive ==> r == Ok::<u64, NftError>(tasa_bits)
                && final(self)@ == (ContractView { tasa_bits, ..old(self)@ }),
    {
        if !self.is_admin(signer) {
            return Err(NftError::OnlyAdministrator);
        }
        if !positive {
            return Err(NftError::RateNotPositive);
        }
        self.tasa_bits = tasa_bits;
        Ok(self.tasa_bits)
    }

    /// The dollar rate, as the bits of an `f64`.
    pub fn get_tasa(&self) -> (r: u64)
        ensures
            r == self@.tasa_bits,
    {
        self.tasa_bits
    }

    /// An administrator makes a series under the next id; `rate_positive`
    /// says whether the stored rate is above zero, and `price_bits` is the
    /// stored price (the given price with the 5 percent surcharge).
    pub fn nft_series(
        &mut self,
        signer: &String,
        rate_positive: bool,
        token_metadata: TokenMetadata,
        price_bits: Option<u64>,
        royalty: Option<VecMap<String, u32>>,
    ) -> (r: Result<TokenSeriesJson, NftError>)
        ensures
            match old(self)@.create_series(
                signer@,
                rate_positive,
                token_metadata@,
                price_bits,
                opt_royalty_check(royalty),
                opt_royalty(royalty),
            ) {
                Ok((s, id)) => r matches Ok(j) && final(self)@ == s && j.token_series_id@ == id
                    && j.metadata@ == token_metadata@ && j.creator_id@ == signer@ && j.royalty@
                    == opt_royalty(royalty),
                Err(e) => r == Err::<TokenSeriesJson, NftError>(e) && final(self)@ == old(self)@,
            },
    {
        if !self.is_admin(signer) {
            return Err(NftError::OnlyAdministrator);
        }
        if !rate_positive {
            return Err(NftError::RateRequired);
        }
        let token_series_id = to_decimal(self.id_serie);
        if self.token_series_by_id.contains_key(&token_series_id) {
            return Err(NftError::DuplicateSeries);
        }
        if token_metadata.title.is_none() {
            return Err(NftError::TitleRequired);
        }
        let royalty_res: VecMap<String, u32> = match royalty {
            Some(r) => {
                check_royalty(&r)?;
                r
            },
            None => VecMap::new(),
        };
        if self.id_serie == u128::MAX {
            return Err(NftError::Overflow);
        }
        let series = TokenSeries {
            metadata: token_metadata.duplicate(),
            creator_id: signer.clone(),
            tokens: VecSet::new(),
            price_bits,
            is_mintable: true,
            royalty: royalty_res.duplicate(),
        };
        self.token_series_by_id.insert(token_series_id.clone(), series);
        self.id_serie = self.id_serie + 1;
        Ok(
            TokenSeriesJson {
                token_series_id,
                metadata: token_metadata,
                creator_id: signer.clone(),
                royalty: royalty_res,
            },
        )
    }

    /// An administrator changes a series: the fields given replace the old
    /// ones; `price` is the new stored price where a price was given (`None`
    /// inside for a price not above zero), which needs a mintable series.
    pub fn update_nft_series(
        &mut self,
        signer: &String,
        token_series_id: String,
        title: Option<String>,
        description: Option<String>,
        media: Option<String>,
        price: Option<Option<u64>>,
        extra: Option<String>,
        royalty: Option<VecMap<String, u32>>,
    ) -> (r: Result<TokenSeriesJson, NftError>)
        ensures
            ({
                let old_s = old(self)@;
                let id = token_series_id@;
                if !old_s.is_admin(signer@) {
                    r == Err::<TokenSeriesJson, NftError>(NftError::OnlyAdministrator)
                        && final(self)@ == old_s
                } else if !old_s.token_series_by_id.contains_key(id) {
                    r == Err::<TokenSeriesJson, NftError>(NftError::SeriesIdNotExist)
                        && final(self)@ == old_s
                } else if price is Some && !old_s.token_series_by_id[id].is_mintable {
                    r == Err::<TokenSeriesJson, NftError>(NftError::NotMintable) && final(self)@
                        == old_s
                } else if opt_royalty_check(royalty) is Err {
                    r == Err::<TokenSeriesJson, NftError>(opt_royalty_check(royalty)->Err_0)
                        && final(self)@ == old_s
                } else {
                    let s = ContractView::updated_series(
                        old_s.token_series_by_id[id],
                        opt_text(title),
                        opt_text(description),
                        opt_text(media),
                        price,
                        opt_text(extra),
                        match royalty {
                            Some(m) => Some(m@),
                            None => None,
                        },
                    );
                    r matches Ok(j) && final(self)@ == (ContractView {
                        token_series_by_id: old_s.token_series_by_id.insert(id, s),
                        ..old_s
                    }) && j.token_series_id@ == id && j.metadata@ == s.metadata && j.creator_id@
                        == s.creator_id && j.royalty@ == s.royalty
                }
            }),
    {
        if !self.is_admin(signer) {
            return Err(NftError::OnlyAdministrator);
        }
        let mut nft_serie = match self.token_series_by_id.get(&token_series_id) {
            Some(s) => s.duplicate(),
            None => {
                return Err(NftError::SeriesIdNotExist);
            },
        };
        if title.is_some() {
            nft_serie.metadata.title = title;
        }
        if description.is_some() {
            nft_serie.metadata.description = description;
        }
        if media.is_some() {
            nft_serie.metadata.media = media;
        }
        match price {
            Some(p) => {
                if !nft_serie.is_mintable {
                    return Err(NftError::NotMintable);
                }
                nft_serie.price_bits = p;
            },
            None => {},
        }
        if extra.is_some() {
            nft_serie.metadata.extra = extra;
        }
        match royalty {
            Some(r) => {
                check_royalty(&r)?;
                nft_serie.royalty = r;
            },
            None => {},
        }
        let json = TokenSeriesJson {
            token_series_id: token_series_id.clone(),
            metadata: nft_serie.metadata.duplicate(),
            creator_id: nft_serie.creator_id.clone(),
            royalty: nft_serie.royalty.duplicate(),
        };
        self.token_series_by_id.insert(token_series_id, nft_serie);
        Ok(json)
    }

    /// Mints the next copy of series `token_series_id` for `receiver_id` at
    /// time `now`.
    fn internal_mint_series(&mut self, token_series_id: &String, receiver_id: &String, now: u64) -> (r:
        Result<MintedToken, NftError>)
        ensures
            match old(self)@.mint_series(token_series_id@, now) {
                Ok((s, id, m)) => r matches Ok(t) && final(self)@ == s && t.token_id@ == id
                    && t.owner_id@ == receiver_id@ && t.metadata@ == m,
                Err(e) => r == Err::<MintedToken, NftError>(e) && final(self)@ == old(self)@,
            },
    {
        let mut token_series = match self.token_series_by_id.get(token_series_id) {
            Some(s) => s.duplicate(),
            None => {
                return Err(NftError::SeriesNotExist);
            },
        };
        let token = token_series.mint_copy(token_series_id, receiver_id, now)?;
        self.token_series_by_id.insert(token_series_id.clone(), token_series);
        Ok(token)
    }

    /// The creator of a series mints its next copy for `receiver_id`.
    pub fn nft_mint(
        &mut self,
        token_series_id: &String,
        receiver_id: &String,
        predecessor: &String,
        now: u64,
    ) -> (r: Result<MintedToken, NftError>)
        ensures
            ({
                let old_s = old(self)@;
                let id = token_series_id@;
                if !old_s.token_series_by_id.contains_key(id) {
                    r == Err::<MintedToken, NftError>(NftError::SeriesNotExist) && final(self)@
                        == old_s
                } else if predecessor@ != old_s.token_series_by_id[id].creator_id {
                    r == Err::<MintedToken, NftError>(NftError::NotCreator) && final(self)@
                        == old_s
                } else {
                    match old_s.mint_series(id, now) {
                        Ok((s, tid, m)) => r matches Ok(t) && final(self)@ == s && t.token_id@
                            == tid && t.owner_id@ == receiver_id@ && t.metadata@ == m,
                        Err(e) => r == Err::<MintedToken, NftError>(e) && final(self)@ == old_s,
                    }
                }
            }),
    {
        let creator = match self.token_series_by_id.get(token_series_id) {
            Some(s) => s.creator_id.clone(),
            None => {
                return Err(NftError::SeriesNotExist);
            },
        };
        if *predecessor != creator {
            return Err(NftError::NotCreator);
        }
        self.internal_mint_series(token_series_id, receiver_id, now)
    }

    /// Mints `nft_quantity` copies (none when not positive, at most forty)
    /// for `receiver_id`; the creator or an administrator may.
    pub fn nft_mint_for(
        &mut self,
        token_series_id: &String,
        nft_quantity: i64,
        receiver_id: &String,
        predecessor: &String,
        signer: &String,
        now: u64,
    ) -> (r: Result<Vec<MintedToken>, NftError>)
        ensures
            ({
                let old_s = old(self)@;
                let id = token_series_id@;
                let n: nat = if nft_quantity > 0 {
                    nft_quantity as nat
                } else {
                    0
                };
                if !old_s.token_series_by_id.contains_key(id) {
                    r == Err::<Vec<MintedToken>, NftError>(NftError::SeriesNotExist)
                        && final(self)@ == old_s
                } else if nft_quantity > 40 {
                    r == Err::<Vec<MintedToken>, NftError>(NftError::TooManyMints)
                        && final(self)@ == old_s
                } else if !(predecessor@ == old_s.token_series_by_id[id].creator_id
                    || old_s.is_admin(signer@)) {
                    r == Err::<Vec<MintedToken>, NftError>(NftError::OnlyAdministrator)
                        && final(self)@ == old_s
                } else {
                    match old_s.token_series_by_id[id].mint_many(id, now, n) {
                        Ok((s, copies)) => r matches Ok(tokens) && final(self)@ == (ContractView {
                            token_series_by_id: old_s.token_series_by_id.insert(id, s),
                            ..old_s
                        }) && tokens@.len() == n && forall|k: int|
                            0 <= k < n ==> #[trigger] tokens@[k].token_id@ == copies[k].0
                                && tokens@[k].metadata@ == copies[k].1 && tokens@[k].owner_id@
                                == receiver_id@,
                        Err(e) => r == Err::<Vec<MintedToken>, NftError>(e) && final(self)@
                            == old_s,
                    }
                }
            }),
    {
        let mut token_series = match self.token_series_by_id.get(token_series_id) {
            Some(s) => s.duplicate(),
            None => {
                return Err(NftError::SeriesNotExist);
            },
        };
        if nft_quantity > 40 {
            return Err(NftError::TooManyMints);
        }
        if !(*predecessor == token_series.creator_id || self.is_admin(signer)) {
            return Err(NftError::OnlyAdministrator);
        }
        let ghost start = token_series@;
        let ghost sid = token_series_id@;
        let mut tokens: Vec<MintedToken> = Vec::new();
        let mut i: i64 = 0;
        #[verifier::loop_isolation(false)]
        while i < nft_quantity
            invariant
                0 <= i,
                nft_quantity <= 40,
                i <= nft_quantity || i == 0,
                sid == token_series_id@,
                start.mint_many(sid, now, i as nat) is Ok,
                token_series@ == start.mint_many(sid, now, i as nat)->Ok_0.0,
                start.mint_many(sid, now, i as nat)->Ok_0.1.len() == i,
                tokens@.len() == i,
                forall|k: int|
                    0 <= k < i ==> {
                        let copy = start.mint_many(sid, now, i as nat)->Ok_0.1[k];
                        &&& #[trigger] tokens@[k].token_id@ == copy.0
                        &&& tokens@[k].metadata@ == copy.1
                        &&& tokens@[k].owner_id@ == receiver_id@
                    },
            decreases nft_quantity - i,
        {
            let ghost prev = start.mint_many(sid, now, i as nat);
            let ghost prev_tokens = tokens@;
            let ghost prev_i = i;
            let token = match token_series.mint_copy(token_series_id, receiver_id, now) {
                Ok(t) => t,
                Err(e) => {
                    proof {
                        let (s_prev, ids_prev) = prev->Ok_0;
                        assert(s_prev.mint(sid, now) == Err::<
                            (TokenSeriesView, Seq<char>, TokenMetadataView),
                            NftError,
                        >(e));
                        assert(start.mint_many(sid, now, (i + 1) as nat) == Err::<
                            (TokenSeriesView, Seq<(Seq<char>, TokenMetadataView)>),
                            NftError,
                        >(e));
                        lemma_mint_many_err(start, sid, now, (i + 1) as nat, nft_quantity as nat);
                    }
                    return Err(e);
                },
            };
            tokens.push(token);
            i = i + 1;
            proof {
                let (s_prev, copies_prev) = prev->Ok_0;
                let step = s_prev.mint(sid, now);
                let copies = copies_prev.push((step->Ok_0.1, step->Ok_0.2));
                assert(start.mint_many(sid, now, i as nat) == Ok::<
                    (TokenSeriesView, Seq<(Seq<char>, TokenMetadataView)>),
                    NftError,
                >((step->Ok_0.0, copies)));
                assert forall|k: int| 0 <= k < i implies {
                    let copy = copies[k];
                    &&& #[trigger] tokens@[k].token_id@ == copy.0
                    &&& tokens@[k].metadata@ == copy.1
                    &&& tokens@[k].owner_id@ == receiver_id@
                } by {
                    if k < prev_i {
                        assert(tokens@[k] == prev_tokens[k]);
                    }
                }
            }
        }
        self.token_series_by_id.insert(token_series_id.clone(), token_series);
        Ok(tokens)
    }
}

/// Whether the royalty shares of accounts other than `owner` can be computed:
/// each share fits a `u128` and their basis points fit a `u32`.
pub open spec fn others_fit(keys: Seq<Seq<char>>, values: Seq<u32>, owner: Seq<char>, balance: u128) -> bool {
    &&& forall|j: int|
        0 <= j < keys.len() && keys[j] != owner ==> #[trigger] values[j] * balance <= u128::MAX
    &&& others_total(keys, values, owner, keys.len() as int) <= u32::MAX
}

/// The shares of `balance` paid to accounts other than `owner`.
pub open spec fn others_payout(royalty: Map<Seq<char>, u32>, owner: Seq<char>, balance: u128) -> Map<
    Seq<char>,
    u128,
> {
    Map::new(
        |k: Seq<char>| royalty.contains_key(k) && k != owner,
        |k: Seq<char>| share(royalty[k] as int, balance as int) as u128,
    )
}

/// The shares of `balance` that accounts other than `owner` receive, and
/// their basis points in all.
fn others_shares(royalty: &VecMap<String, u32>, owner: &String, balance: u128) -> (r: Result<
    (VecMap<String, u128>, u32),
    NftError,
>)
    ensures
        others_fit(royalty.key_order(), royalty.value_order(), owner@, balance) ==> (r matches Ok(
            (p, t),
        ) && p@ == others_payout(royalty@, owner@, balance) && t == others_total(
            royalty.key_order(),
            royalty.value_order(),
            owner@,
            royalty.size() as int,
        )),
        !others_fit(royalty.key_order(), royalty.value_order(), owner@, balance) ==> r == Err::<
            (VecMap<String, u128>, u32),
            NftError,
        >(NftError::Overflow),
{
    proof {
        use_type_invariant(royalty);
        royalty.lemma_view();
    }
    let ghost keys = royalty.key_order();
    let ghost values = royalty.value_order();
    let n = royalty.len();
    let mut payout: VecMap<String, u128> = VecMap::new();
    let mut total: u32 = 0;
    let mut i: usize = 0;
    while i < n
        invariant
            i <= n,
            n == royalty.size(),
            keys == royalty.key_order(),
            values == royalty.value_order(),
            keys.len() == n,
            values.len() == n,
            keys.no_duplicates(),
            forall|j: int|
                0 <= j < n ==> #[trigger] royalty@.contains_key(keys[j]) && royalty@[keys[j]]
                    == values[j],
            forall|k: Seq<char>|
                #[trigger] royalty@.contains_key(k) ==> exists|j: int| 0 <= j < n && keys[j] == k,
            total == others_total(keys, values, owner@, i as int),
            forall|j: int| 0 <= j < i && keys[j] != owner@ ==> #[trigger] values[j] * balance <= u128::MAX,
            payout@ == Map::new(
                |k: Seq<char>| keys.subrange(0, i as int).contains(k) && k != owner@,
                |k: Seq<char>| share(royalty@[k] as int, balance as int) as u128,
            ),
        decreases n - i,
    {
        let key = royalty.key_at(i);
        let value = *royalty.value_at(i);
        let ghost prev_payout = payout@;
        assert(royalty@.contains_key(keys[i as int]));
        if *key != *owner {
            let amount = match royalty_to_payout(value, balance) {
                Ok(a) => a,
                Err(e) => {
                    return Err(e);
                },
            };
            if total > u32::MAX - value {
                proof {
                    lemma_others_total_grows(keys, values, owner@, i + 1, n as int);
                }
                return Err(NftError::Overflow);
            }
            payout.insert(key.clone(), amount);
            total = total + value;
        }
        i = i + 1;
        proof {
            broadcast use vstd::seq_lib::group_seq_properties;
            assert(keys.subrange(0, i as int) =~= keys.subrange(0, i - 1).push(keys[i - 1]));
            assert(payout@ =~= Map::new(
                |k: Seq<char>| keys.subrange(0, i as int).contains(k) && k != owner@,
                |k: Seq<char>| share(royalty@[k] as int, balance as int) as u128,
            ));
        }
    }
    proof {
        assert(keys.subrange(0, n as int) =~= keys);
        assert(payout@ =~= others_payout(royalty@, owner@, balance)) by {
            assert forall|k: Seq<char>| #[trigger] keys.contains(k) == royalty@.contains_key(k) by {
                if royalty@.contains_key(k) {
                    let j = choose|j: int| 0 <= j < n && keys[j] == k;
                    assert(keys.contains(k));
                }
            }
        }
    }
    Ok((payout, total))
}

impl Contract {
    /// The stored price (bits of an `f64`) of a series.
    pub fn series_price_bits(&self, token_series_id: &String) -> (r: Result<Option<u64>, NftError>)
        ensures
            self@.token_series_by_id.contains_key(token_series_id@) ==> r == Ok::<
                Option<u64>,
                NftError,
            >(self@.token_series_by_id[token_series_id@].price_bits),
            !self@.token_series_by_id.contains_key(token_series_id@) ==> r == Err::<
                Option<u64>,
                NftError,
            >(NftError::MissingValue),
    {
        match self.token_series_by_id.get(token_series_id) {
            Some(s) => Ok(s.price_bits),
            None => Err(NftError::MissingValue),
        }
    }

    /// The price (bits of an `f64`) of a series for sale.
    pub fn buy_price_bits(&self, token_series_id: &String) -> (r: Result<u64, NftError>)
        ensures
            !self@.token_series_by_id.contains_key(token_series_id@) ==> r == Err::<u64, NftError>(
                NftError::SeriesNotExist,
            ),
            self@.token_series_by_id.contains_key(token_series_id@) ==> match self@.token_series_by_id[token_series_id@].price_bits {
                Some(p) => r == Ok::<u64, NftError>(p),
                None => r == Err::<u64, NftError>(NftError::NotForSale),
            },
    {
        match self.token_series_by_id.get(token_series_id) {
            Some(s) => match s.price_bits {
                Some(p) => Ok(p),
                None => Err(NftError::NotForSale),
            },
            None => Err(NftError::SeriesNotExist),
        }
    }

    /// Buys the next copy of a series for `receiver_id` (the predecessor when
    /// none is given) with `attached_deposit`; `price_yocto` is the price in
    /// yoctoNEAR at the stored rate, and the deposit must cover it plus the
    /// margin.  Returns the token and the amount that goes to the vault.
    pub fn nft_buy(
        &mut self,
        token_series_id: &String,
        receiver_id: Option<String>,
        predecessor: &String,
        attached_deposit: u128,
        price_yocto: u128,
        now: u64,
    ) -> (r: Result<(MintedToken, u128), NftError>)
        ensures
            ({
                let old_s = old(self)@;
                let id = token_series_id@;
                let receiver = match receiver_id {
                    Some(x) => x@,
                    None => predecessor@,
                };
                let due = price_yocto + PURCHASE_MARGIN;
                if !old_s.token_series_by_id.contains_key(id) {
                    r == Err::<(MintedToken, u128), NftError>(NftError::SeriesNotExist)
                        && final(self)@ == old_s
                } else if old_s.token_series_by_id[id].price_bits is None {
                    r == Err::<(MintedToken, u128), NftError>(NftError::NotForSale)
                        && final(self)@ == old_s
                } else if receiver_id is Some && !valid_account_id(receiver) {
                    r == Err::<(MintedToken, u128), NftError>(NftError::InvalidRoyaltyAccount)
                        && final(self)@ == old_s
                } else if due > u128::MAX {
                    r == Err::<(MintedToken, u128), NftError>(NftError::Overflow) && final(self)@
                        == old_s
                } else if attached_deposit < due {
                    r == Err::<(MintedToken, u128), NftError>(
                        NftError::DepositBelowPrice(due as u128),
                    ) && final(self)@ == old_s
                } else {
                    match old_s.mint_series(id, now) {
                        Ok((s, tid, m)) => r matches Ok((t, paid)) && final(self)@ == s
                            && t.token_id@ == tid && t.owner_id@ == receiver && t.metadata@ == m
                            && paid == price_yocto,
                        Err(e) => r == Err::<(MintedToken, u128), NftError>(e) && final(self)@
                            == old_s,
                    }
                }
            }),
    {
        match self.token_series_by_id.get(token_series_id) {
            Some(s) => if s.price_bits.is_none() {
                return Err(NftError::NotForSale);
            },
            None => {
                return Err(NftError::SeriesNotExist);
            },
        }
        let receiver = match receiver_id {
            Some(x) => {
                if !is_valid_account_id(&x) {
                    return Err(NftError::InvalidRoyaltyAccount);
                }
                x
            },
            None => predecessor.clone(),
        };
        if price_yocto > u128::MAX - PURCHASE_MARGIN {
            return Err(NftError::Overflow);
        }
        let due = price_yocto + PURCHASE_MARGIN;
        if attached_deposit < due {
            return Err(NftError::DepositBelowPrice(due));
        }
        let token = self.internal_mint_series(token_series_id, &receiver, now)?;
        Ok((token, price_yocto))
    }

    /// How many copies of a series are left to mint.
    pub fn get_nft_series_copies_availables(&self, token_series_id: &String) -> (r: Result<
        u64,
        NftError,
    >)
        ensures
            !self@.token_series_by_id.contains_key(token_series_id@) ==> r == Err::<u64, NftError>(
                NftError::SeriesDoesNotExist,
            ),
            self@.token_series_by_id.contains_key(token_series_id@) ==> ({
                let s = self@.token_series_by_id[token_series_id@];
                match s.metadata.copies {
                    None => r == Err::<u64, NftError>(NftError::MissingValue),
                    Some(c) => if c < s.tokens.len() {
                        r == Err::<u64, NftError>(NftError::Overflow)
                    } else {
                        r == Ok::<u64, NftError>((c - s.tokens.len()) as u64)
                    },
                }
            }),
    {
        let token_series = match self.token_series_by_id.get(token_series_id) {
            Some(s) => s,
            None => {
                return Err(NftError::SeriesDoesNotExist);
            },
        };
        let copies = match token_series.metadata.copies {
            Some(c) => c,
            None => {
                return Err(NftError::MissingValue);
            },
        };
        let minted = token_series.tokens.len() as u64;
        if copies < minted {
            return Err(NftError::Overflow);
        }
        Ok(copies - minted)
    }

    /// How many copies of a series are minted.
    pub fn nft_supply_for_series(&self, token_series_id: &String) -> (r: Result<u64, NftError>)
        ensures
            !self@.token_series_by_id.contains_key(token_series_id@) ==> r == Err::<u64, NftError>(
                NftError::SeriesNotExist,
            ),
            self@.token_series_by_id.contains_key(token_series_id@) ==> r == Ok::<u64, NftError>(
                self@.token_series_by_id[token_series_id@].tokens.len() as u64,
            ),
    {
        match self.token_series_by_id.get(token_series_id) {
            Some(s) => Ok(s.tokens.len() as u64),
            None => Err(NftError::SeriesNotExist),
        }
    }

    /// A series with the transaction fee.
    pub fn nft_get_series_single(&self, token_series_id: &String) -> (r: Result<
        TokenSeriesJson3,
        NftError,
    >)
        ensures
            !self@.token_series_by_id.contains_key(token_series_id@) ==> r is Err && r->Err_0
                == NftError::SeriesDoesNotExist,
            self@.token_series_by_id.contains_key(token_series_id@) ==> (r matches Ok(j)
                && j.token_series_id@ == token_series_id@ && j.metadata@
                == self@.token_series_by_id[token_series_id@].metadata && j.creator_id@
                == self@.token_series_by_id[token_series_id@].creator_id && j.royalty@
                == self@.token_series_by_id[token_series_id@].royalty && j.transaction_fee
                == CURRENT_TRANSACTION_FEE),
    {
        match self.token_series_by_id.get(token_series_id) {
            Some(s) => Ok(
                TokenSeriesJson3 {
                    token_series_id: token_series_id.clone(),
                    metadata: s.metadata.duplicate(),
                    creator_id: s.creator_id.clone(),
                    royalty: s.royalty.duplicate(),
                    transaction_fee: CURRENT_TRANSACTION_FEE,
                },
            ),
            None => Err(NftError::SeriesDoesNotExist),
        }
    }

    /// The royalties of the series of a token.
    pub fn royalty_of_token(&self, token_id: &String) -> (r: Result<VecMap<String, u32>, NftError>)
        ensures
            match self@.series_of_token(token_id@) {
                Some(s) => r matches Ok(m) && m@ == s.royalty,
                None => r == Err::<VecMap<String, u32>, NftError>(NftError::MissingValue),
            },
    {
        let series_id = series_id_of(token_id);
        match self.token_series_by_id.get(&series_id) {
            Some(s) => Ok(s.royalty.duplicate()),
            None => Err(NftError::MissingValue),
        }
    }

    /// The payout of a sale of `token_id`, owned by `owner_id`, at `balance`:
    /// each royalty account other than the owner gets its share, the owner
    /// the rest of the 10000 basis points.
    pub fn nft_payout(
        &self,
        owner_id: &String,
        token_id: &String,
        balance: u128,
        max_len_payout: u32,
    ) -> (r: Result<Payout, NftError>)
        ensures
            match self@.series_of_token(token_id@) {
                None => r is Err && r->Err_0 == NftError::NoType,
                Some(_) => {
                    let royalty = self@.token_series_by_id[series_part(token_id@)];
                    let ghost_keys = royalty_keys(self, token_id@);
                    let ghost_values = royalty_values(self, token_id@);
                    let total = others_total(
                        ghost_keys,
                        ghost_values,
                        owner_id@,
                        ghost_keys.len() as int,
                    );
                    if #[verifier::truncate] (ghost_keys.len() as u32) > max_len_payout {
                        r is Err && r->Err_0 == NftError::TooManyReceivers
                    } else if !(others_fit(ghost_keys, ghost_values, owner_id@, balance) && total
                        <= 10000 && (10000 - total) * balance <= u128::MAX) {
                        r is Err && r->Err_0 == NftError::Overflow
                    } else {
                        r matches Ok(p) && p.payout@ == payout_map(
                            royalty.royalty,
                            owner_id@,
                            balance,
                            total,
                        )
                    }
                },
            },
    {
        let series_id = series_id_of(token_id);
        let series = match self.token_series_by_id.get(&series_id) {
            Some(s) => s,
            None => {
                return Err(NftError::NoType);
            },
        };
        proof {
            assert(series_id@ == series_part(token_id@));
            assert(*series == self.token_series_by_id.value_of(series_part(token_id@)));
        }
        if #[verifier::truncate] (series.royalty.len() as u32) > max_len_payout {
            return Err(NftError::TooManyReceivers);
        }
        let (mut payout, total) = others_shares(&series.royalty, owner_id, balance)?;
        if total > 10000 {
            return Err(NftError::Overflow);
        }
        let rest = royalty_to_payout(10000 - total, balance)?;
        payout.insert(owner_id.clone(), rest);
        Ok(Payout { payout })
    }

    /// The payout of a sale at `balance`, when one is given, of `token_id`
    /// that `previous_owner_id` owned; the market must pay at least as many
    /// receivers as there are royalties.
    pub fn nft_transfer_payout(
        &self,
        previous_owner_id: &String,
        token_id: &String,
        balance: Option<u128>,
        max_len_payout: Option<u32>,
    ) -> (r: Result<Option<Payout>, NftError>)
        ensures
            match balance {
                None => r matches Ok(p) && p is None,
                Some(b) => match self@.series_of_token(token_id@) {
                    None => r is Err && r->Err_0 == NftError::NoType,
                    Some(_) => {
                        let royalty = self@.token_series_by_id[series_part(token_id@)];
                        let ghost_keys = royalty_keys(self, token_id@);
                        let ghost_values = royalty_values(self, token_id@);
                        let total = others_total(
                            ghost_keys,
                            ghost_values,
                            previous_owner_id@,
                            ghost_keys.len() as int,
                        );
                        if max_len_payout is None {
                            r is Err && r->Err_0 == NftError::MissingValue
                        } else if #[verifier::truncate] (ghost_keys.len() as u32) > max_len_payout->0 {
                            r is Err && r->Err_0 == NftError::TooManyReceivers
                        } else if !others_fit(ghost_keys, ghost_values, previous_owner_id@, b) {
                            r is Err && r->Err_0 == NftError::Overflow
                        } else if total > 10000 {
                            r is Err && r->Err_0 == NftError::TotalPayoutOverflow
                        } else if (10000 - total) * b > u128::MAX {
                            r is Err && r->Err_0 == NftError::Overflow
                        } else {
                            r matches Ok(Some(p)) && p.payout@ == payout_map(
                                royalty.royalty,
                                previous_owner_id@,
                                b,
                                total,
                            )
                        }
                    },
                },
            },
    {
        let balance = match balance {
            Some(b) => b,
            None => {
                return Ok(None);
            },
        };
        let series_id = series_id_of(token_id);
        let series = match self.token_series_by_id.get(&series_id) {
            Some(s) => s,
            None => {
                return Err(NftError::NoType);
            },
        };
        let max_len = match max_len_payout {
            Some(m) => m,
            None => {
                return Err(NftError::MissingValue);
            },
        };
        proof {
            assert(series_id@ == series_part(token_id@));
            assert(*series == self.token_series_by_id.value_of(series_part(token_id@)));
        }
        if #[verifier::truncate] (series.royalty.len() as u32) > max_len {
            return Err(NftError::TooManyReceivers);
        }
        let (mut payout, total) = others_shares(&series.royalty, previous_owner_id, balance)?;
        if total > 10000 {
            return Err(NftError::TotalPayoutOverflow);
        }
        let rest = royalty_to_payout(10000 - total, balance)?;
        payout.insert(previous_owner_id.clone(), rest);
        Ok(Some(Payout { payout }))
    }
}

/// The royalty accounts of the series of a token, in stored order.
pub open spec fn royalty_keys(c: &Contract, token_id: Seq<char>) -> Seq<Seq<char>> {
    c.token_series_by_id.value_of(series_part(token_id)).royalty.key_order()
}

/// The royalties of the series of a token, in stored order.
pub open spec fn royalty_values(c: &Contract, token_id: Seq<char>) -> Seq<u32> {
    c.token_series_by_id.value_of(series_part(token_id)).royalty.value_order()
}

/// The first place of a page that starts at `from_index` (0 when not given).
pub open spec fn page_start(from_index: Option<u128>) -> int {
    match from_index {
        Some(f) => f as int,
        None => 0,
    }
}

/// The most items a page of `limit` holds (no bound when not given).
pub open spec fn page_limit(limit: Option<u64>) -> int {
    match limit {
        Some(l) => l as usize as int,
        None => usize::MAX as int,
    }
}

/// The end of a page of `limit` items from `start` in `len` items.
pub open spec fn page_end(start: int, lim: int, len: int) -> int {
    if start + lim < len {
        start + lim
    } else {
        len
    }
}

/// The places `start..end` of a page of `len` items from `from_index`, at
/// most `limit` of them: refused when the start is past the last item or the
/// limit is zero.
pub fn page_range(len: usize, from_index: Option<u128>, limit: Option<u64>) -> (r: Result<
    (usize, usize),
    NftError,
>)
    ensures
        ({
            let start = page_start(from_index);
            let lim = page_limit(limit);
            if len <= start {
                r == Err::<(usize, usize), NftError>(NftError::OutOfBounds)
            } else if lim == 0 {
                r == Err::<(usize, usize), NftError>(NftError::ZeroLimit)
            } else {
                r == Ok::<(usize, usize), NftError>(
                    (start as usize, page_end(start, lim, len as int) as usize),
                )
            }
        }),
{
    let start_index: u128 = match from_index {
        Some(f) => f,
        None => 0,
    };
    if !(len as u128 > start_index) {
        return Err(NftError::OutOfBounds);
    }
    let lim: usize = match limit {
        Some(l) => l as usize,
        None => usize::MAX,
    };
    if lim == 0 {
        return Err(NftError::ZeroLimit);
    }
    let start = start_index as usize;
    let end: usize = if lim < len - start {
        start + lim
    } else {
        len
    };
    Ok((start, end))
}

/// A price quoted for a listing: the price in yoctoNEAR plus the listing
/// margin.
pub fn price_with_margin(price_yocto: u128) -> (r: Result<u128, NftError>)
    ensures
        price_yocto + LISTING_MARGIN <= u128::MAX ==> r == Ok::<u128, NftError>(
            (price_yocto + LISTING_MARGIN) as u128,
        ),
        price_yocto + LISTING_MARGIN > u128::MAX ==> r == Err::<u128, NftError>(NftError::Overflow),
{
    if price_yocto > u128::MAX - LISTING_MARGIN {
        Err(NftError::Overflow)
    } else {
        Ok(price_yocto + LISTING_MARGIN)
    }
}

impl Contract {
    /// A page of the series in the order they were made: from `from_index`
    /// (0 when not given), at most `limit` of them (no bound when not given).
    pub fn get_nft_series(&self, from_index: Option<u128>, limit: Option<u64>) -> (r: Result<
        Vec<TokenSeriesJson2>,
        NftError,
    >)
        ensures
            ({
                let start = page_start(from_index);
                let len = self.token_series_by_id.size() as int;
                let lim = page_limit(limit);
                let end = page_end(start, lim, len);
                if len <= start {
                    r == Err::<Vec<TokenSeriesJson2>, NftError>(NftError::OutOfBounds)
                } else if lim == 0 {
                    r == Err::<Vec<TokenSeriesJson2>, NftError>(NftError::ZeroLimit)
                } else {
                    r matches Ok(v) && v@.len() == end - start && forall|k: int|
                        0 <= k < end - start ==> {
                            let s = #[trigger] self.token_series_by_id.value_order()[start + k];
                            &&& v@[k].token_series_id@ == self.token_series_by_id.key_order()[start
                                + k]
                            &&& v@[k].metadata@ == s.metadata
                            &&& v@[k].creator_id@ == s.creator_id
                            &&& v@[k].price_usd_bits == s.price_bits
                            &&& v@[k].is_mintable == s.is_mintable
                            &&& v@[k].royalty@ == s.royalty
                        }
                }
            }),
    {
        let len = self.token_series_by_id.len();
        let (start, end) = page_range(len, from_index, limit)?;
        let mut page: Vec<TokenSeriesJson2> = Vec::new();
        let mut i: usize = start;
        while i < end
            invariant
                start <= i <= end,
                end <= len,
                len == self.token_series_by_id.size(),
                len == self.token_series_by_id.key_order().len(),
                len == self.token_series_by_id.value_order().len(),
                page@.len() == i - start,
                forall|k: int|
                    0 <= k < i - start ==> {
                        let s = #[trigger] self.token_series_by_id.value_order()[start + k];
                        &&& page@[k].token_series_id@ == self.token_series_by_id.key_order()[start
                            + k]
                        &&& page@[k].metadata@ == s.metadata
                        &&& page@[k].creator_id@ == s.creator_id
                        &&& page@[k].price_usd_bits == s.price_bits
                        &&& page@[k].is_mintable == s.is_mintable
                        &&& page@[k].royalty@ == s.royalty
                    },
            decreases end - i,
        {
            let series = self.token_series_by_id.value_at(i);
            let ghost prev = page@;
            page.push(
                TokenSeriesJson2 {
                    token_series_id: self.token_series_by_id.key_at(i).clone(),
                    metadata: series.metadata.duplicate(),
                    creator_id: series.creator_id.clone(),
                    price_usd_bits: series.price_bits,
                    is_mintable: series.is_mintable,
                    royalty: series.royalty.duplicate(),
                },
            );
            proof {
                assert forall|k: int| 0 <= k < i + 1 - start implies {
                    let s = #[trigger] self.token_series_by_id.value_order()[start + k];
                    &&& page@[k].token_series_id@ == self.token_series_by_id.key_order()[start + k]
                    &&& page@[k].metadata@ == s.metadata
                    &&& page@[k].creator_id@ == s.creator_id
                    &&& page@[k].price_usd_bits == s.price_bits
                    &&& page@[k].is_mintable == s.is_mintable
                    &&& page@[k].royalty@ == s.royalty
                } by {
                    if k < i - start {
                        assert(page@[k] == prev[k]);
                    }
                }
            }
            i = i + 1;
        }
        Ok(page)
    }
}

/// A call that needs an administrator: refused with the state unchanged when
/// `signer` is not one.
pub open spec fn self_admin_or_refused(
    old_state: ContractView,
    new_state: ContractView,
    signer: Seq<char>,
    r: Result<(), NftError>,
) -> bool {
    !old_state.is_admin(signer) ==> r == Err::<(), NftError>(NftError::OnlyAdministrator)
        && new_state == old_state
}

} // verus!
