//! The NFT contract's own bookkeeping: token series with their metadata,
//! price, royalties and minted tokens, the administrators, and the payouts of
//! a sale.  The tokens themselves are kept by the NEP-171 standard
//! implementation, outside this library.

pub mod contract;
pub mod laws;
pub mod series;

use vstd::prelude::*;

use crate::dao::proposal::{duplicate_bytes, duplicate_opt_text, opt_text};
use crate::text::{decimal, to_decimal};

verus! {

/// Why a call of the NFT contract is refused.
#[derive(Clone, Copy, Debug, PartialEq, Eq, Structural)]
pub enum NftError {
    /// The signer is neither the owner nor an administrator.
    OnlyAdministrator,
    /// A new rate must be above zero.
    RateNotPositive,
    /// Series are created only once the rate is above zero.
    RateRequired,
    /// No series of this id (when updating).
    SeriesIdNotExist,
    /// No series of this id (when minting or buying).
    SeriesNotExist,
    /// No series of this id (when reading).
    SeriesDoesNotExist,
    /// No series of this id (when paying out).
    NoType,
    /// The series is closed to minting.
    NotMintable,
    /// A royalty goes to an invalid account id.
    InvalidRoyaltyAccount,
    /// More than ten royalty accounts.
    TooManyRoyaltyAccounts,
    /// Royalties above 90 percent.
    RoyaltyTooHigh,
    /// A series with the next id exists already.
    DuplicateSeries,
    /// A series needs a title.
    TitleRequired,
    /// The series has no price.
    NotForSale,
    /// The deposit is below the price plus the fee; carries the sum due.
    DepositBelowPrice(u128),
    /// Only the creator of the series mints through `nft_mint`.
    NotCreator,
    /// At most forty tokens per call.
    TooManyMints,
    /// Every copy of the series is minted.
    SupplyMaxed,
    /// More royalty receivers than the market pays.
    TooManyReceivers,
    /// Royalties above the whole balance.
    TotalPayoutOverflow,
    /// A value that must be present is missing.
    MissingValue,
    /// The start index is past the end.
    OutOfBounds,
    /// A page of zero items was asked for.
    ZeroLimit,
    /// The deposit does not pay for the storage used; carries the cost.
    StorageNotCovered(u128),
    /// A number left the range of its type.
    Overflow,
}

impl NftError {
    /// The text the contract aborts with.
    /// The text the contract aborts with, as `message` writes it.
    pub open spec fn message_text(self) -> Seq<char> {
        match self {
            NftError::OnlyAdministrator => "Only administrator"@,
            NftError::RateNotPositive => "La tasa debe ser mayor a 0"@,
            NftError::RateRequired => "Tasa debe ser mayor a 0"@,
            NftError::SeriesIdNotExist => "tonken serie id not exist"@,
            NftError::SeriesNotExist => "Token series not exist"@,
            NftError::SeriesDoesNotExist => "Series does not exist"@,
            NftError::NoType => "no type"@,
            NftError::NotMintable => "Token series is not mintable"@,
            NftError::InvalidRoyaltyAccount => "Not valid account_id for royalty"@,
            NftError::TooManyRoyaltyAccounts => "royalty exceeds 10 accounts"@,
            NftError::RoyaltyTooHigh => "Exceeds maximum royalty -> 9000"@,
            NftError::DuplicateSeries => "duplicate token_series_id"@,
            NftError::TitleRequired => "token_metadata.title is required"@,
            NftError::NotForSale => "not for sale"@,
            NftError::DepositBelowPrice(due) => "attached deposit is less than price : "@ + decimal(due as nat),
            NftError::NotCreator => "not creator"@,
            NftError::TooManyMints => "No se pueden mintear mas de 40 nft en un solo llamado"@,
            NftError::SupplyMaxed => "Series supply maxed"@,
            NftError::TooManyReceivers => "Market cannot payout to that many receivers"@,
            NftError::TotalPayoutOverflow => "Total payout overflow"@,
            NftError::MissingValue => "called `Option::unwrap()` on a `None` value"@,
            NftError::OutOfBounds => "Out of bounds, please use a smaller from_index."@,
            NftError::ZeroLimit => "Cannot provide limit of 0."@,
            NftError::StorageNotCovered(cost) => "Must attach "@ + decimal(cost as nat) + " yoctoNEAR to cover storage"@,
            NftError::Overflow => "attempt to compute with overflow"@,
        }
    }

    pub fn message(&self) -> (r: String)
        ensures
            r@ == self.message_text(),
    {
        match self {
            NftError::OnlyAdministrator => String::from_str("Only administrator"),
            NftError::RateNotPositive => String::from_str("La tasa debe ser mayor a 0"),
            NftError::RateRequired => String::from_str("Tasa debe ser mayor a 0"),
            NftError::SeriesIdNotExist => String::from_str("tonken serie id not exist"),
            NftError::SeriesNotExist => String::from_str("Token series not exist"),
            NftError::SeriesDoesNotExist => String::from_str("Series does not exist"),
            NftError::NoType => String::from_str("no type"),
            NftError::NotMintable => String::from_str("Token series is not mintable"),
            NftError::InvalidRoyaltyAccount => String::from_str("Not valid account_id for royalty"),
            NftError::TooManyRoyaltyAccounts => String::from_str("royalty exceeds 10 accounts"),
            NftError::RoyaltyTooHigh => String::from_str("Exceeds maximum royalty -> 9000"),
            NftError::DuplicateSeries => String::from_str("duplicate token_series_id"),
            NftError::TitleRequired => String::from_str("token_metadata.title is required"),
            NftError::NotForSale => String::from_str("not for sale"),
            NftError::DepositBelowPrice(due) => String::from_str(
                "attached deposit is less than price : ",
            ).concat(to_decimal(*due).as_str()),
            NftError::NotCreator => String::from_str("not creator"),
            NftError::TooManyMints => String::from_str(
                "No se pueden mintear mas de 40 nft en un solo llamado",
            ),
            NftError::SupplyMaxed => String::from_str("Series supply maxed"),
            NftError::TooManyReceivers => String::from_str(
                "Market cannot payout to that many receivers",
            ),
            NftError::TotalPayoutOverflow => String::from_str("Total payout overflow"),
            NftError::MissingValue => String::from_str("called `Option::unwrap()` on a `None` value"),
            NftError::OutOfBounds => String::from_str(
                "Out of bounds, please use a smaller from_index.",
            ),
            NftError::ZeroLimit => String::from_str("Cannot provide limit of 0."),
            NftError::StorageNotCovered(cost) => String::from_str("Must attach ").concat(
                to_decimal(*cost).as_str(),
            ).concat(" yoctoNEAR to cover storage"),
            NftError::Overflow => String::from_str("attempt to compute with overflow"),
        }
    }
}

/// The view of optional bytes.
pub open spec fn opt_bytes(o: Option<Vec<u8>>) -> Option<Seq<u8>> {
    match o {
        Some(b) => Some(b@),
        None => None,
    }
}

/// Copies optional bytes.
pub fn duplicate_opt_bytes(o: &Option<Vec<u8>>) -> (r: Option<Vec<u8>>)
    ensures
        opt_bytes(r) == opt_bytes(*o),
{
    match o {
        Some(b) => Some(duplicate_bytes(b)),
        None => None,
    }
}

/// The metadata of a token or series (NEP-177); hashes are raw bytes.
pub struct TokenMetadata {
    pub title: Option<String>,
    pub description: Option<String>,
    pub media: Option<String>,
    pub media_hash: Option<Vec<u8>>,
    pub copies: Option<u64>,
    pub issued_at: Option<String>,
    pub expires_at: Option<String>,
    pub starts_at: Option<String>,
    pub updated_at: Option<String>,
    pub extra: Option<String>,
    pub reference: Option<String>,
    pub reference_hash: Option<Vec<u8>>,
}

/// The view of a `TokenMetadata`.
pub struct TokenMetadataView {
    pub title: Option<Seq<char>>,
    pub description: Option<Seq<char>>,
    pub media: Option<Seq<char>>,
    pub media_hash: Option<Seq<u8>>,
    pub copies: Option<u64>,
    pub issued_at: Option<Seq<char>>,
    pub expires_at: Option<Seq<char>>,
    pub starts_at: Option<Seq<char>>,
    pub updated_at: Option<Seq<char>>,
    pub extra: Option<Seq<char>>,
    pub reference: Option<Seq<char>>,
    pub reference_hash: Option<Seq<u8>>,
}

impl View for TokenMetadata {
    type V = TokenMetadataView;

    open spec fn view(&self) -> TokenMetadataView {
        TokenMetadataView {
            title: opt_text(self.title),
            description: opt_text(self.description),
            media: opt_text(self.media),
            media_hash: opt_bytes(self.media_hash),
            copies: self.copies,
            issued_at: opt_text(self.issued_at),
            expires_at: opt_text(self.expires_at),
            starts_at: opt_text(self.starts_at),
            updated_at: opt_text(self.updated_at),
            extra: opt_text(self.extra),
            reference: opt_text(self.reference),
            reference_hash: opt_bytes(self.reference_hash),
        }
    }
}

impl crate::collections::Duplicate for TokenMetadata {
    fn duplicate(&self) -> (r: TokenMetadata) {
        TokenMetadata {
            title: duplicate_opt_text(&self.title),
            description: duplicate_opt_text(&self.description),
            media: duplicate_opt_text(&self.media),
            media_hash: duplicate_opt_bytes(&self.media_hash),
            copies: self.copies,
            issued_at: duplicate_opt_text(&self.issued_at),
            expires_at: duplicate_opt_text(&self.expires_at),
            starts_at: duplicate_opt_text(&self.starts_at),
            updated_at: duplicate_opt_text(&self.updated_at),
            extra: duplicate_opt_text(&self.extra),
            reference: duplicate_opt_text(&self.reference),
            reference_hash: duplicate_opt_bytes(&self.reference_hash),
        }
    }
}

/// A royalty paid on a purchase, as reported to buyers.
pub struct RoyaltyBuy {
    pub artist_id: String,
    pub porcentaje: String,
    pub amount: String,
    pub amount_usd: String,
    pub tax: String,
}

/// A token and its owner, as listed.
pub struct TokensView {
    pub owner_id: String,
    pub token_id: String,
}

} // verus!
