//! Invoice financing: registration, escrowed funding, fractional claims,
//! settlement and two secondary markets, as verified state transitions.
//!
//! Each instruction takes the accounts it reads and writes, checks them,
//! updates the program's own records in place and returns the token-ledger
//! operations that the host must perform for the instruction to take effect.

pub mod accounts;
pub mod address;
pub mod authority;
pub mod config;
pub mod error;
pub mod funding;
pub mod laws;
pub mod market;
pub mod market_v2;
pub mod ops;
pub mod pricing;
pub mod registry;
pub mod settlement;
pub mod state;

pub use accounts::{
    CancelListing, CancelListingV2, CreateEscrow, CreateListing, CreateListingV2, FulfillListing,
    FulfillListingV2, FundInvoice, FundInvoiceFractional, InitConfig, InitShares, MintInvoice,
    SetSettled, UpdateConfig,
};
pub use address::Address;
pub use config::{init_config, update_config};
pub use error::InvoiceError;
pub use funding::{fund_invoice, fund_invoice_fractional};
pub use laws::{
    canceled_listing_not_tradeable, canceled_listing_v2_not_tradeable,
    claim_supply_tracks_fractional_funding, funding_stays_within_face,
    listed_quantity_only_shrinks, minted_concat, minted_without_mints,
    only_fractional_funding_mints, status_only_advances,
};
pub use market::{cancel_listing, create_listing, fulfill_listing};
pub use market_v2::{cancel_listing_v2, create_listing_v2, fulfill_listing_v2};
pub use ops::{
    Authority, ListingCanceledV1, ListingCanceledV2, ListingFulfilledV1, ListingFulfilledV2,
    TokenOp,
};
pub use pricing::{trade_total, UNIT};
pub use registry::{create_escrow, init_shares, mint_invoice, record_escrow};
pub use settlement::set_settled;
pub use state::{
    AdminConfig, Invoice, InvoiceStatus, Listing, Mint, TokenAccount, CLAIM_DECIMALS,
    METADATA_MAX_LEN,
};
