use vstd::prelude::*;

use crate::accounts::{
    CancelListing, CancelListingV2, CreateListing, FulfillListing, FulfillListingV2, FundInvoice,
    FundInvoiceFractional, SetSettled,
};
use crate::address::Address;
use crate::error::InvoiceError;
use crate::funding::{
    accepts_funding, fund_fractional_failure, fund_fractional_ops, fund_ops, funded_invoice,
    funding_outcome, within_face,
};
use crate::market::{
    cancel_failure, cancel_ops, closed_listing, create_listing_ops, fulfill_account_failure,
    fulfill_failure, fulfill_ops, quantity_available, traded_listing,
};
use crate::market_v2::{
    cancel_v2_failure, cancel_v2_ops, fulfill_v2_account_failure, fulfill_v2_failure, fulfill_v2_ops,
};
use crate::ops::{minted, TokenOp};
use crate::settlement::{settle_failure, settle_ops, settled_invoice};
use crate::state::{status_rank, Invoice, InvoiceStatus, Listing};

verus! {

/// Funding never passes the face amount. Along any run of contributions
/// (direct or fractional, each one either refused or recorded, as the two
/// funding instructions guarantee) that starts within the face amount,
/// every state stays within it, and a contribution that would pass it
/// leaves the invoice as it was.
pub proof fn funding_stays_within_face(
    states: Seq<Invoice>,
    amounts: Seq<u64>,
    investors: Seq<Address>,
)
    requires
        states.len() == amounts.len() + 1,
        investors.len() == amounts.len(),
        states[0].funded_amount <= states[0].amount,
        forall|i: int|
            0 <= i < amounts.len() ==> funding_outcome(
                #[trigger] states[i],
                states[i + 1],
                amounts[i],
                investors[i],
            ),
    ensures
        forall|i: int| 0 <= i < states.len() ==> #[trigger] states[i].funded_amount <= states[i].amount,
        forall|i: int|
            0 <= i < amounts.len() && !within_face(#[trigger] states[i], amounts[i]) ==> states[i + 1]
                == states[i],
    decreases amounts.len(),
{
    if amounts.len() > 0 {
        let n = amounts.len() - 1;
        funding_stays_within_face(states.drop_last(), amounts.drop_last(), investors.drop_last());
        assert(states.drop_last()[n] == states[n]);
        assert(funding_outcome(states[n], states[n + 1], amounts[n], investors[n]));
        assert forall|i: int| 0 <= i < states.len() implies #[trigger] states[i].funded_amount
            <= states[i].amount by {
            if i < n + 1 {
                assert(states.drop_last()[i] == states[i]);
            }
        }
        assert forall|i: int|
            0 <= i < amounts.len() && !within_face(#[trigger] states[i], amounts[i]) implies states[i
                + 1] == states[i] by {
            if i < n {
                assert(states.drop_last()[i] == states[i]);
                assert(states.drop_last()[i + 1] == states[i + 1]);
                assert(amounts.drop_last()[i] == amounts[i]);
            }
        }
    }
}

/// The lifecycle only moves forward: a recorded contribution leaves an
/// Open or Funded invoice Funded, and a settlement moves a Funded invoice
/// to Settled, after which no contribution or settlement is accepted.
pub proof fn status_only_advances(invoice: Invoice, amount: u64, investor: Address, s: SetSettled, settled: u64)
    ensures
        accepts_funding(invoice) ==> status_rank(invoice.status) <= status_rank(
            funded_invoice(invoice, amount, investor).status,
        ),
        settle_failure(s, settled) is None ==> status_rank(s.invoice.status) < status_rank(
            settled_invoice(s.invoice).status,
        ),
        !accepts_funding(invoice) <==> invoice.status == InvoiceStatus::Settled,
        s.invoice.status == InvoiceStatus::Settled ==> settle_failure(s, settled) is Some,
{
}

/// What is listed only shrinks: a trade of an available quantity lowers
/// the remaining quantity by exactly that much, and a withdrawal leaves
/// nothing.
pub proof fn listed_quantity_only_shrinks(listing: Listing, qty: u64)
    ensures
        quantity_available(listing, qty) ==> traded_listing(listing, qty).remaining_qty
            == listing.remaining_qty - qty < listing.remaining_qty,
        closed_listing(listing).remaining_qty == 0 <= listing.remaining_qty,
{
}

/// Sum of a sequence of amounts.
pub open spec fn total_of(amounts: Seq<u64>) -> int
    decreases amounts.len(),
{
    if amounts.len() == 0 {
        0
    } else {
        total_of(amounts.drop_last()) + amounts.last()
    }
}

/// The operations of a run of fractional contributions, one after another.
pub open spec fn fractional_run_ops(calls: Seq<FundInvoiceFractional>, amounts: Seq<u64>) -> Seq<
    TokenOp,
>
    decreases calls.len(),
{
    if calls.len() == 0 || amounts.len() == 0 {
        seq![]
    } else {
        fractional_run_ops(calls.drop_last(), amounts.drop_last()) + fund_fractional_ops(
            calls.last(),
            amounts.last(),
        )
    }
}

/// Units minted by two batches of operations in turn add up.
pub proof fn minted_concat(a: Seq<TokenOp>, b: Seq<TokenOp>, mint: Address)
    ensures
        minted(a + b, mint) == minted(a, mint) + minted(b, mint),
    decreases b.len(),
{
    if b.len() > 0 {
        assert((a + b).drop_last() =~= a + b.drop_last());
        minted_concat(a, b.drop_last(), mint);
    }
}

/// The claim currency's supply follows fractional funding exactly: over
/// any run of successful fractional contributions to an invoice whose
/// claim currency is `mint`, the units minted equal the sum of the amounts
/// contributed.
pub proof fn claim_supply_tracks_fractional_funding(
    calls: Seq<FundInvoiceFractional>,
    amounts: Seq<u64>,
    mint: Address,
)
    requires
        calls.len() == amounts.len(),
        forall|i: int|
            0 <= i < calls.len() ==> fund_fractional_failure(#[trigger] calls[i], amounts[i]) is None,
        forall|i: int| 0 <= i < calls.len() ==> (#[trigger] calls[i]).invoice.shares_mint == mint,
    ensures
        minted(fractional_run_ops(calls, amounts), mint) == total_of(amounts),
    decreases calls.len(),
{
    if calls.len() > 0 {
        let n = calls.len() - 1;
        let c = calls[n];
        claim_supply_tracks_fractional_funding(calls.drop_last(), amounts.drop_last(), mint);
        assert(fund_fractional_failure(c, amounts[n]) is None);
        assert(c.shares_mint == mint);
        minted_concat(
            fractional_run_ops(calls.drop_last(), amounts.drop_last()),
            fund_fractional_ops(c, amounts[n]),
            mint,
        );
        let ops = fund_fractional_ops(c, amounts[n]);
        assert(ops.drop_last().drop_last() =~= Seq::<TokenOp>::empty());
        assert(minted(ops.drop_last().drop_last(), mint) == 0);
        assert(ops.drop_last().last() == ops[0]);
        assert(minted(ops.drop_last(), mint) == 0);
        assert(minted(ops, mint) == amounts[n]);
    }
}

/// Whether no operation in `ops` creates units of any currency.
pub open spec fn mints_nothing(ops: Seq<TokenOp>) -> bool {
    forall|i: int| 0 <= i < ops.len() ==> !(#[trigger] ops[i] is MintTo)
}

/// A batch without mint operations creates no units of any currency.
pub proof fn minted_without_mints(ops: Seq<TokenOp>, mint: Address)
    requires
        mints_nothing(ops),
    ensures
        minted(ops, mint) == 0,
    decreases ops.len(),
{
    if ops.len() > 0 {
        assert(ops.last() == ops[ops.len() - 1]);
        minted_without_mints(ops.drop_last(), mint);
    }
}

/// Only fractional funding creates claim units: funding directly, settling,
/// listing, trading and withdrawing listings, in either market, mint
/// nothing of any currency.
pub proof fn only_fractional_funding_mints(
    fund: FundInvoice,
    amount: u64,
    settle: SetSettled,
    settled: u64,
    list: CreateListing,
    trade: FulfillListing,
    trade_v2: FulfillListingV2,
    qty: u64,
    total: u64,
    cancel: CancelListing,
    cancel_v2: CancelListingV2,
    mint: Address,
)
    ensures
        minted(fund_ops(fund, amount), mint) == 0,
        minted(settle_ops(settle, settled), mint) == 0,
        minted(create_listing_ops(list, qty), mint) == 0,
        minted(fulfill_ops(trade, qty, total), mint) == 0,
        minted(fulfill_v2_ops(trade_v2, qty, total), mint) == 0,
        minted(cancel_ops(cancel), mint) == 0,
        minted(cancel_v2_ops(cancel_v2), mint) == 0,
{
    minted_without_mints(fund_ops(fund, amount), mint);
    minted_without_mints(settle_ops(settle, settled), mint);
    minted_without_mints(create_listing_ops(list, qty), mint);
    minted_without_mints(fulfill_ops(trade, qty, total), mint);
    minted_without_mints(fulfill_v2_ops(trade_v2, qty, total), mint);
    minted_without_mints(cancel_ops(cancel), mint);
    minted_without_mints(cancel_v2_ops(cancel_v2), mint);
}

/// A withdrawn custodial listing cannot be traded: after a successful
/// cancel, every trade on the same listing is refused, and once the
/// accounts are in order the refusal is `InsufficientEscrow`.
pub proof fn canceled_listing_not_tradeable(c: CancelListing, f: FulfillListing, qty: u64)
    requires
        cancel_failure(c) is None,
        f.listing == closed_listing(c.listing),
    ensures
        fulfill_failure(f, qty) is Some,
        fulfill_account_failure(f) is None ==> fulfill_failure(f, qty) == Some(
            InvoiceError::InsufficientEscrow,
        ),
{
}

/// A withdrawn allowance-based listing cannot be traded: after a
/// successful cancel, every trade on the same listing is refused, and once
/// the accounts are in order the refusal is `InsufficientEscrow`.
pub proof fn canceled_listing_v2_not_tradeable(c: CancelListingV2, f: FulfillListingV2, qty: u64)
    requires
        cancel_v2_failure(c) is None,
        f.listing == closed_listing(c.listing),
    ensures
        fulfill_v2_failure(f, qty) is Some,
        fulfill_v2_account_failure(f) is None ==> fulfill_v2_failure(f, qty) == Some(
            InvoiceError::InsufficientEscrow,
        ),
{
}

} // verus!
