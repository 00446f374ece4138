use vstd::prelude::*;

use crate::address::Address;

verus! {

/// Who authorizes a ledger operation.
#[derive(Clone, Copy, Debug, PartialEq, Eq)]
pub enum Authority {
    /// A party that signs the transaction itself.
    Signer { key: Address },
    /// The keyless escrow authority of an invoice, proved by its nonce.
    Escrow { key: Address, invoice: Address, bump: u8 },
    /// The keyless market authority of a listing, proved by its nonce.
    Market { key: Address, listing: Address, bump: u8 },
}

/// An operation on the token ledger that an instruction asks the host to
/// perform, in order, as part of the same atomic unit.
#[derive(Clone, Copy, Debug, PartialEq, Eq)]
pub enum TokenOp {
    Transfer { from: Address, to: Address, authority: Authority, amount: u64 },
    /// A transfer that also names the currency and its decimals, as a
    /// delegate's transfer must.
    TransferChecked {
        from: Address,
        mint: Address,
        to: Address,
        authority: Authority,
        amount: u64,
        decimals: u8,
    },
    MintTo { mint: Address, to: Address, authority: Authority, amount: u64 },
    /// Withdraws whatever allowance `source` has delegated.
    Revoke { source: Address, owner: Address },
}

/// Units of `mint` that a batch of operations creates.
pub open spec fn minted(ops: Seq<TokenOp>, mint: Address) -> int
    decreases ops.len(),
{
    if ops.len() == 0 {
        0
    } else {
        let rest = minted(ops.drop_last(), mint);
        match ops.last() {
            TokenOp::MintTo { mint: m, amount, .. } => if m == mint {
                rest + amount
            } else {
                rest
            },
            _ => rest,
        }
    }
}

/// Record of a trade on a custodial listing.
#[derive(Clone, Copy, Debug, PartialEq, Eq)]
pub struct ListingFulfilledV1 {
    pub invoice: Address,
    pub seller: Address,
    pub buyer: Address,
    pub qty: u64,
    pub total: u64,
}

/// Record of a trade on an allowance-based listing.
#[derive(Clone, Copy, Debug, PartialEq, Eq)]
pub struct ListingFulfilledV2 {
    pub invoice: Address,
    pub seller: Address,
    pub buyer: Address,
    pub qty: u64,
    pub total: u64,
}

/// Record of a custodial listing withdrawn, with the quantity handed back.
#[derive(Clone, Copy, Debug, PartialEq, Eq)]
pub struct ListingCanceledV1 {
    pub invoice: Address,
    pub seller: Address,
    pub qty: u64,
}

/// Record of an allowance-based listing withdrawn, with the quantity that
/// was still listed.
#[derive(Clone, Copy, Debug, PartialEq, Eq)]
pub struct ListingCanceledV2 {
    pub invoice: Address,
    pub seller: Address,
    pub qty: u64,
}

} // verus!
