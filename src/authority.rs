use vstd::prelude::*;

use anchor_lang::prelude::Pubkey;

use crate::address::Address;

verus! {

/// The program address and nonce found for `seeds` under `program_id`: the
/// first nonce, counting down from 255, whose derived address is off the
/// curve, or nothing if none is.
pub uninterp spec fn program_address(seeds: Seq<Seq<u8>>, program_id: Seq<u8>) -> Option<(Seq<u8>, u8)>;

/// Relies on `Pubkey::try_find_program_address` of solana-program (through
/// anchor-lang): it derives a keyless address and its nonce from the seeds
/// and the program, deterministically, and returns `None` instead of
/// panicking when no nonce works or the seeds are too long.
#[verifier::external_body]
fn try_find_program_address(seeds: &Vec<Vec<u8>>, program_id: &Address) -> (r: Option<(Address, u8)>)
    ensures
        match r {
            Some((a, bump)) => program_address(seeds.deep_view(), program_id.bytes@) == Some(
                (a.bytes@, bump),
            ),
            None => program_address(seeds.deep_view(), program_id.bytes@) is None,
        },
{
    let s: Vec<&[u8]> = seeds.iter().map(|x| x.as_slice()).collect();
    match Pubkey::try_find_program_address(&s, &Pubkey::new_from_array(program_id.bytes)) {
        Some((a, bump)) => Some((Address { bytes: a.to_bytes() }, bump)),
        None => None,
    }
}

/// The namespace tag of escrow authorities, `escrow` in ASCII.
pub open spec fn escrow_tag() -> Seq<u8> {
    seq![101u8, 115u8, 99u8, 114u8, 111u8, 119u8]
}

/// The seeds of the escrow authority of the invoice stored at `invoice`.
pub open spec fn escrow_seeds(invoice: Address) -> Seq<Seq<u8>> {
    seq![escrow_tag(), invoice.bytes@]
}

/// The escrow authority of the invoice stored at `invoice`, with its nonce.
pub open spec fn escrow_address(invoice: Address, program_id: Address) -> Option<(Seq<u8>, u8)> {
    program_address(escrow_seeds(invoice), program_id.bytes@)
}

/// Derives the escrow authority of the invoice stored at `invoice`.
pub(crate) fn find_escrow_address(invoice: &Address, program_id: &Address) -> (r: Option<(Address, u8)>)
    ensures
        match r {
            Some((a, bump)) => escrow_address(*invoice, *program_id) == Some((a.bytes@, bump)),
            None => escrow_address(*invoice, *program_id) is None,
        },
{
    let tag: Vec<u8> = vec![101u8, 115u8, 99u8, 114u8, 111u8, 119u8];
    let key = invoice.to_vec();
    assert(tag@ =~= escrow_tag());
    let seeds: Vec<Vec<u8>> = vec![tag, key];
    assert(seeds.deep_view()[0] =~= escrow_tag());
    assert(seeds.deep_view()[1] =~= invoice.bytes@);
    assert(seeds.deep_view() =~= escrow_seeds(*invoice));
    try_find_program_address(&seeds, program_id)
}

} // verus!
