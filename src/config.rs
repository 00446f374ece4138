use vstd::prelude::*;

use crate::accounts::{InitConfig, UpdateConfig};
use crate::address::Address;
use crate::error::InvoiceError;

verus! {

/// Sets up the admin record with its first admin.
pub fn init_config(ctx: &mut InitConfig, admin: Address)
    ensures
        final(ctx).config.admin == admin,
{
    ctx.config.admin = admin;
}

/// Hands the admin role to `new_admin`; only the current admin may.
pub fn update_config(ctx: &mut UpdateConfig, new_admin: Address) -> (r: Result<(), InvoiceError>)
    ensures
        if old(ctx).admin == old(ctx).config.admin {
            &&& r is Ok
            &&& final(ctx).config.admin == new_admin
            &&& final(ctx).admin == old(ctx).admin
        } else {
            r == Err::<(), InvoiceError>(InvoiceError::Unauthorized) && *final(ctx) == *old(ctx)
        },
{
    if ctx.admin != ctx.config.admin {
        return Err(InvoiceError::Unauthorized);
    }
    ctx.config.admin = new_admin;
    Ok(())
}

} // verus!
