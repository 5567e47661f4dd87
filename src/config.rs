use vstd::prelude::*;

use crate::bytes::{keys_eq, Key};
use crate::events::{AdminChanged, Effects, Event, Initialized, TreasuryUpdated};
use crate::state::{Config, SharelyError};

verus! {

/// Accounts of the one-time setup of the global settings.
#[derive(Clone, Copy, Debug, PartialEq, Eq)]
pub struct Initialize {
    /// The signer that pays for the settings account.
    pub admin: Key,
    pub config: Config,
}

/// Accounts of an administrator handover.
#[derive(Clone, Copy, Debug, PartialEq, Eq)]
pub struct ChangeAdmin {
    pub signer: Key,
    pub config: Config,
}

/// Accounts of a treasury change.
#[derive(Clone, Copy, Debug, PartialEq, Eq)]
pub struct UpdateTreasury {
    pub admin: Key,
    pub config: Config,
}

/// Installs the global settings.
pub fn initialize(ctx: &mut Initialize, admin: Key, treasury: Key) -> (r: Result<
    Effects,
    SharelyError,
>)
    ensures
        final(ctx).admin == old(ctx).admin,
        final(ctx).config == (Config { admin, treasury }),
        r matches Ok(eff) && eff.transfers@ == Seq::<crate::state::TokenTransfer>::empty()
            && eff.events@ == seq![Event::Initialized(Initialized { admin: old(ctx).admin, treasury })],
{
    ctx.config = Config { admin, treasury };
    let events = vec![Event::Initialized(Initialized { admin: ctx.admin, treasury })];
    Ok(Effects { transfers: Vec::new(), events })
}

/// Hands the administrator role to `new_admin`; only the current
/// administrator may do so.
pub fn change_admin(ctx: &mut ChangeAdmin, new_admin: Key) -> (r: Result<Effects, SharelyError>)
    ensures
        final(ctx).signer == old(ctx).signer,
        match r {
            Ok(eff) => {
                &&& old(ctx).signer == old(ctx).config.admin
                &&& final(ctx).config == (Config { admin: new_admin, ..old(ctx).config })
                &&& eff.transfers@.len() == 0
                &&& eff.events@ == seq![
                    Event::AdminChanged(
                        AdminChanged { old_admin: old(ctx).config.admin, new_admin },
                    ),
                ]
            },
            Err(e) => {
                &&& old(ctx).signer != old(ctx).config.admin
                &&& e == SharelyError::Unauthorized
                &&& *final(ctx) == *old(ctx)
            },
        },
{
    if !keys_eq(&ctx.signer, &ctx.config.admin) {
        return Err(SharelyError::Unauthorized);
    }
    let old_admin = ctx.config.admin;
    ctx.config.admin = new_admin;
    let events = vec![Event::AdminChanged(AdminChanged { old_admin, new_admin })];
    Ok(Effects { transfers: Vec::new(), events })
}

/// Points the treasury at `new_treasury`; only the administrator may do so.
pub fn update_treasury(ctx: &mut UpdateTreasury, new_treasury: Key) -> (r: Result<
    Effects,
    SharelyError,
>)
    ensures
        final(ctx).admin == old(ctx).admin,
        match r {
            Ok(eff) => {
                &&& old(ctx).admin == old(ctx).config.admin
                &&& final(ctx).config == (Config { treasury: new_treasury, ..old(ctx).config })
                &&& eff.transfers@.len() == 0
                &&& eff.events@ == seq![
                    Event::TreasuryUpdated(
                        TreasuryUpdated { new_treasury, admin: old(ctx).admin },
                    ),
                ]
            },
            Err(e) => {
                &&& old(ctx).admin != old(ctx).config.admin
                &&& e == SharelyError::Unauthorized
                &&& *final(ctx) == *old(ctx)
            },
        },
{
    if !keys_eq(&ctx.admin, &ctx.config.admin) {
        return Err(SharelyError::Unauthorized);
    }
    ctx.config.treasury = new_treasury;
    let events = vec![Event::TreasuryUpdated(TreasuryUpdated { new_treasury, admin: ctx.admin })];
    Ok(Effects { transfers: Vec::new(), events })
}

} // verus!
