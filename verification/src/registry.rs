//! Gateway registration, price updates, and deactivation.
//!
//! Each operation is written twice: once as a spec-level transition
//! function that says exactly what the operation returns and how it changes
//! the gateway record, and once as the executable operation, proved to
//! return precisely what the transition function says.

use vstd::prelude::*;
use vstd::string::StrSliceExecFns;

use crate::errors::GatewaySessionError;
use crate::state::{gateway_wf, identity_eq, EvmAddress, Gateway, Identity, MAX_SLUG_LEN};

verus! {

/// The exact outcome of `register_gateway`: the checks in order, then the
/// freshly initialized record.
pub open spec fn register_gateway_model(
    slug: String,
    price_per_request: u64,
    provider: Identity,
    provider_evm_address: EvmAddress,
    now: i64,
) -> Result<Gateway, GatewaySessionError> {
    if slug@.len() == 0 {
        Err(GatewaySessionError::EmptySlug)
    } else if slug@.len() > MAX_SLUG_LEN {
        Err(GatewaySessionError::SlugTooLong)
    } else if price_per_request == 0 {
        Err(GatewaySessionError::InvalidPrice)
    } else {
        Ok(
            Gateway {
                slug,
                provider,
                provider_evm_address,
                price_per_request,
                is_active: true,
                total_sessions: 0,
                total_volume: 0,
                created_at: now,
            },
        )
    }
}

/// Create a gateway record for `provider`, priced and initially active,
/// with both counters at zero.
///
/// Keying the record by `slug` and rejecting a second registration under
/// the same slug is the external keyed store's duty; this operation only
/// validates the input and builds the record.
pub fn register_gateway(
    slug: String,
    price_per_request: u64,
    provider: Identity,
    provider_evm_address: EvmAddress,
    now: i64,
) -> (r: Result<Gateway, GatewaySessionError>)
    ensures
        r == register_gateway_model(slug, price_per_request, provider, provider_evm_address, now),
        r is Ok <==> 1 <= slug@.len() <= MAX_SLUG_LEN && price_per_request > 0,
        r matches Ok(g) ==> gateway_wf(g),
{
    let len = slug.as_str().unicode_len();
    if len == 0 {
        return Err(GatewaySessionError::EmptySlug);
    }
    if len > MAX_SLUG_LEN {
        return Err(GatewaySessionError::SlugTooLong);
    }
    if price_per_request == 0 {
        return Err(GatewaySessionError::InvalidPrice);
    }
    Ok(
        Gateway {
            slug,
            provider,
            provider_evm_address,
            price_per_request,
            is_active: true,
            total_sessions: 0,
            total_volume: 0,
            created_at: now,
        },
    )
}

/// The exact outcome of `update_gateway_price`: who may call, what price is
/// legal, and the one field that changes.
pub open spec fn update_gateway_price_model(
    g: Gateway,
    caller: Identity,
    new_price: u64,
) -> (Gateway, Result<(), GatewaySessionError>) {
    if caller != g.provider {
        (g, Err(GatewaySessionError::Unauthorized))
    } else if new_price == 0 {
        (g, Err(GatewaySessionError::InvalidPrice))
    } else {
        (Gateway { price_per_request: new_price, ..g }, Ok(()))
    }
}

/// Set a new strictly positive price on the gateway. Only the gateway's
/// registered provider may call; re-applying the current price is legal.
pub fn update_gateway_price(
    gateway: &mut Gateway,
    caller: Identity,
    new_price: u64,
) -> (r: Result<(), GatewaySessionError>)
    ensures
        (*final(gateway), r) == update_gateway_price_model(*old(gateway), caller, new_price),
        r is Ok <==> caller == old(gateway).provider && new_price > 0,
        r is Err ==> *final(gateway) == *old(gateway),
        gateway_wf(*old(gateway)) ==> gateway_wf(*final(gateway)),
        final(gateway).total_sessions == old(gateway).total_sessions,
        final(gateway).total_volume == old(gateway).total_volume,
{
    if !identity_eq(&caller, &gateway.provider) {
        return Err(GatewaySessionError::Unauthorized);
    }
    if new_price == 0 {
        return Err(GatewaySessionError::InvalidPrice);
    }
    gateway.price_per_request = new_price;
    Ok(())
}

/// The exact outcome of `deactivate_gateway`: provider-only, idempotent,
/// and only the activation flag changes.
pub open spec fn deactivate_gateway_model(
    g: Gateway,
    caller: Identity,
) -> (Gateway, Result<(), GatewaySessionError>) {
    if caller != g.provider {
        (g, Err(GatewaySessionError::Unauthorized))
    } else {
        (Gateway { is_active: false, ..g }, Ok(()))
    }
}

/// Clear the gateway's activation flag, blocking new sessions while leaving
/// existing ones untouched. Only the provider may call; there is no
/// reactivation operation.
pub fn deactivate_gateway(gateway: &mut Gateway, caller: Identity) -> (r: Result<
    (),
    GatewaySessionError,
>)
    ensures
        (*final(gateway), r) == deactivate_gateway_model(*old(gateway), caller),
        r is Ok <==> caller == old(gateway).provider,
        r is Ok ==> !final(gateway).is_active,
        r is Err ==> *final(gateway) == *old(gateway),
        gateway_wf(*old(gateway)) ==> gateway_wf(*final(gateway)),
        final(gateway).total_sessions == old(gateway).total_sessions,
        final(gateway).total_volume == old(gateway).total_volume,
{
    if !identity_eq(&caller, &gateway.provider) {
        return Err(GatewaySessionError::Unauthorized);
    }
    gateway.is_active = false;
    Ok(())
}

} // verus!
