//! Quantities in atomic units, and what the size-unit setting makes of
//! them.
//!
//! A quantity counts atomic units of the base asset, as many to the whole
//! unit as a price has. Reported in the quote asset it is the value of the
//! quantity at a price, rounded to a whole unit of the quote asset.

use crate::price::{Price, PRICE_SCALE};
use vstd::prelude::*;

verus! {

/// `v` limited to the range of `u64`.
pub open spec fn clamp_u64(v: int) -> u64 {
    if v > u64::MAX {
        u64::MAX
    } else if v < 0 {
        0
    } else {
        v as u64
    }
}

/// The value of a quantity at a price, rounded to the nearest whole unit of
/// the quote asset, half a unit going up; nothing at a price below zero.
pub open spec fn quote_value(qty: u64, price: Price) -> u64 {
    if price.units <= 0 {
        0
    } else {
        let one = PRICE_SCALE as int * PRICE_SCALE as int;
        let whole = (qty as int * price.units as int + one / 2) / one;
        clamp_u64(whole * PRICE_SCALE as int)
    }
}

/// A quantity of contracts as a quantity of the asset: the contracts times
/// the size of one, rounded down to an atomic unit.
pub open spec fn contract_value(qty: u64, size: u64) -> u64 {
    clamp_u64(qty as int * size as int / PRICE_SCALE as int)
}

/// The quantity that is reported for a raw quantity of the exchange: where
/// the instrument has a contract size, the contracts' worth; else the value
/// in the quote asset where sizes are in the quote asset, else the raw
/// quantity.
pub open spec fn reported_qty(
    qty: u64,
    price: Price,
    contract_size: Option<u64>,
    size_in_quote_ccy: bool,
) -> u64 {
    match contract_size {
        Some(size) => contract_value(qty, size),
        None => if size_in_quote_ccy {
            quote_value(qty, price)
        } else {
            qty
        },
    }
}

/// The volume of a bar split into what takers bought and what takers sold,
/// each reported in the quote asset at the close where sizes are in the
/// quote asset.
pub open spec fn reported_volume(
    volume: u64,
    taker_buy: u64,
    close: Price,
    size_in_quote_ccy: bool,
) -> (u64, u64) {
    let buy = taker_buy;
    let sell = clamp_u64(volume - taker_buy);
    if size_in_quote_ccy {
        (quote_value(buy, close), quote_value(sell, close))
    } else {
        (buy, sell)
    }
}

/// A quantity of zero stays zero whatever the setting: a level that the
/// exchange removes is removed in every unit.
pub proof fn lemma_zero_qty_reported_zero(
    price: Price,
    contract_size: Option<u64>,
    size_in_quote_ccy: bool,
)
    ensures
        reported_qty(0, price, contract_size, size_in_quote_ccy) == 0,
{
    let one = PRICE_SCALE as int * PRICE_SCALE as int;
    assert(one == 10_000_000_000_000_000);
    assert(0int * (price.units as int) == 0);
    assert((0 + one / 2) / one == 0);
    match contract_size {
        Some(size) => {
            assert(0int * (size as int) == 0);
        },
        None => {},
    }
}

/// The value of a quantity at a price.
pub fn quote_qty(qty: u64, price: Price) -> (r: u64)
    ensures
        r == quote_value(qty, price),
{
    if price.units <= 0 {
        return 0;
    }
    let one: u128 = 10_000_000_000_000_000;
    let q: u128 = qty as u128;
    let p: u128 = price.units as u128;
    assert(q * p <= 0xffff_ffff_ffff_ffff * 0x7fff_ffff_ffff_ffff) by (nonlinear_arith)
        requires
            q <= 0xffff_ffff_ffff_ffff,
            p <= 0x7fff_ffff_ffff_ffff,
    ;
    let prod: u128 = q * p;
    let whole: u128 = (prod + one / 2) / one;
    let units: u128 = whole * 100_000_000;
    if units > u64::MAX as u128 {
        u64::MAX
    } else {
        units as u64
    }
}

/// A quantity of contracts as a quantity of the asset.
pub fn contract_qty(qty: u64, size: u64) -> (r: u64)
    ensures
        r == contract_value(qty, size),
{
    let q: u128 = qty as u128;
    let s: u128 = size as u128;
    assert(q * s <= 0xffff_ffff_ffff_ffff * 0xffff_ffff_ffff_ffff) by (nonlinear_arith)
        requires
            q <= 0xffff_ffff_ffff_ffff,
            s <= 0xffff_ffff_ffff_ffff,
    ;
    let units: u128 = q * s / 100_000_000;
    if units > u64::MAX as u128 {
        u64::MAX
    } else {
        units as u64
    }
}

/// The quantity that is reported for a raw quantity of the exchange.
pub fn calc_qty(qty: u64, price: Price, contract_size: Option<u64>, size_in_quote_ccy: bool) -> (r:
    u64)
    ensures
        r == reported_qty(qty, price, contract_size, size_in_quote_ccy),
{
    match contract_size {
        Some(size) => contract_qty(qty, size),
        None => {
            if size_in_quote_ccy {
                quote_qty(qty, price)
            } else {
                qty
            }
        },
    }
}

/// The volume of a bar split into what takers bought and what takers sold.
pub fn split_volume(volume: u64, taker_buy: u64, close: Price, size_in_quote_ccy: bool) -> (r: (
    u64,
    u64,
))
    ensures
        r == reported_volume(volume, taker_buy, close, size_in_quote_ccy),
{
    let buy: u64 = taker_buy;
    let sell: u64 = if volume >= taker_buy {
        volume - taker_buy
    } else {
        0
    };
    if size_in_quote_ccy {
        (quote_qty(buy, close), quote_qty(sell, close))
    } else {
        (buy, sell)
    }
}

} // verus!
