//! Fixed-precision values: a price or quantity is an integer count of steps of
//! `10^-precision`, and a currency declares the precision of its amounts.

use vstd::prelude::*;
use crate::correctness::is_valid_text;
use crate::interned::ustr_text;

verus! {

/// A point in time, in nanoseconds since the Unix epoch.
pub type UnixNanos = u64;

/// The largest number of decimal digits that a price or quantity may carry.
pub const MAX_PRECISION: u8 = 9;

/// A price: `raw * 10^-precision`.
#[derive(Clone, Copy, Debug, Hash, PartialEq, Eq, Structural)]
pub struct Price {
    pub raw: i64,
    pub precision: u8,
}

impl Price {
    /// The price `raw * 10^-precision`, if `precision` is supported.
    pub fn new(raw: i64, precision: u8) -> (r: Option<Self>)
        ensures
            r is Some <==> precision <= MAX_PRECISION,
            r matches Some(p) ==> p.raw == raw && p.precision == precision,
    {
        if precision <= MAX_PRECISION {
            Some(Price { raw, precision })
        } else {
            None
        }
    }
}

/// A non-negative quantity: `raw * 10^-precision`.
#[derive(Clone, Copy, Debug, Hash, PartialEq, Eq, Structural)]
pub struct Quantity {
    pub raw: u64,
    pub precision: u8,
}

/// The quantity one, with no decimal digits.
pub open spec fn unit_quantity() -> Quantity {
    Quantity { raw: 1, precision: 0 }
}

impl Quantity {
    /// The quantity `raw * 10^-precision`, if `precision` is supported.
    pub fn new(raw: u64, precision: u8) -> (r: Option<Self>)
        ensures
            r is Some <==> precision <= MAX_PRECISION,
            r matches Some(q) ==> q.raw == raw && q.precision == precision,
    {
        if precision <= MAX_PRECISION {
            Some(Quantity { raw, precision })
        } else {
            None
        }
    }

    /// The whole quantity `value`, with no decimal digits.
    pub fn from_integer(value: u64) -> (r: Self)
        ensures
            r.raw == value,
            r.precision == 0,
    {
        Quantity { raw: value, precision: 0 }
    }

    /// The quantity one.
    pub fn unit() -> (r: Self)
        ensures
            r == unit_quantity(),
    {
        Quantity { raw: 1, precision: 0 }
    }
}

/// A currency, named by its code, with the precision of its amounts.
#[derive(Clone, Copy, Debug, Hash)]
pub struct Currency {
    pub code: ustr::Ustr,
    pub precision: u8,
}

impl Currency {
    pub open spec fn code_text(&self) -> Seq<char> {
        ustr_text(self.code)
    }

    /// A currency with the code `code`, if the code is valid text and the
    /// precision is supported.
    pub fn new(code: &str, precision: u8) -> (r: Option<Self>)
        ensures
            r is Some <==> is_valid_text(code@) && precision <= MAX_PRECISION,
            r matches Some(c) ==> c.code_text() == code@ && c.precision == precision,
    {
        if precision > MAX_PRECISION {
            return None;
        }
        match crate::correctness::check_valid_string(code) {
            Ok(()) => Some(Currency { code: ustr::Ustr::from(code), precision }),
            Err(_) => None,
        }
    }

    /// The currency's code.
    pub fn code(&self) -> (r: &str)
        ensures
            r@ == self.code_text(),
    {
        self.code.as_str()
    }
}

/// An amount of money: `raw * 10^-precision` of `currency`, at the currency's
/// precision.
#[derive(Clone, Copy, Debug, Hash)]
pub struct Money {
    pub raw: i64,
    pub currency: Currency,
}

impl Money {
    pub fn new(raw: i64, currency: Currency) -> (r: Self)
        ensures
            r.raw == raw,
            r.currency == currency,
    {
        Money { raw, currency }
    }
}

} // verus!
