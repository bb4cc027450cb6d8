//! A future on a cryptocurrency: priced in a quote currency, settled in a
//! settlement currency, with a multiplier of one and never inverse.

use vstd::prelude::*;
use crate::enums::{AssetClass, InstrumentClass};
use crate::identifiers::{InstrumentId, Symbol};
use crate::instruments::{check_precisions, precision_error, InstrumentError};
use crate::types::{unit_quantity, Currency, Money, Price, Quantity, UnixNanos};

verus! {

#[derive(Clone, Copy, Debug)]
pub struct CryptoFuture {
    pub id: InstrumentId,
    pub raw_symbol: Symbol,
    pub underlying: Currency,
    pub quote_currency: Currency,
    pub settlement_currency: Currency,
    pub activation_ns: UnixNanos,
    pub expiration_ns: UnixNanos,
    pub price_precision: u8,
    pub size_precision: u8,
    pub price_increment: Price,
    pub size_increment: Quantity,
    pub lot_size: Option<Quantity>,
    pub max_quantity: Option<Quantity>,
    pub min_quantity: Option<Quantity>,
    pub max_notional: Option<Money>,
    pub min_notional: Option<Money>,
    pub max_price: Option<Price>,
    pub min_price: Option<Price>,
    pub ts_event: UnixNanos,
    pub ts_init: UnixNanos,
}

impl CryptoFuture {
    /// The precisions and increments agree with each other and are supported.
    pub open spec fn wf(&self) -> bool {
        precision_error(self.price_precision, self.price_increment, self.size_precision, self.size_increment) is None
    }

    /// Builds a crypto future from its fields, refusing precisions and
    /// increments that do not agree.
    #[allow(clippy::too_many_arguments)]
    pub fn new(
        id: InstrumentId,
        raw_symbol: Symbol,
        underlying: Currency,
        quote_currency: Currency,
        settlement_currency: Currency,
        activation_ns: UnixNanos,
        expiration_ns: UnixNanos,
        price_precision: u8,
        size_precision: u8,
        price_increment: Price,
        size_increment: Quantity,
        lot_size: Option<Quantity>,
        max_quantity: Option<Quantity>,
        min_quantity: Option<Quantity>,
        max_notional: Option<Money>,
        min_notional: Option<Money>,
        max_price: Option<Price>,
        min_price: Option<Price>,
        ts_event: UnixNanos,
        ts_init: UnixNanos,
    ) -> (r: Result<Self, InstrumentError>)
        ensures
            r is Ok <==> precision_error(price_precision, price_increment, size_precision, size_increment) is None,
            r matches Err(e) ==> precision_error(price_precision, price_increment, size_precision, size_increment) == Some(e),
            r matches Ok(f) ==> f == (CryptoFuture {
                id,
                raw_symbol,
                underlying,
                quote_currency,
                settlement_currency,
                activation_ns,
                expiration_ns,
                price_precision,
                size_precision,
                price_increment,
                size_increment,
                lot_size,
                max_quantity,
                min_quantity,
                max_notional,
                min_notional,
                max_price,
                min_price,
                ts_event,
                ts_init,
            }),
            r matches Ok(f) ==> f.wf(),
    {
        match check_precisions(price_precision, price_increment, size_precision, size_increment) {
            Err(e) => Err(e),
            Ok(()) => Ok(CryptoFuture {
                id,
                raw_symbol,
                underlying,
                quote_currency,
                settlement_currency,
                activation_ns,
                expiration_ns,
                price_precision,
                size_precision,
                price_increment,
                size_increment,
                lot_size,
                max_quantity,
                min_quantity,
                max_notional,
                min_notional,
                max_price,
                min_price,
                ts_event,
                ts_init,
            }),
        }
    }

    pub fn id(&self) -> (r: &InstrumentId)
        ensures
            *r == self.id,
    {
        &self.id
    }

    pub fn raw_symbol(&self) -> (r: &Symbol)
        ensures
            *r == self.raw_symbol,
    {
        &self.raw_symbol
    }

    /// Always `Cryptocurrency`.
    pub fn asset_class(&self) -> (r: AssetClass)
        ensures
            r == AssetClass::Cryptocurrency,
    {
        AssetClass::Cryptocurrency
    }

    /// Always `Future`.
    pub fn instrument_class(&self) -> (r: InstrumentClass)
        ensures
            r == InstrumentClass::Future,
    {
        InstrumentClass::Future
    }

    pub fn quote_currency(&self) -> (r: &Currency)
        ensures
            *r == self.quote_currency,
    {
        &self.quote_currency
    }

    /// A crypto future has no base currency.
    pub fn base_currency(&self) -> (r: Option<&Currency>)
        ensures
            r is None,
    {
        None
    }

    pub fn settlement_currency(&self) -> (r: &Currency)
        ensures
            *r == self.settlement_currency,
    {
        &self.settlement_currency
    }

    /// A crypto future is never inverse.
    pub fn is_inverse(&self) -> (r: bool)
        ensures
            r == false,
    {
        false
    }

    pub fn price_precision(&self) -> (r: u8)
        ensures
            r == self.price_precision,
    {
        self.price_precision
    }

    pub fn size_precision(&self) -> (r: u8)
        ensures
            r == self.size_precision,
    {
        self.size_precision
    }

    pub fn price_increment(&self) -> (r: Price)
        ensures
            r == self.price_increment,
    {
        self.price_increment
    }

    pub fn size_increment(&self) -> (r: Quantity)
        ensures
            r == self.size_increment,
    {
        self.size_increment
    }

    /// Always the quantity one.
    pub fn multiplier(&self) -> (r: Quantity)
        ensures
            r == unit_quantity(),
    {
        Quantity::unit()
    }

    pub fn lot_size(&self) -> (r: Option<Quantity>)
        ensures
            r == self.lot_size,
    {
        self.lot_size
    }

    pub fn max_quantity(&self) -> (r: Option<Quantity>)
        ensures
            r == self.max_quantity,
    {
        self.max_quantity
    }

    pub fn min_quantity(&self) -> (r: Option<Quantity>)
        ensures
            r == self.min_quantity,
    {
        self.min_quantity
    }

    pub fn max_price(&self) -> (r: Option<Price>)
        ensures
            r == self.max_price,
    {
        self.max_price
    }

    pub fn min_price(&self) -> (r: Option<Price>)
        ensures
            r == self.min_price,
    {
        self.min_price
    }

    pub fn ts_event(&self) -> (r: UnixNanos)
        ensures
            r == self.ts_event,
    {
        self.ts_event
    }

    pub fn ts_init(&self) -> (r: UnixNanos)
        ensures
            r == self.ts_init,
    {
        self.ts_init
    }
}

/// Two crypto futures are the same entity when their ids are equal, whatever
/// their other fields hold.
impl PartialEq for CryptoFuture {
    fn eq(&self, other: &Self) -> (r: bool) {
        self.id.eq(&other.id)
    }
}

impl vstd::std_specs::cmp::PartialEqSpecImpl for CryptoFuture {
    open spec fn obeys_eq_spec() -> bool {
        true
    }

    open spec fn eq_spec(&self, other: &Self) -> bool {
        self.id@ == other.id@
    }
}

impl Eq for CryptoFuture {}

/// Hashes the id alone, in keeping with equality.
impl core::hash::Hash for CryptoFuture {
    fn hash<H: core::hash::Hasher>(&self, state: &mut H) {
        self.id.hash(state);
    }
}

} // verus!
