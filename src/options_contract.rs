//! An options contract: traded in whole contracts (size precision zero, size
//! increment one), priced and settled in one currency, never inverse.

use vstd::prelude::*;
use crate::enums::{AssetClass, InstrumentClass, OptionKind};
use crate::identifiers::{InstrumentId, Symbol};
use crate::instruments::{check_precisions, precision_error, InstrumentError};
use crate::types::{unit_quantity, Currency, Price, Quantity, UnixNanos};

verus! {

#[derive(Clone, Copy, Debug)]
pub struct OptionsContract {
    pub id: InstrumentId,
    pub raw_symbol: Symbol,
    pub asset_class: AssetClass,
    pub underlying: ustr::Ustr,
    pub option_kind: OptionKind,
    pub activation_ns: UnixNanos,
    pub expiration_ns: UnixNanos,
    pub strike_price: Price,
    pub currency: Currency,
    pub price_precision: u8,
    pub price_increment: Price,
    pub multiplier: Quantity,
    pub lot_size: Quantity,
    pub max_quantity: Option<Quantity>,
    pub min_quantity: Option<Quantity>,
    pub max_price: Option<Price>,
    pub min_price: Option<Price>,
    pub ts_event: UnixNanos,
    pub ts_init: UnixNanos,
}

impl OptionsContract {
    /// The price precision and increment agree and are supported; sizes are
    /// whole contracts.
    pub open spec fn wf(&self) -> bool {
        precision_error(self.price_precision, self.price_increment, 0, unit_quantity()) is None
    }

    /// Builds an options contract from its fields, refusing a price precision
    /// and increment that do not agree.
    #[allow(clippy::too_many_arguments)]
    pub fn new(
        id: InstrumentId,
        raw_symbol: Symbol,
        asset_class: AssetClass,
        underlying: ustr::Ustr,
        option_kind: OptionKind,
        activation_ns: UnixNanos,
        expiration_ns: UnixNanos,
        strike_price: Price,
        currency: Currency,
        price_precision: u8,
        price_increment: Price,
        multiplier: Quantity,
        lot_size: Quantity,
        max_quantity: Option<Quantity>,
        min_quantity: Option<Quantity>,
        max_price: Option<Price>,
        min_price: Option<Price>,
        ts_event: UnixNanos,
        ts_init: UnixNanos,
    ) -> (r: Result<Self, InstrumentError>)
        ensures
            r is Ok <==> precision_error(price_precision, price_increment, 0, unit_quantity()) is None,
            r matches Err(e) ==> precision_error(price_precision, price_increment, 0, unit_quantity()) == Some(e),
            r matches Ok(o) ==> o == (OptionsContract {
                id,
                raw_symbol,
                asset_class,
                underlying,
                option_kind,
                activation_ns,
                expiration_ns,
                strike_price,
                currency,
                price_precision,
                price_increment,
                multiplier,
                lot_size,
                max_quantity,
                min_quantity,
                max_price,
                min_price,
                ts_event,
                ts_init,
            }),
            r matches Ok(o) ==> o.wf(),
    {
        match check_precisions(price_precision, price_increment, 0, Quantity::unit()) {
            Err(e) => Err(e),
            Ok(()) => Ok(OptionsContract {
                id,
                raw_symbol,
                asset_class,
                underlying,
                option_kind,
                activation_ns,
                expiration_ns,
                strike_price,
                currency,
                price_precision,
                price_increment,
                multiplier,
                lot_size,
                max_quantity,
                min_quantity,
                max_price,
                min_price,
                ts_event,
                ts_init,
            }),
        }
    }

    pub fn id(&self) -> (r: &InstrumentId)
        ensures
            *r == self.id,
    {
        &self.id
    }

    pub fn raw_symbol(&self) -> (r: &Symbol)
        ensures
            *r == self.raw_symbol,
    {
        &self.raw_symbol
    }

    pub fn asset_class(&self) -> (r: AssetClass)
        ensures
            r == self.asset_class,
    {
        self.asset_class
    }

    /// Always `Option`.
    pub fn instrument_class(&self) -> (r: InstrumentClass)
        ensures
            r == InstrumentClass::Option,
    {
        InstrumentClass::Option
    }

    pub fn quote_currency(&self) -> (r: &Currency)
        ensures
            *r == self.currency,
    {
        &self.currency
    }

    /// An options contract has no base currency.
    pub fn base_currency(&self) -> (r: Option<&Currency>)
        ensures
            r is None,
    {
        None
    }

    /// The same currency as the quote currency.
    pub fn settlement_currency(&self) -> (r: &Currency)
        ensures
            *r == self.currency,
    {
        &self.currency
    }

    /// An options contract is never inverse.
    pub fn is_inverse(&self) -> (r: bool)
        ensures
            r == false,
    {
        false
    }

    pub fn price_precision(&self) -> (r: u8)
        ensures
            r == self.price_precision,
    {
        self.price_precision
    }

    /// Always zero: contracts are traded whole.
    pub fn size_precision(&self) -> (r: u8)
        ensures
            r == 0,
    {
        0
    }

    pub fn price_increment(&self) -> (r: Price)
        ensures
            r == self.price_increment,
    {
        self.price_increment
    }

    /// Always the quantity one.
    pub fn size_increment(&self) -> (r: Quantity)
        ensures
            r == unit_quantity(),
    {
        Quantity::unit()
    }

    pub fn multiplier(&self) -> (r: Quantity)
        ensures
            r == self.multiplier,
    {
        self.multiplier
    }

    /// Always present.
    pub fn lot_size(&self) -> (r: Option<Quantity>)
        ensures
            r == Some(self.lot_size),
    {
        Some(self.lot_size)
    }

    pub fn max_quantity(&self) -> (r: Option<Quantity>)
        ensures
            r == self.max_quantity,
    {
        self.max_quantity
    }

    pub fn min_quantity(&self) -> (r: Option<Quantity>)
        ensures
            r == self.min_quantity,
    {
        self.min_quantity
    }

    pub fn max_price(&self) -> (r: Option<Price>)
        ensures
            r == self.max_price,
    {
        self.max_price
    }

    pub fn min_price(&self) -> (r: Option<Price>)
        ensures
            r == self.min_price,
    {
        self.min_price
    }

    pub fn ts_event(&self) -> (r: UnixNanos)
        ensures
            r == self.ts_event,
    {
        self.ts_event
    }

    pub fn ts_init(&self) -> (r: UnixNanos)
        ensures
            r == self.ts_init,
    {
        self.ts_init
    }
}

/// Two options contracts are the same entity when their ids are equal, whatever
/// their other fields hold.
impl PartialEq for OptionsContract {
    fn eq(&self, other: &Self) -> (r: bool) {
        self.id.eq(&other.id)
    }
}

impl vstd::std_specs::cmp::PartialEqSpecImpl for OptionsContract {
    open spec fn obeys_eq_spec() -> bool {
        true
    }

    open spec fn eq_spec(&self, other: &Self) -> bool {
        self.id@ == other.id@
    }
}

impl Eq for OptionsContract {}

/// Hashes the id alone, in keeping with equality.
impl core::hash::Hash for OptionsContract {
    fn hash<H: core::hash::Hasher>(&self, state: &mut H) {
        self.id.hash(state);
    }
}

} // verus!
