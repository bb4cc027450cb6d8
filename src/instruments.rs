//! What every instrument variant shares: construction checks, identity, and the
//! closed family of variants.

use vstd::prelude::*;
use vstd::std_specs::cmp::PartialEqSpec;
use crate::crypto_future::CryptoFuture;
use crate::enums::{AssetClass, InstrumentClass};
use crate::identifiers::InstrumentId;
use crate::options_contract::OptionsContract;
use crate::types::{unit_quantity, Currency, Price, Quantity, UnixNanos, MAX_PRECISION};

verus! {

/// Why an instrument could not be built from the fields given.
#[derive(Clone, Copy, Debug, PartialEq, Eq, Structural)]
pub enum InstrumentError {
    /// The price precision exceeds `MAX_PRECISION`.
    InvalidPricePrecision,
    /// The size precision exceeds `MAX_PRECISION`.
    InvalidSizePrecision,
    /// The price increment is not written at the price precision.
    PriceIncrementPrecisionMismatch,
    /// The size increment is not written at the size precision.
    SizeIncrementPrecisionMismatch,
    /// The price increment is zero or negative.
    NonPositivePriceIncrement,
    /// The size increment is zero.
    NonPositiveSizeIncrement,
}

/// The first check, in this order, that the precisions and increments of an
/// instrument fail; `None` when they pass them all.
pub open spec fn precision_error(
    price_precision: u8,
    price_increment: Price,
    size_precision: u8,
    size_increment: Quantity,
) -> Option<InstrumentError> {
    if price_precision > MAX_PRECISION {
        Some(InstrumentError::InvalidPricePrecision)
    } else if size_precision > MAX_PRECISION {
        Some(InstrumentError::InvalidSizePrecision)
    } else if price_increment.precision != price_precision {
        Some(InstrumentError::PriceIncrementPrecisionMismatch)
    } else if size_increment.precision != size_precision {
        Some(InstrumentError::SizeIncrementPrecisionMismatch)
    } else if price_increment.raw <= 0 {
        Some(InstrumentError::NonPositivePriceIncrement)
    } else if size_increment.raw == 0 {
        Some(InstrumentError::NonPositiveSizeIncrement)
    } else {
        None
    }
}

/// Checks the precisions and increments of an instrument.
pub fn check_precisions(
    price_precision: u8,
    price_increment: Price,
    size_precision: u8,
    size_increment: Quantity,
) -> (r: Result<(), InstrumentError>)
    ensures
        r is Ok <==> precision_error(price_precision, price_increment, size_precision, size_increment) is None,
        r matches Err(e) ==> precision_error(price_precision, price_increment, size_precision, size_increment) == Some(e),
{
    if price_precision > MAX_PRECISION {
        Err(InstrumentError::InvalidPricePrecision)
    } else if size_precision > MAX_PRECISION {
        Err(InstrumentError::InvalidSizePrecision)
    } else if price_increment.precision != price_precision {
        Err(InstrumentError::PriceIncrementPrecisionMismatch)
    } else if size_increment.precision != size_precision {
        Err(InstrumentError::SizeIncrementPrecisionMismatch)
    } else if price_increment.raw <= 0 {
        Err(InstrumentError::NonPositivePriceIncrement)
    } else if size_increment.raw == 0 {
        Err(InstrumentError::NonPositiveSizeIncrement)
    } else {
        Ok(())
    }
}

/// One instrument of any variant. The family is closed: each variant is listed
/// here, and a caller recovers the concrete variant with a checked downcast.
#[derive(Clone, Copy, Debug)]
pub enum InstrumentAny {
    CryptoFuture(CryptoFuture),
    OptionsContract(OptionsContract),
}

impl InstrumentAny {
    pub open spec fn spec_id(&self) -> InstrumentId {
        match self {
            InstrumentAny::CryptoFuture(f) => f.id,
            InstrumentAny::OptionsContract(o) => o.id,
        }
    }

    pub open spec fn spec_instrument_class(&self) -> InstrumentClass {
        match self {
            InstrumentAny::CryptoFuture(_) => InstrumentClass::Future,
            InstrumentAny::OptionsContract(_) => InstrumentClass::Option,
        }
    }

    pub open spec fn spec_asset_class(&self) -> AssetClass {
        match self {
            InstrumentAny::CryptoFuture(_) => AssetClass::Cryptocurrency,
            InstrumentAny::OptionsContract(o) => o.asset_class,
        }
    }

    pub open spec fn spec_quote_currency(&self) -> Currency {
        match self {
            InstrumentAny::CryptoFuture(f) => f.quote_currency,
            InstrumentAny::OptionsContract(o) => o.currency,
        }
    }

    pub open spec fn spec_settlement_currency(&self) -> Currency {
        match self {
            InstrumentAny::CryptoFuture(f) => f.settlement_currency,
            InstrumentAny::OptionsContract(o) => o.currency,
        }
    }

    pub open spec fn spec_price_precision(&self) -> u8 {
        match self {
            InstrumentAny::CryptoFuture(f) => f.price_precision,
            InstrumentAny::OptionsContract(o) => o.price_precision,
        }
    }

    pub open spec fn spec_size_precision(&self) -> u8 {
        match self {
            InstrumentAny::CryptoFuture(f) => f.size_precision,
            InstrumentAny::OptionsContract(_) => 0,
        }
    }

    pub open spec fn spec_price_increment(&self) -> Price {
        match self {
            InstrumentAny::CryptoFuture(f) => f.price_increment,
            InstrumentAny::OptionsContract(o) => o.price_increment,
        }
    }

    pub open spec fn spec_size_increment(&self) -> Quantity {
        match self {
            InstrumentAny::CryptoFuture(f) => f.size_increment,
            InstrumentAny::OptionsContract(_) => unit_quantity(),
        }
    }

    pub open spec fn spec_multiplier(&self) -> Quantity {
        match self {
            InstrumentAny::CryptoFuture(_) => unit_quantity(),
            InstrumentAny::OptionsContract(o) => o.multiplier,
        }
    }

    pub open spec fn spec_lot_size(&self) -> Option<Quantity> {
        match self {
            InstrumentAny::CryptoFuture(f) => f.lot_size,
            InstrumentAny::OptionsContract(o) => Some(o.lot_size),
        }
    }

    pub open spec fn spec_ts_event(&self) -> UnixNanos {
        match self {
            InstrumentAny::CryptoFuture(f) => f.ts_event,
            InstrumentAny::OptionsContract(o) => o.ts_event,
        }
    }

    pub open spec fn spec_ts_init(&self) -> UnixNanos {
        match self {
            InstrumentAny::CryptoFuture(f) => f.ts_init,
            InstrumentAny::OptionsContract(o) => o.ts_init,
        }
    }

    pub fn id(&self) -> (r: &InstrumentId)
        ensures
            *r == self.spec_id(),
    {
        match self {
            InstrumentAny::CryptoFuture(f) => f.id(),
            InstrumentAny::OptionsContract(o) => o.id(),
        }
    }

    pub fn instrument_class(&self) -> (r: InstrumentClass)
        ensures
            r == self.spec_instrument_class(),
    {
        match self {
            InstrumentAny::CryptoFuture(f) => f.instrument_class(),
            InstrumentAny::OptionsContract(o) => o.instrument_class(),
        }
    }

    pub fn asset_class(&self) -> (r: AssetClass)
        ensures
            r == self.spec_asset_class(),
    {
        match self {
            InstrumentAny::CryptoFuture(f) => f.asset_class(),
            InstrumentAny::OptionsContract(o) => o.asset_class(),
        }
    }

    pub fn quote_currency(&self) -> (r: &Currency)
        ensures
            *r == self.spec_quote_currency(),
    {
        match self {
            InstrumentAny::CryptoFuture(f) => f.quote_currency(),
            InstrumentAny::OptionsContract(o) => o.quote_currency(),
        }
    }

    /// Neither variant has a base currency.
    pub fn base_currency(&self) -> (r: Option<&Currency>)
        ensures
            r is None,
    {
        match self {
            InstrumentAny::CryptoFuture(f) => f.base_currency(),
            InstrumentAny::OptionsContract(o) => o.base_currency(),
        }
    }

    pub fn settlement_currency(&self) -> (r: &Currency)
        ensures
            *r == self.spec_settlement_currency(),
    {
        match self {
            InstrumentAny::CryptoFuture(f) => f.settlement_currency(),
            InstrumentAny::OptionsContract(o) => o.settlement_currency(),
        }
    }

    /// Neither variant is inverse.
    pub fn is_inverse(&self) -> (r: bool)
        ensures
            r == false,
    {
        match self {
            InstrumentAny::CryptoFuture(f) => f.is_inverse(),
            InstrumentAny::OptionsContract(o) => o.is_inverse(),
        }
    }

    pub fn price_precision(&self) -> (r: u8)
        ensures
            r == self.spec_price_precision(),
    {
        match self {
            InstrumentAny::CryptoFuture(f) => f.price_precision(),
            InstrumentAny::OptionsContract(o) => o.price_precision(),
        }
    }

    pub fn size_precision(&self) -> (r: u8)
        ensures
            r == self.spec_size_precision(),
    {
        match self {
            InstrumentAny::CryptoFuture(f) => f.size_precision(),
            InstrumentAny::OptionsContract(o) => o.size_precision(),
        }
    }

    pub fn price_increment(&self) -> (r: Price)
        ensures
            r == self.spec_price_increment(),
    {
        match self {
            InstrumentAny::CryptoFuture(f) => f.price_increment(),
            InstrumentAny::OptionsContract(o) => o.price_increment(),
        }
    }

    pub fn size_increment(&self) -> (r: Quantity)
        ensures
            r == self.spec_size_increment(),
    {
        match self {
            InstrumentAny::CryptoFuture(f) => f.size_increment(),
            InstrumentAny::OptionsContract(o) => o.size_increment(),
        }
    }

    pub fn multiplier(&self) -> (r: Quantity)
        ensures
            r == self.spec_multiplier(),
    {
        match self {
            InstrumentAny::CryptoFuture(f) => f.multiplier(),
            InstrumentAny::OptionsContract(o) => o.multiplier(),
        }
    }

    pub fn lot_size(&self) -> (r: Option<Quantity>)
        ensures
            r == self.spec_lot_size(),
    {
        match self {
            InstrumentAny::CryptoFuture(f) => f.lot_size(),
            InstrumentAny::OptionsContract(o) => o.lot_size(),
        }
    }

    pub fn ts_event(&self) -> (r: UnixNanos)
        ensures
            r == self.spec_ts_event(),
    {
        match self {
            InstrumentAny::CryptoFuture(f) => f.ts_event(),
            InstrumentAny::OptionsContract(o) => o.ts_event(),
        }
    }

    pub fn ts_init(&self) -> (r: UnixNanos)
        ensures
            r == self.spec_ts_init(),
    {
        match self {
            InstrumentAny::CryptoFuture(f) => f.ts_init(),
            InstrumentAny::OptionsContract(o) => o.ts_init(),
        }
    }

    /// The crypto future inside, or `None` for any other variant.
    pub fn as_crypto_future(&self) -> (r: Option<&CryptoFuture>)
        ensures
            r is Some <==> self is CryptoFuture,
            r matches Some(f) ==> *self == InstrumentAny::CryptoFuture(*f),
    {
        match self {
            InstrumentAny::CryptoFuture(f) => Some(f),
            _ => None,
        }
    }

    /// The options contract inside, or `None` for any other variant.
    pub fn as_options_contract(&self) -> (r: Option<&OptionsContract>)
        ensures
            r is Some <==> self is OptionsContract,
            r matches Some(o) ==> *self == InstrumentAny::OptionsContract(*o),
    {
        match self {
            InstrumentAny::OptionsContract(o) => Some(o),
            _ => None,
        }
    }
}

/// Two instruments are the same entity when their ids are equal, whatever their
/// variants and other fields hold.
impl PartialEq for InstrumentAny {
    fn eq(&self, other: &Self) -> (r: bool) {
        self.id().eq(other.id())
    }
}

impl vstd::std_specs::cmp::PartialEqSpecImpl for InstrumentAny {
    open spec fn obeys_eq_spec() -> bool {
        true
    }

    open spec fn eq_spec(&self, other: &Self) -> bool {
        self.spec_id()@ == other.spec_id()@
    }
}

impl Eq for InstrumentAny {}

/// Hashes the id alone, in keeping with equality.
impl core::hash::Hash for InstrumentAny {
    fn hash<H: core::hash::Hasher>(&self, state: &mut H) {
        self.id().hash(state);
    }
}

/// An instrument equals itself, so a copy equals the original; it equals any
/// other instrument with the same id, whatever their other fields hold; and it
/// never equals an instrument with a different id.
pub proof fn lemma_instrument_identity(a: InstrumentAny, b: InstrumentAny)
    ensures
        a.eq_spec(&a),
        a.spec_id()@ == b.spec_id()@ ==> a.eq_spec(&b),
        a.spec_id()@ != b.spec_id()@ ==> !a.eq_spec(&b),
{
}

/// A crypto future equals itself, so a copy equals the original; it equals any
/// crypto future with the same id, whatever their other fields hold; and it
/// never equals one with a different id.
pub proof fn lemma_crypto_future_identity(a: CryptoFuture, b: CryptoFuture)
    ensures
        a.eq_spec(&a),
        a.id@ == b.id@ ==> a.eq_spec(&b),
        a.id@ != b.id@ ==> !a.eq_spec(&b),
{
}

/// An options contract equals itself, so a copy equals the original; it equals
/// any options contract with the same id, whatever their other fields hold; and
/// it never equals one with a different id.
pub proof fn lemma_options_contract_identity(a: OptionsContract, b: OptionsContract)
    ensures
        a.eq_spec(&a),
        a.id@ == b.id@ ==> a.eq_spec(&b),
        a.id@ != b.id@ ==> !a.eq_spec(&b),
{
}

} // verus!
