use std::collections::hash_map::DefaultHasher;
use std::hash::{Hash, Hasher};

use nautilus_model::crypto_future::CryptoFuture;
use nautilus_model::enums::{AssetClass, InstrumentClass, OptionKind};
use nautilus_model::identifiers::{InstrumentId, Symbol, Venue};
use nautilus_model::instruments::{check_precisions, InstrumentAny, InstrumentError};
use nautilus_model::options_contract::OptionsContract;
use nautilus_model::types::{Currency, Money, Price, Quantity, MAX_PRECISION};

fn instrument_id(symbol: &str, venue: &str) -> InstrumentId {
    InstrumentId::new(Symbol::new(symbol).unwrap(), Venue::new(venue).unwrap())
}

fn crypto_future(id: InstrumentId, price_increment: Price) -> Result<CryptoFuture, InstrumentError> {
    let btc = Currency::new("BTC", 8).unwrap();
    let usdt = Currency::new("USDT", 8).unwrap();
    CryptoFuture::new(
        id,
        Symbol::new("BTCUSDT").unwrap(),
        btc,
        usdt,
        usdt,
        1_640_995_200_000_000_000,
        1_648_771_200_000_000_000,
        2,
        6,
        price_increment,
        Quantity::new(1, 6).unwrap(),
        None,
        Some(Quantity::new(9_000_000_000, 6).unwrap()),
        Some(Quantity::new(1, 6).unwrap()),
        None,
        Some(Money::new(1_000_000, usdt)),
        Some(Price::new(100_000_000, 2).unwrap()),
        Some(Price::new(50, 2).unwrap()),
        0,
        0,
    )
}

fn crypto_future_btcusdt() -> CryptoFuture {
    crypto_future(instrument_id("BTCUSDT-220325", "BINANCE"), Price::new(1, 2).unwrap()).unwrap()
}

fn options_contract(id: InstrumentId, price_precision: u8, price_increment: Price, multiplier: Quantity) -> Result<OptionsContract, InstrumentError> {
    OptionsContract::new(
        id,
        Symbol::new("AAPL211217C00150000").unwrap(),
        AssetClass::Equity,
        ustr::Ustr::from("AAPL"),
        OptionKind::Call,
        1_631_836_800_000_000_000,
        1_639_699_200_000_000_000,
        Price::new(15_000, 2).unwrap(),
        Currency::new("USD", 2).unwrap(),
        price_precision,
        price_increment,
        multiplier,
        Quantity::from_integer(1),
        None,
        None,
        None,
        None,
        0,
        0,
    )
}

fn options_contract_appl() -> OptionsContract {
    options_contract(
        instrument_id("AAPL211217C00150000", "OPRA"),
        2,
        Price::new(1, 2).unwrap(),
        Quantity::from_integer(100),
    )
    .unwrap()
}

fn hash_of<T: Hash>(value: &T) -> u64 {
    let mut hasher = DefaultHasher::new();
    value.hash(&mut hasher);
    hasher.finish()
}

#[test]
fn test_equality() {
    let crypto_future_btcusdt = crypto_future_btcusdt();
    let cloned = crypto_future_btcusdt.clone();
    assert_eq!(crypto_future_btcusdt, cloned);
}

#[test]
fn options_contract_equals_its_clone() {
    let options_contract_appl = options_contract_appl();
    let options_contract_appl2 = options_contract_appl.clone();
    assert_eq!(options_contract_appl, options_contract_appl2);
}

#[test]
fn same_id_different_fields_are_equal() {
    let a = crypto_future(instrument_id("BTCUSDT-220325", "BINANCE"), Price::new(1, 2).unwrap()).unwrap();
    let b = crypto_future(instrument_id("BTCUSDT-220325", "BINANCE"), Price::new(5, 2).unwrap()).unwrap();
    assert_ne!(a.price_increment(), b.price_increment());
    assert_eq!(a, b);
    assert_eq!(hash_of(&a), hash_of(&b));
}

#[test]
fn different_ids_are_not_equal() {
    let a = crypto_future(instrument_id("BTCUSDT-220325", "BINANCE"), Price::new(1, 2).unwrap()).unwrap();
    let b = crypto_future(instrument_id("BTCUSDT-220624", "BINANCE"), Price::new(1, 2).unwrap()).unwrap();
    assert_ne!(a, b);
    let c = options_contract(instrument_id("AAPL211217C00150000", "OPRA"), 2, Price::new(1, 2).unwrap(), Quantity::from_integer(100)).unwrap();
    let d = options_contract(instrument_id("AAPL211217P00150000", "OPRA"), 2, Price::new(1, 2).unwrap(), Quantity::from_integer(100)).unwrap();
    assert_ne!(c, d);
}

#[test]
fn crypto_future_fixed_fields() {
    let f = crypto_future_btcusdt();
    assert_eq!(f.multiplier(), Quantity::new(1, 0).unwrap());
    assert!(!f.is_inverse());
    assert_eq!(f.asset_class(), AssetClass::Cryptocurrency);
    assert_eq!(f.instrument_class(), InstrumentClass::Future);
    assert!(f.base_currency().is_none());
}

#[test]
fn crypto_future_accessors() {
    let f = crypto_future_btcusdt();
    assert_eq!(f.id(), &instrument_id("BTCUSDT-220325", "BINANCE"));
    assert_eq!(f.raw_symbol().as_str(), "BTCUSDT");
    assert_eq!(f.quote_currency().code(), "USDT");
    assert_eq!(f.settlement_currency().code(), "USDT");
    assert_eq!(f.price_precision(), 2);
    assert_eq!(f.size_precision(), 6);
    assert_eq!(f.price_increment(), Price::new(1, 2).unwrap());
    assert_eq!(f.size_increment(), Quantity::new(1, 6).unwrap());
    assert_eq!(f.lot_size(), None);
    assert_eq!(f.max_quantity(), Some(Quantity::new(9_000_000_000, 6).unwrap()));
    assert_eq!(f.min_quantity(), Some(Quantity::new(1, 6).unwrap()));
    assert_eq!(f.max_price(), Some(Price::new(100_000_000, 2).unwrap()));
    assert_eq!(f.min_price(), Some(Price::new(50, 2).unwrap()));
    assert_eq!(f.ts_event(), 0);
    assert_eq!(f.ts_init(), 0);
}

#[test]
fn options_contract_fixed_fields() {
    let o = options_contract_appl();
    assert_eq!(o.size_precision(), 0);
    assert_eq!(o.size_increment(), Quantity::from_integer(1));
    assert_eq!(o.lot_size(), Some(Quantity::from_integer(1)));
    assert!(!o.is_inverse());
    assert_eq!(o.instrument_class(), InstrumentClass::Option);
    assert!(o.base_currency().is_none());
    assert_eq!(o.quote_currency().code(), "USD");
    assert_eq!(o.settlement_currency().code(), "USD");
}

#[test]
fn options_contract_scenario() {
    let o = options_contract_appl();
    assert_eq!(o.strike_price, Price::new(15_000, 2).unwrap());
    assert_eq!(o.price_precision(), 2);
    assert_eq!(o.size_increment(), Quantity::from_integer(1));
    assert_eq!(o.multiplier(), Quantity::from_integer(100));
    assert_eq!(o.asset_class(), AssetClass::Equity);
    assert_eq!(o.price_increment(), Price::new(1, 2).unwrap());
}

#[test]
fn crypto_futures_with_same_id_hash_identically() {
    let a = crypto_future(instrument_id("ETHUSDT-123", "BINANCE"), Price::new(1, 2).unwrap()).unwrap();
    let b = crypto_future(instrument_id("ETHUSDT-123", "BINANCE"), Price::new(25, 2).unwrap()).unwrap();
    assert_eq!(a, b);
    assert_eq!(hash_of(&a), hash_of(&b));
    assert_eq!(hash_of(&a), hash_of(a.id()));
}

#[test]
fn price_precision_above_maximum_is_refused() {
    let r = crypto_future(instrument_id("X", "V"), Price { raw: 1, precision: 2 });
    assert!(r.is_ok());
    let r = options_contract(instrument_id("X", "V"), MAX_PRECISION + 1, Price { raw: 1, precision: MAX_PRECISION + 1 }, Quantity::from_integer(1));
    assert_eq!(r.unwrap_err(), InstrumentError::InvalidPricePrecision);
}

#[test]
fn each_precision_error_is_reported() {
    let p = Price::new(1, 2).unwrap();
    let q = Quantity::new(1, 6).unwrap();
    assert_eq!(check_precisions(2, p, 6, q), Ok(()));
    assert_eq!(check_precisions(10, p, 6, q), Err(InstrumentError::InvalidPricePrecision));
    assert_eq!(check_precisions(2, p, 10, q), Err(InstrumentError::InvalidSizePrecision));
    assert_eq!(check_precisions(3, Price::new(1, 3).unwrap(), 6, q), Ok(()));
    assert_eq!(check_precisions(3, p, 6, q), Err(InstrumentError::PriceIncrementPrecisionMismatch));
    assert_eq!(check_precisions(2, p, 5, q), Err(InstrumentError::SizeIncrementPrecisionMismatch));
    assert_eq!(check_precisions(2, Price::new(0, 2).unwrap(), 6, q), Err(InstrumentError::NonPositivePriceIncrement));
    assert_eq!(check_precisions(2, Price::new(-5, 2).unwrap(), 6, q), Err(InstrumentError::NonPositivePriceIncrement));
    assert_eq!(check_precisions(2, p, 6, Quantity::new(0, 6).unwrap()), Err(InstrumentError::NonPositiveSizeIncrement));
}

#[test]
fn options_contract_increment_mismatch_is_refused() {
    let r = options_contract(instrument_id("X", "V"), 2, Price::new(1, 3).unwrap(), Quantity::from_integer(1));
    assert_eq!(r.unwrap_err(), InstrumentError::PriceIncrementPrecisionMismatch);
    let r = options_contract(instrument_id("X", "V"), 2, Price::new(0, 2).unwrap(), Quantity::from_integer(1));
    assert_eq!(r.unwrap_err(), InstrumentError::NonPositivePriceIncrement);
}

#[test]
fn crypto_future_size_increment_mismatch_is_refused() {
    let usd = Currency::new("USD", 2).unwrap();
    let r = CryptoFuture::new(
        instrument_id("X", "V"), Symbol::new("X").unwrap(), usd, usd, usd, 0, 0, 2, 6,
        Price::new(1, 2).unwrap(), Quantity::new(1, 4).unwrap(),
        None, None, None, None, None, None, None, 0, 0,
    );
    assert_eq!(r.unwrap_err(), InstrumentError::SizeIncrementPrecisionMismatch);
}

#[test]
fn instrument_any_dispatches_and_downcasts() {
    let f = InstrumentAny::CryptoFuture(crypto_future_btcusdt());
    let o = InstrumentAny::OptionsContract(options_contract_appl());
    assert_eq!(f.instrument_class(), InstrumentClass::Future);
    assert_eq!(o.instrument_class(), InstrumentClass::Option);
    assert_eq!(f.asset_class(), AssetClass::Cryptocurrency);
    assert_eq!(o.asset_class(), AssetClass::Equity);
    assert_eq!(f.multiplier(), Quantity::from_integer(1));
    assert_eq!(o.multiplier(), Quantity::from_integer(100));
    assert_eq!(f.size_precision(), 6);
    assert_eq!(o.size_precision(), 0);
    assert_eq!(o.size_increment(), Quantity::from_integer(1));
    assert_eq!(f.size_increment(), Quantity::new(1, 6).unwrap());
    assert_eq!(f.price_precision(), 2);
    assert_eq!(o.price_increment(), Price::new(1, 2).unwrap());
    assert_eq!(o.lot_size(), Some(Quantity::from_integer(1)));
    assert_eq!(f.lot_size(), None);
    assert!(!f.is_inverse() && !o.is_inverse());
    assert!(f.base_currency().is_none());
    assert_eq!(f.quote_currency().code(), "USDT");
    assert_eq!(o.settlement_currency().code(), "USD");
    assert_eq!(f.ts_event(), 0);
    assert_eq!(o.ts_init(), 0);
    assert!(f.as_crypto_future().is_some());
    assert!(f.as_options_contract().is_none());
    assert!(o.as_options_contract().is_some());
    assert!(o.as_crypto_future().is_none());
    assert_eq!(o.as_options_contract().unwrap().strike_price, Price::new(15_000, 2).unwrap());
    assert_ne!(f, o);
    assert_eq!(f, f.clone());
    assert_eq!(hash_of(&f), hash_of(f.id()));
}

#[test]
fn value_constructors_check_precision() {
    assert_eq!(Price::new(5, MAX_PRECISION), Some(Price { raw: 5, precision: 9 }));
    assert_eq!(Price::new(5, MAX_PRECISION + 1), None);
    assert_eq!(Quantity::new(5, 10), None);
    assert_eq!(Quantity::unit(), Quantity { raw: 1, precision: 0 });
    assert!(Currency::new("", 2).is_none());
    assert!(Currency::new("USD", 10).is_none());
    assert_eq!(Currency::new("EUR", 2).unwrap().code(), "EUR");
    let m = Money::new(150, Currency::new("USD", 2).unwrap());
    assert_eq!(m.raw, 150);
    assert_eq!(m.currency.code(), "USD");
}
