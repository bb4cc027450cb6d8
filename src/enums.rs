//! Classifications of instruments.

use vstd::prelude::*;

verus! {

/// The broad class of asset that an instrument trades.
#[derive(Clone, Copy, Debug, Hash, PartialEq, Eq, Structural)]
pub enum AssetClass {
    FX,
    Equity,
    Commodity,
    Debt,
    Index,
    Cryptocurrency,
    Alternative,
}

/// The contract shape of an instrument.
#[derive(Clone, Copy, Debug, Hash, PartialEq, Eq, Structural)]
pub enum InstrumentClass {
    Spot,
    Swap,
    Future,
    FutureSpread,
    Forward,
    Cfd,
    Bond,
    Option,
    OptionSpread,
    Warrant,
    SportsBetting,
}

/// Whether an option gives the right to buy or to sell.
#[derive(Clone, Copy, Debug, Hash, PartialEq, Eq, Structural)]
pub enum OptionKind {
    Call,
    Put,
}

} // verus!
