//! Validated identifiers. Each holds one interned text; equality, ordering and
//! hashing go by that text.

use vstd::prelude::*;
use crate::correctness::{check_valid_string, is_valid_text, text_error, IdentifierError};
use crate::interned::{ustr_eq, ustr_text};

verus! {

/// A valid order list id, assigned by the system.
#[derive(Clone, Copy, Debug, Hash, PartialOrd, Ord)]
pub struct OrderListId(ustr::Ustr);

impl View for OrderListId {
    type V = Seq<char>;

    closed spec fn view(&self) -> Seq<char> {
        ustr_text(self.0)
    }
}

impl OrderListId {
    /// Creates an order list id from `value`, refusing text that is not valid.
    pub fn new(value: &str) -> (r: Result<Self, IdentifierError>)
        ensures
            r is Ok <==> is_valid_text(value@),
            r matches Ok(id) ==> id@ == value@,
            r is Err ==> r == Err::<Self, IdentifierError>(text_error(value@)),
    {
        match check_valid_string(value) {
            Ok(()) => Ok(OrderListId(ustr::Ustr::from(value))),
            Err(e) => Err(e),
        }
    }

    /// Creates an order list id from text that the caller knows to be valid.
    pub fn from_valid(value: &str) -> (r: Self)
        requires
            is_valid_text(value@),
        ensures
            r@ == value@,
    {
        OrderListId(ustr::Ustr::from(value))
    }

    /// Replaces the id's text, when the same entity is re-indexed.
    pub(crate) fn set_inner(&mut self, value: &str)
        requires
            is_valid_text(value@),
        ensures
            final(self)@ == value@,
    {
        self.0 = ustr::Ustr::from(value);
    }

    /// The interned handle of the id.
    pub fn inner(&self) -> (r: ustr::Ustr)
        ensures
            ustr_text(r) == self@,
    {
        self.0
    }

    /// The id's text.
    pub fn as_str(&self) -> (r: &str)
        ensures
            r@ == self@,
    {
        self.0.as_str()
    }

    /// The id's text as an owned string, as it is displayed.
    pub fn to_string(&self) -> (r: String)
        ensures
            r@ == self@,
    {
        self.0.as_str().to_owned()
    }
}

impl PartialEq for OrderListId {
    fn eq(&self, other: &Self) -> (r: bool) {
        ustr_eq(&self.0, &other.0)
    }
}

impl vstd::std_specs::cmp::PartialEqSpecImpl for OrderListId {
    open spec fn obeys_eq_spec() -> bool {
        true
    }

    open spec fn eq_spec(&self, other: &Self) -> bool {
        self@ == other@
    }
}

impl Eq for OrderListId {}

/// A valid ticker symbol, as the venue writes it.
#[derive(Clone, Copy, Debug, PartialOrd, Ord)]
pub struct Symbol(ustr::Ustr);

impl View for Symbol {
    type V = Seq<char>;

    closed spec fn view(&self) -> Seq<char> {
        ustr_text(self.0)
    }
}

impl Symbol {
    /// Creates a symbol from `value`, refusing text that is not valid.
    pub fn new(value: &str) -> (r: Result<Self, IdentifierError>)
        ensures
            r is Ok <==> is_valid_text(value@),
            r matches Ok(id) ==> id@ == value@,
            r is Err ==> r == Err::<Self, IdentifierError>(text_error(value@)),
    {
        match check_valid_string(value) {
            Ok(()) => Ok(Symbol(ustr::Ustr::from(value))),
            Err(e) => Err(e),
        }
    }

    /// Creates a symbol from text that the caller knows to be valid.
    pub fn from_valid(value: &str) -> (r: Self)
        requires
            is_valid_text(value@),
        ensures
            r@ == value@,
    {
        Symbol(ustr::Ustr::from(value))
    }

    /// The symbol's text.
    pub fn as_str(&self) -> (r: &str)
        ensures
            r@ == self@,
    {
        self.0.as_str()
    }
}

impl PartialEq for Symbol {
    fn eq(&self, other: &Self) -> (r: bool) {
        ustr_eq(&self.0, &other.0)
    }
}

impl vstd::std_specs::cmp::PartialEqSpecImpl for Symbol {
    open spec fn obeys_eq_spec() -> bool {
        true
    }

    open spec fn eq_spec(&self, other: &Self) -> bool {
        self@ == other@
    }
}

impl Eq for Symbol {}

impl core::hash::Hash for Symbol {
    fn hash<H: core::hash::Hasher>(&self, state: &mut H) {
        self.0.hash(state);
    }
}

/// A valid trading venue name.
#[derive(Clone, Copy, Debug, PartialOrd, Ord)]
pub struct Venue(ustr::Ustr);

impl View for Venue {
    type V = Seq<char>;

    closed spec fn view(&self) -> Seq<char> {
        ustr_text(self.0)
    }
}

impl Venue {
    /// Creates a venue from `value`, refusing text that is not valid.
    pub fn new(value: &str) -> (r: Result<Self, IdentifierError>)
        ensures
            r is Ok <==> is_valid_text(value@),
            r matches Ok(id) ==> id@ == value@,
            r is Err ==> r == Err::<Self, IdentifierError>(text_error(value@)),
    {
        match check_valid_string(value) {
            Ok(()) => Ok(Venue(ustr::Ustr::from(value))),
            Err(e) => Err(e),
        }
    }

    /// Creates a venue from text that the caller knows to be valid.
    pub fn from_valid(value: &str) -> (r: Self)
        requires
            is_valid_text(value@),
        ensures
            r@ == value@,
    {
        Venue(ustr::Ustr::from(value))
    }

    /// The venue's text.
    pub fn as_str(&self) -> (r: &str)
        ensures
            r@ == self@,
    {
        self.0.as_str()
    }
}

impl PartialEq for Venue {
    fn eq(&self, other: &Self) -> (r: bool) {
        ustr_eq(&self.0, &other.0)
    }
}

impl vstd::std_specs::cmp::PartialEqSpecImpl for Venue {
    open spec fn obeys_eq_spec() -> bool {
        true
    }

    open spec fn eq_spec(&self, other: &Self) -> bool {
        self@ == other@
    }
}

impl Eq for Venue {}

impl core::hash::Hash for Venue {
    fn hash<H: core::hash::Hasher>(&self, state: &mut H) {
        self.0.hash(state);
    }
}

/// An instrument id: a symbol qualified by its venue.
#[derive(Clone, Copy, Debug, PartialOrd, Ord)]
pub struct InstrumentId {
    pub symbol: Symbol,
    pub venue: Venue,
}

impl View for InstrumentId {
    type V = (Seq<char>, Seq<char>);

    open spec fn view(&self) -> (Seq<char>, Seq<char>) {
        (self.symbol@, self.venue@)
    }
}

impl InstrumentId {
    pub fn new(symbol: Symbol, venue: Venue) -> (r: Self)
        ensures
            r.symbol == symbol,
            r.venue == venue,
    {
        InstrumentId { symbol, venue }
    }
}

impl PartialEq for InstrumentId {
    fn eq(&self, other: &Self) -> (r: bool) {
        self.symbol.eq(&other.symbol) && self.venue.eq(&other.venue)
    }
}

impl vstd::std_specs::cmp::PartialEqSpecImpl for InstrumentId {
    open spec fn obeys_eq_spec() -> bool {
        true
    }

    open spec fn eq_spec(&self, other: &Self) -> bool {
        self@ == other@
    }
}

impl Eq for InstrumentId {}

impl core::hash::Hash for InstrumentId {
    fn hash<H: core::hash::Hasher>(&self, state: &mut H) {
        self.symbol.hash(state);
        self.venue.hash(state);
    }
}

} // verus!
