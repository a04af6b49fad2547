//! The input of a tool call, and how an order is read from it.

use vstd::prelude::*;
use vstd::string::*;
use crate::ledger::{is_buy, side_is_buy};
use crate::text::str_eq;

verus! {

/// A number of the input. `int` holds it where it is an integer that
/// fits `i64`; `bits` is its IEEE 754 binary64 bit pattern.
#[derive(Clone, Copy, Debug, PartialEq, Eq)]
pub struct Number {
    pub int: Option<i64>,
    pub bits: u64,
}

/// Value of one field of the input. `Nested` stands for a list or an
/// object, whose contents no tool reads.
#[derive(Debug, PartialEq, Eq)]
pub enum FieldValue {
    Null,
    Bool(bool),
    Number(Number),
    Text(String),
    Nested,
}

/// The value of a field as a mathematical value.
pub enum FieldValueView {
    Null,
    Bool(bool),
    Number(Number),
    Text(Seq<char>),
    Nested,
}

impl View for FieldValue {
    type V = FieldValueView;

    open spec fn view(&self) -> FieldValueView {
        match self {
            FieldValue::Null => FieldValueView::Null,
            FieldValue::Bool(b) => FieldValueView::Bool(*b),
            FieldValue::Number(n) => FieldValueView::Number(*n),
            FieldValue::Text(t) => FieldValueView::Text(t@),
            FieldValue::Nested => FieldValueView::Nested,
        }
    }
}

/// One named field of an input object.
#[derive(Debug, PartialEq, Eq)]
pub struct Field {
    pub name: String,
    pub value: FieldValue,
}

/// A field as a mathematical value.
pub struct FieldView {
    pub name: Seq<char>,
    pub value: FieldValueView,
}

impl View for Field {
    type V = FieldView;

    open spec fn view(&self) -> FieldView {
        FieldView { name: self.name@, value: self.value@ }
    }
}

/// The untyped input of a tool call: an object with its fields in
/// order, or anything else.
#[derive(Debug, PartialEq, Eq)]
pub enum Payload {
    Object(Vec<Field>),
    Other,
}

/// An input as a mathematical value.
pub enum PayloadView {
    Object(Seq<FieldView>),
    Other,
}

/// The views of a vector of fields, in order.
pub open spec fn fields_view(v: Seq<Field>) -> Seq<FieldView> {
    v.map_values(|f: Field| f@)
}

impl View for Payload {
    type V = PayloadView;

    open spec fn view(&self) -> PayloadView {
        match self {
            Payload::Object(fields) => PayloadView::Object(fields_view(fields@)),
            Payload::Other => PayloadView::Other,
        }
    }
}

/// Value of the field called `name`. Where the name occurs more than
/// once the last occurrence counts.
pub open spec fn lookup(fields: Seq<FieldView>, name: Seq<char>) -> Option<FieldValueView>
    decreases fields.len(),
{
    if fields.len() == 0 {
        None
    } else if fields.last().name == name {
        Some(fields.last().value)
    } else {
        lookup(fields.drop_last(), name)
    }
}

/// Value of the field called `name`, the last one of that name.
pub fn find_field<'a>(fields: &'a Vec<Field>, name: &str) -> (found: Option<&'a FieldValue>)
    ensures
        match found {
            Some(value) => lookup(fields_view(fields@), name@) == Some(value@),
            None => lookup(fields_view(fields@), name@) is None,
        },
{
    let ghost all = fields_view(fields@);
    let mut i: usize = fields.len();
    assert(all.take(i as int) =~= all);
    while i > 0
        invariant
            i <= fields.len(),
            all == fields_view(fields@),
            lookup(all, name@) == lookup(all.take(i as int), name@),
        decreases i,
    {
        i -= 1;
        assert(all.take(i + 1).drop_last() =~= all.take(i as int));
        if str_eq(fields[i].name.as_str(), name) {
            return Some(&fields[i].value);
        }
    }
    None
}

/// The fields of an order.
#[derive(Clone, Copy, Debug, PartialEq, Eq, Structural)]
pub enum FieldName {
    Symbol,
    Side,
    Qty,
    Price,
    StrategyId,
}

impl FieldName {
    /// The name under which the field stands in the input.
    pub open spec fn text(self) -> Seq<char> {
        match self {
            FieldName::Symbol => "symbol"@,
            FieldName::Side => "side"@,
            FieldName::Qty => "qty"@,
            FieldName::Price => "price"@,
            FieldName::StrategyId => "strategy_id"@,
        }
    }

    /// The name under which the field stands in the input.
    pub fn as_str(&self) -> (name: &'static str)
        ensures
            name@ == self.text(),
    {
        match self {
            FieldName::Symbol => "symbol",
            FieldName::Side => "side",
            FieldName::Qty => "qty",
            FieldName::Price => "price",
            FieldName::StrategyId => "strategy_id",
        }
    }
}

/// Why an input is no order.
#[derive(Clone, Copy, Debug, PartialEq, Eq, Structural)]
pub enum InputFault {
    /// The input is not an object.
    NotAnObject,
    /// A required field is absent.
    MissingField(FieldName),
    /// A field holds a value of the wrong kind.
    WrongType(FieldName),
    /// The symbol is the empty string.
    EmptySymbol,
    /// The side reads neither `BUY` nor `SELL`.
    UnknownSide,
}

impl InputFault {
    /// The fault in words.
    pub open spec fn text(self) -> Seq<char> {
        match self {
            InputFault::NotAnObject => "expected an object"@,
            InputFault::MissingField(name) => "missing field `"@ + name.text() + "`"@,
            InputFault::WrongType(name) => "invalid type for field `"@ + name.text() + "`"@,
            InputFault::EmptySymbol => "symbol must not be empty"@,
            InputFault::UnknownSide => "side must be BUY or SELL"@,
        }
    }

    /// The fault in words.
    pub fn describe(&self) -> (words: String)
        ensures
            words@ == self.text(),
    {
        match self {
            InputFault::NotAnObject => String::from_str("expected an object"),
            InputFault::MissingField(name) => String::from_str("missing field `").concat(
                name.as_str(),
            ).concat("`"),
            InputFault::WrongType(name) => String::from_str("invalid type for field `").concat(
                name.as_str(),
            ).concat("`"),
            InputFault::EmptySymbol => String::from_str("symbol must not be empty"),
            InputFault::UnknownSide => String::from_str("side must be BUY or SELL"),
        }
    }
}

/// Whether `side` reads `SELL`, in either case of each letter.
pub open spec fn is_sell(side: Seq<char>) -> bool {
    &&& side.len() == 4
    &&& (side[0] == 'S' || side[0] == 's')
    &&& (side[1] == 'E' || side[1] == 'e')
    &&& (side[2] == 'L' || side[2] == 'l')
    &&& (side[3] == 'L' || side[3] == 'l')
}

/// Whether `side` names one of the two sides of an order.
pub open spec fn is_known_side(side: Seq<char>) -> bool {
    is_buy(side) || is_sell(side)
}

/// Whether `side` reads `SELL`, in either case of each letter.
pub fn side_is_sell(side: &str) -> (sell: bool)
    ensures
        sell == is_sell(side@),
{
    if side.unicode_len() != 4 {
        return false;
    }
    let s = side.get_char(0);
    let e = side.get_char(1);
    let l = side.get_char(2);
    let m = side.get_char(3);
    (s == 'S' || s == 's') && (e == 'E' || e == 'e') && (l == 'L' || l == 'l') && (m == 'L' || m
        == 'l')
}

/// A required field that must hold text.
pub open spec fn required_text(fields: Seq<FieldView>, name: FieldName) -> Result<
    Seq<char>,
    InputFault,
> {
    match lookup(fields, name.text()) {
        None => Err(InputFault::MissingField(name)),
        Some(FieldValueView::Text(t)) => Ok(t),
        Some(_) => Err(InputFault::WrongType(name)),
    }
}

/// A required field that must hold an integer of `i64`.
pub open spec fn required_int(fields: Seq<FieldView>, name: FieldName) -> Result<i64, InputFault> {
    match lookup(fields, name.text()) {
        None => Err(InputFault::MissingField(name)),
        Some(FieldValueView::Number(n)) => match n.int {
            Some(v) => Ok(v),
            None => Err(InputFault::WrongType(name)),
        },
        Some(_) => Err(InputFault::WrongType(name)),
    }
}

/// A field that may be absent or null, and otherwise must hold a
/// number, of which the bit pattern is taken.
pub open spec fn optional_bits(fields: Seq<FieldView>, name: FieldName) -> Result<
    Option<u64>,
    InputFault,
> {
    match lookup(fields, name.text()) {
        None => Ok(None),
        Some(FieldValueView::Null) => Ok(None),
        Some(FieldValueView::Number(n)) => Ok(Some(n.bits)),
        Some(_) => Err(InputFault::WrongType(name)),
    }
}

/// A field that may be absent or null, and otherwise must hold text.
pub open spec fn optional_text(fields: Seq<FieldView>, name: FieldName) -> Result<
    Option<Seq<char>>,
    InputFault,
> {
    match lookup(fields, name.text()) {
        None => Ok(None),
        Some(FieldValueView::Null) => Ok(None),
        Some(FieldValueView::Text(t)) => Ok(Some(t)),
        Some(_) => Err(InputFault::WrongType(name)),
    }
}

/// An order as a tool call submits it. `price_bits` is the IEEE 754
/// binary64 bit pattern of the price, where one was given.
#[derive(Debug, PartialEq, Eq)]
pub struct SubmitOrderInput {
    pub symbol: String,
    pub side: String,
    pub qty: i64,
    pub price_bits: Option<u64>,
    pub strategy_id: Option<String>,
}

/// An order as a mathematical value.
pub struct SubmitOrderView {
    pub symbol: Seq<char>,
    pub side: Seq<char>,
    pub qty: i64,
    pub price_bits: Option<u64>,
    pub strategy_id: Option<Seq<char>>,
}

impl View for SubmitOrderInput {
    type V = SubmitOrderView;

    open spec fn view(&self) -> SubmitOrderView {
        SubmitOrderView {
            symbol: self.symbol@,
            side: self.side@,
            qty: self.qty,
            price_bits: self.price_bits,
            strategy_id: match self.strategy_id {
                Some(s) => Some(s@),
                None => None,
            },
        }
    }
}

/// The order that an input holds, or the first fault found in it. The
/// fields are read in the order symbol, side, quantity, price, strategy;
/// fields of any other name are passed over.
pub open spec fn decode_order(input: PayloadView) -> Result<SubmitOrderView, InputFault> {
    match input {
        PayloadView::Other => Err(InputFault::NotAnObject),
        PayloadView::Object(fields) => match required_text(fields, FieldName::Symbol) {
            Err(fault) => Err(fault),
            Ok(symbol) => if symbol.len() == 0 {
                Err(InputFault::EmptySymbol)
            } else {
                match required_text(fields, FieldName::Side) {
                    Err(fault) => Err(fault),
                    Ok(side) => if !is_known_side(side) {
                        Err(InputFault::UnknownSide)
                    } else {
                        match required_int(fields, FieldName::Qty) {
                            Err(fault) => Err(fault),
                            Ok(qty) => match optional_bits(fields, FieldName::Price) {
                                Err(fault) => Err(fault),
                                Ok(price_bits) => match optional_text(
                                    fields,
                                    FieldName::StrategyId,
                                ) {
                                    Err(fault) => Err(fault),
                                    Ok(strategy_id) => Ok(
                                        SubmitOrderView {
                                            symbol,
                                            side,
                                            qty,
                                            price_bits,
                                            strategy_id,
                                        },
                                    ),
                                },
                            },
                        }
                    },
                }
            },
        },
    }
}

/// The view of a text that was read, or the fault itself.
spec fn text_read(read: Result<String, InputFault>) -> Result<Seq<char>, InputFault> {
    match read {
        Ok(t) => Ok(t@),
        Err(fault) => Err(fault),
    }
}

/// The view of an optional text that was read, or the fault itself.
spec fn optional_text_read(read: Result<Option<String>, InputFault>) -> Result<
    Option<Seq<char>>,
    InputFault,
> {
    match read {
        Ok(Some(t)) => Ok(Some(t@)),
        Ok(None) => Ok(None),
        Err(fault) => Err(fault),
    }
}

/// Reads a required text field.
fn read_text(fields: &Vec<Field>, name: FieldName) -> (read: Result<String, InputFault>)
    ensures
        text_read(read) == required_text(fields_view(fields@), name),
{
    match find_field(fields, name.as_str()) {
        None => Err(InputFault::MissingField(name)),
        Some(FieldValue::Text(t)) => Ok(t.clone()),
        Some(_) => Err(InputFault::WrongType(name)),
    }
}

/// Reads a required integer field.
fn read_int(fields: &Vec<Field>, name: FieldName) -> (read: Result<i64, InputFault>)
    ensures
        read == required_int(fields_view(fields@), name),
{
    match find_field(fields, name.as_str()) {
        None => Err(InputFault::MissingField(name)),
        Some(FieldValue::Number(n)) => match n.int {
            Some(v) => Ok(v),
            None => Err(InputFault::WrongType(name)),
        },
        Some(_) => Err(InputFault::WrongType(name)),
    }
}

/// Reads an optional numeric field as its bit pattern.
fn read_optional_bits(fields: &Vec<Field>, name: FieldName) -> (read: Result<
    Option<u64>,
    InputFault,
>)
    ensures
        read == optional_bits(fields_view(fields@), name),
{
    match find_field(fields, name.as_str()) {
        None => Ok(None),
        Some(FieldValue::Null) => Ok(None),
        Some(FieldValue::Number(n)) => Ok(Some(n.bits)),
        Some(_) => Err(InputFault::WrongType(name)),
    }
}

/// Reads an optional text field.
fn read_optional_text(fields: &Vec<Field>, name: FieldName) -> (read: Result<
    Option<String>,
    InputFault,
>)
    ensures
        optional_text_read(read) == optional_text(fields_view(fields@), name),
{
    match find_field(fields, name.as_str()) {
        None => Ok(None),
        Some(FieldValue::Null) => Ok(None),
        Some(FieldValue::Text(t)) => Ok(Some(t.clone())),
        Some(_) => Err(InputFault::WrongType(name)),
    }
}

/// The view of a decoded order, or the fault itself.
pub open spec fn decoded_view(decoded: Result<SubmitOrderInput, InputFault>) -> Result<
    SubmitOrderView,
    InputFault,
> {
    match decoded {
        Ok(order) => Ok(order@),
        Err(fault) => Err(fault),
    }
}

impl SubmitOrderInput {
    /// Reads an order from the input of a tool call. It is an order
    /// where the input is an object whose `symbol` is a non-empty text,
    /// whose `side` is a text that reads `BUY` or `SELL` in either case,
    /// whose `qty` is an integer of `i64`, whose `price` is a number,
    /// null or absent, and whose `strategy_id` is a text, null or absent.
    ///
    /// Validation is strict about the side on purpose: the ledger
    /// takes every side that is not a buy for a sell, so a misspelt
    /// side that got this far would move a position the wrong way.
    /// The sign of the quantity and of the price is not looked at.
    pub fn decode(input: &Payload) -> (decoded: Result<SubmitOrderInput, InputFault>)
        ensures
            decoded_view(decoded) == decode_order(input@),
    {
        match input {
            Payload::Other => Err(InputFault::NotAnObject),
            Payload::Object(fields) => {
                let symbol = match read_text(fields, FieldName::Symbol) {
                    Ok(t) => t,
                    Err(fault) => { return Err(fault); },
                };
                if symbol.as_str().is_empty() {
                    return Err(InputFault::EmptySymbol);
                }
                let side = match read_text(fields, FieldName::Side) {
                    Ok(t) => t,
                    Err(fault) => { return Err(fault); },
                };
                if !side_is_buy(side.as_str()) && !side_is_sell(side.as_str()) {
                    return Err(InputFault::UnknownSide);
                }
                let qty = match read_int(fields, FieldName::Qty) {
                    Ok(v) => v,
                    Err(fault) => { return Err(fault); },
                };
                let price_bits = match read_optional_bits(fields, FieldName::Price) {
                    Ok(p) => p,
                    Err(fault) => { return Err(fault); },
                };
                let strategy_id = match read_optional_text(fields, FieldName::StrategyId) {
                    Ok(s) => s,
                    Err(fault) => { return Err(fault); },
                };
                Ok(SubmitOrderInput { symbol, side, qty, price_bits, strategy_id })
            },
        }
    }
}

} // verus!
