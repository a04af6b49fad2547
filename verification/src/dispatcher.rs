//! The dispatcher: routes a named tool call to the ledger and shapes the
//! reply.

use vstd::prelude::*;
use vstd::string::*;
use crate::ledger::{
    fill_of, fills_view, positions_view, Fill, FillView, Ledger, LedgerView, Position,
    PositionView,
};
use crate::order::{decode_order, InputFault, Payload, PayloadView, SubmitOrderInput, SubmitOrderView};
use crate::stamp::{FillStamp, FillStampView};
use crate::text::str_eq;

verus! {

/// Name of the tool that submits an order.
pub const SUBMIT_ORDER: &'static str = "broker-gateway.submit_order";

/// Name of the tool that lists the positions.
pub const GET_POSITIONS: &'static str = "broker-gateway.get_positions";

/// Name of the tool that lists the fills.
pub const GET_FILLS: &'static str = "broker-gateway.get_fills";

/// Name of the tool that cancels an order.
pub const CANCEL: &'static str = "broker-gateway.cancel";

/// Name of the tool that replaces an order.
pub const REPLACE: &'static str = "broker-gateway.replace";

/// Status of an order that was filled.
pub const STATUS_FILLED: &'static str = "FILLED";

/// Status of a call that the simulation does not support.
pub const STATUS_UNSUPPORTED: &'static str = "UNSUPPORTED_IN_SIM";

/// Bit pattern of the price one hundred as an IEEE 754 binary64 number:
/// the price of an order that names none.
pub const DEFAULT_PRICE_BITS: u64 = 0x4059_0000_0000_0000;

/// The tools that the dispatcher knows.
#[derive(Clone, Copy, Debug, PartialEq, Eq, Structural)]
pub enum Tool {
    SubmitOrder,
    GetPositions,
    GetFills,
    Cancel,
    Replace,
}

/// The tool of a given name. Names are matched letter for letter.
pub open spec fn tool_of(name: Seq<char>) -> Option<Tool> {
    if name == SUBMIT_ORDER@ {
        Some(Tool::SubmitOrder)
    } else if name == GET_POSITIONS@ {
        Some(Tool::GetPositions)
    } else if name == GET_FILLS@ {
        Some(Tool::GetFills)
    } else if name == CANCEL@ {
        Some(Tool::Cancel)
    } else if name == REPLACE@ {
        Some(Tool::Replace)
    } else {
        None
    }
}

/// The tool of a given name, if there is one.
pub fn resolve_tool(name: &str) -> (tool: Option<Tool>)
    ensures
        tool == tool_of(name@),
{
    if str_eq(name, SUBMIT_ORDER) {
        Some(Tool::SubmitOrder)
    } else if str_eq(name, GET_POSITIONS) {
        Some(Tool::GetPositions)
    } else if str_eq(name, GET_FILLS) {
        Some(Tool::GetFills)
    } else if str_eq(name, CANCEL) {
        Some(Tool::Cancel)
    } else if str_eq(name, REPLACE) {
        Some(Tool::Replace)
    } else {
        None
    }
}

/// Why a call was not served.
#[derive(Clone, Copy, Debug, PartialEq, Eq, Structural)]
pub enum GatewayError {
    /// The input of a known tool is missing a field or holds a wrong value.
    InvalidInput(InputFault),
    /// No tool has the given name.
    ToolNotFound,
}

impl GatewayError {
    /// The error in words: `tool_not_found`, or `bad input: ` and the
    /// fault.
    pub open spec fn text(self) -> Seq<char> {
        match self {
            GatewayError::ToolNotFound => "tool_not_found"@,
            GatewayError::InvalidInput(fault) => "bad input: "@ + fault.text(),
        }
    }

    /// The error in words, for the caller.
    pub fn message(&self) -> (words: String)
        ensures
            words@ == self.text(),
    {
        match self {
            GatewayError::ToolNotFound => String::from_str("tool_not_found"),
            GatewayError::InvalidInput(fault) => String::from_str("bad input: ").concat(
                fault.describe().as_str(),
            ),
        }
    }
}

/// Answer to an order that was filled.
#[derive(Debug, PartialEq, Eq)]
pub struct SubmitOrderOutput {
    pub cl_ord_id: String,
    pub status: String,
}

/// Answer to a call that lists the positions.
#[derive(Debug, PartialEq, Eq)]
pub struct PositionsOutput {
    pub positions: Vec<Position>,
}

/// Answer to a call that lists the fills.
#[derive(Debug, PartialEq, Eq)]
pub struct FillsOutput {
    pub fills: Vec<Fill>,
}

/// Answer that holds a status and nothing else.
#[derive(Debug, PartialEq, Eq)]
pub struct StatusOutput {
    pub status: String,
}

/// What a served call returns.
#[derive(Debug, PartialEq, Eq)]
pub enum Response {
    /// The order was filled under this client order identifier.
    Filled(SubmitOrderOutput),
    /// Every position of the ledger.
    Positions(PositionsOutput),
    /// Every fill of the ledger, oldest first.
    Fills(FillsOutput),
    /// The simulation does not support the call.
    Unsupported(StatusOutput),
}

/// A response as a mathematical value.
pub enum ResponseView {
    Filled { cl_ord_id: Seq<char>, status: Seq<char> },
    Positions { positions: Seq<PositionView> },
    Fills { fills: Seq<FillView> },
    Unsupported { status: Seq<char> },
}

impl View for Response {
    type V = ResponseView;

    open spec fn view(&self) -> ResponseView {
        match self {
            Response::Filled(out) => ResponseView::Filled {
                cl_ord_id: out.cl_ord_id@,
                status: out.status@,
            },
            Response::Positions(out) => ResponseView::Positions {
                positions: positions_view(out.positions@),
            },
            Response::Fills(out) => ResponseView::Fills { fills: fills_view(out.fills@) },
            Response::Unsupported(out) => ResponseView::Unsupported { status: out.status@ },
        }
    }
}

/// The answer to an order that was filled under `cl_ord_id`.
pub open spec fn filled(cl_ord_id: Seq<char>) -> ResponseView {
    ResponseView::Filled { cl_ord_id, status: STATUS_FILLED@ }
}

/// The answer to a call that the simulation does not support.
pub open spec fn unsupported() -> ResponseView {
    ResponseView::Unsupported { status: STATUS_UNSUPPORTED@ }
}

/// The view of a reply: that of the response, or the error itself.
pub open spec fn reply_view(reply: Result<Response, GatewayError>) -> Result<
    ResponseView,
    GatewayError,
> {
    match reply {
        Ok(response) => Ok(response@),
        Err(error) => Err(error),
    }
}

/// The price of an order: the one it names, else the default.
pub open spec fn price_or_default(price_bits: Option<u64>) -> u64 {
    match price_bits {
        Some(bits) => bits,
        None => DEFAULT_PRICE_BITS,
    }
}

/// The fill that an order leaves under a given stamp.
pub open spec fn order_fill(order: SubmitOrderView, stamp: FillStampView) -> FillView {
    fill_of(order.symbol, order.qty, price_or_default(order.price_bits), stamp)
}

/// The ledger after an order was filled under a given stamp.
pub open spec fn submit(
    ledger: LedgerView,
    order: SubmitOrderView,
    stamp: FillStampView,
) -> LedgerView {
    ledger.record(order.symbol, order.side, order.qty, order_fill(order, stamp))
}

/// Whether a call carries an order: it names the tool that submits one
/// and its input holds one.
pub open spec fn is_order(tool: Seq<char>, input: PayloadView) -> bool {
    tool_of(tool) == Some(Tool::SubmitOrder) && decode_order(input) is Ok
}

/// Whether a call can be served: the order that it carries, if any,
/// leads to a position that is a value of `i64`.
pub open spec fn can_serve(ledger: LedgerView, tool: Seq<char>, input: PayloadView) -> bool {
    is_order(tool, input) ==> {
        let order = decode_order(input)->Ok_0;
        ledger.admits(order.symbol, order.side, order.qty)
    }
}

/// The ledger after a call. Only a call that carries an order changes
/// it; `stamp` is the stamp of that order's fill.
pub open spec fn ledger_after(
    ledger: LedgerView,
    tool: Seq<char>,
    input: PayloadView,
    stamp: FillStampView,
) -> LedgerView {
    if is_order(tool, input) {
        submit(ledger, decode_order(input)->Ok_0, stamp)
    } else {
        ledger
    }
}

/// The reply to a call; `stamp` is the stamp of the fill of the order
/// that the call carries, if it carries one.
pub open spec fn reply_to(
    ledger: LedgerView,
    tool: Seq<char>,
    input: PayloadView,
    stamp: FillStampView,
) -> Result<ResponseView, GatewayError> {
    match tool_of(tool) {
        None => Err(GatewayError::ToolNotFound),
        Some(Tool::Cancel) => Ok(unsupported()),
        Some(Tool::Replace) => Ok(unsupported()),
        Some(Tool::GetPositions) => Ok(ResponseView::Positions { positions: ledger.positions }),
        Some(Tool::GetFills) => Ok(ResponseView::Fills { fills: ledger.fills }),
        Some(Tool::SubmitOrder) => match decode_order(input) {
            Err(fault) => Err(GatewayError::InvalidInput(fault)),
            Ok(_) => Ok(filled(stamp.cl_ord_id)),
        },
    }
}

/// The stamp of the last fill of a ledger.
pub open spec fn last_stamp(ledger: LedgerView) -> FillStampView {
    ledger.fills.last().stamp()
}

/// Serves tool calls on the ledger that it was given. It keeps no
/// state of its own.
pub struct Dispatcher {
    ledger: Ledger,
}

impl View for Dispatcher {
    type V = LedgerView;

    closed spec fn view(&self) -> LedgerView {
        self.ledger@
    }
}

impl Dispatcher {
    /// A dispatcher that serves calls on `ledger`.
    pub fn new(ledger: Ledger) -> (dispatcher: Dispatcher)
        requires
            ledger@.wf(),
        ensures
            dispatcher@ == ledger@,
    {
        Dispatcher { ledger }
    }

    /// The ledger as it stands.
    pub fn ledger(&self) -> (ledger: &Ledger)
        ensures
            ledger@ == self@,
    {
        &self.ledger
    }

    /// Gives the ledger back.
    pub fn into_ledger(self) -> (ledger: Ledger)
        ensures
            ledger@ == self@,
    {
        self.ledger
    }

    /// Whether `handle` can serve the call: see `can_serve`.
    pub fn can_handle(&self, tool: &str, input: &Payload) -> (ok: bool)
        requires
            self@.wf(),
        ensures
            ok == can_serve(self@, tool@, input@),
    {
        match resolve_tool(tool) {
            Some(Tool::SubmitOrder) => match SubmitOrderInput::decode(input) {
                Ok(order) => self.ledger.can_record(
                    order.symbol.as_str(),
                    order.side.as_str(),
                    order.qty,
                ),
                Err(_) => true,
            },
            _ => true,
        }
    }

    /// Fills an order under the given stamp.
    pub fn submit_order(&mut self, order: &SubmitOrderInput, stamp: FillStamp) -> (response:
        Response)
        requires
            old(self)@.wf(),
            old(self)@.admits(order@.symbol, order@.side, order@.qty),
        ensures
            final(self)@.wf(),
            final(self)@ == submit(old(self)@, order@, stamp@),
            response@ == filled(stamp@.cl_ord_id),
    {
        let price_bits = match order.price_bits {
            Some(bits) => bits,
            None => DEFAULT_PRICE_BITS,
        };
        let fill = self.ledger.record_fill_with(
            order.symbol.as_str(),
            order.side.as_str(),
            order.qty,
            price_bits,
            stamp,
        );
        Response::Filled(
            SubmitOrderOutput {
                cl_ord_id: fill.cl_ord_id,
                status: String::from_str(STATUS_FILLED),
            },
        )
    }

    /// Serves a call of a tool that takes no order.
    fn answer(&self, tool: Tool) -> (response: Response)
        requires
            tool != Tool::SubmitOrder,
        ensures
            response@ == match tool {
                Tool::GetPositions => ResponseView::Positions { positions: self@.positions },
                Tool::GetFills => ResponseView::Fills { fills: self@.fills },
                _ => unsupported(),
            },
    {
        match tool {
            Tool::GetPositions => Response::Positions(
                PositionsOutput { positions: self.ledger.list_positions() },
            ),
            Tool::GetFills => Response::Fills(FillsOutput { fills: self.ledger.list_fills() }),
            _ => Response::Unsupported(
                StatusOutput { status: String::from_str(STATUS_UNSUPPORTED) },
            ),
        }
    }

    /// Serves one call, filling the order that it carries, if any,
    /// under the given stamp.
    pub fn handle_stamped(&mut self, tool: &str, input: &Payload, stamp: FillStamp) -> (reply:
        Result<Response, GatewayError>)
        requires
            old(self)@.wf(),
            can_serve(old(self)@, tool@, input@),
        ensures
            final(self)@.wf(),
            final(self)@ == ledger_after(old(self)@, tool@, input@, stamp@),
            reply_view(reply) == reply_to(old(self)@, tool@, input@, stamp@),
    {
        match resolve_tool(tool) {
            None => Err(GatewayError::ToolNotFound),
            Some(Tool::SubmitOrder) => match SubmitOrderInput::decode(input) {
                Err(fault) => Err(GatewayError::InvalidInput(fault)),
                Ok(order) => Ok(self.submit_order(&order, stamp)),
            },
            Some(other) => Ok(self.answer(other)),
        }
    }

    /// Serves one call. An order is filled at once, under the current
    /// time and fresh identifiers, which the last fill of the ledger
    /// then holds.
    pub fn handle(&mut self, tool: &str, input: &Payload) -> (reply: Result<
        Response,
        GatewayError,
    >)
        requires
            old(self)@.wf(),
            can_serve(old(self)@, tool@, input@),
        ensures
            final(self)@.wf(),
            final(self)@ == ledger_after(
                old(self)@,
                tool@,
                input@,
                last_stamp(final(self)@),
            ),
            reply_view(reply) == reply_to(old(self)@, tool@, input@, last_stamp(final(self)@)),
            is_order(tool@, input@) ==> last_stamp(final(self)@).is_fresh(),
    {
        match resolve_tool(tool) {
            None => Err(GatewayError::ToolNotFound),
            Some(Tool::SubmitOrder) => match SubmitOrderInput::decode(input) {
                Err(fault) => Err(GatewayError::InvalidInput(fault)),
                Ok(order) => Ok(self.submit_order(&order, FillStamp::now())),
            },
            Some(other) => Ok(self.answer(other)),
        }
    }

    /// Serves one call as `handle` does, where it can be served. Where
    /// it cannot, because the order would take a position out of the
    /// range of `i64`, nothing is changed and nothing is returned.
    pub fn try_handle(&mut self, tool: &str, input: &Payload) -> (served: Option<
        Result<Response, GatewayError>,
    >)
        requires
            old(self)@.wf(),
        ensures
            final(self)@.wf(),
            served is Some <==> can_serve(old(self)@, tool@, input@),
            served is None ==> final(self)@ == old(self)@,
            served is Some ==> {
                &&& final(self)@ == ledger_after(
                    old(self)@,
                    tool@,
                    input@,
                    last_stamp(final(self)@),
                )
                &&& reply_view(served->0) == reply_to(
                    old(self)@,
                    tool@,
                    input@,
                    last_stamp(final(self)@),
                )
                &&& is_order(tool@, input@) ==> last_stamp(final(self)@).is_fresh()
            },
    {
        if self.can_handle(tool, input) {
            Some(self.handle(tool, input))
        } else {
            None
        }
    }
}

} // verus!
