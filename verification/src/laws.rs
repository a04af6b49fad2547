//! What holds of every ledger and of every call, proved over the same
//! spec functions that the contracts of the dispatcher use.

use vstd::prelude::*;
use vstd::string::*;
use crate::dispatcher::{
    filled, is_order, ledger_after, order_fill, reply_to, tool_of, unsupported, GatewayError,
    ResponseView, Tool, CANCEL, GET_FILLS, GET_POSITIONS, REPLACE, SUBMIT_ORDER,
};
use crate::ledger::{is_buy, lemma_record, signed_qty, LedgerView};
use crate::order::{
    decode_order, is_known_side, is_sell, required_text, FieldName, FieldView, InputFault,
    PayloadView,
};
use crate::stamp::{is_exec_id, is_order_id, FillStampView};

verus! {

/// Each of the five tool names resolves to its own tool.
pub proof fn law_tool_names()
    ensures
        tool_of(SUBMIT_ORDER@) == Some(Tool::SubmitOrder),
        tool_of(GET_POSITIONS@) == Some(Tool::GetPositions),
        tool_of(GET_FILLS@) == Some(Tool::GetFills),
        tool_of(CANCEL@) == Some(Tool::Cancel),
        tool_of(REPLACE@) == Some(Tool::Replace),
{
    reveal_strlit("broker-gateway.submit_order");
    reveal_strlit("broker-gateway.get_positions");
    reveal_strlit("broker-gateway.get_fills");
    reveal_strlit("broker-gateway.cancel");
    reveal_strlit("broker-gateway.replace");
    assert(SUBMIT_ORDER@.len() == 27);
    assert(GET_POSITIONS@.len() == 28);
    assert(GET_FILLS@.len() == 24);
    assert(CANCEL@.len() == 21);
    assert(REPLACE@.len() == 22);
}

/// The side of an order that was read from an input is a buy or a
/// sell, never both, and its symbol is not empty.
pub proof fn law_decoded_order(input: PayloadView)
    requires
        decode_order(input) is Ok,
    ensures
        decode_order(input)->Ok_0.symbol.len() > 0,
        is_buy(decode_order(input)->Ok_0.side) != is_sell(decode_order(input)->Ok_0.side),
{
}

/// A call that carries an order appends exactly one fill, that of the
/// order, and moves the position of the order's symbol by the quantity:
/// up for a buy, down for a sell. Every other position stays, and the
/// ledger stays well formed.
pub proof fn law_submission(
    ledger: LedgerView,
    tool: Seq<char>,
    input: PayloadView,
    stamp: FillStampView,
)
    requires
        ledger.wf(),
        is_order(tool, input),
    ensures
        ({
            let order = decode_order(input)->Ok_0;
            let after = ledger_after(ledger, tool, input, stamp);
            &&& after.wf()
            &&& after.fills == ledger.fills.push(order_fill(order, stamp))
            &&& after.fills.len() == ledger.fills.len() + 1
            &&& is_buy(order.side) ==> after.position(order.symbol) == ledger.position(
                order.symbol,
            ) + order.qty
            &&& is_sell(order.side) ==> after.position(order.symbol) == ledger.position(
                order.symbol,
            ) - order.qty
            &&& forall|other: Seq<char>|
                other != order.symbol ==> after.position(other) == ledger.position(other)
            &&& reply_to(ledger, tool, input, stamp) == Ok::<ResponseView, GatewayError>(
                filled(stamp.cl_ord_id),
            )
        }),
{
    let order = decode_order(input)->Ok_0;
    lemma_record(ledger, order.symbol, order.side, order.qty, order_fill(order, stamp));
}

/// Submitting is not idempotent: the same order submitted twice leaves
/// two fills and moves the position by twice the quantity, so the
/// ledger after the second call is never the ledger after the first.
pub proof fn law_no_idempotence(
    ledger: LedgerView,
    tool: Seq<char>,
    input: PayloadView,
    first: FillStampView,
    second: FillStampView,
)
    requires
        ledger.wf(),
        is_order(tool, input),
    ensures
        ({
            let order = decode_order(input)->Ok_0;
            let once = ledger_after(ledger, tool, input, first);
            let twice = ledger_after(once, tool, input, second);
            &&& twice.fills == ledger.fills.push(order_fill(order, first)).push(
                order_fill(order, second),
            )
            &&& twice.fills.len() == ledger.fills.len() + 2
            &&& twice.position(order.symbol) == ledger.position(order.symbol) + 2 * signed_qty(
                order.side,
                order.qty,
            )
            &&& twice != once
        }),
{
    let order = decode_order(input)->Ok_0;
    let once = ledger_after(ledger, tool, input, first);
    lemma_record(ledger, order.symbol, order.side, order.qty, order_fill(order, first));
    lemma_record(once, order.symbol, order.side, order.qty, order_fill(order, second));
}

/// One call as a value: the tool's name, the input, and the stamp under
/// which an order that it carries is filled.
pub struct Call {
    pub tool: Seq<char>,
    pub input: PayloadView,
    pub stamp: FillStampView,
}

/// The ledger after a sequence of calls, served one after the other.
pub open spec fn replay(ledger: LedgerView, calls: Seq<Call>) -> LedgerView
    decreases calls.len(),
{
    if calls.len() == 0 {
        ledger
    } else {
        let call = calls.last();
        ledger_after(replay(ledger, calls.drop_last()), call.tool, call.input, call.stamp)
    }
}

/// After a sequence of calls that each carry an order the ledger holds
/// the fills that it held before and then one fill for each call, in
/// the order of the calls. On a ledger without fills their number is
/// the number of calls.
pub proof fn law_fills_follow_submissions(ledger: LedgerView, calls: Seq<Call>)
    requires
        ledger.wf(),
        forall|i: int| 0 <= i < calls.len() ==> is_order(#[trigger] calls[i].tool, calls[i].input),
    ensures
        replay(ledger, calls).wf(),
        replay(ledger, calls).fills.len() == ledger.fills.len() + calls.len(),
        forall|i: int|
            0 <= i < ledger.fills.len() ==> replay(ledger, calls).fills[i] == ledger.fills[i],
        forall|i: int|
            0 <= i < calls.len() ==> #[trigger] replay(ledger, calls).fills[ledger.fills.len() + i]
                == order_fill(decode_order(calls[i].input)->Ok_0, calls[i].stamp),
    decreases calls.len(),
{
    if calls.len() > 0 {
        let call = calls.last();
        let rest = calls.drop_last();
        assert forall|i: int| 0 <= i < rest.len() implies is_order(
            #[trigger] rest[i].tool,
            rest[i].input,
        ) by {
            assert(rest[i] == calls[i]);
        }
        law_fills_follow_submissions(ledger, rest);
        law_submission(replay(ledger, rest), call.tool, call.input, call.stamp);
    }
}

/// An order whose side reads neither `BUY` nor `SELL` is rejected as
/// invalid input, and the ledger stays as it was.
pub proof fn law_unknown_side(
    ledger: LedgerView,
    tool: Seq<char>,
    fields: Seq<FieldView>,
    stamp: FillStampView,
)
    requires
        tool_of(tool) == Some(Tool::SubmitOrder),
        required_text(fields, FieldName::Symbol) is Ok,
        required_text(fields, FieldName::Symbol)->Ok_0.len() > 0,
        required_text(fields, FieldName::Side) is Ok,
        !is_known_side(required_text(fields, FieldName::Side)->Ok_0),
    ensures
        reply_to(ledger, tool, PayloadView::Object(fields), stamp) == Err::<
            ResponseView,
            GatewayError,
        >(GatewayError::InvalidInput(InputFault::UnknownSide)),
        ledger_after(ledger, tool, PayloadView::Object(fields), stamp) == ledger,
{
}

/// No input is an order unless its side reads `BUY` or `SELL`: a call
/// with any other side is answered with an error, and the ledger stays
/// as it was.
pub proof fn law_side_is_validated(
    ledger: LedgerView,
    tool: Seq<char>,
    input: PayloadView,
    stamp: FillStampView,
)
    requires
        tool_of(tool) == Some(Tool::SubmitOrder),
        input matches PayloadView::Object(fields) ==> !(required_text(fields, FieldName::Side)
            matches Ok(side) && is_known_side(side)),
    ensures
        reply_to(ledger, tool, input, stamp) matches Err(GatewayError::InvalidInput(_)),
        ledger_after(ledger, tool, input, stamp) == ledger,
{
}

/// A call of the cancel or the replace tool changes neither positions
/// nor fills, whatever the ledger and the input, and is answered as
/// unsupported.
pub proof fn law_cancel_and_replace(
    ledger: LedgerView,
    tool: Seq<char>,
    input: PayloadView,
    stamp: FillStampView,
)
    requires
        tool == CANCEL@ || tool == REPLACE@,
    ensures
        ledger_after(ledger, tool, input, stamp) == ledger,
        reply_to(ledger, tool, input, stamp) == Ok::<ResponseView, GatewayError>(unsupported()),
{
    law_tool_names();
}

/// A call of a name that is none of the five tool names is answered
/// with `ToolNotFound` and leaves the ledger as it was.
pub proof fn law_unknown_tool(
    ledger: LedgerView,
    tool: Seq<char>,
    input: PayloadView,
    stamp: FillStampView,
)
    requires
        tool != SUBMIT_ORDER@,
        tool != GET_POSITIONS@,
        tool != GET_FILLS@,
        tool != CANCEL@,
        tool != REPLACE@,
    ensures
        ledger_after(ledger, tool, input, stamp) == ledger,
        reply_to(ledger, tool, input, stamp) == Err::<ResponseView, GatewayError>(
            GatewayError::ToolNotFound,
        ),
{
}

/// Only a call that carries an order changes the ledger, and no call
/// takes anything away: the ledger stays well formed, every symbol
/// that had an entry keeps one, and the fills that were there stay
/// where they were.
pub proof fn law_ledger_only_grows(
    ledger: LedgerView,
    tool: Seq<char>,
    input: PayloadView,
    stamp: FillStampView,
)
    requires
        ledger.wf(),
    ensures
        !is_order(tool, input) ==> ledger_after(ledger, tool, input, stamp) == ledger,
        ledger_after(ledger, tool, input, stamp).wf(),
        forall|symbol: Seq<char>|
            ledger.holds(symbol) ==> ledger_after(ledger, tool, input, stamp).holds(symbol),
        ledger.fills.is_prefix_of(ledger_after(ledger, tool, input, stamp).fills),
{
    if is_order(tool, input) {
        let order = decode_order(input)->Ok_0;
        lemma_record(ledger, order.symbol, order.side, order.qty, order_fill(order, stamp));
    }
}

/// In a well-formed ledger each listed entry holds the position of its
/// symbol, and a symbol without an entry has position zero.
pub proof fn law_entries_are_positions(ledger: LedgerView, symbol: Seq<char>)
    requires
        ledger.wf(),
    ensures
        forall|i: int|
            0 <= i < ledger.positions.len() && (#[trigger] ledger.positions[i]).symbol == symbol
                ==> ledger.position(symbol) == ledger.positions[i].qty,
        !ledger.holds(symbol) ==> ledger.position(symbol) == 0,
{
}

/// What a call adds to the position of `symbol`: the signed quantity
/// of the order that it carries, where it carries one in that symbol.
pub open spec fn delta_of(call: Call, symbol: Seq<char>) -> int {
    if is_order(call.tool, call.input) && decode_order(call.input)->Ok_0.symbol == symbol {
        signed_qty(decode_order(call.input)->Ok_0.side, decode_order(call.input)->Ok_0.qty)
    } else {
        0
    }
}

/// What a sequence of calls adds to the position of `symbol`.
pub open spec fn net_of(calls: Seq<Call>, symbol: Seq<char>) -> int
    decreases calls.len(),
{
    if calls.len() == 0 {
        0
    } else {
        net_of(calls.drop_last(), symbol) + delta_of(calls.last(), symbol)
    }
}

/// A position is the sum of the signed quantities of the orders in its
/// symbol: after any sequence of calls it has moved by what the calls
/// add up to, whatever else they were.
pub proof fn law_position_is_net_of_orders(
    ledger: LedgerView,
    calls: Seq<Call>,
    symbol: Seq<char>,
)
    requires
        ledger.wf(),
    ensures
        replay(ledger, calls).wf(),
        replay(ledger, calls).position(symbol) == ledger.position(symbol) + net_of(calls, symbol),
    decreases calls.len(),
{
    if calls.len() > 0 {
        let call = calls.last();
        let before = replay(ledger, calls.drop_last());
        law_position_is_net_of_orders(ledger, calls.drop_last(), symbol);
        if is_order(call.tool, call.input) {
            let order = decode_order(call.input)->Ok_0;
            lemma_record(
                before,
                order.symbol,
                order.side,
                order.qty,
                order_fill(order, call.stamp),
            );
        }
    }
}

/// A client order identifier is never an execution identifier: the two
/// kinds differ in their prefix.
pub proof fn law_id_kinds_differ(order_id: Seq<char>, exec_id: Seq<char>)
    requires
        is_order_id(order_id),
        is_exec_id(exec_id),
    ensures
        order_id != exec_id,
{
    reveal_strlit("clo_");
    reveal_strlit("exe_");
    assert(order_id.subrange(0, 4)[0] == 'c');
    assert(exec_id.subrange(0, 4)[0] == 'e');
}

} // verus!
