//! The ledger: net position per symbol and the append-only list of fills.

use vstd::prelude::*;
use vstd::string::*;
use crate::stamp::{FillStamp, FillStampView};
use crate::text::str_eq;

verus! {

/// Venue tag that every simulated fill carries.
pub const SIM_VENUE: &'static str = "SIM";

/// Record of one simulated execution.
///
/// `price_bits` is the IEEE 754 binary64 bit pattern of the price. `qty`
/// is the quantity as submitted: it is not signed by the side.
#[derive(Debug, PartialEq, Eq)]
pub struct Fill {
    pub ts: String,
    pub cl_ord_id: String,
    pub exec_id: String,
    pub symbol: String,
    pub price_bits: u64,
    pub qty: i64,
    pub venue: String,
}

/// A fill as a mathematical value.
pub struct FillView {
    pub ts: Seq<char>,
    pub cl_ord_id: Seq<char>,
    pub exec_id: Seq<char>,
    pub symbol: Seq<char>,
    pub price_bits: u64,
    pub qty: i64,
    pub venue: Seq<char>,
}

impl FillView {
    /// The part of the fill that does not come from the order.
    pub open spec fn stamp(self) -> FillStampView {
        FillStampView { ts: self.ts, cl_ord_id: self.cl_ord_id, exec_id: self.exec_id }
    }
}

impl View for Fill {
    type V = FillView;

    open spec fn view(&self) -> FillView {
        FillView {
            ts: self.ts@,
            cl_ord_id: self.cl_ord_id@,
            exec_id: self.exec_id@,
            symbol: self.symbol@,
            price_bits: self.price_bits,
            qty: self.qty,
            venue: self.venue@,
        }
    }
}

impl Clone for Fill {
    fn clone(&self) -> (copy: Fill)
        ensures
            copy@ == self@,
    {
        Fill {
            ts: self.ts.clone(),
            cl_ord_id: self.cl_ord_id.clone(),
            exec_id: self.exec_id.clone(),
            symbol: self.symbol.clone(),
            price_bits: self.price_bits,
            qty: self.qty,
            venue: self.venue.clone(),
        }
    }
}

/// Net signed quantity held in one symbol.
#[derive(Debug, PartialEq, Eq)]
pub struct Position {
    pub symbol: String,
    pub qty: i64,
}

/// A position as a mathematical value.
pub struct PositionView {
    pub symbol: Seq<char>,
    pub qty: int,
}

impl View for Position {
    type V = PositionView;

    open spec fn view(&self) -> PositionView {
        PositionView { symbol: self.symbol@, qty: self.qty as int }
    }
}

impl Clone for Position {
    fn clone(&self) -> (copy: Position)
        ensures
            copy@ == self@,
    {
        Position { symbol: self.symbol.clone(), qty: self.qty }
    }
}

/// Whether `side` reads `BUY`, in either case of each letter.
pub open spec fn is_buy(side: Seq<char>) -> bool {
    &&& side.len() == 3
    &&& (side[0] == 'B' || side[0] == 'b')
    &&& (side[1] == 'U' || side[1] == 'u')
    &&& (side[2] == 'Y' || side[2] == 'y')
}

/// Change of the position that an order makes: `qty` for a buy, and
/// `-qty` for every other side. The ledger does not judge the side: a
/// caller that wants only `BUY` and `SELL` checks it first, as the
/// dispatcher does.
pub open spec fn signed_qty(side: Seq<char>, qty: i64) -> int {
    if is_buy(side) {
        qty as int
    } else {
        -(qty as int)
    }
}

/// The fill that an order leaves under a given stamp.
pub open spec fn fill_of(
    symbol: Seq<char>,
    qty: i64,
    price_bits: u64,
    stamp: FillStampView,
) -> FillView {
    FillView {
        ts: stamp.ts,
        cl_ord_id: stamp.cl_ord_id,
        exec_id: stamp.exec_id,
        symbol,
        price_bits,
        qty,
        venue: SIM_VENUE@,
    }
}

/// Whether `v` is a value of `i64`.
pub open spec fn fits_i64(v: int) -> bool {
    i64::MIN <= v <= i64::MAX
}

/// The ledger as a mathematical value: its positions in the order in
/// which their symbols were first traded, and its fills in the order in
/// which they were recorded.
pub struct LedgerView {
    pub positions: Seq<PositionView>,
    pub fills: Seq<FillView>,
}

impl LedgerView {
    /// The ledger with no position and no fill.
    pub open spec fn empty() -> LedgerView {
        LedgerView { positions: Seq::empty(), fills: Seq::empty() }
    }

    /// No symbol is empty and none has two entries.
    pub open spec fn wf(self) -> bool {
        &&& forall|i: int|
            0 <= i < self.positions.len() ==> (#[trigger] self.positions[i]).symbol.len() > 0
        &&& forall|i: int, j: int|
            #![trigger self.positions[i], self.positions[j]]
            0 <= i < j < self.positions.len() ==> self.positions[i].symbol
                != self.positions[j].symbol
    }

    /// Whether `symbol` has an entry, that is, was ever traded.
    pub open spec fn holds(self, symbol: Seq<char>) -> bool {
        exists|i: int|
            0 <= i < self.positions.len() && (#[trigger] self.positions[i]).symbol == symbol
    }

    /// Index of the entry of `symbol`, where it has one.
    pub open spec fn slot(self, symbol: Seq<char>) -> int {
        choose|i: int|
            0 <= i < self.positions.len() && (#[trigger] self.positions[i]).symbol == symbol
    }

    /// Net position in `symbol`; zero where it was never traded.
    pub open spec fn position(self, symbol: Seq<char>) -> int {
        if self.holds(symbol) {
            self.positions[self.slot(symbol)].qty
        } else {
            0
        }
    }

    /// Whether an order can be recorded: the symbol is not empty and
    /// the position it leads to is a value of `i64`.
    pub open spec fn admits(self, symbol: Seq<char>, side: Seq<char>, qty: i64) -> bool {
        &&& symbol.len() > 0
        &&& fits_i64(self.position(symbol) + signed_qty(side, qty))
    }

    /// The ledger after one more order: the entry of `symbol` moves by
    /// the signed quantity, or is made with it at the end of the
    /// positions; `fill` becomes the last fill.
    pub open spec fn record(
        self,
        symbol: Seq<char>,
        side: Seq<char>,
        qty: i64,
        fill: FillView,
    ) -> LedgerView {
        let delta = signed_qty(side, qty);
        LedgerView {
            positions: if self.holds(symbol) {
                let i = self.slot(symbol);
                self.positions.update(i, PositionView { symbol, qty: self.positions[i].qty + delta })
            } else {
                self.positions.push(PositionView { symbol, qty: delta })
            },
            fills: self.fills.push(fill),
        }
    }
}

/// The views of a vector of positions, in order.
pub open spec fn positions_view(v: Seq<Position>) -> Seq<PositionView> {
    v.map_values(|p: Position| p@)
}

/// The views of a vector of fills, in order.
pub open spec fn fills_view(v: Seq<Fill>) -> Seq<FillView> {
    v.map_values(|f: Fill| f@)
}

/// Whether `side` reads `BUY`, in either case of each letter.
pub fn side_is_buy(side: &str) -> (buy: bool)
    ensures
        buy == is_buy(side@),
{
    if side.unicode_len() != 3 {
        return false;
    }
    let b = side.get_char(0);
    let u = side.get_char(1);
    let y = side.get_char(2);
    (b == 'B' || b == 'b') && (u == 'U' || u == 'u') && (y == 'Y' || y == 'y')
}

/// Positions and fills of one simulated broker.
///
/// Every change goes through `&mut self`, so one order is recorded as a
/// whole: no reader sees a position moved without its fill, or a fill
/// without its position. A ledger shared between threads belongs behind
/// a lock that is held for one call.
pub struct Ledger {
    positions: Vec<Position>,
    fills: Vec<Fill>,
}

impl View for Ledger {
    type V = LedgerView;

    closed spec fn view(&self) -> LedgerView {
        LedgerView {
            positions: positions_view(self.positions@),
            fills: fills_view(self.fills@),
        }
    }
}

impl Default for Ledger {
    fn default() -> (ledger: Ledger)
        ensures
            ledger@ == LedgerView::empty(),
            ledger@.wf(),
    {
        Ledger::new()
    }
}

impl Ledger {
    /// A ledger with no position and no fill.
    pub fn new() -> (ledger: Ledger)
        ensures
            ledger@ == LedgerView::empty(),
            ledger@.wf(),
    {
        let ledger = Ledger { positions: Vec::new(), fills: Vec::new() };
        assert(ledger@.positions =~= Seq::empty());
        assert(ledger@.fills =~= Seq::empty());
        ledger
    }

    /// Index of the entry of `symbol`, if it has one.
    fn find(&self, symbol: &str) -> (found: Option<usize>)
        requires
            self@.wf(),
        ensures
            found is Some <==> self@.holds(symbol@),
            found is Some ==> found->0 == self@.slot(symbol@) && found->0 < self.positions.len(),
    {
        let mut i: usize = 0;
        while i < self.positions.len()
            invariant
                i <= self.positions.len(),
                self@.wf(),
                forall|k: int| 0 <= k < i ==> (#[trigger] self@.positions[k]).symbol != symbol@,
            decreases self.positions.len() - i,
        {
            if str_eq(self.positions[i].symbol.as_str(), symbol) {
                assert(self@.positions[i as int].symbol == symbol@);
                return Some(i);
            }
            i += 1;
        }
        None
    }

    /// Net position in `symbol`; zero where it was never traded.
    pub fn position(&self, symbol: &str) -> (qty: i64)
        requires
            self@.wf(),
        ensures
            qty == self@.position(symbol@),
    {
        match self.find(symbol) {
            Some(i) => self.positions[i].qty,
            None => 0,
        }
    }

    /// Whether an order can be recorded: the symbol is not empty and the
    /// position it leads to is a value of `i64`.
    pub fn can_record(&self, symbol: &str, side: &str, qty: i64) -> (ok: bool)
        requires
            self@.wf(),
        ensures
            ok == self@.admits(symbol@, side@, qty),
    {
        if symbol.is_empty() {
            return false;
        }
        let held = self.position(symbol);
        if side_is_buy(side) {
            held.checked_add(qty).is_some()
        } else {
            held.checked_sub(qty).is_some()
        }
    }

    /// Records one order under the given stamp: moves the position of
    /// `symbol` by the signed quantity, appends the fill and returns it.
    pub fn record_fill_with(
        &mut self,
        symbol: &str,
        side: &str,
        qty: i64,
        price_bits: u64,
        stamp: FillStamp,
    ) -> (fill: Fill)
        requires
            old(self)@.wf(),
            old(self)@.admits(symbol@, side@, qty),
        ensures
            fill@ == fill_of(symbol@, qty, price_bits, stamp@),
            final(self)@ == old(self)@.record(symbol@, side@, qty, fill@),
            final(self)@.wf(),
            final(self)@.fills == old(self)@.fills.push(fill@),
            final(self)@.position(symbol@) == old(self)@.position(symbol@) + signed_qty(
                side@,
                qty,
            ),
            forall|other: Seq<char>|
                other != symbol@ ==> final(self)@.position(other) == old(self)@.position(other),
    {
        let ghost made = fill_of(symbol@, qty, price_bits, stamp@);
        let ghost after = self@.record(symbol@, side@, qty, made);
        proof {
            lemma_record(self@, symbol@, side@, qty, made);
        }
        let buy = side_is_buy(side);
        match self.find(symbol) {
            Some(i) => {
                let held = self.positions[i].qty;
                let next = if buy {
                    held + qty
                } else {
                    held - qty
                };
                self.positions[i].qty = next;
                assert(self@.positions =~= after.positions);
            },
            None => {
                let first = if buy {
                    qty
                } else {
                    0 - qty
                };
                self.positions.push(Position { symbol: String::from_str(symbol), qty: first });
                assert(self@.positions =~= after.positions);
            },
        }
        let fill = Fill {
            ts: stamp.ts,
            cl_ord_id: stamp.cl_ord_id,
            exec_id: stamp.exec_id,
            symbol: String::from_str(symbol),
            price_bits,
            qty,
            venue: String::from_str(SIM_VENUE),
        };
        self.fills.push(fill.clone());
        assert(self@.fills =~= after.fills);
        fill
    }

    /// Records one order under a fresh stamp: the current time and two
    /// new identifiers. Apart from those three texts the outcome is that
    /// of `record_fill_with`.
    pub fn record_fill(&mut self, symbol: &str, side: &str, qty: i64, price_bits: u64) -> (fill:
        Fill)
        requires
            old(self)@.wf(),
            old(self)@.admits(symbol@, side@, qty),
        ensures
            fill@ == fill_of(symbol@, qty, price_bits, fill@.stamp()),
            fill@.stamp().is_fresh(),
            final(self)@ == old(self)@.record(symbol@, side@, qty, fill@),
            final(self)@.wf(),
            final(self)@.fills == old(self)@.fills.push(fill@),
            final(self)@.position(symbol@) == old(self)@.position(symbol@) + signed_qty(
                side@,
                qty,
            ),
            forall|other: Seq<char>|
                other != symbol@ ==> final(self)@.position(other) == old(self)@.position(other),
    {
        let stamp = FillStamp::now();
        self.record_fill_with(symbol, side, qty, price_bits, stamp)
    }

    /// Snapshot of every position, in the order in which the symbols
    /// were first traded.
    pub fn list_positions(&self) -> (list: Vec<Position>)
        ensures
            positions_view(list@) == self@.positions,
    {
        let mut list: Vec<Position> = Vec::new();
        let mut i: usize = 0;
        while i < self.positions.len()
            invariant
                i <= self.positions.len(),
                list.len() == i,
                forall|k: int| 0 <= k < i ==> list@[k]@ == self.positions@[k]@,
            decreases self.positions.len() - i,
        {
            list.push(self.positions[i].clone());
            i += 1;
        }
        list
    }

    /// The full fill history, oldest first.
    pub fn list_fills(&self) -> (list: Vec<Fill>)
        ensures
            fills_view(list@) == self@.fills,
    {
        let mut list: Vec<Fill> = Vec::new();
        let mut i: usize = 0;
        while i < self.fills.len()
            invariant
                i <= self.fills.len(),
                list.len() == i,
                forall|k: int| 0 <= k < i ==> list@[k]@ == self.fills@[k]@,
            decreases self.fills.len() - i,
        {
            list.push(self.fills[i].clone());
            i += 1;
        }
        list
    }
}

/// What one order does to a ledger: the result is well formed, the
/// position of the order's symbol moves by the signed quantity, every
/// other position stays, and exactly one fill is appended.
pub proof fn lemma_record(
    ledger: LedgerView,
    symbol: Seq<char>,
    side: Seq<char>,
    qty: i64,
    fill: FillView,
)
    requires
        ledger.wf(),
        symbol.len() > 0,
    ensures
        ledger.record(symbol, side, qty, fill).wf(),
        ledger.record(symbol, side, qty, fill).holds(symbol),
        ledger.record(symbol, side, qty, fill).position(symbol) == ledger.position(symbol)
            + signed_qty(side, qty),
        forall|other: Seq<char>|
            other != symbol ==> ledger.record(symbol, side, qty, fill).position(other)
                == ledger.position(other) && ledger.record(symbol, side, qty, fill).holds(other)
                == ledger.holds(other),
        ledger.record(symbol, side, qty, fill).fills == ledger.fills.push(fill),
        ledger.record(symbol, side, qty, fill).fills.len() == ledger.fills.len() + 1,
{
    let after = ledger.record(symbol, side, qty, fill);
    let at = if ledger.holds(symbol) {
        ledger.slot(symbol)
    } else {
        ledger.positions.len() as int
    };
    assert(after.positions[at].symbol == symbol);
    assert forall|other: Seq<char>| other != symbol implies after.position(other)
        == ledger.position(other) && after.holds(other) == ledger.holds(other) by {
        if ledger.holds(other) {
            assert(after.positions[ledger.slot(other)].symbol == other);
        }
    }
}

} // verus!
