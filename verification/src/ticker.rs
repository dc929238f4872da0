use vstd::prelude::*;

use crate::series::Series;
use crate::ticker_row::TickerRow;

verus! {

/// The best-bid prices of a row sequence, in row order.
pub open spec fn bid_price_column(rows: Seq<TickerRow>) -> Seq<i64> {
    rows.map_values(|r: TickerRow| r.bid_price)
}

/// The best-bid quantities of a row sequence, in row order.
pub open spec fn bid_qty_column(rows: Seq<TickerRow>) -> Seq<i64> {
    rows.map_values(|r: TickerRow| r.bid_qty)
}

/// The best-ask prices of a row sequence, in row order.
pub open spec fn ask_price_column(rows: Seq<TickerRow>) -> Seq<i64> {
    rows.map_values(|r: TickerRow| r.ask_price)
}

/// The best-ask quantities of a row sequence, in row order.
pub open spec fn ask_qty_column(rows: Seq<TickerRow>) -> Seq<i64> {
    rows.map_values(|r: TickerRow| r.ask_qty)
}

/// A book-ticker stream: one column per [`TickerRow`] field plus the
/// cache of the rows themselves, mutated as a single unit.
///
/// Viewed as the sequence of its rows; [`Ticker::wf`] says that every
/// column is exactly the matching field mapped over that sequence, so
/// all columns and the cache always have the same length.
#[derive(Debug, Clone)]
pub struct Ticker {
    bid_price: Series<i64>,
    bid_qty: Series<i64>,
    ask_price: Series<i64>,
    ask_qty: Series<i64>,
    rows: Vec<TickerRow>,
}

impl View for Ticker {
    type V = Seq<TickerRow>;

    closed spec fn view(&self) -> Seq<TickerRow> {
        self.rows@
    }
}

impl Ticker {
    /// Well-formed: every owned column is the matching field of the row
    /// cache, so all lengths agree. Established by the constructor and
    /// preserved by every mutation.
    pub closed spec fn wf(&self) -> bool {
        &&& self.bid_price@ == bid_price_column(self@)
        &&& self.bid_qty@ == bid_qty_column(self@)
        &&& self.ask_price@ == ask_price_column(self@)
        &&& self.ask_qty@ == ask_qty_column(self@)
    }

    /// Initializes every column and the row cache from one row.
    pub fn from_row(row: TickerRow) -> (t: Self)
        ensures
            t.wf(),
            t@ == seq![row],
    {
        let mut rows: Vec<TickerRow> = Vec::new();
        rows.push(row);
        let mut bid_price: Vec<i64> = Vec::new();
        bid_price.push(row.bid_price);
        let mut bid_qty: Vec<i64> = Vec::new();
        bid_qty.push(row.bid_qty);
        let mut ask_price: Vec<i64> = Vec::new();
        ask_price.push(row.ask_price);
        let mut ask_qty: Vec<i64> = Vec::new();
        ask_qty.push(row.ask_qty);
        let t = Ticker {
            bid_price: Series::new(bid_price),
            bid_qty: Series::new(bid_qty),
            ask_price: Series::new(ask_price),
            ask_qty: Series::new(ask_qty),
            rows,
        };
        proof {
            assert(t@ =~= seq![row]);
            assert(t.bid_price@ =~= bid_price_column(t@));
            assert(t.bid_qty@ =~= bid_qty_column(t@));
            assert(t.ask_price@ =~= ask_price_column(t@));
            assert(t.ask_qty@ =~= ask_qty_column(t@));
        }
        t
    }

    /// Borrowed read-only access to the row cache.
    pub fn rows(&self) -> (r: &Vec<TickerRow>)
        ensures
            r@ == self@,
    {
        &self.rows
    }

    /// The common length of the owned columns.
    pub fn height(&self) -> (n: usize)
        requires
            self.wf(),
        ensures
            n == self@.len(),
    {
        self.bid_price.length()
    }

    /// The number of cached rows; equals `height()` for a well-formed
    /// aggregate.
    pub fn length(&self) -> (n: usize)
        ensures
            n == self@.len(),
    {
        self.rows.len()
    }

    /// Narrows every owned column and the row cache to the half-open
    /// window `[offset, end)`, as one unit.
    pub fn slice(&mut self, offset: usize, end: usize)
        requires
            old(self).wf(),
            offset <= end,
            end <= old(self)@.len(),
        ensures
            final(self).wf(),
            final(self)@ == old(self)@.subrange(offset as int, end as int),
            final(self)@.len() == end - offset,
    {
        self.bid_price.slice(offset, end);
        self.bid_qty.slice(offset, end);
        self.ask_price.slice(offset, end);
        self.ask_qty.slice(offset, end);
        let mut rows: Vec<TickerRow> = Vec::new();
        let mut i: usize = offset;
        while i < end
            invariant
                offset <= i <= end,
                end <= self.rows.len(),
                self.rows@ == old(self)@,
                rows@ == self.rows@.subrange(offset as int, i as int),
            decreases end - i,
        {
            rows.push(self.rows[i]);
            assert(self.rows@.subrange(offset as int, i + 1 as int) =~= self.rows@.subrange(
                offset as int,
                i as int,
            ).push(self.rows@[i as int]));
            i += 1;
        }
        self.rows = rows;
        proof {
            assert(self.bid_price@ =~= bid_price_column(self@));
            assert(self.bid_qty@ =~= bid_qty_column(self@));
            assert(self.ask_price@ =~= ask_price_column(self@));
            assert(self.ask_qty@ =~= ask_qty_column(self@));
        }
    }

    /// Overwrites position `i` in every owned column (with the row's
    /// matching field) and in the row cache, as one unit; every other
    /// position is unchanged.
    pub fn replace(&mut self, i: usize, row: TickerRow)
        requires
            old(self).wf(),
            i < old(self)@.len(),
        ensures
            final(self).wf(),
            final(self)@ == old(self)@.update(i as int, row),
            final(self)@.len() == old(self)@.len(),
            final(self)@[i as int] == row,
            forall|j: int|
                0 <= j < old(self)@.len() && j != i ==> final(self)@[j] == old(self)@[j],
    {
        self.bid_price.replace(i, row.bid_price);
        self.bid_qty.replace(i, row.bid_qty);
        self.ask_price.replace(i, row.ask_price);
        self.ask_qty.replace(i, row.ask_qty);
        self.rows.set(i, row);
        proof {
            assert(self.bid_price@ =~= bid_price_column(self@));
            assert(self.bid_qty@ =~= bid_qty_column(self@));
            assert(self.ask_price@ =~= ask_price_column(self@));
            assert(self.ask_qty@ =~= ask_qty_column(self@));
        }
    }

    /// Appends the row's fields to every owned column and the row to the
    /// cache, as one unit; the length grows by exactly one.
    pub fn extend(&mut self, row: TickerRow)
        requires
            old(self).wf(),
        ensures
            final(self).wf(),
            final(self)@ == old(self)@.push(row),
            final(self)@.len() == old(self)@.len() + 1,
            final(self)@.last() == row,
    {
        self.bid_price.extend(row.bid_price);
        self.bid_qty.extend(row.bid_qty);
        self.ask_price.extend(row.ask_price);
        self.ask_qty.extend(row.ask_qty);
        self.rows.push(row);
        proof {
            assert(self.bid_price@ =~= bid_price_column(self@));
            assert(self.bid_qty@ =~= bid_qty_column(self@));
            assert(self.ask_price@ =~= ask_price_column(self@));
            assert(self.ask_qty@ =~= ask_qty_column(self@));
        }
    }

    /// Borrowed read-only access to the best-bid price column.
    pub fn bid_price(&self) -> (s: &Series<i64>)
        requires
            self.wf(),
        ensures
            s@ == bid_price_column(self@),
    {
        &self.bid_price
    }

    /// Borrowed read-only access to the best-bid quantity column.
    pub fn bid_qty(&self) -> (s: &Series<i64>)
        requires
            self.wf(),
        ensures
            s@ == bid_qty_column(self@),
    {
        &self.bid_qty
    }

    /// Borrowed read-only access to the best-ask price column.
    pub fn ask_price(&self) -> (s: &Series<i64>)
        requires
            self.wf(),
        ensures
            s@ == ask_price_column(self@),
    {
        &self.ask_price
    }

    /// Borrowed read-only access to the best-ask quantity column.
    pub fn ask_qty(&self) -> (s: &Series<i64>)
        requires
            self.wf(),
        ensures
            s@ == ask_qty_column(self@),
    {
        &self.ask_qty
    }
}

} // verus!
