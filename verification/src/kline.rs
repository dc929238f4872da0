use vstd::prelude::*;

use crate::kline_row::KlineRow;
use crate::series::Series;

verus! {

/// The closing prices of a row sequence, in row order.
pub open spec fn close_column(rows: Seq<KlineRow>) -> Seq<i64> {
    rows.map_values(|r: KlineRow| r.close)
}

/// The opening prices of a row sequence, in row order.
pub open spec fn open_column(rows: Seq<KlineRow>) -> Seq<i64> {
    rows.map_values(|r: KlineRow| r.open)
}

/// The highest prices of a row sequence, in row order.
pub open spec fn high_column(rows: Seq<KlineRow>) -> Seq<i64> {
    rows.map_values(|r: KlineRow| r.high)
}

/// The lowest prices of a row sequence, in row order.
pub open spec fn low_column(rows: Seq<KlineRow>) -> Seq<i64> {
    rows.map_values(|r: KlineRow| r.low)
}

/// The volumes of a row sequence, in row order.
pub open spec fn volume_column(rows: Seq<KlineRow>) -> Seq<i64> {
    rows.map_values(|r: KlineRow| r.volume)
}

/// The interval start times of a row sequence, in row order.
pub open spec fn start_time_column(rows: Seq<KlineRow>) -> Seq<i64> {
    rows.map_values(|r: KlineRow| r.start_time)
}

/// The interval end times of a row sequence, in row order.
pub open spec fn end_time_column(rows: Seq<KlineRow>) -> Seq<i64> {
    rows.map_values(|r: KlineRow| r.end_time)
}

/// A trade-bar stream: one column per [`KlineRow`] field plus the cache
/// of the rows themselves, mutated as a single unit.
///
/// Viewed as the sequence of its rows; [`Kline::wf`] says that every
/// column is exactly the matching field mapped over that sequence, so
/// all columns and the cache always have the same length.
#[derive(Debug, Clone)]
pub struct Kline {
    close: Series<i64>,
    open: Series<i64>,
    high: Series<i64>,
    low: Series<i64>,
    volume: Series<i64>,
    start_time: Series<i64>,
    end_time: Series<i64>,
    rows: Vec<KlineRow>,
}

impl View for Kline {
    type V = Seq<KlineRow>;

    closed spec fn view(&self) -> Seq<KlineRow> {
        self.rows@
    }
}

impl Kline {
    /// Well-formed: every owned column is the matching field of the row
    /// cache, so all lengths agree. Established by the constructor and
    /// preserved by every mutation.
    pub closed spec fn wf(&self) -> bool {
        &&& self.close@ == close_column(self@)
        &&& self.open@ == open_column(self@)
        &&& self.high@ == high_column(self@)
        &&& self.low@ == low_column(self@)
        &&& self.volume@ == volume_column(self@)
        &&& self.start_time@ == start_time_column(self@)
        &&& self.end_time@ == end_time_column(self@)
    }

    /// Initializes every column and the row cache from one row.
    pub fn from_row(row: KlineRow) -> (k: Self)
        ensures
            k.wf(),
            k@ == seq![row],
    {
        let mut rows: Vec<KlineRow> = Vec::new();
        rows.push(row);
        let mut close: Vec<i64> = Vec::new();
        close.push(row.close);
        let mut open: Vec<i64> = Vec::new();
        open.push(row.open);
        let mut high: Vec<i64> = Vec::new();
        high.push(row.high);
        let mut low: Vec<i64> = Vec::new();
        low.push(row.low);
        let mut volume: Vec<i64> = Vec::new();
        volume.push(row.volume);
        let mut start_time: Vec<i64> = Vec::new();
        start_time.push(row.start_time);
        let mut end_time: Vec<i64> = Vec::new();
        end_time.push(row.end_time);
        let k = Kline {
            close: Series::new(close),
            open: Series::new(open),
            high: Series::new(high),
            low: Series::new(low),
            volume: Series::new(volume),
            start_time: Series::new(start_time),
            end_time: Series::new(end_time),
            rows,
        };
        proof {
            assert(k@ =~= seq![row]);
            assert(k.close@ =~= close_column(k@));
            assert(k.open@ =~= open_column(k@));
            assert(k.high@ =~= high_column(k@));
            assert(k.low@ =~= low_column(k@));
            assert(k.volume@ =~= volume_column(k@));
            assert(k.start_time@ =~= start_time_column(k@));
            assert(k.end_time@ =~= end_time_column(k@));
        }
        k
    }

    /// Borrowed read-only access to the row cache.
    pub fn rows(&self) -> (r: &Vec<KlineRow>)
        ensures
            r@ == self@,
    {
        &self.rows
    }

    /// The common length of the owned columns.
    pub fn height(&self) -> (n: usize)
        requires
            self.wf(),
        ensures
            n == self@.len(),
    {
        self.start_time.length()
    }

    /// The number of cached rows; equals `height()` for a well-formed
    /// aggregate.
    pub fn length(&self) -> (n: usize)
        ensures
            n == self@.len(),
    {
        self.rows.len()
    }

    /// Narrows every owned column and the row cache to the half-open
    /// window `[offset, end)`, as one unit.
    pub fn slice(&mut self, offset: usize, end: usize)
        requires
            old(self).wf(),
            offset <= end,
            end <= old(self)@.len(),
        ensures
            final(self).wf(),
            final(self)@ == old(self)@.subrange(offset as int, end as int),
            final(self)@.len() == end - offset,
    {
        self.close.slice(offset, end);
        self.open.slice(offset, end);
        self.high.slice(offset, end);
        self.low.slice(offset, end);
        self.volume.slice(offset, end);
        self.start_time.slice(offset, end);
        self.end_time.slice(offset, end);
        let mut rows: Vec<KlineRow> = Vec::new();
        let mut i: usize = offset;
        while i < end
            invariant
                offset <= i <= end,
                end <= self.rows.len(),
                self.rows@ == old(self)@,
                rows@ == self.rows@.subrange(offset as int, i as int),
            decreases end - i,
        {
            rows.push(self.rows[i]);
            assert(self.rows@.subrange(offset as int, i + 1 as int) =~= self.rows@.subrange(
                offset as int,
                i as int,
            ).push(self.rows@[i as int]));
            i += 1;
        }
        self.rows = rows;
        proof {
            assert(self.close@ =~= close_column(self@));
            assert(self.open@ =~= open_column(self@));
            assert(self.high@ =~= high_column(self@));
            assert(self.low@ =~= low_column(self@));
            assert(self.volume@ =~= volume_column(self@));
            assert(self.start_time@ =~= start_time_column(self@));
            assert(self.end_time@ =~= end_time_column(self@));
        }
    }

    /// Overwrites position `i` in every owned column (with the row's
    /// matching field) and in the row cache, as one unit; every other
    /// position is unchanged.
    pub fn replace(&mut self, i: usize, row: KlineRow)
        requires
            old(self).wf(),
            i < old(self)@.len(),
        ensures
            final(self).wf(),
            final(self)@ == old(self)@.update(i as int, row),
            final(self)@.len() == old(self)@.len(),
            final(self)@[i as int] == row,
            forall|j: int|
                0 <= j < old(self)@.len() && j != i ==> final(self)@[j] == old(self)@[j],
    {
        self.close.replace(i, row.close);
        self.open.replace(i, row.open);
        self.high.replace(i, row.high);
        self.low.replace(i, row.low);
        self.volume.replace(i, row.volume);
        self.start_time.replace(i, row.start_time);
        self.end_time.replace(i, row.end_time);
        self.rows.set(i, row);
        proof {
            assert(self.close@ =~= close_column(self@));
            assert(self.open@ =~= open_column(self@));
            assert(self.high@ =~= high_column(self@));
            assert(self.low@ =~= low_column(self@));
            assert(self.volume@ =~= volume_column(self@));
            assert(self.start_time@ =~= start_time_column(self@));
            assert(self.end_time@ =~= end_time_column(self@));
        }
    }

    /// Appends the row's fields to every owned column and the row to the
    /// cache, as one unit; the length grows by exactly one.
    pub fn extend(&mut self, row: KlineRow)
        requires
            old(self).wf(),
        ensures
            final(self).wf(),
            final(self)@ == old(self)@.push(row),
            final(self)@.len() == old(self)@.len() + 1,
            final(self)@.last() == row,
    {
        self.close.extend(row.close);
        self.open.extend(row.open);
        self.high.extend(row.high);
        self.low.extend(row.low);
        self.volume.extend(row.volume);
        self.start_time.extend(row.start_time);
        self.end_time.extend(row.end_time);
        self.rows.push(row);
        proof {
            assert(self.close@ =~= close_column(self@));
            assert(self.open@ =~= open_column(self@));
            assert(self.high@ =~= high_column(self@));
            assert(self.low@ =~= low_column(self@));
            assert(self.volume@ =~= volume_column(self@));
            assert(self.start_time@ =~= start_time_column(self@));
            assert(self.end_time@ =~= end_time_column(self@));
        }
    }

    /// Borrowed read-only access to the closing-price column.
    pub fn close(&self) -> (s: &Series<i64>)
        requires
            self.wf(),
        ensures
            s@ == close_column(self@),
    {
        &self.close
    }

    /// Borrowed read-only access to the opening-price column.
    pub fn open(&self) -> (s: &Series<i64>)
        requires
            self.wf(),
        ensures
            s@ == open_column(self@),
    {
        &self.open
    }

    /// Borrowed read-only access to the highest-price column.
    pub fn high(&self) -> (s: &Series<i64>)
        requires
            self.wf(),
        ensures
            s@ == high_column(self@),
    {
        &self.high
    }

    /// Borrowed read-only access to the lowest-price column.
    pub fn low(&self) -> (s: &Series<i64>)
        requires
            self.wf(),
        ensures
            s@ == low_column(self@),
    {
        &self.low
    }

    /// Borrowed read-only access to the volume column.
    pub fn volume(&self) -> (s: &Series<i64>)
        requires
            self.wf(),
        ensures
            s@ == volume_column(self@),
    {
        &self.volume
    }

    /// Borrowed read-only access to the interval start-time column.
    pub fn start_time(&self) -> (s: &Series<i64>)
        requires
            self.wf(),
        ensures
            s@ == start_time_column(self@),
    {
        &self.start_time
    }

    /// Borrowed read-only access to the interval end-time column.
    pub fn end_time(&self) -> (s: &Series<i64>)
        requires
            self.wf(),
        ensures
            s@ == end_time_column(self@),
    {
        &self.end_time
    }
}

} // verus!
