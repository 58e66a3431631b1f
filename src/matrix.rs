use vstd::prelude::*;

use crate::layout::KeyPosition;

verus! {

/// Columns of the keypad's matrix.
pub const COLS: usize = 4;

/// Rows of the keypad's matrix.
pub const ROWS: usize = 4;

/// Microseconds to wait after driving a column line, before the next step
/// of a scan, so that the lines settle.
pub const COLUMN_SETTLE_US: u32 = 10;

/// One step of a matrix scan, for the pin driver to carry out.
#[derive(Clone, Copy, Debug, PartialEq, Eq, Structural)]
pub enum ScanAction {
    /// Drive the line of this column high.
    DriveHigh(usize),
    /// Busy-wait this many microseconds.
    Settle(u32),
    /// Read every row line, in row order, into this column of the snapshot.
    SampleRows(usize),
    /// Drive the line of this column low.
    DriveLow(usize),
}

/// The steps that scan column `c`.
pub open spec fn column_scan(c: usize) -> Seq<ScanAction> {
    seq![
        ScanAction::DriveHigh(c),
        ScanAction::Settle(COLUMN_SETTLE_US),
        ScanAction::SampleRows(c),
        ScanAction::DriveLow(c),
        ScanAction::Settle(COLUMN_SETTLE_US),
    ]
}

/// The steps that scan columns `0..n`, one column after the other.
pub open spec fn scan_script(n: nat) -> Seq<ScanAction>
    decreases n,
{
    if n == 0 {
        seq![]
    } else {
        scan_script((n - 1) as nat) + column_scan((n - 1) as usize)
    }
}

/// The steps of one scan of a matrix of `cols` columns.
pub fn scan_plan(cols: usize) -> (r: Vec<ScanAction>)
    ensures
        r@ == scan_script(cols as nat),
{
    let mut plan: Vec<ScanAction> = Vec::new();
    let mut c: usize = 0;
    while c < cols
        invariant
            c <= cols,
            plan@ == scan_script(c as nat),
        decreases cols - c,
    {
        plan.push(ScanAction::DriveHigh(c));
        plan.push(ScanAction::Settle(COLUMN_SETTLE_US));
        plan.push(ScanAction::SampleRows(c));
        plan.push(ScanAction::DriveLow(c));
        plan.push(ScanAction::Settle(COLUMN_SETTLE_US));
        assert(plan@ =~= scan_script(c as nat) + column_scan(c));
        c = c + 1;
    }
    plan
}

/// Which switches were closed in one scan, indexed `grid[col][row]`.
#[derive(Debug, PartialEq, Eq)]
pub struct Snapshot {
    pub cols: usize,
    pub rows: usize,
    pub grid: Vec<Vec<bool>>,
}

impl Snapshot {
    /// One entry per position of a `cols` by `rows` matrix.
    pub open spec fn wf(&self) -> bool {
        &&& self.grid@.len() == self.cols
        &&& forall|c: int| 0 <= c < self.cols ==> (#[trigger] self.grid@[c])@.len() == self.rows
    }

    /// The switch at column `c`, row `r` was closed.
    pub open spec fn pressed(&self, c: int, r: int) -> bool {
        self.grid@[c]@[r]
    }

    pub open spec fn same_shape(&self, other: &Snapshot) -> bool {
        self.cols == other.cols && self.rows == other.rows
    }

    /// A snapshot with every switch open.
    pub fn new(cols: usize, rows: usize) -> (r: Snapshot)
        ensures
            r.wf(),
            r.cols == cols,
            r.rows == rows,
            forall|c: int, w: int| 0 <= c < cols && 0 <= w < rows ==> !#[trigger] r.pressed(c, w),
    {
        let mut grid: Vec<Vec<bool>> = Vec::new();
        let mut c: usize = 0;
        while c < cols
            invariant
                c <= cols,
                grid@.len() == c,
                forall|i: int| 0 <= i < c ==> (#[trigger] grid@[i])@.len() == rows,
                forall|i: int, j: int| 0 <= i < c && 0 <= j < rows ==> !grid@[i]@[j],
            decreases cols - c,
        {
            let mut column: Vec<bool> = Vec::new();
            let mut r: usize = 0;
            while r < rows
                invariant
                    r <= rows,
                    column@.len() == r,
                    forall|j: int| 0 <= j < r ==> !(#[trigger] column@[j]),
                decreases rows - r,
            {
                column.push(false);
                r = r + 1;
            }
            grid.push(column);
            c = c + 1;
        }
        Snapshot { cols, rows, grid }
    }

    /// Whether the switch at `pos` was closed.
    pub fn get(&self, pos: KeyPosition) -> (r: bool)
        requires
            self.wf(),
            pos.col < self.cols,
            pos.row < self.rows,
        ensures
            r == self.pressed(pos.col as int, pos.row as int),
    {
        self.grid[pos.col][pos.row]
    }

    /// Records the switch at `pos` as closed (`true`) or open.
    pub fn set(&mut self, pos: KeyPosition, closed: bool)
        requires
            old(self).wf(),
            pos.col < old(self).cols,
            pos.row < old(self).rows,
        ensures
            final(self).wf(),
            final(self).same_shape(old(self)),
            final(self).pressed(pos.col as int, pos.row as int) == closed,
            forall|c: int, w: int|
                0 <= c < old(self).cols && 0 <= w < old(self).rows && (c != pos.col || w != pos.row)
                    ==> #[trigger] final(self).pressed(c, w) == old(self).pressed(c, w),
    {
        self.grid[pos.col][pos.row] = closed;
    }

    /// Records the row lines read while column `c` was driven: `samples[r]`
    /// is row `r`.
    pub fn record_column(&mut self, c: usize, samples: &Vec<bool>)
        requires
            old(self).wf(),
            c < old(self).cols,
            samples@.len() == old(self).rows,
        ensures
            final(self).wf(),
            final(self).same_shape(old(self)),
            forall|w: int| 0 <= w < old(self).rows ==> #[trigger] final(self).pressed(c as int, w) == samples@[w],
            forall|i: int, w: int|
                0 <= i < old(self).cols && 0 <= w < old(self).rows && i != c
                    ==> #[trigger] final(self).pressed(i, w) == old(self).pressed(i, w),
    {
        let mut r: usize = 0;
        while r < samples.len()
            invariant
                self.wf(),
                self.same_shape(old(self)),
                c < self.cols,
                samples@.len() == self.rows,
                r <= samples@.len(),
                forall|w: int| 0 <= w < r ==> #[trigger] self.pressed(c as int, w) == samples@[w],
                forall|i: int, w: int|
                    0 <= i < self.cols && 0 <= w < self.rows && (i != c || w >= r)
                        ==> #[trigger] self.pressed(i, w) == old(self).pressed(i, w),
            decreases samples@.len() - r,
        {
            self.set(KeyPosition { col: c, row: r }, samples[r]);
            r = r + 1;
        }
    }
}

} // verus!
