use vstd::prelude::*;

use crate::layout::KeyPosition;
use crate::matrix::Snapshot;

verus! {

/// How a switch changed between two scans.
#[derive(Clone, Copy, Debug, PartialEq, Eq, Structural)]
pub enum Transition {
    /// Open before, closed now.
    Pressed,
    /// Closed before, open now.
    Released,
    /// The same as before.
    NoChange,
}

pub open spec fn transition_of(before: bool, now: bool) -> Transition {
    if !before && now {
        Transition::Pressed
    } else if before && !now {
        Transition::Released
    } else {
        Transition::NoChange
    }
}

/// Classifies the change of one switch between two scans.
pub fn classify(before: bool, now: bool) -> (r: Transition)
    ensures
        r == transition_of(before, now),
{
    match (before, now) {
        (false, true) => Transition::Pressed,
        (true, false) => Transition::Released,
        _ => Transition::NoChange,
    }
}

/// A press or a release of the switch at `pos`.
#[derive(Clone, Copy, Debug, PartialEq, Eq, Structural)]
pub struct Edge {
    pub pos: KeyPosition,
    pub transition: Transition,
}

/// The edge of the switch at column `c`, row `r`, if it changed.
pub open spec fn edge_at(p: Snapshot, q: Snapshot, c: int, r: int) -> Seq<Edge> {
    let t = transition_of(p.pressed(c, r), q.pressed(c, r));
    if t is NoChange {
        seq![]
    } else {
        seq![Edge { pos: KeyPosition { col: c as usize, row: r as usize }, transition: t }]
    }
}

/// The edges of rows `0..n` of column `c`, in row order.
pub open spec fn column_edges(p: Snapshot, q: Snapshot, c: int, n: int) -> Seq<Edge>
    decreases n,
{
    if n <= 0 {
        seq![]
    } else {
        column_edges(p, q, c, n - 1) + edge_at(p, q, c, n - 1)
    }
}

/// The edges of columns `0..n`, column by column.
pub open spec fn scan_edges(p: Snapshot, q: Snapshot, n: int) -> Seq<Edge>
    decreases n,
{
    if n <= 0 {
        seq![]
    } else {
        scan_edges(p, q, n - 1) + column_edges(p, q, n - 1, q.rows as int)
    }
}

/// Every edge between two scans of the whole matrix, column-major.
pub open spec fn edges_between(p: Snapshot, q: Snapshot) -> Seq<Edge> {
    scan_edges(p, q, q.cols as int)
}

/// Two scans that differ at most at column `c`, row `r`: the edges of the
/// first `n` rows of column `i`.
proof fn lemma_column_edges_one_difference(p: Snapshot, q: Snapshot, c: int, r: int, i: int, n: int)
    requires
        p.wf(),
        q.wf(),
        p.same_shape(&q),
        0 <= i < q.cols,
        0 <= r,
        0 <= n <= q.rows,
        forall|a: int, b: int|
            0 <= a < q.cols && 0 <= b < q.rows && (a != c || b != r) ==> #[trigger] p.pressed(a, b)
                == q.pressed(a, b),
    ensures
        column_edges(p, q, i, n) == (if i == c && r < n {
            edge_at(p, q, c, r)
        } else {
            Seq::<Edge>::empty()
        }),
    decreases n,
{
    if n > 0 {
        lemma_column_edges_one_difference(p, q, c, r, i, n - 1);
        if i == c && r == n - 1 {
            assert(column_edges(p, q, i, n) =~= edge_at(p, q, c, r));
        } else {
            assert(edge_at(p, q, i, n - 1) =~= Seq::<Edge>::empty());
            assert(column_edges(p, q, i, n) =~= column_edges(p, q, i, n - 1));
        }
    }
}

/// Two scans that differ at most at column `c`, row `r`: the edges of the
/// first `n` columns.
proof fn lemma_scan_edges_one_difference(p: Snapshot, q: Snapshot, c: int, r: int, n: int)
    requires
        p.wf(),
        q.wf(),
        p.same_shape(&q),
        0 <= r,
        0 <= n <= q.cols,
        forall|a: int, b: int|
            0 <= a < q.cols && 0 <= b < q.rows && (a != c || b != r) ==> #[trigger] p.pressed(a, b)
                == q.pressed(a, b),
    ensures
        scan_edges(p, q, n) == (if 0 <= c < n && r < q.rows {
            edge_at(p, q, c, r)
        } else {
            Seq::<Edge>::empty()
        }),
    decreases n,
{
    if n > 0 {
        lemma_scan_edges_one_difference(p, q, c, r, n - 1);
        lemma_column_edges_one_difference(p, q, c, r, n - 1, q.rows as int);
        if c == n - 1 && r < q.rows {
            assert(scan_edges(p, q, n) =~= edge_at(p, q, c, r));
        } else {
            assert(scan_edges(p, q, n) =~= scan_edges(p, q, n - 1));
        }
    }
}

/// Two scans that agree on every switch have no edge between them: a held
/// key, or a key left open, is reported once, when it changes, and never
/// again while it stays as it is.
pub proof fn lemma_steady_scans_have_no_edges(p: Snapshot, q: Snapshot)
    requires
        p.wf(),
        q.wf(),
        p.same_shape(&q),
        forall|a: int, b: int| 0 <= a < q.cols && 0 <= b < q.rows ==> #[trigger] p.pressed(a, b) == q.pressed(a, b),
    ensures
        edges_between(p, q) == Seq::<Edge>::empty(),
{
    lemma_scan_edges_one_difference(p, q, -1, 0, q.cols as int);
}

/// Closing the single switch at column `c`, row `r` from an all-open
/// matrix, then opening it again, gives exactly one press and then exactly
/// one release of that position, and no edge anywhere else.
pub proof fn lemma_single_switch_round_trip(idle: Snapshot, held: Snapshot, c: usize, r: usize)
    requires
        idle.wf(),
        held.wf(),
        idle.same_shape(&held),
        c < held.cols,
        r < held.rows,
        forall|a: int, b: int| 0 <= a < idle.cols && 0 <= b < idle.rows ==> !#[trigger] idle.pressed(a, b),
        forall|a: int, b: int|
            0 <= a < held.cols && 0 <= b < held.rows ==> (#[trigger] held.pressed(a, b) <==> (a == c && b
                == r)),
    ensures
        edges_between(idle, held) == seq![
            Edge { pos: KeyPosition { col: c, row: r }, transition: Transition::Pressed },
        ],
        edges_between(held, idle) == seq![
            Edge { pos: KeyPosition { col: c, row: r }, transition: Transition::Released },
        ],
{
    lemma_scan_edges_one_difference(idle, held, c as int, r as int, held.cols as int);
    lemma_scan_edges_one_difference(held, idle, c as int, r as int, held.cols as int);
}

/// Remembers the previous scan and reports what changed in each new one.
#[derive(Debug)]
pub struct KeyTracker {
    pub state: Snapshot,
}

impl KeyTracker {
    /// A tracker that takes every switch to be open.
    pub fn new(cols: usize, rows: usize) -> (r: KeyTracker)
        ensures
            r.state.wf(),
            r.state.cols == cols,
            r.state.rows == rows,
            forall|c: int, w: int| 0 <= c < cols && 0 <= w < rows ==> !#[trigger] r.state.pressed(c, w),
    {
        KeyTracker { state: Snapshot::new(cols, rows) }
    }

    /// Compares `snapshot` with the previous scan, returns every press and
    /// release in column-major order, and keeps `snapshot` as the previous
    /// scan, whatever changed.
    pub fn advance(&mut self, snapshot: Snapshot) -> (r: Vec<Edge>)
        requires
            old(self).state.wf(),
            snapshot.wf(),
            snapshot.same_shape(&old(self).state),
        ensures
            final(self).state == snapshot,
            r@ == edges_between(old(self).state, snapshot),
            forall|i: int|
                0 <= i < r@.len() ==> (#[trigger] r@[i]).pos.col < snapshot.cols && r@[i].pos.row
                    < snapshot.rows && !(r@[i].transition is NoChange),
    {
        let mut edges: Vec<Edge> = Vec::new();
        let mut c: usize = 0;
        while c < snapshot.cols
            invariant
                self.state == old(self).state,
                self.state.wf(),
                snapshot.wf(),
                snapshot.same_shape(&self.state),
                c <= snapshot.cols,
                edges@ == scan_edges(self.state, snapshot, c as int),
                forall|i: int|
                    0 <= i < edges@.len() ==> (#[trigger] edges@[i]).pos.col < snapshot.cols
                        && edges@[i].pos.row < snapshot.rows && !(edges@[i].transition is NoChange),
            decreases snapshot.cols - c,
        {
            let mut r: usize = 0;
            while r < snapshot.rows
                invariant
                    self.state == old(self).state,
                    self.state.wf(),
                    snapshot.wf(),
                    snapshot.same_shape(&self.state),
                    c < snapshot.cols,
                    r <= snapshot.rows,
                    edges@ == scan_edges(self.state, snapshot, c as int) + column_edges(
                        self.state,
                        snapshot,
                        c as int,
                        r as int,
                    ),
                    forall|i: int|
                        0 <= i < edges@.len() ==> (#[trigger] edges@[i]).pos.col < snapshot.cols
                            && edges@[i].pos.row < snapshot.rows && !(edges@[i].transition is NoChange),
                decreases snapshot.rows - r,
            {
                let pos = KeyPosition { col: c, row: r };
                let t = classify(self.state.get(pos), snapshot.get(pos));
                match t {
                    Transition::NoChange => {},
                    _ => {
                        edges.push(Edge { pos, transition: t });
                    },
                }
                assert(edges@ =~= scan_edges(self.state, snapshot, c as int) + column_edges(
                    self.state,
                    snapshot,
                    c as int,
                    r as int + 1,
                ));
                r = r + 1;
            }
            c = c + 1;
        }
        self.state = snapshot;
        edges
    }
}

} // verus!
