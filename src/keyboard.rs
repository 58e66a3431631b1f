use vstd::prelude::*;

use crate::keycode::KeyCode;
use crate::layout::{Binding, Macro, MacroTable, MAX_CHORD_KEYS};
use crate::matrix::Snapshot;
use crate::report::{press_slots, release_slots, HidReport};
use crate::sequencer::{
    append_reports, binding_script, chord_script, emits, lemma_macro_playback, lemma_single_key_tap,
};
use crate::tracker::{edges_between, lemma_steady_scans_have_no_edges, Edge, KeyTracker, Transition};

verus! {

/// Slot contents of the reports that one edge emits: a press plays the
/// binding of its position, a release plays nothing.
pub open spec fn edge_script(table: MacroTable, e: Edge) -> Seq<Seq<u8>> {
    if e.transition is Pressed {
        binding_script(table.binding(e.pos))
    } else {
        seq![]
    }
}

/// Slot contents of the reports that `edges` emit, edge after edge.
pub open spec fn edges_script(table: MacroTable, edges: Seq<Edge>) -> Seq<Seq<u8>>
    decreases edges.len(),
{
    if edges.len() == 0 {
        seq![]
    } else {
        edges_script(table, edges.drop_last()) + edge_script(table, edges.last())
    }
}

/// Edges at unbound positions, and releases of any position, emit no
/// report.
pub proof fn lemma_silent_edges(table: MacroTable, edges: Seq<Edge>)
    requires
        forall|i: int|
            0 <= i < edges.len() ==> (#[trigger] edges[i]).transition is Released
                || edges[i].transition is NoChange || table.binding(edges[i].pos) is Unbound,
    ensures
        edges_script(table, edges) == Seq::<Seq<u8>>::empty(),
    decreases edges.len(),
{
    if edges.len() > 0 {
        let front = edges.drop_last();
        assert forall|i: int| 0 <= i < front.len() implies (#[trigger] front[i]).transition is Released
            || front[i].transition is NoChange || table.binding(front[i].pos) is Unbound by {
            assert(front[i] == edges[i]);
        }
        lemma_silent_edges(table, front);
        assert(edges_script(table, edges) =~= Seq::<Seq<u8>>::empty());
    }
}

/// A press of a key bound to one key code emits exactly two reports: the
/// code alone in the first slot, then every slot 0.
pub proof fn lemma_single_key_press(table: MacroTable, e: Edge, k: KeyCode)
    requires
        e.transition is Pressed,
        table.binding(e.pos) == Binding::SingleKey(k),
    ensures
        edge_script(table, e) == seq![
            seq![k.usage(), 0u8, 0u8, 0u8, 0u8, 0u8],
            seq![0u8, 0u8, 0u8, 0u8, 0u8, 0u8],
        ],
{
    lemma_single_key_tap(k);
    assert(edge_script(table, e) =~= seq![
        seq![k.usage(), 0u8, 0u8, 0u8, 0u8, 0u8],
        seq![0u8, 0u8, 0u8, 0u8, 0u8, 0u8],
    ]);
}

/// A press of a key bound to a macro of N chords emits exactly 2N reports:
/// for each chord in declared order, a report holding exactly that chord's
/// keys, then a report holding none. A press report has one non-zero slot
/// per distinct key of its chord.
pub proof fn lemma_macro_press(table: MacroTable, e: Edge, m: Macro)
    requires
        e.transition is Pressed,
        table.binding(e.pos) == Binding::ChordSequence(m),
        forall|i: int|
            0 <= i < m@.len() ==> 1 <= #[trigger] m@[i].len() <= MAX_CHORD_KEYS
                && m@[i].no_duplicates(),
    ensures
        edge_script(table, e).len() == 2 * m@.len(),
        forall|i: int| 0 <= i < m@.len() ==> (#[trigger] m@[i]).to_set().len() == m@[i].len(),
        forall|i: int|
            0 <= i < m@.len() ==> #[trigger] edge_script(table, e)[2 * i] == press_slots(m@[i])
                && edge_script(table, e)[2 * i + 1] == release_slots(),
        forall|i: int, j: int|
            0 <= i < m@.len() && 0 <= j < MAX_CHORD_KEYS ==> (#[trigger] edge_script(table, e)[2
                * i][j] != 0 <==> j < m@[i].len()),
{
    lemma_macro_playback(m@);
    assert(edge_script(table, e) == chord_script(m@));
    assert forall|i: int| 0 <= i < m@.len() implies (#[trigger] m@[i]).to_set().len() == m@[i].len() by {
        m@[i].unique_seq_to_set();
    }
}

/// While no switch changes between two scans (keys held, or left open),
/// the keyboard emits no report, whatever is bound.
pub proof fn lemma_steady_scans_are_silent(table: MacroTable, p: Snapshot, q: Snapshot)
    requires
        p.wf(),
        q.wf(),
        p.same_shape(&q),
        forall|a: int, b: int| 0 <= a < q.cols && 0 <= b < q.rows ==> #[trigger] p.pressed(a, b) == q.pressed(a, b),
    ensures
        edges_script(table, edges_between(p, q)) == Seq::<Seq<u8>>::empty(),
{
    lemma_steady_scans_have_no_edges(p, q);
}

proof fn lemma_emits_concat(a: Seq<HidReport>, s: Seq<Seq<u8>>, b: Seq<HidReport>, t: Seq<Seq<u8>>)
    requires
        emits(a, s),
        emits(b, t),
    ensures
        emits(a + b, s + t),
{
    assert forall|i: int| 0 <= i < (a + b).len() implies #[trigger] (a + b)[i].carries((s + t)[i]) by {
        if i >= a.len() {
            assert(b[i - a.len()].carries(t[i - a.len()]));
        }
    }
}

/// The macro table together with the per-key state of the previous scan.
#[derive(Debug)]
pub struct Keyboard {
    pub table: MacroTable,
    pub tracker: KeyTracker,
}

impl Keyboard {
    pub open spec fn wf(&self) -> bool {
        &&& self.table.wf()
        &&& self.tracker.state.wf()
        &&& self.tracker.state.cols == self.table.cols
        &&& self.tracker.state.rows == self.table.rows
    }

    /// A keyboard with the bindings of `table` and every switch taken to be
    /// open.
    pub fn new(table: MacroTable) -> (r: Keyboard)
        requires
            table.wf(),
        ensures
            r.wf(),
            r.table == table,
            forall|c: int, w: int|
                0 <= c < table.cols && 0 <= w < table.rows ==> !#[trigger] r.tracker.state.pressed(c, w),
    {
        let tracker = KeyTracker::new(table.cols, table.rows);
        Keyboard { table, tracker }
    }

    /// Handles one scan: finds the edges since the previous scan, and
    /// returns the reports that the presses among them emit, in the order
    /// of the edges. The scan becomes the previous scan.
    pub fn step(&mut self, snapshot: Snapshot) -> (r: Vec<HidReport>)
        requires
            old(self).wf(),
            snapshot.wf(),
            snapshot.cols == old(self).table.cols,
            snapshot.rows == old(self).table.rows,
        ensures
            final(self).wf(),
            final(self).table == old(self).table,
            final(self).tracker.state == snapshot,
            emits(r@, edges_script(old(self).table, edges_between(old(self).tracker.state, snapshot))),
    {
        let edges = self.tracker.advance(snapshot);
        let mut out: Vec<HidReport> = Vec::new();
        let mut i: usize = 0;
        while i < edges.len()
            invariant
                self.wf(),
                self.table == old(self).table,
                i <= edges@.len(),
                forall|j: int|
                    0 <= j < edges@.len() ==> (#[trigger] edges@[j]).pos.col < self.table.cols
                        && edges@[j].pos.row < self.table.rows,
                emits(out@, edges_script(self.table, edges@.take(i as int))),
            decreases edges@.len() - i,
        {
            let e = edges[i];
            let ghost before = out@;
            match e.transition {
                Transition::Pressed => {
                    append_reports(self.table.lookup(e.pos), &mut out);
                },
                _ => {},
            }
            proof {
                let added = out@.subrange(before.len() as int, out@.len() as int);
                assert(edges@.take(i as int + 1).drop_last() =~= edges@.take(i as int));
                if e.transition is Pressed {
                    lemma_emits_concat(before, edges_script(self.table, edges@.take(i as int)), added, edge_script(self.table, e));
                    assert(out@ =~= before + added);
                } else {
                    assert(edges_script(self.table, edges@.take(i as int + 1)) =~= edges_script(self.table, edges@.take(i as int)));
                }
            }
            i = i + 1;
        }
        assert(edges@.take(edges@.len() as int) =~= edges@);
        out
    }
}

} // verus!
