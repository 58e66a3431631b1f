use vstd::prelude::*;

use crate::keycode::KeyCode;
use crate::layout::{Binding, KeyPosition, MacroTable, MAX_CHORD_KEYS};
use crate::report::{press_slots, release_slots, HidReport};

verus! {

/// Milliseconds to wait after each report, the USB polling interval, so
/// that the host samples every report before the next one replaces it.
pub const POLL_INTERVAL_MS: u32 = 10;

/// Slot contents of the reports that play `chords`: for each chord in
/// turn, a report holding it, then a report holding nothing.
pub open spec fn chord_script(chords: Seq<Seq<KeyCode>>) -> Seq<Seq<u8>>
    decreases chords.len(),
{
    if chords.len() == 0 {
        seq![]
    } else {
        chord_script(chords.drop_last()) + seq![press_slots(chords.last()), release_slots()]
    }
}

/// Slot contents of the reports that a press of a key bound to `b` emits.
pub open spec fn binding_script(b: Binding) -> Seq<Seq<u8>> {
    match b {
        Binding::Unbound => seq![],
        Binding::SingleKey(k) => seq![press_slots(seq![k]), release_slots()],
        Binding::ChordSequence(m) => chord_script(m@),
    }
}

/// A key with no binding emits no report.
pub proof fn lemma_unbound_is_silent()
    ensures
        binding_script(Binding::Unbound) == Seq::<Seq<u8>>::empty(),
{
}

/// A key bound to one key code emits exactly two reports: one with that
/// code in the first slot and zeros elsewhere, then one with every slot 0.
pub proof fn lemma_single_key_tap(k: KeyCode)
    ensures
        binding_script(Binding::SingleKey(k)).len() == 2,
        binding_script(Binding::SingleKey(k))[0] == seq![k.usage(), 0u8, 0u8, 0u8, 0u8, 0u8],
        binding_script(Binding::SingleKey(k))[1] == seq![0u8, 0u8, 0u8, 0u8, 0u8, 0u8],
        k.usage() != 0,
{
    assert(press_slots(seq![k]) =~= seq![k.usage(), 0u8, 0u8, 0u8, 0u8, 0u8]);
}

/// A macro of N chords plays as exactly 2N reports, alternating press and
/// release, chords in declared order. A press report holds exactly the keys
/// of its own chord (its non-zero slots are that chord's keys and no
/// other), and a release report holds none.
pub proof fn lemma_macro_playback(chords: Seq<Seq<KeyCode>>)
    requires
        forall|i: int| 0 <= i < chords.len() ==> 1 <= #[trigger] chords[i].len() <= MAX_CHORD_KEYS,
    ensures
        chord_script(chords).len() == 2 * chords.len(),
        forall|i: int|
            0 <= i < chords.len() ==> #[trigger] chord_script(chords)[2 * i] == press_slots(chords[i])
                && chord_script(chords)[2 * i + 1] == release_slots(),
        forall|i: int, j: int|
            0 <= i < chords.len() && 0 <= j < MAX_CHORD_KEYS ==> (#[trigger] chord_script(
                chords,
            )[2 * i][j] != 0 <==> j < chords[i].len()),
        forall|i: int, j: int|
            0 <= i < chords.len() && 0 <= j < chords[i].len() ==> #[trigger] chord_script(
                chords,
            )[2 * i][j] == chords[i][j].usage(),
        forall|i: int, j: int|
            0 <= i < chords.len() && 0 <= j < MAX_CHORD_KEYS ==> #[trigger] chord_script(
                chords,
            )[2 * i + 1][j] == 0,
    decreases chords.len(),
{
    if chords.len() > 0 {
        let front = chords.drop_last();
        assert forall|i: int| 0 <= i < front.len() implies 1 <= #[trigger] front[i].len()
            <= MAX_CHORD_KEYS by {
            assert(front[i] == chords[i]);
        }
        lemma_macro_playback(front);
        let s = chord_script(chords);
        let n = chords.len() - 1;
        assert forall|i: int| 0 <= i < chords.len() implies #[trigger] s[2 * i] == press_slots(
            chords[i],
        ) && s[2 * i + 1] == release_slots() by {
            let tail = seq![press_slots(chords.last()), release_slots()];
            assert(s == chord_script(front) + tail);
            if i < n {
                assert(front[i] == chords[i]);
                assert(s[2 * i] == chord_script(front)[2 * i]);
                assert(s[2 * i + 1] == chord_script(front)[2 * i + 1]);
            } else {
                assert(s[2 * i] == tail[0]);
                assert(s[2 * i + 1] == tail[1]);
            }
        }
        assert forall|i: int, j: int| 0 <= i < chords.len() && 0 <= j < MAX_CHORD_KEYS implies (
        #[trigger] s[2 * i][j] != 0 <==> j < chords[i].len()) by {
            assert(s[2 * i] == press_slots(chords[i]));
            if j < chords[i].len() {
                chords[i][j].lemma_usage_nonzero();
            }
        }
        assert forall|i: int, j: int| 0 <= i < chords.len() && 0 <= j < chords[i].len() implies #[trigger] s[2 * i][j]
            == chords[i][j].usage() by {
            assert(s[2 * i] == press_slots(chords[i]));
        }
        assert forall|i: int, j: int| 0 <= i < chords.len() && 0 <= j < MAX_CHORD_KEYS implies #[trigger] s[2 * i + 1][j]
            == 0 by {
            assert(s[2 * i] == press_slots(chords[i]));
            assert(s[2 * i + 1] == release_slots());
        }
    }
}

/// `reports` are, one for one, the reports whose slots `script` gives.
pub open spec fn emits(reports: Seq<HidReport>, script: Seq<Seq<u8>>) -> bool {
    &&& reports.len() == script.len()
    &&& forall|i: int| 0 <= i < reports.len() ==> (#[trigger] reports[i]).carries(script[i])
}

/// Appends to `out` the reports that a press of a key bound to `b` emits.
/// `paced` turns them into the steps that play them to the host.
pub fn append_reports(b: &Binding, out: &mut Vec<HidReport>)
    ensures
        final(out)@.len() == old(out)@.len() + binding_script(*b).len(),
        final(out)@.subrange(0, old(out)@.len() as int) == old(out)@,
        emits(final(out)@.subrange(old(out)@.len() as int, final(out)@.len() as int), binding_script(*b)),
{
    let ghost start = out@.len() as int;
    match b {
        Binding::Unbound => {
            assert(out@.subrange(start, start) =~= Seq::<HidReport>::empty());
        },
        Binding::SingleKey(k) => {
            let keys = vec![*k];
            out.push(HidReport::press(&keys));
            out.push(HidReport::release());
            assert(keys@ =~= seq![*k]);
            assert(out@.subrange(0, start) =~= old(out)@);
        },
        Binding::ChordSequence(m) => {
            let chords = m.chords();
            let mut i: usize = 0;
            while i < chords.len()
                invariant
                    i <= chords@.len(),
                    chords@.map_values(|c: crate::layout::Chord| c@) == m@,
                    forall|j: int|
                        0 <= j < chords@.len() ==> 1 <= #[trigger] chords@[j]@.len()
                            <= MAX_CHORD_KEYS,
                    start == old(out)@.len(),
                    out@.len() == start + chord_script(m@.take(i as int)).len(),
                    out@.subrange(0, start) == old(out)@,
                    emits(out@.subrange(start, out@.len() as int), chord_script(m@.take(i as int))),
                decreases chords@.len() - i,
            {
                let keys = chords[i].keys();
                let ghost before = out@;
                out.push(HidReport::press(keys));
                out.push(HidReport::release());
                proof {
                    let prefix = m@.take(i as int + 1);
                    assert(prefix.drop_last() =~= m@.take(i as int));
                    assert(prefix.last() == keys@);
                    let s = chord_script(m@.take(i as int + 1));
                    let done = out@.subrange(start, out@.len() as int);
                    assert(out@.subrange(0, start) =~= before.subrange(0, start));
                    assert forall|j: int| 0 <= j < done.len() implies #[trigger] done[j].carries(s[j]) by {
                        if j < done.len() - 2 {
                            assert(done[j] == before.subrange(start, before.len() as int)[j]);
                        }
                    }
                }
                i = i + 1;
            }
            assert(m@.take(chords@.len() as int) =~= m@);
        },
    }
}

/// The reports that a press of a key bound to `b` emits, in order.
pub fn reports_for(b: &Binding) -> (r: Vec<HidReport>)
    ensures
        emits(r@, binding_script(*b)),
{
    let mut out: Vec<HidReport> = Vec::new();
    append_reports(b, &mut out);
    assert(out@.subrange(0, out@.len() as int) =~= out@);
    out
}

/// One step of playing reports to the host.
#[derive(Clone, Copy, Debug, PartialEq, Eq)]
pub enum ReportStep {
    /// Push this report to the USB transport.
    Send(HidReport),
    /// Busy-wait this many milliseconds.
    Wait(u32),
}

/// The steps that play `reports` in order, each followed by one polling
/// interval so that the host samples it before the next replaces it.
pub fn paced(reports: &Vec<HidReport>) -> (r: Vec<ReportStep>)
    ensures
        r@.len() == 2 * reports@.len(),
        forall|i: int|
            0 <= i < reports@.len() ==> #[trigger] r@[2 * i] == ReportStep::Send(reports@[i])
                && r@[2 * i + 1] == ReportStep::Wait(POLL_INTERVAL_MS),
{
    let mut steps: Vec<ReportStep> = Vec::new();
    let mut i: usize = 0;
    while i < reports.len()
        invariant
            i <= reports@.len(),
            steps@.len() == 2 * i,
            forall|j: int|
                0 <= j < i ==> #[trigger] steps@[2 * j] == ReportStep::Send(reports@[j])
                    && steps@[2 * j + 1] == ReportStep::Wait(POLL_INTERVAL_MS),
        decreases reports@.len() - i,
    {
        let ghost before = steps@;
        steps.push(ReportStep::Send(reports[i]));
        steps.push(ReportStep::Wait(POLL_INTERVAL_MS));
        assert forall|j: int| 0 <= j < i + 1 implies #[trigger] steps@[2 * j] == ReportStep::Send(
            reports@[j],
        ) && steps@[2 * j + 1] == ReportStep::Wait(POLL_INTERVAL_MS) by {
            if j < i {
                assert(steps@[2 * j] == before[2 * j]);
                assert(steps@[2 * j + 1] == before[2 * j + 1]);
            }
        }
        i = i + 1;
    }
    steps
}

impl MacroTable {
    /// The reports that a press of the key at `pos` emits, in order.
    pub fn reports_at(&self, pos: KeyPosition) -> (r: Vec<HidReport>)
        requires
            self.wf(),
            self.contains(pos),
        ensures
            emits(r@, binding_script(self.binding(pos))),
    {
        reports_for(self.lookup(pos))
    }
}

} // verus!
